//! Settings of the local network, and the addresses its services listen on.

use vstd::prelude::*;

use crate::text::{decimal, decimal_chars};

verus! {

/// The scheme and address of the local host.
pub const LOCALHOST_IPV4: &'static str = "http://127.0.0.1";

/// Block heights at which the network upgrades activate on the local
/// network.
#[derive(Clone, Copy, Debug, PartialEq, Eq, Structural)]
pub struct ActivationHeights {
    /// Overwinter activation height.
    pub overwinter: u32,
    /// Sapling activation height.
    pub sapling: u32,
    /// Blossom activation height.
    pub blossom: u32,
    /// Heartwood activation height.
    pub heartwood: u32,
    /// Canopy activation height.
    pub canopy: u32,
    /// NU5 (Orchard) activation height.
    pub nu5: u32,
}

impl Default for ActivationHeights {
    /// Every upgrade active from block 1.
    fn default() -> (r: ActivationHeights)
        ensures
            r.overwinter == 1,
            r.sapling == 1,
            r.blossom == 1,
            r.heartwood == 1,
            r.canopy == 1,
            r.nu5 == 1,
    {
        ActivationHeights {
            overwinter: 1,
            sapling: 1,
            blossom: 1,
            heartwood: 1,
            canopy: 1,
            nu5: 1,
        }
    }
}

#[verifier::external_type_specification]
#[verifier::external_body]
pub struct ExUri(http::Uri);

#[verifier::external_type_specification]
#[verifier::external_body]
pub struct ExInvalidUri(http::uri::InvalidUri);

/// The text is not a valid URI.
#[derive(Clone, Copy, Debug, PartialEq, Eq, Structural)]
pub struct UriError;

/// Relies on `http::Uri::try_from(String)`: parses the text as a URI.
#[verifier::external_body]
fn parse_uri(text: String) -> (r: Result<http::Uri, http::uri::InvalidUri>) {
    http::Uri::try_from(text)
}

/// The text of the local host's address with `port`.
pub open spec fn localhost_text(port: u16) -> Seq<char> {
    LOCALHOST_IPV4@ + ":"@ + decimal_chars(port as nat)
}

/// The local host's address with `port`, as text: `http://127.0.0.1:<port>`.
pub fn localhost_uri_text(port: u16) -> (r: String)
    ensures
        r@ == localhost_text(port),
{
    let mut s = String::from_str(LOCALHOST_IPV4);
    s.append(":");
    let digits = decimal(port as u64);
    s.append(digits.as_str());
    s
}

/// Constructs a URI with the local host's IPv4 address and `port`, parsed
/// from the text that `localhost_uri_text` gives.
pub fn localhost_uri(port: u16) -> (r: Result<http::Uri, UriError>)
    ensures
        r is Err ==> r->Err_0 == UriError,
{
    match parse_uri(localhost_uri_text(port)) {
        Ok(uri) => Ok(uri),
        Err(_) => Err(UriError),
    }
}

} // verus!
