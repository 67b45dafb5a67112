//! The command lines that the processes are started with.

use vstd::prelude::*;

use crate::text::{decimal, decimal_chars};

verus! {

/// The texts of a list of arguments.
pub open spec fn arg_texts(args: Seq<String>) -> Seq<Seq<char>> {
    args.map_values(|a: String| a@)
}

/// The texts of a list of borrowed arguments.
pub open spec fn str_texts(args: Seq<&str>) -> Seq<Seq<char>> {
    args.map_values(|a: &str| a@)
}

fn arg(s: &str) -> (r: String)
    ensures
        r@ == s@,
{
    String::from_str(s)
}

fn joined(a: &str, b: &str) -> (r: String)
    ensures
        r@ == a@ + b@,
{
    let mut s = String::from_str(a);
    s.append(b);
    s
}

/// The arguments of zcashd: print to the console, read the configuration
/// at `config_path`, keep data in `data_dir`, and log debug output.
pub fn zcashd_args(config_path: &str, data_dir: &str) -> (r: Vec<String>)
    ensures
        arg_texts(r@) == seq![
            "--printtoconsole"@,
            "--conf="@ + config_path@,
            "--datadir="@ + data_dir@,
            "-debug=1"@,
        ],
{
    let mut v: Vec<String> = Vec::new();
    v.push(arg("--printtoconsole"));
    v.push(joined("--conf=", config_path));
    v.push(joined("--datadir=", data_dir));
    v.push(arg("-debug=1"));
    assert(arg_texts(v@) =~= seq![
        "--printtoconsole"@,
        "--conf="@ + config_path@,
        "--datadir="@ + data_dir@,
        "-debug=1"@,
    ]);
    v
}

/// The arguments of zainod: read the configuration at `config_path`.
pub fn zainod_args(config_path: &str) -> (r: Vec<String>)
    ensures
        arg_texts(r@) == seq!["--config"@, config_path@],
{
    let mut v: Vec<String> = Vec::new();
    v.push(arg("--config"));
    v.push(arg(config_path));
    assert(arg_texts(v@) =~= seq!["--config"@, config_path@]);
    v
}

/// The arguments of lightwalletd: serve without TLS, keep data in
/// `data_dir`, log to `log_file`, read the validator's configuration at
/// `validator_config` and its own at `config_path`.
pub fn lightwalletd_args(
    data_dir: &str,
    log_file: &str,
    validator_config: &str,
    config_path: &str,
) -> (r: Vec<String>)
    ensures
        arg_texts(r@) == seq![
            "--no-tls-very-insecure"@,
            "--data-dir"@,
            data_dir@,
            "--log-file"@,
            log_file@,
            "--zcash-conf-path"@,
            validator_config@,
            "--config"@,
            config_path@,
        ],
{
    let mut v: Vec<String> = Vec::new();
    v.push(arg("--no-tls-very-insecure"));
    v.push(arg("--data-dir"));
    v.push(arg(data_dir));
    v.push(arg("--log-file"));
    v.push(arg(log_file));
    v.push(arg("--zcash-conf-path"));
    v.push(arg(validator_config));
    v.push(arg("--config"));
    v.push(arg(config_path));
    assert(arg_texts(v@) =~= seq![
        "--no-tls-very-insecure"@,
        "--data-dir"@,
        data_dir@,
        "--log-file"@,
        log_file@,
        "--zcash-conf-path"@,
        validator_config@,
        "--config"@,
        config_path@,
    ]);
    v
}

/// The arguments of the validator's control tool: the validator's
/// configuration at `config_path`, then `args`.
pub fn zcash_cli_args(config_path: &str, args: &[&str]) -> (r: Vec<String>)
    ensures
        arg_texts(r@) == seq!["-conf="@ + config_path@] + str_texts(args@),
{
    let mut v: Vec<String> = Vec::new();
    v.push(joined("-conf=", config_path));
    let mut i: usize = 0;
    while i < args.len()
        invariant
            i <= args@.len(),
            v@.len() == i + 1,
            arg_texts(v@) == seq!["-conf="@ + config_path@] + str_texts(args@.subrange(0, i as int)),
        decreases args@.len() - i,
    {
        let ghost before = v@;
        v.push(arg(args[i]));
        assert(arg_texts(v@) =~= arg_texts(before).push(args@[i as int]@));
        assert(str_texts(args@.subrange(0, i + 1)) =~= str_texts(args@.subrange(0, i as int)).push(
            args@[i as int]@,
        ));
        i = i + 1;
    }
    assert(args@.subrange(0, i as int) =~= args@);
    v
}

/// The control tool's arguments that generate `n` blocks.
pub fn generate_args(n: u32) -> (r: Vec<String>)
    ensures
        arg_texts(r@) == seq!["generate"@, decimal_chars(n as nat)],
{
    let mut v: Vec<String> = Vec::new();
    v.push(arg("generate"));
    v.push(decimal(n as u64));
    assert(arg_texts(v@) =~= seq!["generate"@, decimal_chars(n as nat)]);
    v
}

/// The control tool's argument that stops the validator.
pub fn stop_args() -> (r: Vec<String>)
    ensures
        arg_texts(r@) == seq!["stop"@],
{
    let mut v: Vec<String> = Vec::new();
    v.push(arg("stop"));
    assert(arg_texts(v@) =~= seq!["stop"@]);
    v
}

} // verus!
