//! The kinds of process the harness launches, what each one is known by,
//! and the lifecycle that a launched process goes through.

use vstd::prelude::*;

verus! {

/// Name of the file that receives a process's standard output.
pub const STDOUT_LOG: &'static str = "stdout.log";

/// Name of the file that receives a process's standard error.
pub const STDERR_LOG: &'static str = "stderr.log";

/// Name of the log file that lightwalletd writes itself.
pub const LIGHTWALLETD_LOG: &'static str = "lwd.log";

/// Name of the validator's companion control tool.
pub const ZCASH_CLI_BIN: &'static str = "zcash-cli";

/// The marker that every process prints before a fatal startup error.
pub const ERROR_MARKER: &'static str = "Error:";

/// The processes of a local network.
#[derive(Clone, Copy, Debug, PartialEq, Eq, Structural)]
pub enum Process {
    /// The zcashd full node (validator).
    Zcashd,
    /// The zainod indexer.
    Zainod,
    /// The lightwalletd light node.
    Lightwalletd,
}

/// How a launched process is stopped.
#[derive(Clone, Copy, Debug, PartialEq, Eq, Structural)]
pub enum StopAction {
    /// Nothing is left to stop.
    Nothing,
    /// Ask the process to stop through its control tool.
    GracefulViaCli,
    /// Send the process a kill signal.
    Kill,
}

/// What follows an attempt to stop the validator through its control tool.
#[derive(Clone, Copy, Debug, PartialEq, Eq, Structural)]
pub enum StopFollowUp {
    /// The tool ran: wait for the process to exit by itself.
    AwaitExit,
    /// The tool could not be run: kill the process.
    Kill,
}

/// The states of one launched process.
#[derive(Clone, Copy, Debug, PartialEq, Eq, Structural)]
pub enum LaunchState {
    /// Nothing has been spawned yet.
    NotStarted,
    /// The process runs and has not yet shown whether it is ready.
    Spawned,
    /// The process reported that it is ready.
    Ready,
    /// The process failed during launch.
    Failed,
    /// The process was stopped.
    Stopped,
}

impl Process {
    pub open spec fn spec_name(self) -> Seq<char> {
        match self {
            Process::Zcashd => "zcashd"@,
            Process::Zainod => "zainod"@,
            Process::Lightwalletd => "lightwalletd"@,
        }
    }

    pub open spec fn spec_config_filename(self) -> Seq<char> {
        match self {
            Process::Zcashd => "zcash.conf"@,
            Process::Zainod => "zindexer.toml"@,
            Process::Lightwalletd => "lightwalletd.yml"@,
        }
    }

    pub open spec fn spec_success_marker(self) -> Seq<char> {
        match self {
            Process::Zcashd => "init message: Done loading"@,
            Process::Zainod => "Server Ready."@,
            Process::Lightwalletd => "Starting insecure no-TLS (plaintext) server"@,
        }
    }

    pub open spec fn spec_stop_policy(self) -> StopAction {
        match self {
            Process::Zcashd => StopAction::GracefulViaCli,
            _ => StopAction::Kill,
        }
    }

    /// The name shown in diagnostics.
    pub fn name(&self) -> (r: &'static str)
        ensures
            r@ == self.spec_name(),
    {
        match self {
            Process::Zcashd => "zcashd",
            Process::Zainod => "zainod",
            Process::Lightwalletd => "lightwalletd",
        }
    }

    /// The executable looked up on the search path when no path is given:
    /// the process's own name.
    pub fn default_binary(&self) -> (r: &'static str)
        ensures
            r@ == self.spec_name(),
    {
        self.name()
    }

    /// The name of the configuration file written for the process.
    pub fn config_filename(&self) -> (r: &'static str)
        ensures
            r@ == self.spec_config_filename(),
    {
        match self {
            Process::Zcashd => "zcash.conf",
            Process::Zainod => "zindexer.toml",
            Process::Lightwalletd => "lightwalletd.yml",
        }
    }

    /// The text the process prints once it is ready.
    pub fn success_marker(&self) -> (r: &'static str)
        ensures
            r@ == self.spec_success_marker(),
    {
        match self {
            Process::Zcashd => "init message: Done loading",
            Process::Zainod => "Server Ready.",
            Process::Lightwalletd => "Starting insecure no-TLS (plaintext) server",
        }
    }

    /// The text the process prints before a fatal startup error.
    pub fn error_marker(&self) -> (r: &'static str)
        ensures
            r@ == ERROR_MARKER@,
    {
        ERROR_MARKER
    }

    /// The log file, besides standard output, that may show readiness:
    /// only lightwalletd writes one.
    pub fn extra_log(&self) -> (r: Option<&'static str>)
        ensures
            *self == Process::Lightwalletd ==> r is Some && r->0@ == LIGHTWALLETD_LOG@,
            *self != Process::Lightwalletd ==> r is None,
    {
        match self {
            Process::Lightwalletd => Some(LIGHTWALLETD_LOG),
            _ => None,
        }
    }

    /// How a ready process of this kind is stopped: the validator through
    /// its control tool, the others by a kill signal.
    pub fn stop_policy(&self) -> (r: StopAction)
        ensures
            r == self.spec_stop_policy(),
    {
        match self {
            Process::Zcashd => StopAction::GracefulViaCli,
            _ => StopAction::Kill,
        }
    }
}

/// What to do once the control tool was asked to stop the validator.
pub fn graceful_stop_follow_up(cli_ran: bool) -> (r: StopFollowUp)
    ensures
        r == (if cli_ran { StopFollowUp::AwaitExit } else { StopFollowUp::Kill }),
{
    if cli_ran {
        StopFollowUp::AwaitExit
    } else {
        StopFollowUp::Kill
    }
}

} // verus!
