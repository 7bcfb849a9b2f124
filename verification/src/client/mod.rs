//! The program that the user runs: its settings, its prompts and its decisions
//! while a connection is made and used.
use vstd::prelude::*;

use crate::messages::{ConnectionError, ConnectionErrorView};

pub mod downloads;
pub mod exit_codes;
pub mod forwarding;
pub mod prompt;
pub mod settings;
pub mod window;

verus! {

/// The exit code that an error leads to.
pub open spec fn exit_code_of(e: ConnectionErrorView) -> u8 {
    match e {
        ConnectionErrorView::AuthenticationFailed(_) => 2,
        ConnectionErrorView::Protocol(_) => 3,
        _ => 1,
    }
}

/// The exit code that an error leads to.
pub fn map_error_to_exit_code(err: &ConnectionError) -> (code: u8)
    ensures
        code == exit_code_of(err@),
{
    match err {
        ConnectionError::AuthenticationFailed(_) => exit_codes::AUTH_ERROR,
        ConnectionError::Protocol(_) => exit_codes::PROTOCOL_ERROR,
        _ => exit_codes::CONNECTION_ERROR,
    }
}

/// No error leads to the exit code of success, and rejected credentials and a
/// broken protocol can be told from other errors and from each other.
pub proof fn law_errors_have_exit_codes(e: ConnectionErrorView)
    ensures
        exit_code_of(e) != exit_codes::SUCCESS,
        exit_code_of(e) == exit_codes::AUTH_ERROR <==> e is AuthenticationFailed,
        exit_code_of(e) == exit_codes::PROTOCOL_ERROR <==> e is Protocol,
{
}

/// Where the filter of the log comes from.
#[derive(Debug, Clone, Copy)]
pub enum LogFilter {
    /// From the environment.
    Environment,
    /// From the directives.
    Directives(&'static str),
}

/// The filter of the log: what the environment says counts first, then whether the
/// user asked for more than warnings.
pub fn log_filter(environment_set: bool, verbose: bool) -> (f: LogFilter)
    ensures
        match f {
            LogFilter::Environment => environment_set,
            LogFilter::Directives(d) => !environment_set && d@ == (if verbose {
                "warn,yard_client=debug,yard_protocol=debug,yard_core=debug,yard_wayland=debug,yard_video=debug,yard_audio=debug"@
            } else {
                "warn"@
            }),
        },
{
    if environment_set {
        LogFilter::Environment
    } else if verbose {
        LogFilter::Directives(
            "warn,yard_client=debug,yard_protocol=debug,yard_core=debug,yard_wayland=debug,yard_video=debug,yard_audio=debug",
        )
    } else {
        LogFilter::Directives("warn")
    }
}

/// The program ends with 2 where the credentials were refused, with 3 where the server
/// said something unexpected, and with 1 for every other error; never with 0.
pub proof fn law_exit_codes_are_numbers(e: ConnectionErrorView)
    ensures
        exit_code_of(e) == 2 <==> e is AuthenticationFailed,
        exit_code_of(e) == 3 <==> e is Protocol,
        exit_code_of(e) == 1 <==> !(e is AuthenticationFailed) && !(e is Protocol),
        exit_codes::SUCCESS == 0 && exit_codes::CONNECTION_ERROR == 1,
        exit_codes::AUTH_ERROR == 2 && exit_codes::PROTOCOL_ERROR == 3,
{
}

} // verus!
