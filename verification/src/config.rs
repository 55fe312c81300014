//! The configuration of a run, checked once before the run starts.

use crate::mode::{mode_named, parse_mode, Mode, DRAW_RANGE};
use vstd::prelude::*;

verus! {

/// Why a configuration is refused.
#[derive(Clone, Copy, Debug, PartialEq, Eq, Structural)]
pub enum ConfigError {
    /// The mode is none of `write`, `read` and `mixed`.
    UnknownMode,
    /// The write ratio lies outside `[0, 1]`.
    RatioOutOfRange,
    /// The run does not fit the machine: its number of requests or of
    /// worker threads is beyond what the machine can count.
    RunTooLarge,
}

/// A checked configuration.
#[derive(Clone, Copy, Debug, PartialEq, Eq, Structural)]
pub struct RunPlan {
    /// Number of clients.
    pub clients: usize,
    /// Number of requests of each client.
    pub requests: usize,
    /// Number of requests of the run: clients times requests.
    pub total_requests: usize,
    /// Parties at the start gate: the clients and the controller.
    pub gate_parties: usize,
    /// Threads that carry the clients: two for each client, and at least one.
    pub worker_threads: usize,
    /// Mode of the run.
    pub mode: Mode,
    /// Write ratio scaled to `[0, DRAW_RANGE]`.
    pub threshold: u64,
}

/// Seconds after which a request without a response counts as failed.
pub const REQUEST_TIMEOUT_SECS: u64 = 10u64;

/// Threads for a number of clients: two for each client, and at least one.
pub open spec fn threads_for(clients: nat) -> nat {
    if clients == 0 {
        1
    } else {
        clients * 2
    }
}

/// What checking a configuration gives. The mode is checked first, then the
/// write ratio, then the size of the run.
pub open spec fn checked(clients: usize, requests: usize, mode: Seq<char>, threshold: u64)
    -> Result<RunPlan, ConfigError> {
    match mode_named(mode) {
        None => Err(ConfigError::UnknownMode),
        Some(m) => if threshold > DRAW_RANGE {
            Err(ConfigError::RatioOutOfRange)
        } else if clients * requests > usize::MAX || clients * 2 > usize::MAX {
            Err(ConfigError::RunTooLarge)
        } else {
            Ok(
                RunPlan {
                    clients,
                    requests,
                    total_requests: (clients * requests) as usize,
                    gate_parties: (clients + 1) as usize,
                    worker_threads: threads_for(clients as nat) as usize,
                    mode: m,
                    threshold,
                },
            )
        },
    }
}

/// Number of requests of a run, where it fits the machine.
pub fn total_requests(clients: usize, requests: usize) -> (total: Option<usize>)
    ensures
        total == if clients * requests <= usize::MAX {
            Some((clients * requests) as usize)
        } else {
            None::<usize>
        },
{
    clients.checked_mul(requests)
}

/// Checks a configuration: the mode by its word, the write ratio as a
/// threshold on draws, and the size of the run. A run without clients or
/// without requests is accepted.
pub fn plan_run(clients: usize, requests: usize, mode: &str, threshold: u64) -> (r: Result<
    RunPlan,
    ConfigError,
>)
    ensures
        r == checked(clients, requests, mode@, threshold),
{
    let m = match parse_mode(mode) {
        Some(m) => m,
        None => {
            return Err(ConfigError::UnknownMode);
        },
    };
    if threshold > DRAW_RANGE {
        return Err(ConfigError::RatioOutOfRange);
    }
    let total = match total_requests(clients, requests) {
        Some(total) => total,
        None => {
            return Err(ConfigError::RunTooLarge);
        },
    };
    let worker_threads: usize = match clients.checked_mul(2) {
        Some(0) => 1,
        Some(threads) => threads,
        None => {
            return Err(ConfigError::RunTooLarge);
        },
    };
    Ok(
        RunPlan {
            clients,
            requests,
            total_requests: total,
            gate_parties: clients + 1,
            worker_threads,
            mode: m,
            threshold,
        },
    )
}

} // verus!
