//! The generation orchestrator: decides, per invocation, which request to
//! make and where the fetched body goes.
//!
//! A run is a single path through a small state machine: list mode lists
//! and exits; fetch mode requires a non-empty target set, fetches once,
//! then either prints the body or writes it to a file behind an overwrite
//! guard. The decisions stand here as total functions; the surrounding
//! binary performs the requests and the filesystem access they call for.

use vstd::prelude::*;
use crate::error::Error;
use crate::protocol::{is_success, interpret_fetch_response, join_targets, joined_with_commas};

verus! {

/// One invocation's intent, constructed once by the presentation layer
/// and passed in immutably.
pub struct Config {
    /// Target names, in the order the caller gave them.
    pub targets: Vec<String>,
    /// List the available target names instead of fetching.
    pub list: bool,
    /// Print the fetched body instead of writing a file.
    pub stdout: bool,
    /// Permit overwriting an existing destination file.
    pub force: bool,
}

/// The single request a run makes, if it makes one at all.
pub enum RequestPlan {
    /// Ask the service for the listing of available target names.
    List,
    /// Ask the service for the merged ignore body; carries the names
    /// joined with commas, in the caller's order.
    Fetch { joined: String },
}

/// Where a successfully fetched body goes.
pub enum OutputAction {
    /// Hand the body to the presentation layer unmodified.
    Emit(String),
    /// Write the body to the file at `path`, replacing any prior content.
    Write { path: String, body: String },
}

/// Decides the one request of this run. List mode always lists, ignoring
/// any supplied targets; fetch mode with no targets fails before any
/// request is planned; otherwise the fetch carries the comma-joined names.
pub fn plan_request(config: &Config) -> (r: Result<RequestPlan, Error>)
    ensures
        config.list ==> r == Ok::<RequestPlan, Error>(RequestPlan::List),
        !config.list && config.targets@.len() == 0 ==> r == Err::<RequestPlan, Error>(
            Error::NoTargets,
        ),
        !config.list && config.targets@.len() > 0 ==> (r matches Ok(RequestPlan::Fetch { joined })
            && joined@ == joined_with_commas(config.targets@.map_values(|t: String| t@))),
{
    if config.list {
        Ok(RequestPlan::List)
    } else if config.targets.len() == 0 {
        Err(Error::NoTargets)
    } else {
        Ok(RequestPlan::Fetch { joined: join_targets(&config.targets) })
    }
}

/// Applies the output policy to a fetched body. Stdout mode emits it;
/// file mode refuses to touch an existing destination unless overwriting
/// was forced, and otherwise writes the whole body to the path.
pub fn resolve_output(
    stdout_mode: bool,
    force: bool,
    path: String,
    path_exists: bool,
    body: String,
) -> (r: Result<OutputAction, Error>)
    ensures
        stdout_mode ==> r == Ok::<OutputAction, Error>(OutputAction::Emit(body)),
        !stdout_mode && path_exists && !force ==> r == Err::<OutputAction, Error>(
            Error::FileAlreadyExists { cwd: path },
        ),
        !stdout_mode && (!path_exists || force) ==> r == Ok::<OutputAction, Error>(
            OutputAction::Write { path, body },
        ),
{
    if stdout_mode {
        Ok(OutputAction::Emit(body))
    } else if path_exists && !force {
        Err(Error::FileAlreadyExists { cwd: path })
    } else {
        Ok(OutputAction::Write { path, body })
    }
}

/// The fetch answer arrived: settle the whole rest of the run. A 404
/// fails with the exact joined target string that was requested; any
/// other non-success status is a transport failure; on success the output
/// policy applies. Every failure is an `Err`, so no write action is ever
/// produced for it: the filesystem stays untouched.
pub fn settle_fetched(
    status: u16,
    body: String,
    joined: String,
    detail: String,
    stdout_mode: bool,
    force: bool,
    path: String,
    path_exists: bool,
) -> (r: Result<OutputAction, Error>)
    ensures
        status == 404 ==> r == Err::<OutputAction, Error>(Error::InvalidTarget(joined)),
        !is_success(status) && status != 404 ==> r == Err::<OutputAction, Error>(
            Error::Http { status: Some(status), detail },
        ),
        is_success(status) && stdout_mode ==> r == Ok::<OutputAction, Error>(
            OutputAction::Emit(body),
        ),
        is_success(status) && !stdout_mode && path_exists && !force ==> r == Err::<
            OutputAction,
            Error,
        >(Error::FileAlreadyExists { cwd: path }),
        is_success(status) && !stdout_mode && (!path_exists || force) ==> r == Ok::<
            OutputAction,
            Error,
        >(OutputAction::Write { path, body }),
{
    match interpret_fetch_response(status, body, joined, detail) {
        Ok(fetched) => resolve_output(stdout_mode, force, path, path_exists, fetched),
        Err(e) => Err(e),
    }
}

} // verus!
