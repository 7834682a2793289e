//! The daemon's constants, and what a change of the configuration file
//! asks for.

use crate::types::Request;
use vstd::prelude::*;

verus! {

/// The name under which the daemon keeps its configuration.
pub const APP_NAME: &'static str = "sleepwatcher-rs";

/// The name of the user script.
pub const CONFIG_FILE_NAME: &'static str = "idle_config.lua";

/// The length of the inhibitor's hold window, in seconds.
pub const TIMEOUT_SEC: u64 = 5;

/// The request that a file-watch event results in: a reset for a
/// modification of a file, nothing for anything else or for a directory.
pub open spec fn request_for_change(modified: bool, is_directory: bool) -> Option<Request> {
    if modified && !is_directory {
        Some(Request::Reset)
    } else {
        None
    }
}

/// Decides what a file-watch event asks for, given whether its mask says
/// "modified" and whether it says "directory".
pub fn change_request(modified: bool, is_directory: bool) -> (request: Option<Request>)
    ensures
        request == request_for_change(modified, is_directory),
{
    if modified && !is_directory {
        Some(Request::Reset)
    } else {
        None
    }
}

} // verus!
