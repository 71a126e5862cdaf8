//! Verified core of the WinForge tools: framing of IPC messages, routing of
//! commands, identifiers of recorded commands, paging of the folders API,
//! naming of converted files and the desktop application's commands.

pub mod commands;
pub mod desktop;
pub mod digest;
pub mod folders;
pub mod ipc_message;
pub mod ipc_server;
pub mod payload;
pub mod pdf;
pub mod text;
pub mod work_queue;

use vstd::prelude::*;

verus! {

/// Compiles only for types that can be shared between threads.
pub fn assert_send_sync<T: Send + Sync>() {
}

} // verus!
