//! Platform facilities that end a worker's descendants.
//!
//! The worker's children are ended by an operating-system tool keyed by the
//! worker's process id: `pkill -P <pid>` on POSIX systems, and a forced
//! tree kill `taskkill /F /T /PID <pid>` on Windows.

use vstd::prelude::*;
use crate::decimal::{decimal_of, u32_to_decimal};

verus! {

/// The kind of system whose tools end a process tree.
#[derive(Clone, Copy, Debug, PartialEq, Eq, Structural)]
pub enum Platform {
    Posix,
    Windows,
}

/// An external tool to run: its program name and its arguments.
pub struct ToolCommand {
    pub program: String,
    pub args: Vec<String>,
}

impl ToolCommand {
    /// The arguments as character sequences.
    pub open spec fn arg_seqs(&self) -> Seq<Seq<char>> {
        self.args@.map_values(|a: String| a@)
    }
}

/// The tool that ends the descendants of a process on `platform`.
pub open spec fn tree_kill_program(platform: Platform) -> Seq<char> {
    match platform {
        Platform::Posix => "pkill"@,
        Platform::Windows => "taskkill"@,
    }
}

/// The arguments of that tool for the worker with process id `pid`.
pub open spec fn tree_kill_args(platform: Platform, pid: nat) -> Seq<Seq<char>> {
    match platform {
        Platform::Posix => seq!["-P"@, decimal_of(pid)],
        Platform::Windows => seq!["/F"@, "/T"@, "/PID"@, decimal_of(pid)],
    }
}

/// The command that ends every descendant of the process `pid`.
pub fn tree_kill_command(platform: Platform, pid: u32) -> (r: ToolCommand)
    ensures
        r.program@ == tree_kill_program(platform),
        r.arg_seqs() == tree_kill_args(platform, pid as nat),
{
    let mut args: Vec<String> = Vec::new();
    match platform {
        Platform::Posix => {
            args.push(String::from_str("-P"));
            args.push(u32_to_decimal(pid));
            let r = ToolCommand { program: String::from_str("pkill"), args };
            assert(r.arg_seqs() =~= tree_kill_args(platform, pid as nat));
            r
        },
        Platform::Windows => {
            args.push(String::from_str("/F"));
            args.push(String::from_str("/T"));
            args.push(String::from_str("/PID"));
            args.push(u32_to_decimal(pid));
            let r = ToolCommand { program: String::from_str("taskkill"), args };
            assert(r.arg_seqs() =~= tree_kill_args(platform, pid as nat));
            r
        },
    }
}

/// The log text of a tree kill that failed with `e`.
pub open spec fn tree_kill_failed_text(platform: Platform, e: Seq<char>) -> Seq<char> {
    match platform {
        Platform::Posix => "Failed to terminate child processes: "@ + e,
        Platform::Windows => "Failed to terminate process tree: "@ + e,
    }
}

/// The log text of a tree kill that failed with `e`. Such a failure is
/// reported and goes no further: the kill of the worker itself decides
/// the outcome of a stop.
pub fn tree_kill_failure(platform: Platform, e: &str) -> (r: String)
    ensures
        r@ == tree_kill_failed_text(platform, e@),
{
    let mut m = match platform {
        Platform::Posix => String::from_str("Failed to terminate child processes: "),
        Platform::Windows => String::from_str("Failed to terminate process tree: "),
    };
    m.append(e);
    m
}

} // verus!
