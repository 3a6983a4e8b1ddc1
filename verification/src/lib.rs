//! A small SystemVerilog style linter: manifest ("filelist") resolution,
//! preprocessor define threading, and a registry of stateless lint rules
//! dispatched over every node of a parsed syntax tree.
//!
//! Parsing of the sources themselves, configuration files and all I/O stay
//! outside this library; it works on plain values and its behaviour is stated
//! in the contracts of its public functions.

pub mod cli;
pub mod defines;
pub mod diag;
pub mod filelist;
pub mod laws;
pub mod linter;
pub mod opt;
pub mod rules;
pub mod syntax;
pub mod strutil;

use vstd::prelude::*;

verus! {

/// The process exit code for a finished run: `0` when every file passed,
/// `1` when some file failed a rule or did not parse, `2` after a fatal
/// configuration or manifest error.
pub fn exit_code(fatal: bool, all_pass: bool) -> (r: i32)
    ensures
        r == (if fatal { 2int } else if all_pass { 0int } else { 1int }),
{
    if fatal {
        2
    } else if all_pass {
        0
    } else {
        1
    }
}

} // verus!
