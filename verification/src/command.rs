//! Dispatch of inbound command interactions by name.

use vstd::prelude::*;
use crate::text::str_eq;

verus! {

/// The commands the engine answers to.
#[derive(Debug, Clone, Copy, PartialEq, Eq, Structural)]
pub enum CommandKind {
    Play,
    Join,
    Leave,
    Skip,
}

/// The command a name denotes, if any.
pub open spec fn command_kind_of(name: Seq<char>) -> Option<CommandKind> {
    if name == "play"@ {
        Some(CommandKind::Play)
    } else if name == "join"@ {
        Some(CommandKind::Join)
    } else if name == "leave"@ {
        Some(CommandKind::Leave)
    } else if name == "skip"@ {
        Some(CommandKind::Skip)
    } else {
        None
    }
}

/// Classifies a command interaction by name; an unknown name is
/// refused, and the caller reports it instead of acting.
pub fn command_kind(name: &str) -> (r: Option<CommandKind>)
    ensures
        r == command_kind_of(name@),
{
    if str_eq(name, "play") {
        Some(CommandKind::Play)
    } else if str_eq(name, "join") {
        Some(CommandKind::Join)
    } else if str_eq(name, "leave") {
        Some(CommandKind::Leave)
    } else if str_eq(name, "skip") {
        Some(CommandKind::Skip)
    } else {
        None
    }
}

} // verus!
