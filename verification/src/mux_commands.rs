//! Multiplexer commands and the tab-group identifier shared by all of the
//! app's windows.

use vstd::prelude::*;

verus! {

/// Identifier AppKit uses to group all of the app's windows into one tab bar.
pub const VECTOR_TABBING_IDENTIFIER: &'static str = "com.vector.terminal";

#[derive(Debug, Clone, Copy, PartialEq, Eq, Structural)]
pub enum Direction {
    Left,
    Right,
    Up,
    Down,
}

/// A keyboard-driven multiplexer command.
#[derive(Debug, Clone, Copy, PartialEq, Eq, Structural)]
pub enum MuxCommand {
    NewTab,
    SplitHorizontal,
    SplitVertical,
    ClosePane,
    CycleTabNext,
    CycleTabPrev,
    FocusDir(Direction),
    NudgeSplit(Direction),
}

/// The shortcut and effect of each command, as logged.
pub open spec fn describe_spec(cmd: MuxCommand) -> Seq<char> {
    match cmd {
        MuxCommand::NewTab => "Cmd-T (new tab)"@,
        MuxCommand::SplitHorizontal => "Cmd-D (split horizontal)"@,
        MuxCommand::SplitVertical => "Cmd-Shift-D (split vertical)"@,
        MuxCommand::ClosePane => "Cmd-W (close pane)"@,
        MuxCommand::CycleTabNext => "Cmd-Shift-] (next tab)"@,
        MuxCommand::CycleTabPrev => "Cmd-Shift-[ (prev tab)"@,
        MuxCommand::FocusDir(_) => "Cmd-Opt-Arrow (focus direction)"@,
        MuxCommand::NudgeSplit(_) => "Cmd-Shift-Arrow (nudge split)"@,
    }
}

/// Describes `cmd` by its shortcut and effect.
pub fn describe(cmd: MuxCommand) -> (s: &'static str)
    ensures
        s@ == describe_spec(cmd),
{
    match cmd {
        MuxCommand::NewTab => "Cmd-T (new tab)",
        MuxCommand::SplitHorizontal => "Cmd-D (split horizontal)",
        MuxCommand::SplitVertical => "Cmd-Shift-D (split vertical)",
        MuxCommand::ClosePane => "Cmd-W (close pane)",
        MuxCommand::CycleTabNext => "Cmd-Shift-] (next tab)",
        MuxCommand::CycleTabPrev => "Cmd-Shift-[ (prev tab)",
        MuxCommand::FocusDir(_) => "Cmd-Opt-Arrow (focus direction)",
        MuxCommand::NudgeSplit(_) => "Cmd-Shift-Arrow (nudge split)",
    }
}

} // verus!
