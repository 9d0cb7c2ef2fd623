use vector_app::mux_commands::{describe, Direction, MuxCommand, VECTOR_TABBING_IDENTIFIER};

#[test]
fn describe_maps_each_variant() {
    for cmd in [
        MuxCommand::NewTab,
        MuxCommand::SplitHorizontal,
        MuxCommand::SplitVertical,
        MuxCommand::ClosePane,
        MuxCommand::CycleTabNext,
        MuxCommand::CycleTabPrev,
        MuxCommand::FocusDir(Direction::Left),
        MuxCommand::NudgeSplit(Direction::Right),
    ] {
        assert!(!describe(cmd).is_empty());
    }
}

#[test]
fn describe_exact_texts() {
    assert_eq!(describe(MuxCommand::NewTab), "Cmd-T (new tab)");
    assert_eq!(describe(MuxCommand::SplitVertical), "Cmd-Shift-D (split vertical)");
    assert_eq!(describe(MuxCommand::FocusDir(Direction::Up)), "Cmd-Opt-Arrow (focus direction)");
    assert_eq!(VECTOR_TABBING_IDENTIFIER, "com.vector.terminal");
}
