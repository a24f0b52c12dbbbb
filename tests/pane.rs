use termgfx::{TmuxPaneInfo, TmuxPaneOffset};

#[test]
fn pane_offset_parses_first_two_numbers() {
    assert_eq!(TmuxPaneOffset::parse("12 40\n"), Some(TmuxPaneOffset { top: 12, left: 40 }));
    assert_eq!(TmuxPaneOffset::parse("  3\t+7 99"), Some(TmuxPaneOffset { top: 3, left: 7 }));
    assert_eq!(TmuxPaneOffset::parse("12"), None);
    assert_eq!(TmuxPaneOffset::parse(""), None);
    assert_eq!(TmuxPaneOffset::parse("1 x"), None);
    assert_eq!(TmuxPaneOffset::parse("65536 0"), None);
    assert_eq!(TmuxPaneOffset::parse("65535 0"), Some(TmuxPaneOffset { top: 65535, left: 0 }));
    assert_eq!(TmuxPaneOffset::parse("-1 0"), None);
    assert_eq!(TmuxPaneOffset::parse("+ 0"), None);
}

#[test]
fn pane_info_needs_exactly_four_numbers() {
    assert_eq!(
        TmuxPaneInfo::parse("0 81 80 24\n"),
        Some(TmuxPaneInfo { top: 0, left: 81, width: 80, height: 24 })
    );
    assert_eq!(TmuxPaneInfo::parse("0 81 80"), None);
    assert_eq!(TmuxPaneInfo::parse("0 81 80 24 1"), None);
    assert_eq!(TmuxPaneInfo::parse("0 81 80 2a"), None);
}
