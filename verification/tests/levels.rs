use oslog::{Color, Level};

const ALL: [Level; 6] =
    [Level::Off, Level::Error, Level::Warn, Level::Info, Level::Debug, Level::Trace];

#[test]
fn ranks_follow_declaration_order() {
    assert_eq!(Level::Off.to_rank(), 0);
    assert_eq!(Level::Error.to_rank(), 1);
    assert_eq!(Level::Warn.to_rank(), 2);
    assert_eq!(Level::Info.to_rank(), 3);
    assert_eq!(Level::Debug.to_rank(), 4);
    assert_eq!(Level::Trace.to_rank(), 5);
}

#[test]
fn from_rank_undoes_to_rank() {
    for level in ALL {
        assert_eq!(Level::from_rank(level.to_rank()), Some(level));
    }
}

#[test]
fn from_rank_knows_six_ranks_only() {
    for rank in 0..=255u8 {
        match Level::from_rank(rank) {
            Some(level) => {
                assert!(rank <= 5);
                assert_eq!(level.to_rank(), rank);
            }
            None => assert!(rank > 5),
        }
    }
}

#[test]
fn enablement_is_rank_comparison_for_all_pairs() {
    for severity in ALL {
        for threshold in ALL {
            assert_eq!(
                severity.is_enabled(threshold),
                severity.to_rank() <= threshold.to_rank(),
                "{:?} under {:?}",
                severity,
                threshold
            );
        }
    }
}

#[test]
fn warn_passes_info() {
    assert!(Level::Warn.is_enabled(Level::Info));
}

#[test]
fn threshold_info_enables_error_warn_info_only() {
    assert!(Level::Error.is_enabled(Level::Info));
    assert!(Level::Warn.is_enabled(Level::Info));
    assert!(Level::Info.is_enabled(Level::Info));
    assert!(!Level::Debug.is_enabled(Level::Info));
    assert!(!Level::Trace.is_enabled(Level::Info));
}

#[test]
fn threshold_off_disables_every_real_severity() {
    for severity in [Level::Error, Level::Warn, Level::Info, Level::Debug, Level::Trace] {
        assert!(!severity.is_enabled(Level::Off));
    }
    assert!(Level::Off.is_enabled(Level::Off));
}

#[test]
fn threshold_trace_enables_every_real_severity() {
    for severity in [Level::Error, Level::Warn, Level::Info, Level::Debug, Level::Trace] {
        assert!(severity.is_enabled(Level::Trace));
    }
}

#[test]
fn raising_the_threshold_keeps_what_passed() {
    for severity in ALL {
        for low in ALL {
            for high in ALL {
                if low.to_rank() <= high.to_rank() && severity.is_enabled(low) {
                    assert!(severity.is_enabled(high));
                }
            }
        }
    }
}

#[test]
fn labels_are_exact() {
    assert_eq!(Level::Off.as_str(), "OFF  ");
    assert_eq!(Level::Error.as_str(), "ERROR");
    assert_eq!(Level::Warn.as_str(), "WARN ");
    assert_eq!(Level::Info.as_str(), "INFO ");
    assert_eq!(Level::Debug.as_str(), "DEBUG");
    assert_eq!(Level::Trace.as_str(), "TRACE");
}

#[test]
fn labels_are_five_characters_wide() {
    for level in ALL {
        assert_eq!(level.as_str().chars().count(), 5);
    }
}

#[test]
fn colors_of_levels() {
    assert_eq!(Level::Error.color(), ("\x1b[31m", "\x1b[0m"));
    assert_eq!(Level::Warn.color(), ("\x1b[93m", "\x1b[0m"));
    assert_eq!(Level::Info.color(), ("\x1b[34m", "\x1b[0m"));
    assert_eq!(Level::Debug.color(), ("\x1b[32m", "\x1b[0m"));
    assert_eq!(Level::Trace.color(), ("\x1b[90m", "\x1b[0m"));
}

#[test]
fn off_has_no_color() {
    assert_eq!(Level::Off.color(), ("", ""));
    assert_eq!(Level::Off.color_pair(true), ("", ""));
    assert_eq!(Level::Off.color_pair(false), ("", ""));
}

#[test]
fn color_pair_is_empty_when_color_is_disabled() {
    for level in ALL {
        assert_eq!(level.color_pair(false), ("", ""));
    }
}

#[test]
fn color_pair_is_the_color_when_color_is_enabled() {
    for level in ALL {
        assert_eq!(level.color_pair(true), level.color());
        assert_eq!(level.color_pair(true), Color::from_level(&level));
    }
}

#[test]
fn ansi_codes_are_exact() {
    assert_eq!(Color::Red.ansi(), ("\x1b[31m", "\x1b[0m"));
    assert_eq!(Color::Yellow.ansi(), ("\x1b[93m", "\x1b[0m"));
    assert_eq!(Color::Blue.ansi(), ("\x1b[34m", "\x1b[0m"));
    assert_eq!(Color::Green.ansi(), ("\x1b[32m", "\x1b[0m"));
    assert_eq!(Color::Gray.ansi(), ("\x1b[90m", "\x1b[0m"));
}

#[test]
fn from_level_pairs_levels_with_colors() {
    assert_eq!(Color::from_level(&Level::Error), Color::Red.ansi());
    assert_eq!(Color::from_level(&Level::Warn), Color::Yellow.ansi());
    assert_eq!(Color::from_level(&Level::Info), Color::Blue.ansi());
    assert_eq!(Color::from_level(&Level::Debug), Color::Green.ansi());
    assert_eq!(Color::from_level(&Level::Trace), Color::Gray.ansi());
    assert_eq!(Color::from_level(&Level::Off), ("", ""));
}
