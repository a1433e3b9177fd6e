use pomo::clock::{journal_filename, journal_header, Timestamp};
use pomo::entities::SessionKind::{LongBreak, ShortBreak, Work};
use pomo::entities::{Config, ConfigError, Seconds, SessionKind};
use pomo::format::format_mmss;
use pomo::messages::{notification_body, notification_title, pause_prompt, session_message};
use pomo::scheduler::session_sequence;
use pomo::timer::run_timer;

#[test]
fn mmss_one_minute_five() {
    assert_eq!(format_mmss(65), "01:05");
}

#[test]
fn mmss_zero() {
    assert_eq!(format_mmss(0), "00:00");
}

#[test]
fn mmss_hour_keeps_minutes() {
    assert_eq!(format_mmss(3600), "60:00");
}

#[test]
fn mmss_wide_minutes() {
    assert_eq!(format_mmss(60 * 1000 + 1), "1000:01");
}

#[test]
fn mmss_under_a_minute() {
    assert_eq!(format_mmss(59), "00:59");
}

#[test]
fn mmss_same_input_same_text() {
    assert_eq!(format_mmss(125), format_mmss(125));
}

#[test]
fn timer_zero_duration_single_final_tick() {
    let ticks = run_timer(&Seconds(0));
    assert_eq!(ticks.len(), 1);
    assert_eq!(ticks[0].remaining, 0);
    assert!(ticks[0].is_final);
}

#[test]
fn timer_counts_down_to_terminal_tick() {
    let ticks = run_timer(&Seconds(3));
    let remaining: Vec<u64> = ticks.iter().map(|t| t.remaining).collect();
    assert_eq!(remaining, vec![3, 2, 1, 0]);
    let finals: Vec<bool> = ticks.iter().map(|t| t.is_final).collect();
    assert_eq!(finals, vec![false, false, false, true]);
}

#[test]
fn timer_emits_duration_plus_one_ticks() {
    let ticks = run_timer(&Seconds(25));
    assert_eq!(ticks.len(), 26);
    for w in ticks.windows(2) {
        assert!(w[0].remaining > w[1].remaining);
    }
}

#[test]
fn sequence_of_four_pairs() {
    assert_eq!(
        session_sequence(4),
        vec![Work, ShortBreak, Work, ShortBreak, Work, ShortBreak, Work, LongBreak]
    );
}

#[test]
fn sequence_of_one_pair_has_no_short_break() {
    assert_eq!(session_sequence(1), vec![Work, LongBreak]);
}

#[test]
fn sequence_of_two_pairs() {
    assert_eq!(session_sequence(2), vec![Work, ShortBreak, Work, LongBreak]);
}

#[test]
fn from_minutes_scales() {
    assert_eq!(Seconds::from_minutes(25).0, 1500);
}

#[test]
fn validate_rejects_zero_interval() {
    let mut config = Config::default();
    config.long_break_interval = 0;
    assert_eq!(config.validate(), Err(ConfigError::ZeroInterval));
}

#[test]
fn validate_accepts_single_interval() {
    let mut config = Config::default();
    config.long_break_interval = 1;
    assert_eq!(config.validate(), Ok(()));
}

#[test]
fn default_config_values() {
    let config = Config::default();
    assert_eq!(config.work.0, 25 * 60);
    assert_eq!(config.short_break.0, 5 * 60);
    assert_eq!(config.long_break.0, 20 * 60);
    assert_eq!(config.long_break_interval, 4);
    assert!(!config.auto_start_next);
    assert_eq!(config.journal_path, "$HOME/.config/pomo");
}

#[test]
fn header_line_is_timestamped() {
    let ts = Timestamp { year: 2024, month: 3, day: 7, hour: 9, minute: 5, second: 30 };
    assert_eq!(journal_header(ts), "# 2024-03-07 09:05:30");
}

#[test]
fn filename_is_timestamped_markdown() {
    let ts = Timestamp { year: 2024, month: 3, day: 7, hour: 9, minute: 5, second: 30 };
    assert_eq!(journal_filename(ts), "2024-03-07_09-05-30.md");
}

#[test]
fn filename_pads_small_year() {
    let ts = Timestamp { year: 333, month: 12, day: 31, hour: 23, minute: 59, second: 59 };
    assert_eq!(journal_filename(ts), "0333-12-31_23-59-59.md");
}

#[test]
fn messages_per_kind() {
    assert_eq!(session_message(SessionKind::Work), "Work time!");
    assert_eq!(session_message(SessionKind::ShortBreak), "Short break!");
    assert_eq!(session_message(SessionKind::LongBreak), "Long break!");
    assert_eq!(notification_title(SessionKind::Work), "Work done!");
    assert_eq!(notification_title(SessionKind::LongBreak), "Break done!");
    assert_eq!(
        notification_body(SessionKind::Work),
        "Your timer has completed, time to journal!"
    );
    assert_eq!(
        notification_body(SessionKind::ShortBreak),
        "It's time to get back to working!"
    );
    assert_eq!(pause_prompt(), "Press the enter key to continue...");
}
