use faculty_core::progress::{congrats_line, mention, message_gain_milli, message_qualifies, UserProgress};
use faculty_core::textutil::decimal_string;

#[test]
fn tier_tracks_score_floor() {
    let mut p = UserProgress::new(7);
    assert_eq!(p.tier, 0);
    // 99 points: still tier 0.
    let up = p.apply_gain(99_000);
    assert!(!up);
    assert_eq!(p.tier, 0);
    // 1 more point: exactly 100, tier 1.
    let up = p.apply_gain(1_000);
    assert!(up);
    assert_eq!(p.tier, 1);
    assert_eq!(p.score_milli, 100_000);
    // 250 more points: 350 total, tier 3.
    let up = p.apply_gain(250_000);
    assert!(up);
    assert_eq!(p.tier, 3);
}

#[test]
fn gain_formula_exact_values() {
    // 400 characters, 100 chars per point, no damping: exactly 4 points.
    assert_eq!(message_gain_milli(400, 100, 1000), 4_000);
    // 150 characters, 100 per point: 1.5 points.
    assert_eq!(message_gain_milli(150, 100, 1000), 1_500);
    // Damping divisor 2.0 halves the gain.
    assert_eq!(message_gain_milli(400, 100, 2000), 2_000);
    // Rounds down at milli-point precision.
    assert_eq!(message_gain_milli(1, 3, 1000), 333);
    // Empty message earns nothing.
    assert_eq!(message_gain_milli(0, 100, 1000), 0);
}

#[test]
fn tier_up_fires_exactly_at_the_crossing() {
    // 400-character messages at 100 chars per point, scaling factor zero:
    // each message is worth exactly 4.0 points, so the 25th crosses 100.
    let mut p = UserProgress::new(1);
    let gain = message_gain_milli(400, 100, 1000);
    assert_eq!(gain, 4_000);
    let mut ups = 0;
    for i in 1..=30 {
        let up = p.apply_gain(gain);
        if up {
            ups += 1;
            assert_eq!(i, 25, "the tier-up must come at the crossing message");
        }
    }
    assert_eq!(ups, 1, "exactly one tier-up in the first 30 messages");
    assert_eq!(p.tier, 1);
}

#[test]
fn batch_counts_each_message_once() {
    let mut p = UserProgress::new(2);
    let gains = vec![4_000u64, 4_000, 92_000, 10_000];
    let ups = p.apply_gains(&gains);
    assert_eq!(p.score_milli, 110_000);
    assert_eq!(p.tier, 1);
    assert_eq!(ups, 1);
}

#[test]
fn one_message_crossing_two_boundaries_is_one_notification() {
    let mut p = UserProgress::new(4);
    let ups = p.apply_gains(&vec![250_000u64]);
    assert_eq!(p.tier, 2);
    assert_eq!(ups, 1);
}

#[test]
fn score_never_decreases() {
    let mut p = UserProgress::new(3);
    let mut last = 0;
    for g in [0u64, 17, 0, 100_000, 3] {
        p.apply_gain(g);
        assert!(p.score_milli >= last);
        last = p.score_milli;
    }
}

#[test]
fn decimal_rendering() {
    assert_eq!(decimal_string(0), "0");
    assert_eq!(decimal_string(7), "7");
    assert_eq!(decimal_string(10), "10");
    assert_eq!(decimal_string(105), "105");
    assert_eq!(decimal_string(u64::MAX), "18446744073709551615");
}

#[test]
fn tier_up_notification_text() {
    assert_eq!(mention(42), "<@42>");
    assert_eq!(
        congrats_line(42, 3),
        "congrats <@42>! you've levelled up to 3!"
    );
}

#[test]
fn qualifying_messages() {
    assert!(message_qualifies(false, "hello there", "!"));
    assert!(!message_qualifies(true, "hello there", "!"), "bots never earn score");
    assert!(!message_qualifies(false, "!help", "!"), "commands never earn score");
    assert!(message_qualifies(false, "", "!"), "empty content is not a command");
}
