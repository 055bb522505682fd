use multi_spinner::spinners::Animation;

const DOTS_2: &[&str] = &[
    "⠈", "⠉", "⠋", "⠓", "⠒", "⠐", "⠐", "⠒", "⠖", "⠦", "⠤", "⠠", "⠠", "⠤", "⠦", "⠖", "⠒", "⠐",
    "⠐", "⠒", "⠓", "⠋", "⠉", "⠈",
];

const DOTS_3: &[&str] = &[
    " ⠈", " ⠉", "⠈⠉", "⠋ ", "⠓ ", "⠐⠒", " ⠒", " ⠐", " ⠐", " ⠒", "⠐⠒", "⠖ ", "⠦ ", "⠠⠤", " ⠤",
    " ⠠", " ⠠", " ⠤", "⠠⠤", "⠦ ", "⠖ ", "⠐⠒", " ⠒", " ⠐", " ⠐", " ⠒", "⠐⠒", "⠓ ", "⠋ ", "⠈⠉",
    " ⠉", " ⠈",
];

const BARS_10: &[&str] = &[
    "▰▱▱▱▱▱▱▱▱▱",
    "▰▰▱▱▱▱▱▱▱▱",
    "▰▰▰▱▱▱▱▱▱▱",
    "▰▰▰▰▱▱▱▱▱▱",
    "▰▰▰▰▰▱▱▱▱▱",
    "▰▰▰▰▰▰▱▱▱▱",
    "▰▰▰▰▰▰▰▱▱▱",
    "▰▰▰▰▰▰▰▰▱▱",
    "▰▰▰▰▰▰▰▰▰▱",
    "▰▰▰▰▰▰▰▰▰▰",
];

fn collect_frames(a: &mut Animation, n: usize) -> Vec<String> {
    let mut frames: Vec<String> = Vec::new();
    for _ in 0..n {
        frames.push(a.next_frame().to_string());
    }
    frames
}

#[test]
fn dots2_full_cycle_returns_to_start() {
    let mut a = Animation::Dots2(0);
    let first = collect_frames(&mut a, 24);
    let second = collect_frames(&mut a, 24);
    assert_eq!(first, second);
}

#[test]
fn dots3_full_cycle_returns_to_start() {
    let mut a = Animation::Dots3(0);
    let first = collect_frames(&mut a, 32);
    let second = collect_frames(&mut a, 32);
    assert_eq!(first, second);
}

#[test]
fn bars10_full_cycle_returns_to_start() {
    let mut a = Animation::Bars10(0);
    let first = collect_frames(&mut a, 10);
    let second = collect_frames(&mut a, 10);
    assert_eq!(first, second);
}

#[test]
fn dots2_sequence_matches_table_exactly() {
    let mut a = Animation::Dots2(0);
    let frames = collect_frames(&mut a, 24);
    let expected: Vec<String> = (0..24).map(|k| DOTS_2[(k + 1) % 24].to_string()).collect();
    assert_eq!(frames, expected);
}

#[test]
fn dots3_sequence_matches_table_exactly() {
    let mut a = Animation::Dots3(0);
    let frames = collect_frames(&mut a, 32);
    let expected: Vec<String> = (0..32).map(|k| DOTS_3[(k + 1) % 32].to_string()).collect();
    assert_eq!(frames, expected);
}

#[test]
fn bars10_sequence_matches_table_exactly() {
    let mut a = Animation::Bars10(0);
    let frames = collect_frames(&mut a, 10);
    let expected: Vec<String> = (0..10).map(|k| BARS_10[(k + 1) % 10].to_string()).collect();
    assert_eq!(frames, expected);
}

#[test]
fn next_frame_advances_before_reading() {
    let mut a = Animation::Bars10(3);
    assert_eq!(a.next_frame(), BARS_10[4]);
    let mut b = Animation::Dots2(0);
    assert_eq!(b.next_frame(), DOTS_2[1]);
}

#[test]
fn next_frame_wraps_at_table_end() {
    let mut a = Animation::Bars10(9);
    assert_eq!(a.next_frame(), BARS_10[0]);
    let mut b = Animation::Dots2(23);
    assert_eq!(b.next_frame(), DOTS_2[0]);
    let mut c = Animation::Dots3(31);
    assert_eq!(c.next_frame(), DOTS_3[0]);
}

#[test]
fn index_in_range_checks_the_table_bound() {
    assert!(Animation::Dots2(0).index_in_range());
    assert!(Animation::Dots2(23).index_in_range());
    assert!(!Animation::Dots2(24).index_in_range());
    assert!(Animation::Dots3(31).index_in_range());
    assert!(!Animation::Dots3(32).index_in_range());
    assert!(Animation::Bars10(9).index_in_range());
    assert!(!Animation::Bars10(10).index_in_range());
}
