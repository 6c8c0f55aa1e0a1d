use esc_os::clock::{clock_text, current_clock_text};

#[test]
fn clock_pads_single_digits() {
    assert_eq!(clock_text(9, 5, 3).as_str(), "09:05:03");
}

#[test]
fn clock_keeps_double_digits() {
    assert_eq!(clock_text(23, 59, 58).as_str(), "23:59:58");
    assert_eq!(clock_text(0, 0, 0).as_str(), "00:00:00");
}

#[test]
fn current_clock_is_a_well_formed_time() {
    let s = current_clock_text();
    let b = s.as_bytes();
    assert_eq!(b.len(), 8);
    assert_eq!(b[2], b':');
    assert_eq!(b[5], b':');
    let h: u32 = s[0..2].parse().unwrap();
    let m: u32 = s[3..5].parse().unwrap();
    let sec: u32 = s[6..8].parse().unwrap();
    assert!(h < 24);
    assert!(m < 60);
    assert!(sec < 60);
}
