use antisupport::clock::Moment;
use antisupport::text::{clock_face_text, i32_text, u64_text, wide};

#[test]
fn numbers_in_decimal() {
    assert_eq!(u64_text(0), "0");
    assert_eq!(u64_text(7), "7");
    assert_eq!(u64_text(10), "10");
    assert_eq!(u64_text(u64::MAX), u64::MAX.to_string());
    assert_eq!(i32_text(0), "0");
    assert_eq!(i32_text(-1), "-1");
    assert_eq!(i32_text(365), "365");
    assert_eq!(i32_text(i32::MIN), "-2147483648");
}

#[test]
fn clock_faces() {
    assert_eq!(clock_face_text(0), "00:00");
    assert_eq!(clock_face_text(9), "00:09");
    assert_eq!(clock_face_text(180), "03:00");
    assert_eq!(clock_face_text(179), "02:59");
    assert_eq!(clock_face_text(6000), "100:00");
}

#[test]
fn utf16_is_closed_by_a_zero() {
    assert_eq!(wide(""), vec![0]);
    assert_eq!(wide("A\n"), vec![65, 10, 0]);
    assert_eq!(wide("đ€"), vec![0x111, 0x20ac, 0]);
    assert_eq!(wide("x\u{1f600}"), vec![0x78, 0xd83d, 0xde00, 0]);
    assert_eq!(wide("\u{10ffff}"), vec![0xdbff, 0xdfff, 0]);
}

#[test]
fn text_without_null_has_one_zero() {
    let units = wide("Phiên đã hết 😀");
    assert_eq!(units.iter().filter(|u| **u == 0).count(), 1);
    assert_eq!(units.last(), Some(&0));
}

#[test]
fn time_does_not_run_below_zero() {
    let early = Moment::at(3, 500_000_000);
    let late = Moment::at(5, 0);
    assert_eq!(late.nanos_since(&early), 1_500_000_000);
    assert_eq!(late.secs_since(&early), 1);
    assert_eq!(early.nanos_since(&late), 0);
    assert_eq!(early.secs_since(&late), 0);
    assert!(early.is_before(&late));
    assert!(!late.is_before(&late));
}

#[test]
fn the_clock_has_an_end() {
    let late = Moment::at(u64::MAX - 10, 999_999_999);
    assert!(late.admits(10));
    assert!(!late.admits(11));
    assert!(Moment::at(0, 0).admits(u64::MAX));
    assert!(!Moment::at(1, 0).admits(u64::MAX));
    assert_eq!(late.plus_secs(10).secs_since(&Moment::at(0, 0)), u64::MAX);
}
