use amoeba::Margin;
use amoeba::RgbaUnmultiplied;
use amoeba::format_duration;
use amoeba::response::DisplayContent;
use amoeba::response::QueryResponse;
use amoeba::response::ResponseAction;
use amoeba::text::is_blank;
use amoeba::text::trim_str;
use amoeba::text::u64_to_decimal;

#[test]
fn duration_under_five_seconds_is_in_milliseconds() {
    assert_eq!(format_duration(0), "(0 ms)");
    assert_eq!(format_duration(1), "(1 ms)");
    assert_eq!(format_duration(4999), "(4999 ms)");
}

#[test]
fn duration_from_five_seconds_is_in_seconds() {
    assert_eq!(format_duration(5000), "(5 s)");
    assert_eq!(format_duration(5999), "(5 s)");
    assert_eq!(format_duration(123456), "(123 s)");
}

#[test]
fn decimal_rendering() {
    assert_eq!(u64_to_decimal(0), "0");
    assert_eq!(u64_to_decimal(7), "7");
    assert_eq!(u64_to_decimal(10), "10");
    assert_eq!(u64_to_decimal(90210), "90210");
    assert_eq!(u64_to_decimal(u64::MAX), "18446744073709551615");
}

#[test]
fn blank_detection() {
    assert!(is_blank(""));
    assert!(is_blank(" \t\r\n "));
    assert!(!is_blank(" a "));
    assert!(!is_blank("q"));
}

#[test]
fn trimming() {
    assert_eq!(trim_str("  a b \n"), "a b");
    assert_eq!(trim_str("none"), "none");
    assert_eq!(trim_str("   "), "");
    assert_eq!(trim_str(""), "");
}

#[test]
fn response_builders_attach_state() {
    let base = QueryResponse::new(
        DisplayContent {
            marker: String::new(),
            primary: "p".to_string(),
            secondary: None,
        },
        ResponseAction::NoOp,
        -4,
    );
    assert_eq!(base.duration, None);
    assert_eq!(base.extra_state, None);
    assert_eq!(base.priority, -4);
    let with = base.clone().with_duration(17).with_extra_state(vec![1, 2]);
    assert_eq!(with.duration, Some(17));
    assert_eq!(with.extra_state, Some(vec![1, 2]));
    assert_eq!(with.get_extra_state(), Some(&vec![1, 2]));
    assert_eq!(with.get_uuid(), base.get_uuid());
}

#[test]
fn identities_are_distinct_across_responses() {
    let display = DisplayContent {
        marker: String::new(),
        primary: String::new(),
        secondary: None,
    };
    let a = QueryResponse::new(display.clone(), ResponseAction::NoOp, 0);
    let b = QueryResponse::new(display, ResponseAction::NoOp, 0);
    assert_ne!(a.get_uuid(), b.get_uuid());
}

#[test]
fn margins() {
    let m = Margin::symmetric(2, 3);
    assert_eq!((m.left, m.right, m.top, m.bottom), (2, 3, 3, 3));
    let s = Margin::splat(-1);
    assert_eq!((s.left, s.right, s.top, s.bottom), (-1, -1, -1, -1));
    assert_eq!(Margin::splat(4).x(), 8);
    assert_eq!(Margin::symmetric(1, 5).y(), 10);
}

#[test]
fn color_channels() {
    assert_eq!(
        RgbaUnmultiplied::Struct { r: 1, g: 2, b: 3, a: 4 }.rgba(),
        [1, 2, 3, 4]
    );
    assert_eq!(RgbaUnmultiplied::Tuple(5, 6, 7, 8).rgba(), [5, 6, 7, 8]);
    assert_eq!(RgbaUnmultiplied::List([9, 10, 11, 12]).rgba(), [9, 10, 11, 12]);
}
