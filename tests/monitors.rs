use church_presenter::decimal::push_decimal;
use church_presenter::monitor::{monitor_label, monitor_labels, MonitorInfo};

fn mon(x: i32, y: i32, width: u32, height: u32) -> MonitorInfo {
    MonitorInfo { x, y, width, height }
}

fn dec(n: u64) -> String {
    let mut s = String::new();
    push_decimal(&mut s, n);
    s
}

#[test]
fn decimal_single_digits() {
    assert_eq!(dec(0), "0");
    assert_eq!(dec(7), "7");
    assert_eq!(dec(9), "9");
}

#[test]
fn decimal_several_digits() {
    assert_eq!(dec(10), "10");
    assert_eq!(dec(1920), "1920");
    assert_eq!(dec(1234567890), "1234567890");
    assert_eq!(dec(u64::MAX), "18446744073709551615");
}

#[test]
fn decimal_appends_to_existing_text() {
    let mut s = String::from("w=");
    push_decimal(&mut s, 305);
    assert_eq!(s, "w=305");
}

#[test]
fn label_of_one_monitor() {
    assert_eq!(monitor_label(1, &mon(0, 0, 1920, 1080)), "Monitor 1 - 1920x1080");
    assert_eq!(monitor_label(12, &mon(-5, 3, 0, 0)), "Monitor 12 - 0x0");
}

#[test]
fn label_of_largest_size() {
    assert_eq!(
        monitor_label(3, &mon(0, 0, u32::MAX, u32::MAX)),
        "Monitor 3 - 4294967295x4294967295"
    );
}

#[test]
fn labels_count_and_order() {
    let monitors = vec![mon(0, 0, 1920, 1080), mon(1920, 0, 1280, 720), mon(-800, 0, 800, 600)];
    let labels = monitor_labels(&monitors);
    assert_eq!(
        labels,
        vec![
            "Monitor 1 - 1920x1080".to_string(),
            "Monitor 2 - 1280x720".to_string(),
            "Monitor 3 - 800x600".to_string(),
        ]
    );
}

#[test]
fn labels_of_no_monitors() {
    let labels = monitor_labels(&Vec::new());
    assert!(labels.is_empty());
}

#[test]
fn labels_of_equal_monitors_are_numbered_apart() {
    let monitors = vec![mon(0, 0, 1024, 768), mon(0, 0, 1024, 768)];
    let labels = monitor_labels(&monitors);
    assert_eq!(labels.len(), 2);
    assert_eq!(labels[0], "Monitor 1 - 1024x768");
    assert_eq!(labels[1], "Monitor 2 - 1024x768");
}
