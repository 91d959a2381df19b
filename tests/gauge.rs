use sd_logger::gauge::{bar_fill, frame_rate_tenths, BarFill, BAR_CENTER};

#[test]
fn zero_reading_fills_nothing() {
    assert_eq!(bar_fill(0, 0), BarFill { left: 20, top: BAR_CENTER, height: 0 });
}

#[test]
fn positive_reading_fills_below_centre() {
    assert_eq!(bar_fill(16384, 40), BarFill { left: 60, top: 42, height: 20 });
    assert_eq!(bar_fill(8192, 80), BarFill { left: 100, top: 42, height: 10 });
    assert_eq!(bar_fill(i16::MAX, 0), BarFill { left: 20, top: 42, height: 39 });
}

#[test]
fn negative_reading_fills_above_centre() {
    assert_eq!(bar_fill(-16384, 0), BarFill { left: 20, top: 22, height: 20 });
    assert_eq!(bar_fill(-819, 0), BarFill { left: 20, top: 42, height: 0 });
    assert_eq!(bar_fill(-820, 0), BarFill { left: 20, top: 41, height: 1 });
    assert_eq!(bar_fill(i16::MIN, 0), BarFill { left: 20, top: 2, height: 40 });
}

#[test]
fn frame_rate_in_tenths() {
    assert_eq!(frame_rate_tenths(100_000_000, 0), None);
    assert_eq!(frame_rate_tenths(100_000_000, 4_000_000), Some(250));
    assert_eq!(frame_rate_tenths(25_000_000, 3_000_000), Some(83));
    assert_eq!(frame_rate_tenths(u32::MAX, 1), Some(42_949_672_950));
}
