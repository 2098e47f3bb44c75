use timr::common::{AppTimeFormat, Style};
use timr::duration::{
    decis_mod, hours_mod, hours_mod_12, is_pm, minutes_mod, seconds_mod, time_of_day_millis,
    MS_PER_DAY,
};
use timr::local_time::{narrow_h12_widths, LocalTimeWidget};

#[test]
fn decomposition_of_a_time_of_day() {
    // 13:45:27.300 into the day.
    let ms = 13 * 3_600_000 + 45 * 60_000 + 27 * 1000 + 300;
    assert_eq!(hours_mod(ms), 13);
    assert_eq!(minutes_mod(ms), 45);
    assert_eq!(seconds_mod(ms), 27);
    assert_eq!(decis_mod(ms), 3);
    assert_eq!(hours_mod_12(ms), 1);
    assert!(is_pm(ms));
}

#[test]
fn twelve_hour_clock_boundaries() {
    assert_eq!(hours_mod_12(0), 12); // midnight
    assert!(!is_pm(0));
    let noon = 12 * 3_600_000;
    assert_eq!(hours_mod_12(noon), 12);
    assert!(is_pm(noon));
    let eleven_pm = 23 * 3_600_000;
    assert_eq!(hours_mod_12(eleven_pm), 11);
    assert!(is_pm(eleven_pm));
}

#[test]
fn timeline_reduces_to_time_of_day() {
    assert_eq!(time_of_day_millis(MS_PER_DAY + 1234), 1234);
    assert_eq!(time_of_day_millis(500), 500);
    // Hours wrap across days.
    assert_eq!(hours_mod(25 * 3_600_000), 1);
}

#[test]
fn twelve_hour_layout_narrows_before_ten() {
    let w = LocalTimeWidget { style: Style::Full };
    let mut widths = w.get_horizontal_lengths(&AppTimeFormat::Hh12Mm);
    let wide = widths.clone();
    narrow_h12_widths(&mut widths, 9);
    assert_eq!(widths[1], 0);
    assert_eq!(widths[2], 0);
    assert_eq!(widths[0], wide[0]);
    assert_eq!(widths[3], wide[3]);
    // From ten o'clock on, both hour digits keep their width.
    let mut widths = w.get_horizontal_lengths(&AppTimeFormat::Hh12Mm);
    narrow_h12_widths(&mut widths, 10);
    assert_eq!(widths, wide);
}
