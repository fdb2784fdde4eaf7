use hostfacts::battery::{battery_fact, format_battery};

#[test]
fn battery_charging() {
    let remaining_capacity: f32 = 0.73;
    let percent = (remaining_capacity * 100.0) as i64;
    assert_eq!(battery_fact(Some(percent), Some(true)), Ok("73% [Charging] ".to_string()));
}

#[test]
fn battery_discharging() {
    assert_eq!(battery_fact(Some(73), Some(false)), Ok("73% [Discharging] ".to_string()));
}

#[test]
fn battery_without_a_power_state() {
    assert_eq!(battery_fact(Some(73), None), Err("no power".to_string()));
}

#[test]
fn battery_without_a_charge() {
    assert_eq!(battery_fact(None, Some(true)), Err("no battery".to_string()));
    assert_eq!(battery_fact(None, Some(false)), Err("no battery".to_string()));
    assert_eq!(battery_fact(None, None), Err("no battery".to_string()));
}

#[test]
fn battery_empty_and_full() {
    assert_eq!(format_battery(0, false), "0% [Discharging] ");
    assert_eq!(format_battery(100, true), "100% [Charging] ");
}

#[test]
fn battery_line_ends_in_a_space() {
    assert!(format_battery(50, true).ends_with("] "));
    assert!(format_battery(50, false).ends_with("] "));
}

#[test]
fn battery_percent_out_of_range_is_shown_as_it_is() {
    assert_eq!(format_battery(-1, true), "-1% [Charging] ");
    assert_eq!(format_battery(250, false), "250% [Discharging] ");
}

#[test]
fn battery_fraction_is_rounded_down() {
    let remaining_capacity: f32 = 0.999;
    let percent = (remaining_capacity * 100.0) as i64;
    assert_eq!(battery_fact(Some(percent), Some(false)), Ok("99% [Discharging] ".to_string()));
}

#[test]
fn battery_twice_is_the_same() {
    assert_eq!(battery_fact(Some(41), Some(true)), battery_fact(Some(41), Some(true)));
    assert_eq!(battery_fact(Some(41), None), battery_fact(Some(41), None));
}
