use stm32wb_hal::rtc::{date_from_register, date_register, time_from_register, time_register, Date, Time};

#[test]
fn time_register_word() {
    let t = Time { hours: 23, minutes: 59, seconds: 7, daylight_savings: false };
    assert_eq!(time_register(&t), 0x0023_5907);
    assert_eq!(time_from_register(0x0023_5907, false), t);
    let noon = Time { hours: 12, minutes: 0, seconds: 30, daylight_savings: true };
    assert_eq!(time_from_register(time_register(&noon), true), noon);
}

#[test]
fn date_register_word() {
    let d = Date { day: 5, date: 31, month: 12, year: 2024 };
    // year offset 54, weekday 5 at bit 13, month 12, date 31
    assert_eq!(date_register(&d), 0x0054_B231);
    assert_eq!(date_from_register(0x0054_B231), d);
    let first = Date { day: 1, date: 1, month: 1, year: 1970 };
    assert_eq!(date_register(&first), 0x0000_2101);
    assert_eq!(date_from_register(date_register(&first)), first);
}
