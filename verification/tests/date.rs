use roolah::date::Date;

#[test]
fn new_accepts_the_days_of_the_calendar() {
    let d = Date::new(2022, 10, 6).unwrap();
    assert_eq!((d.year(), d.month(), d.day()), (2022, 10, 6));
    assert!(Date::new(2024, 2, 29).is_some());
    assert!(Date::new(2000, 2, 29).is_some());
    assert!(Date::new(-4, 2, 29).is_some());
    assert!(Date::new(-9999, 1, 1).is_some());
    assert!(Date::new(9999, 12, 31).is_some());
    for month in [1u8, 3, 5, 7, 8, 10, 12] {
        assert!(Date::new(2023, month, 31).is_some());
    }
    for month in [4u8, 6, 9, 11] {
        assert!(Date::new(2023, month, 30).is_some());
    }
}

#[test]
fn new_refuses_what_the_calendar_lacks() {
    assert!(Date::new(2023, 2, 29).is_none());
    assert!(Date::new(1900, 2, 29).is_none());
    assert!(Date::new(2100, 2, 29).is_none());
    assert!(Date::new(-1, 2, 29).is_none());
    assert!(Date::new(2023, 0, 1).is_none());
    assert!(Date::new(2023, 13, 1).is_none());
    assert!(Date::new(2023, 1, 0).is_none());
    assert!(Date::new(2023, 1, 32).is_none());
    assert!(Date::new(10000, 1, 1).is_none());
    assert!(Date::new(-10000, 1, 1).is_none());
    for month in [4u8, 6, 9, 11] {
        assert!(Date::new(2023, month, 31).is_none());
    }
}

#[test]
fn is_before_orders_by_year_month_day() {
    let a = Date::new(2022, 10, 6).unwrap();
    let b = Date::new(2022, 10, 7).unwrap();
    let c = Date::new(2022, 11, 1).unwrap();
    let d = Date::new(2023, 1, 1).unwrap();
    let e = Date::new(-1, 12, 31).unwrap();
    assert!(a.is_before(&b));
    assert!(b.is_before(&c));
    assert!(c.is_before(&d));
    assert!(a.is_before(&d));
    assert!(e.is_before(&a));
    assert!(!b.is_before(&a));
    assert!(!d.is_before(&c));
    assert!(!a.is_before(&a));
    assert_eq!(a, Date::new(2022, 10, 6).unwrap());
    assert_ne!(a, b);
}

#[test]
fn the_text_of_a_date() {
    assert_eq!(Date::new(2022, 10, 6).unwrap().to_string(), "2022-10-06");
    assert_eq!(Date::new(2024, 2, 29).unwrap().to_string(), "2024-02-29");
    assert_eq!(Date::new(9999, 12, 31).unwrap().to_string(), "9999-12-31");
    assert_eq!(Date::new(5, 1, 1).unwrap().to_string(), "0005-01-01");
    assert_eq!(Date::new(-1, 3, 9).unwrap().to_string(), "-0001-03-09");
}
