use yaminabe::uptime::Uptime;

fn parts(u: &Uptime) -> [u64; 7] {
    [u.day, u.hour, u.min, u.sec, u.ms, u.micro, u.nano]
}

#[test]
fn uptime_of_zero() {
    let u = Uptime::from(0u64);
    assert_eq!(parts(&u), [0; 7]);
    assert_eq!(u.to_string(), "0d 0:0:0:0.0.0");
}

#[test]
fn uptime_splits_every_unit() {
    let ns: u64 = ((((((2 * 24 + 3) * 60 + 4) * 60 + 5) * 1000 + 6) * 1000) + 7) * 1000 + 8;
    let u = Uptime::from(ns);
    assert_eq!(parts(&u), [2, 3, 4, 5, 6, 7, 8]);
    assert_eq!(u.to_string(), "2d 3:4:5:6.7.8");
}

#[test]
fn uptime_just_below_each_unit() {
    let u = Uptime::from(86_400_000_000_000u64 - 1);
    assert_eq!(parts(&u), [0, 23, 59, 59, 999, 999, 999]);
    assert_eq!(u.to_string(), "0d 23:59:59:999.999.999");
    let u = Uptime::from(86_400_000_000_000u64);
    assert_eq!(parts(&u), [1, 0, 0, 0, 0, 0, 0]);
}

#[test]
fn uptime_of_largest_timestamp() {
    let u = Uptime::from(u64::MAX);
    assert_eq!(parts(&u), [213503, 23, 34, 33, 709, 551, 615]);
    assert_eq!(u.to_string(), "213503d 23:34:33:709.551.615");
    let total = ((((((u.day as u128 * 24 + u.hour as u128) * 60 + u.min as u128) * 60
        + u.sec as u128)
        * 1000
        + u.ms as u128)
        * 1000)
        + u.micro as u128)
        * 1000
        + u.nano as u128;
    assert_eq!(total, u64::MAX as u128);
}

#[test]
fn uptime_parts_add_up() {
    for ns in [1u64, 999, 1000, 1_000_000, 999_999_999, 1_000_000_000, 59_999_999_999, 3_599_999_999_999, 123_456_789_012_345] {
        let u = Uptime::from(ns);
        let total = ((((((u.day * 24 + u.hour) * 60 + u.min) * 60 + u.sec) * 1000 + u.ms) * 1000)
            + u.micro)
            * 1000
            + u.nano;
        assert_eq!(total, ns);
        assert!(u.hour < 24 && u.min < 60 && u.sec < 60);
        assert!(u.ms < 1000 && u.micro < 1000 && u.nano < 1000);
    }
}

