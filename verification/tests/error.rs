use errchain::error::Error;
use errchain::error::ErrorContext;
use errchain::error::IntoError;
use errchain::error::RangeError;
use std::cell::Cell;

// The Error handle must stay exactly one machine word, whatever payload it
// carries: it is returned from nearly every fallible operation, so its size
// directly affects calling-convention cost.
#[test]
fn error_size() {
    let expected_size = core::mem::size_of::<usize>();
    assert_eq!(expected_size, core::mem::size_of::<Error>());
}

#[test]
fn unsigned_range_renders() {
    let e = Error::unsigned("day", 40u64 as u128, 1i128, 31i128);
    assert_eq!(
        e.display_string(),
        "parameter 'day' with value 40 is not in the required range of 1..=31"
    );
}

#[test]
fn signed_range_renders() {
    let e = Error::signed("offset", -90000i128, -86399i128, 86399i128);
    assert_eq!(
        e.display_string(),
        "parameter 'offset' with value -90000 is not in the required range of -86399..=86399"
    );
}

#[test]
fn specific_renders() {
    let e = Error::specific("day", 0i128);
    assert_eq!(e.display_string(), "parameter 'day' with value 0 is illegal");
}

#[test]
fn time_zone_lookup_renders() {
    let e = Error::time_zone_lookup("Fake/Zone".to_string());
    assert_eq!(
        e.display_string(),
        "failed to find timezone 'Fake/Zone' in time zone database"
    );
}

#[test]
fn adhoc_context_renders() {
    let e = Error::adhoc("bad input".to_string()).context("parsing duration");
    assert_eq!(e.display_string(), "parsing duration: bad input");
}

#[test]
fn leaf_renders_single_segment() {
    assert_eq!(Error::adhoc("bad input".to_string()).display_string(), "bad input");
    assert_eq!(Error::io("broken pipe".to_string()).display_string(), "broken pipe");
    assert!(!Error::specific("hour", 24i128).display_string().contains(": "));
    assert!(!Error::time_zone_lookup("X".to_string()).display_string().contains(": "));
    assert!(!Error::unsigned("hour", 99u128, 0i128, 23i128).display_string().contains(": "));
}

#[test]
fn context_chains_in_order() {
    let a = Error::adhoc("A-text".to_string());
    let ab = a.context("B-text");
    assert_eq!(ab.display_string(), "B-text: A-text");
    let abc = ab.context("C-text");
    assert_eq!(abc.display_string(), "C-text: B-text: A-text");
}

#[test]
fn into_error_round_trip() {
    let direct = Error::adhoc("x".to_string());
    assert_eq!(direct.display_string(), "x");
    let via_str = Error::adhoc("base".to_string()).context("x");
    assert_eq!(via_str.display_string(), "x: base");
    let via_string = Error::adhoc("base".to_string()).context("x".to_string());
    assert_eq!(via_string.display_string(), "x: base");
    let via_closure = Error::adhoc("base".to_string()).with_context(|| "x");
    assert_eq!(via_closure.display_string(), "x: base");
}

#[test]
fn error_as_context_argument() {
    let cause = Error::adhoc("cause".to_string());
    let consequent = Error::time_zone_lookup("Nowhere/City".to_string());
    let chained = cause.context(consequent);
    assert_eq!(
        chained.display_string(),
        "failed to find timezone 'Nowhere/City' in time zone database: cause"
    );
}

#[test]
fn range_error_payload_renders() {
    let unsigned = RangeError::unsigned("month", 13u128, 1i128, 12i128);
    assert_eq!(
        unsigned.display_string(),
        "parameter 'month' with value 13 is not in the required range of 1..=12"
    );
    let signed = RangeError::signed("nanosecond", -2_000_000_000i128, -999_999_999i128, 999_999_999i128);
    assert_eq!(
        signed.display_string(),
        "parameter 'nanosecond' with value -2000000000 is not in the required range of -999999999..=999999999"
    );
    let specific = RangeError::specific("weekday", 8i128);
    assert_eq!(specific.display_string(), "parameter 'weekday' with value 8 is illegal");
}

#[test]
fn extreme_values_render() {
    let e = Error::unsigned("n", u128::MAX, i128::MIN, i128::MAX);
    let expected = format!(
        "parameter 'n' with value {} is not in the required range of {}..={}",
        u128::MAX,
        i128::MIN,
        i128::MAX
    );
    assert_eq!(e.display_string(), expected);
    let zero = Error::signed("n", 0i128, 0i128, 0i128);
    assert_eq!(
        zero.display_string(),
        "parameter 'n' with value 0 is not in the required range of 0..=0"
    );
}

#[test]
fn fs_and_path_render() {
    let e = Error::fs("/etc/app/config".to_string(), "permission denied".to_string());
    assert_eq!(e.display_string(), "/etc/app/config: permission denied");
    let p = Error::adhoc("unreadable".to_string()).path("/tmp/data".to_string());
    assert_eq!(p.display_string(), "/tmp/data: unreadable");
}

#[test]
fn clone_renders_same() {
    let e = Error::adhoc("original".to_string()).context("wrapped");
    let c = e.clone();
    assert_eq!(e.display_string(), c.display_string());
    assert_eq!(c.display_string(), "wrapped: original");
}

#[test]
fn result_context_on_err() {
    let r: Result<i32, Error> = Err(Error::adhoc("low-level".to_string()));
    let r2 = r.context("high-level");
    match r2 {
        Err(e) => assert_eq!(e.display_string(), "high-level: low-level"),
        Ok(_) => panic!("context must keep the failure"),
    }
}

#[test]
fn result_ok_passes_through() {
    let r: Result<i32, Error> = Ok(5);
    let r2 = r.context("never seen");
    match r2 {
        Ok(v) => assert_eq!(v, 5),
        Err(_) => panic!("context must pass success through"),
    }
}

#[test]
fn with_context_lazy_on_success() {
    let called = Cell::new(false);
    let r: Result<i32, Error> = Ok(5);
    let r2 = r.with_context(|| {
        called.set(true);
        "building report"
    });
    assert!(!called.get());
    match r2 {
        Ok(v) => assert_eq!(v, 5),
        Err(_) => panic!("with_context must pass success through"),
    }
}

#[test]
fn with_context_runs_producer_on_failure() {
    let called = Cell::new(false);
    let r: Result<i32, Error> = Err(Error::adhoc("disk full".to_string()));
    let r2 = r.with_context(|| {
        called.set(true);
        "writing journal".to_string()
    });
    assert!(called.get());
    match r2 {
        Err(e) => assert_eq!(e.display_string(), "writing journal: disk full"),
        Ok(_) => panic!("with_context must keep the failure"),
    }
}

#[test]
fn into_error_is_identity_on_error() {
    let e = Error::adhoc("kept".to_string()).context("outer");
    let e2 = e.into_error();
    assert_eq!(e2.display_string(), "outer: kept");
}
