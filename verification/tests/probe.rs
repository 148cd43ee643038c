use idle_time::duration::IdleDuration;
use idle_time::linux;
use idle_time::macos::{self, Handle, PropertyValue, RegistryOutcome};
use idle_time::windows;
use idle_time::{below_threshold, idle_millis, Error};

fn registry_success(value: PropertyValue) -> RegistryOutcome {
    RegistryOutcome {
        port_status: 0,
        lookup_status: 0,
        iterator: 11,
        entry: 12,
        properties_status: 0,
        key_present: true,
        value,
        os_error: String::new(),
    }
}

#[test]
fn linux_first_endpoint_locked_reports_sentinel() {
    // The query arguments carry a failing status: a locked session must
    // win without the display-server outcome entering the result.
    let answers = vec![Some(true), None, None];
    let r = linux::idle(&answers, 0, 0);
    assert_eq!(r.unwrap(), IdleDuration::max());
}

#[test]
fn linux_second_endpoint_locked_reports_sentinel() {
    let answers = vec![None, Some(true), None];
    let r = linux::idle(&answers, 0, 0);
    assert_eq!(r.unwrap(), IdleDuration::max());
}

#[test]
fn linux_third_endpoint_locked_reports_sentinel() {
    let answers = vec![None, None, Some(true)];
    let r = linux::idle(&answers, 0, 0);
    assert_eq!(r.unwrap(), IdleDuration::max());
}

#[test]
fn linux_first_answer_wins_over_later_ones() {
    let answers = vec![Some(false), Some(true), Some(true)];
    assert!(!linux::is_locked(&answers));
    let r = linux::idle(&answers, 1, 500);
    assert_eq!(r.unwrap(), IdleDuration::from_millis(500));
}

#[test]
fn linux_exhausted_endpoints_fall_back_to_query() {
    let answers = vec![None, None, None];
    assert!(!linux::is_locked(&answers));
    let r = linux::idle(&answers, 1, 42_000);
    assert_eq!(r.unwrap(), IdleDuration::from_millis(42_000));
}

#[test]
fn linux_bad_query_status_is_status_not_ok() {
    let answers = vec![None, None, None];
    let r = linux::idle(&answers, 0, 42_000);
    assert_eq!(r.unwrap_err().cause, "Status not OK");
    let r2 = linux::idle_from_query(2, 7);
    assert_eq!(r2.unwrap_err().cause, "Status not OK");
}

#[test]
fn linux_endpoint_table_is_fixed() {
    let eps = linux::screensaver_endpoints();
    assert_eq!(eps.len(), 3);
    assert_eq!(eps[0].bus_name, "org.freedesktop.ScreenSaver");
    assert_eq!(eps[0].object_path, "/ScreenSaver");
    assert_eq!(eps[0].interface, "org.freedesktop.ScreenSaver");
    assert_eq!(eps[1].bus_name, "org.gnome.ScreenSaver");
    assert_eq!(eps[1].interface, "org.gnome.ScreenSaver");
    assert_eq!(eps[2].bus_name, "org.kde.ScreenSaver");
    assert_eq!(eps[2].interface, "org.freedesktop.ScreenSaver");
}

#[test]
fn macos_blob_and_number_decode_alike() {
    let n: i64 = 987_654_321_000;
    let blob = PropertyValue::Bytes(n.to_le_bytes().to_vec());
    let boxed = PropertyValue::Number(n);
    let from_blob = macos::decode_idle_nanos(&blob).unwrap();
    let from_boxed = macos::decode_idle_nanos(&boxed).unwrap();
    assert_eq!(from_blob, n as u64);
    assert_eq!(from_blob, from_boxed);
    assert_eq!(
        IdleDuration::from_nanos(from_blob),
        IdleDuration::from_nanos(from_boxed)
    );
}

#[test]
fn macos_blob_decodes_little_endian() {
    let blob = PropertyValue::Bytes(vec![0x01, 0x02, 0, 0, 0, 0, 0, 0]);
    assert_eq!(macos::decode_idle_nanos(&blob).unwrap(), 0x0201);
}

#[test]
fn macos_unrecognized_encoding_is_fatal() {
    let e = macos::decode_idle_nanos(&PropertyValue::Unrecognized).unwrap_err();
    assert_eq!(
        e.cause,
        "unexpected type of value returned from CFDictionaryGetValueIfPresent"
    );
}

#[test]
fn macos_success_path_releases_all_three_once() {
    let out = macos::idle(&registry_success(PropertyValue::Number(5_000_000_000)));
    assert_eq!(
        out.releases,
        vec![Handle::Iterator, Handle::Entry, Handle::Properties]
    );
    assert_eq!(out.result.unwrap(), IdleDuration::from_nanos(5_000_000_000));
}

#[test]
fn macos_port_failure_releases_nothing() {
    let mut o = registry_success(PropertyValue::Number(1));
    o.port_status = -308;
    o.os_error = String::from("kernel said no");
    let out = macos::idle(&o);
    assert!(out.releases.is_empty());
    assert_eq!(
        out.result.unwrap_err().cause,
        "unable to open mach port: kernel said no"
    );
}

#[test]
fn macos_lookup_failure_releases_nothing() {
    let mut o = registry_success(PropertyValue::Number(1));
    o.lookup_status = 5;
    o.os_error = String::from("lookup went sideways");
    let out = macos::idle(&o);
    assert!(out.releases.is_empty());
    assert_eq!(
        out.result.unwrap_err().cause,
        "unable to lookup IOHIDSystem: lookup went sideways"
    );
}

#[test]
fn macos_empty_iterator_releases_nothing() {
    let mut o = registry_success(PropertyValue::Number(1));
    o.iterator = 0;
    let out = macos::idle(&o);
    assert!(out.releases.is_empty());
    assert_eq!(
        out.result.unwrap_err().cause,
        "unable to get IOHIDSystem service"
    );
}

#[test]
fn macos_no_entry_releases_iterator_only() {
    let mut o = registry_success(PropertyValue::Number(1));
    o.entry = 0;
    o.os_error = String::from("exhausted");
    let out = macos::idle(&o);
    assert_eq!(out.releases, vec![Handle::Iterator]);
    assert_eq!(out.result.unwrap_err().cause, "IOIteratorNext failed: exhausted");
}

#[test]
fn macos_properties_failure_releases_iterator_and_entry() {
    let mut o = registry_success(PropertyValue::Number(1));
    o.properties_status = 1;
    o.os_error = String::from("no dictionary");
    let out = macos::idle(&o);
    assert_eq!(out.releases, vec![Handle::Iterator, Handle::Entry]);
    assert_eq!(
        out.result.unwrap_err().cause,
        "unable to get properties: no dictionary"
    );
}

#[test]
fn macos_missing_key_still_releases_all_three() {
    let mut o = registry_success(PropertyValue::Number(1));
    o.key_present = false;
    o.os_error = String::from("not there");
    let out = macos::idle(&o);
    assert_eq!(
        out.releases,
        vec![Handle::Iterator, Handle::Entry, Handle::Properties]
    );
    assert_eq!(
        out.result.unwrap_err().cause,
        "CFDictionaryGetValueIfPresent failed: not there"
    );
}

#[test]
fn macos_unexpected_encoding_still_releases_all_three() {
    let out = macos::idle(&registry_success(PropertyValue::Unrecognized));
    assert_eq!(
        out.releases,
        vec![Handle::Iterator, Handle::Entry, Handle::Properties]
    );
    assert_eq!(
        out.result.unwrap_err().cause,
        "unexpected type of value returned from CFDictionaryGetValueIfPresent"
    );
}

#[test]
fn windows_difference_is_exact() {
    let d = windows::idle(1, 100_000, 40_000).unwrap();
    assert_eq!(d, IdleDuration::from_millis(60_000));
    assert_eq!(d.as_millis(), 60_000);
}

#[test]
fn windows_equal_counters_give_zero() {
    let d = windows::idle(1, 12_345, 12_345).unwrap();
    assert_eq!(d, IdleDuration::from_millis(0));
    assert_eq!(d.as_millis(), 0);
}

#[test]
fn windows_failed_query_reports_error() {
    let e = windows::idle(0, 1, 0).unwrap_err();
    assert_eq!(e.cause, "failed to get last input info");
}

#[test]
fn windows_wrapped_counter_wraps_mod_2_32() {
    // tick counter wrapped past zero since the last input
    let d = windows::idle(1, 5, u32::MAX).unwrap();
    assert_eq!(d, IdleDuration::from_millis(6));
}

#[test]
fn adapter_failure_is_minus_one() {
    let e = Error::new(String::from("anything at all"));
    assert_eq!(idle_millis(Err(e)), -1);
}

#[test]
fn adapter_success_is_millisecond_count() {
    assert_eq!(idle_millis(Ok(IdleDuration::from_millis(1_500))), 1_500);
    assert_eq!(idle_millis(Ok(IdleDuration::from_nanos(2_999_999))), 2);
    assert_eq!(idle_millis(Ok(IdleDuration::from_millis(0))), 0);
}

#[test]
fn adapter_sentinel_saturates_positive() {
    let m = idle_millis(Ok(IdleDuration::max()));
    assert_eq!(m, i64::MAX);
    assert!(m > 0);
}

#[test]
fn threshold_boundary_is_sharp() {
    assert!(below_threshold(&IdleDuration::from_millis(119_999)));
    assert!(!below_threshold(&IdleDuration::from_millis(120_000)));
    assert!(!below_threshold(&IdleDuration::max()));
}

#[test]
fn duration_conversions_are_exact() {
    let d = IdleDuration::from_millis(1_234);
    assert_eq!(d.as_millis(), 1_234);
    let n = IdleDuration::from_nanos(1_234_567_890);
    assert_eq!(n.as_millis(), 1_234);
    assert_eq!(IdleDuration::from_millis(1_000), IdleDuration::from_nanos(1_000_000_000));
    assert!(IdleDuration::from_millis(1).lt(&IdleDuration::from_millis(2)));
    assert!(!IdleDuration::from_millis(2).lt(&IdleDuration::from_millis(2)));
}
