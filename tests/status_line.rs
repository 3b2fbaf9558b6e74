use desktop_status::alert::{alert_for, alert_messages, banner, AlertMonitor, AlertState};
use desktop_status::battery::{
    battery_fragment, battery_percent, battery_reading, is_discharging, status_suffix, BatteryError,
    BatteryReading,
};
use desktop_status::cache::{TtlCache, REMOTE_LIFESPAN_SECS};
use desktop_status::clock::{time_fragment, time_reading_at, CivilTime, TimeReading};
use desktop_status::load::{load_fragment, load_from_call, LoadAvg, LoadError};
use desktop_status::remote::{nth_field, parse_remote_page, remote_fragment, remote_stats, RemoteError, RemoteStats};
use desktop_status::status::{compose_line, fragment, registry, Provider, Sample, SYSTEM_NAME};
use desktop_status::text::{parse_decimal, push_decimal, push_two_digits};

fn civil(year: i32, month: u32, day: u32, hour: u32, minute: u32) -> CivilTime {
    CivilTime { year, month, day, hour, minute }
}

fn reading(percent: u64, status: &str) -> BatteryReading {
    BatteryReading { percent, status: status.to_string() }
}

fn rule() -> String {
    "=".repeat(30)
}

const PAGE: &str = "<html><body>\
<div class=\"active\"><span class=\"counter\">3</span></div>\
<div class=\"recovered\"><div class=\"new-cases\"><span class=\"recovered\">New recovered 1</span></div></div>\
</body></html>";

#[test]
fn decimal_text_round_values() {
    let mut s = String::new();
    push_decimal(&mut s, 0);
    push_decimal(&mut s, 1207);
    push_two_digits(&mut s, 7);
    assert_eq!(s, "0120707");
    assert_eq!(parse_decimal("18446744073709551615"), Some(u64::MAX));
    assert_eq!(parse_decimal("18446744073709551616"), None);
    assert_eq!(parse_decimal(""), None);
    assert_eq!(parse_decimal("12a"), None);
    assert_eq!(parse_decimal("042"), Some(42));
}

#[test]
fn percentage_of_design_capacity() {
    assert_eq!(battery_percent("1", "200", "50"), Ok(25));
    assert_eq!(battery_percent("1", "3", "2"), Ok(66));
    assert_eq!(battery_percent("1", "100", "250"), Ok(250));
}

#[test]
fn battery_errors() {
    assert_eq!(battery_percent("0", "200", "50"), Err(BatteryError::NotPresent));
    assert_eq!(battery_percent("", "200", "50"), Err(BatteryError::NotPresent));
    assert_eq!(battery_percent("1", "2x0", "50"), Err(BatteryError::Malformed));
    assert_eq!(battery_percent("1", "200", ""), Err(BatteryError::Malformed));
    assert_eq!(battery_percent("1", "0", "50"), Err(BatteryError::ZeroDesign));
    assert_eq!(battery_percent("1", "1", "18446744073709551615"), Err(BatteryError::Malformed));
}

#[test]
fn status_suffixes() {
    assert_eq!(status_suffix("Discharging"), '-');
    assert_eq!(status_suffix("Charging"), '+');
    assert_eq!(status_suffix("Full"), '/');
    assert_eq!(status_suffix("discharging"), '/');
    assert!(is_discharging("Discharging"));
    assert!(!is_discharging("Charging"));
}

#[test]
fn battery_fragments() {
    assert_eq!(battery_fragment(&reading(84, "Discharging")), "B:84%-|");
    assert_eq!(battery_fragment(&reading(42, "Charging")), "B:42%+|");
    assert_eq!(battery_fragment(&reading(100, "Unknown")), "B:100%/|");
    let r = battery_reading("1", "200", "50", "Discharging".to_string()).unwrap();
    assert_eq!(r.percent, 25);
    assert_eq!(battery_fragment(&r), "B:25%-|");
    assert_eq!(battery_reading("0", "200", "50", "Charging".to_string()), Err(BatteryError::NotPresent));
}

#[test]
fn load_fragment_two_decimals() {
    let l = LoadAvg { one: 12, five: 8, fifteen: 5 };
    assert_eq!(load_fragment(&l), "L:0.12 0.08 0.05|");
    let l = LoadAvg { one: 1234, five: 100, fifteen: 0 };
    assert_eq!(load_fragment(&l), "L:12.34 1.00 0.00|");
}

#[test]
fn load_call_counts() {
    let l = LoadAvg { one: 1, five: 2, fifteen: 3 };
    assert_eq!(load_from_call(3, l), Ok(l));
    assert_eq!(load_from_call(-1, l), Err(LoadError::Unavailable));
    assert_eq!(load_from_call(2, l), Err(LoadError::Malformed));
}

#[test]
fn time_fragment_formats() {
    let t = TimeReading { local: civil(2024, 1, 1, 9, 15), gulf: civil(2024, 1, 1, 13, 15) };
    assert_eq!(time_fragment(&t), "UK:09:15 AE:01:15 PM 01-01-2024|");
    let t = TimeReading { local: civil(2024, 2, 28, 0, 5), gulf: civil(2024, 2, 28, 4, 5) };
    assert_eq!(time_fragment(&t), "UK:00:05 AE:04:05 AM 28-02-2024|");
    let t = TimeReading { local: civil(987, 12, 31, 12, 0), gulf: civil(987, 12, 31, 16, 0) };
    assert_eq!(time_fragment(&t), "UK:12:00 AE:04:00 PM 31-12-0987|");
    let t = TimeReading { local: civil(2024, 3, 9, 21, 15), gulf: civil(2024, 3, 10, 0, 15) };
    assert_eq!(time_fragment(&t), "UK:21:15 AE:12:15 AM 10-03-2024|");
}

#[test]
fn time_reading_from_clock_values() {
    let t = time_reading_at(0, 0).unwrap();
    assert_eq!(t.local, civil(1970, 1, 1, 0, 0));
    assert_eq!(t.gulf, civil(1970, 1, 1, 4, 0));
    assert_eq!(time_fragment(&t), "UK:00:00 AE:04:00 AM 01-01-1970|");
    let t = time_reading_at(1_704_067_200 + 13 * 3600 + 59 * 60, 3600).unwrap();
    assert_eq!(t.local, civil(2024, 1, 1, 14, 59));
    assert_eq!(t.gulf, civil(2024, 1, 1, 17, 59));
    assert_eq!(time_fragment(&t), "UK:14:59 AE:05:59 PM 01-01-2024|");
    let t = time_reading_at(-3600, -18000).unwrap();
    assert_eq!(t.local, civil(1969, 12, 31, 18, 0));
    assert_eq!(t.gulf, civil(1970, 1, 1, 3, 0));
    assert_eq!(time_reading_at(i64::MAX, 0), None);
}

#[test]
fn fields_split_at_spaces() {
    assert_eq!(nth_field("New recovered 123", 2), Some("123".to_string()));
    assert_eq!(nth_field("a  b", 2), Some("b".to_string()));
    assert_eq!(nth_field("a b", 2), None);
    assert_eq!(nth_field("a b ", 2), Some("".to_string()));
}

#[test]
fn remote_counters_from_texts() {
    assert_eq!(
        remote_stats(Some("3".to_string()), Some("New recovered 1".to_string())),
        Ok(RemoteStats { active: 3, recovered: 1 })
    );
    assert_eq!(remote_stats(None, Some("a b 1".to_string())), Err(RemoteError::MissingField));
    assert_eq!(remote_stats(Some("3".to_string()), None), Err(RemoteError::MissingField));
    assert_eq!(remote_stats(Some("3".to_string()), Some("a b".to_string())), Err(RemoteError::Malformed));
    assert_eq!(remote_stats(Some("x".to_string()), Some("a b 1".to_string())), Err(RemoteError::Malformed));
}

#[test]
fn remote_page_parsing() {
    assert_eq!(parse_remote_page(200, PAGE), Ok(RemoteStats { active: 3, recovered: 1 }));
    assert_eq!(parse_remote_page(500, PAGE), Err(RemoteError::Status(500)));
    assert_eq!(parse_remote_page(200, "<html><body></body></html>"), Err(RemoteError::MissingField));
    assert_eq!(remote_fragment(&RemoteStats { active: 3, recovered: 1 }), "A:3 R:1|");
}

#[test]
fn cache_serves_within_lifespan() {
    let st = RemoteStats { active: 3, recovered: 1 };
    let mut c: TtlCache<RemoteStats> = TtlCache::new(REMOTE_LIFESPAN_SECS);
    assert_eq!(c.lookup(100), None);
    assert_eq!(c.record::<RemoteError>(100, Ok(st)), Ok(st));
    assert_eq!(c.lookup(100), Some(st));
    assert_eq!(c.lookup(100 + 21599), Some(st));
    assert_eq!(c.lookup(100 + 21600), None);
}

#[test]
fn cache_counts_source_calls() {
    let mut calls = 0;
    let mut c: TtlCache<RemoteStats> = TtlCache::new(10);
    for now in [0u64, 3, 9, 10, 15, 19, 20] {
        if c.lookup(now).is_none() {
            calls += 1;
            let _ = c.record::<RemoteError>(now, Ok(RemoteStats { active: now, recovered: 0 }));
        }
    }
    assert_eq!(calls, 3);
    assert_eq!(c.lookup(25), Some(RemoteStats { active: 20, recovered: 0 }));
}

#[test]
fn cache_failure_keeps_entry() {
    let st = RemoteStats { active: 7, recovered: 2 };
    let mut c: TtlCache<RemoteStats> = TtlCache::new(10);
    let _ = c.record::<RemoteError>(0, Ok(st));
    assert_eq!(c.record(12, Err(RemoteError::Transport)), Err(RemoteError::Transport));
    assert_eq!(c.lookup(12), None);
    assert_eq!(c.lookup(5), Some(st));
}

#[test]
fn low_battery_alert_sequence() {
    let b = format!("{} !!! Low Battery !!! (15%) {}", rule(), rule());
    assert_eq!(banner(15), b);
    let m = alert_messages(15, true);
    assert_eq!(m, vec![b.clone(), "hey!".to_string(), b.clone(), "hey!".to_string()]);
    assert_eq!(alert_messages(19, true).len(), 4);
    assert_eq!(alert_messages(0, true).len(), 4);
}

#[test]
fn no_alert_at_or_above_threshold_or_charging() {
    assert!(alert_messages(20, true).is_empty());
    assert!(alert_messages(95, true).is_empty());
    assert!(alert_messages(5, false).is_empty());
    assert!(alert_for(&Ok(reading(10, "Charging"))).is_empty());
    assert!(alert_for(&Err(BatteryError::Unavailable)).is_empty());
    assert_eq!(alert_for(&Ok(reading(10, "Discharging"))).len(), 4);
}

#[test]
fn monitor_steps_back_to_normal() {
    let mut m = AlertMonitor::begin(12, true);
    assert_eq!(m.state, AlertState::Alerting { done: 0 });
    for k in 0..4u64 {
        assert_eq!(m.state, AlertState::Alerting { done: k });
        assert!(m.step().is_some());
    }
    assert_eq!(m.state, AlertState::Normal);
    assert_eq!(m.step(), None);
    let m = AlertMonitor::begin(20, true);
    assert_eq!(m.state, AlertState::Normal);
}

#[test]
fn registry_order() {
    assert_eq!(registry(), vec![Provider::Remote, Provider::Load, Provider::Battery, Provider::Time]);
}

fn tick_samples(remote_ok: bool, load_ok: bool) -> Vec<Sample> {
    vec![
        Sample::Remote(if remote_ok {
            Ok(RemoteStats { active: 3, recovered: 1 })
        } else {
            Err(RemoteError::Transport)
        }),
        Sample::Load(load_from_call(if load_ok { 3 } else { -1 }, LoadAvg { one: 10, five: 5, fifteen: 1 })),
        Sample::Battery(Ok(reading(42, "Charging"))),
        Sample::Time(Some(TimeReading { local: civil(2024, 1, 1, 9, 15), gulf: civil(2024, 1, 1, 13, 15) })),
    ]
}

#[test]
fn end_to_end_line() {
    let mut c: TtlCache<RemoteStats> = TtlCache::new(REMOTE_LIFESPAN_SECS);
    let _ = c.record::<RemoteError>(0, Ok(RemoteStats { active: 3, recovered: 1 }));
    let fresh = c.lookup(60).unwrap();
    let mut samples = tick_samples(true, true);
    samples[0] = Sample::Remote(Ok(fresh));
    let line = compose_line(&samples);
    assert_eq!(
        line,
        "A:3 R:1|L:0.10 0.05 0.01|B:42%+|UK:09:15 AE:01:15 PM 01-01-2024|humaid's system"
    );
    assert!(line.ends_with(SYSTEM_NAME));
}

#[test]
fn failed_provider_contributes_nothing() {
    assert_eq!(fragment(&Sample::Load(Err(LoadError::Unavailable))), "");
    assert_eq!(fragment(&Sample::Time(None)), "");
    let bad = TimeReading { local: civil(2024, 13, 1, 9, 15), gulf: civil(2024, 1, 1, 13, 15) };
    assert_eq!(fragment(&Sample::Time(Some(bad))), "");
    assert_eq!(
        compose_line(&tick_samples(false, true)),
        "L:0.10 0.05 0.01|B:42%+|UK:09:15 AE:01:15 PM 01-01-2024|humaid's system"
    );
    assert_eq!(
        compose_line(&tick_samples(true, false)),
        "A:3 R:1|B:42%+|UK:09:15 AE:01:15 PM 01-01-2024|humaid's system"
    );
    assert_eq!(compose_line(&Vec::new()), "humaid's system");
}

#[test]
fn same_samples_same_line() {
    assert_eq!(compose_line(&tick_samples(true, true)), compose_line(&tick_samples(true, true)));
    assert_eq!(compose_line(&tick_samples(false, false)), compose_line(&tick_samples(false, false)));
}
