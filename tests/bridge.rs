use std::cell::Cell;
use std::sync::{Arc, Mutex};

use circada_bridge::binding::{contain_flag, contain_rate, RateReading};
use circada_bridge::commands::{
    request_healthkit_permissions, start_healthkit_monitoring, stop_healthkit_monitoring,
};
use circada_bridge::monitor::HealthKitManager;
use circada_bridge::platform::{healthkit_is_available, select_binding, BindingKind, BuildConfig};
use circada_bridge::relay::{CallbackRelay, Fanout};
use circada_bridge::sample::HeartRateData;
use circada_bridge::simulation::{
    healthkit_get_current_hr, healthkit_request_permissions, healthkit_start_monitoring,
    healthkit_stop_monitoring,
};

fn start_with(m: &mut HealthKitManager, calls: &Cell<u32>, answer: bool) -> Result<(), String> {
    let outcome = if m.needs_start() {
        calls.set(calls.get() + 1);
        Some(answer)
    } else {
        None
    };
    m.start_monitoring(outcome)
}

fn stop_with(m: &mut HealthKitManager, calls: &Cell<u32>) {
    if m.stop_monitoring() {
        calls.set(calls.get() + 1);
    }
}

#[test]
fn second_start_does_not_invoke_binding() {
    let calls = Cell::new(0u32);
    let mut m = HealthKitManager::new();
    assert!(m.needs_start());
    assert_eq!(start_with(&mut m, &calls, true), Ok(()));
    assert!(!m.needs_start());
    assert_eq!(start_with(&mut m, &calls, true), Ok(()));
    assert_eq!(calls.get(), 1);
    assert!(m.is_monitoring());
}

#[test]
fn stop_on_fresh_manager_is_noop() {
    let calls = Cell::new(0u32);
    let mut m = HealthKitManager::new();
    assert!(!m.stop_monitoring());
    stop_with(&mut m, &calls);
    assert_eq!(calls.get(), 0);
    assert!(!m.is_monitoring());
}

#[test]
fn monitoring_flag_tracks_start_and_stop() {
    let starts = Cell::new(0u32);
    let stops = Cell::new(0u32);
    let mut m = HealthKitManager::new();
    assert!(!m.is_monitoring());
    assert_eq!(start_with(&mut m, &starts, true), Ok(()));
    assert!(m.is_monitoring());
    stop_with(&mut m, &stops);
    assert!(!m.is_monitoring());
    assert_eq!(stops.get(), 1);
    stop_with(&mut m, &stops);
    assert_eq!(stops.get(), 1);
    assert_eq!(start_with(&mut m, &starts, true), Ok(()));
    assert_eq!(starts.get(), 2);
}

#[test]
fn failed_start_stays_idle_and_reports_message() {
    let calls = Cell::new(0u32);
    let mut m = HealthKitManager::new();
    let r = start_with(&mut m, &calls, false);
    assert_eq!(r, Err("Failed to start HealthKit monitoring".to_string()));
    assert!(!m.is_monitoring());
    assert!(m.needs_start());
    assert_eq!(start_with(&mut m, &calls, true), Ok(()));
    assert!(m.is_monitoring());
    assert_eq!(calls.get(), 2);
}

#[test]
fn permissions_forward_binding_answer() {
    assert_eq!(request_healthkit_permissions(false), Ok(false));
    assert_eq!(request_healthkit_permissions(healthkit_request_permissions()), Ok(true));
}

#[test]
fn starts_through_shared_lock_invoke_binding_once() {
    let manager = Arc::new(Mutex::new(HealthKitManager::new()));
    let calls = Cell::new(0u32);
    let mut results = Vec::new();
    for _ in 0..2 {
        let manager = Arc::clone(&manager);
        let mut m = manager.lock().unwrap();
        results.push(start_with(&mut m, &calls, true));
    }
    assert_eq!(results, vec![Ok(()), Ok(())]);
    assert_eq!(calls.get(), 1);
    assert!(manager.lock().unwrap().is_monitoring());
}

#[test]
fn start_command_maps_failure() {
    let mut m = HealthKitManager::new();
    assert_eq!(
        start_healthkit_monitoring(&mut m, Some(false)),
        Err("Failed to start monitoring".to_string())
    );
    assert!(m.needs_start());
    assert_eq!(start_healthkit_monitoring(&mut m, Some(healthkit_start_monitoring())), Ok(()));
    assert!(m.is_monitoring());
    assert_eq!(start_healthkit_monitoring(&mut m, None), Ok(()));
    let (r, invoke) = stop_healthkit_monitoring(&mut m);
    assert_eq!(r, Ok(()));
    assert!(invoke);
    healthkit_stop_monitoring();
    assert!(!m.is_monitoring());
    assert_eq!(stop_healthkit_monitoring(&mut m), (Ok(()), false));
}

#[test]
fn simulated_rate_stays_in_range() {
    for now in [0u64, 1, 9, 10, 1_700_000_005, u64::MAX] {
        let r = healthkit_get_current_hr(now);
        assert!((70..80).contains(&r));
    }
    assert_eq!(healthkit_get_current_hr(1_700_000_005), 75);
    assert_eq!(healthkit_get_current_hr(19), 79);
    assert_eq!(healthkit_get_current_hr(u64::MAX), 75);
}

#[test]
fn registered_sample_is_delivered_once_to_each_sink() {
    let channel_log: Mutex<Vec<HeartRateData>> = Mutex::new(Vec::new());
    let event_log: Mutex<Vec<(String, HeartRateData)>> = Mutex::new(Vec::new());
    let mut relay: CallbackRelay<&str, &str> = CallbackRelay::new();
    relay.register("channel", "heart-rate-update");
    assert!(relay.has_registration());
    let rate = 72.5f64;
    let r = relay.on_sample(
        rate.to_bits(),
        1000,
        |_c, d| channel_log.lock().unwrap().push(d),
        |e, d| event_log.lock().unwrap().push((e.to_string(), d)),
    );
    let expected = HeartRateData::new(rate.to_bits(), 1000);
    assert_eq!(r, Fanout { to_channel: Some(expected), to_event_sink: Some(expected) });
    let ch = channel_log.lock().unwrap();
    let ev = event_log.lock().unwrap();
    assert_eq!(ch.len(), 1);
    assert_eq!(ev.len(), 1);
    assert_eq!(f64::from_bits(ch[0].rate_bits), 72.5);
    assert_eq!(ch[0].timestamp, 1000);
    assert_eq!(ev[0], ("heart-rate-update".to_string(), expected));
}

#[test]
fn unregistered_sample_is_not_delivered() {
    let count = Cell::new(0u32);
    let relay: CallbackRelay<u8, u8> = CallbackRelay::new();
    assert!(!relay.has_registration());
    let r = relay.on_sample(72.5f64.to_bits(), 1000, |_, _| count.set(count.get() + 1), |_, _| {
        count.set(count.get() + 1)
    });
    assert_eq!(r, Fanout { to_channel: None, to_event_sink: None });
    assert_eq!(count.get(), 0);
}

#[test]
fn register_replaces_and_clear_removes() {
    let seen = Cell::new(0u8);
    let mut relay: CallbackRelay<u8, u8> = CallbackRelay::new();
    relay.register(1, 1);
    relay.register(2, 3);
    relay.on_sample(0, 5, |c, _| seen.set(seen.get() + *c), |e, _| seen.set(seen.get() + *e));
    assert_eq!(seen.get(), 5);
    relay.clear();
    assert!(!relay.has_registration());
    let r = relay.on_sample(0, 6, |_, _| {}, |_, _| {});
    assert_eq!(r.to_channel, None);
}

#[test]
fn availability_depends_on_build_only() {
    let mac = BuildConfig { target_macos: true, force_simulation: false };
    let forced = BuildConfig { target_macos: true, force_simulation: true };
    let other = BuildConfig { target_macos: false, force_simulation: false };
    assert_eq!(healthkit_is_available(mac), healthkit_is_available(mac));
    assert!(healthkit_is_available(mac));
    assert!(healthkit_is_available(forced));
    assert!(!healthkit_is_available(other));
    assert_eq!(select_binding(mac), BindingKind::Native);
    assert_eq!(select_binding(forced), BindingKind::Simulated);
    assert_eq!(select_binding(other), BindingKind::Simulated);
}

#[test]
fn faulted_native_calls_fall_back() {
    assert!(contain_flag(None));
    assert!(!contain_flag(Some(false)));
    assert!(contain_flag(Some(true)));
    assert_eq!(contain_rate(None, 1003), RateReading::Simulated(73));
    let bits = 64.0f64.to_bits();
    assert_eq!(contain_rate(Some(bits), 1003), RateReading::Native(bits));
}
