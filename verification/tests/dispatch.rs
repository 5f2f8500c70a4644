//! Dispatch-core tests: routing, admission control, ordering, scenarios.

use gpm::config::{get_config_path, CommandDispatchStrategy};
use gpm::dispatchers::{
    calibrate_request, emg_response_mapping, gpio_request, handle_idle_response, idle_request,
    RetryPolicy, TcpDispatcher,
};
use gpm::managers::emg::{Emg, EmgReadings};
use gpm::managers::maestro::{Maestro, MAX_QTR_PWM, MIN_QTR_PWM};
use gpm::sgcp::{Request, Resource};
use gpm::server::{
    connection_response, dispatch_task, init_resource_managers, run_queue, DispatchError,
    ManagerRegistry,
};

fn request(resource: Resource, code: &str) -> Request {
    Request { resource, task_code: code.to_string(), task_data: None }
}

fn no_readings() -> EmgReadings {
    EmgReadings { channels: None, inner_samples: vec![], outer_samples: vec![] }
}

#[test]
fn unregistered_resource_contacts_no_manager() {
    let mut reg = init_resource_managers();
    reg.bms = None;
    let emg_before = reg.emg;
    let maestro_before = reg.maestro;
    let res = dispatch_task(&mut reg, request(Resource::Bms, "GET_HEALTH_METRICS"), &no_readings());
    assert_eq!(res, Err(DispatchError::ManagerNotInitialized(Resource::Bms)));
    // no manager state was touched
    assert_eq!(reg.emg, emg_before);
    assert_eq!(reg.maestro, maestro_before);
    assert!(reg.bms.is_none());
}

#[test]
fn dispatch_error_text() {
    let e = DispatchError::ManagerNotInitialized(Resource::Bms);
    assert_eq!(e.message(), "BMS resource manager not initialized");
    assert_eq!(
        connection_response(Err(e)),
        "An error occurred; Error=BMS resource manager not initialized"
    );
    assert_eq!(connection_response(Ok("OPEN HAND".to_string())), "OPEN HAND");
}

#[test]
fn unmatched_task_code_is_a_response_not_an_error() {
    let mut reg = init_resource_managers();
    let res = dispatch_task(&mut reg, request(Resource::Emg, "BOGUS"), &no_readings());
    assert_eq!(res, Ok("Undefined task".to_string()));
    // the manager is still registered and in its boot state
    assert_eq!(reg.emg, Some(Emg { inner_threshold: 0, outer_threshold: 0 }));
}

#[test]
fn scenario_open_fist_succeeds() {
    let mut reg = init_resource_managers();
    let res = dispatch_task(&mut reg, request(Resource::Maestro, "OPEN_FIST"), &no_readings());
    assert_eq!(res, Ok("Successfully ran task".to_string()));
    assert_eq!(
        reg.maestro,
        Some(Maestro {
            target_ch0: MIN_QTR_PWM,
            target_ch1: MIN_QTR_PWM,
            target_ch2: MIN_QTR_PWM,
        })
    );
    let res = dispatch_task(&mut reg, request(Resource::Maestro, "CLOSE_FIST"), &no_readings());
    assert_eq!(res, Ok("Successfully ran task".to_string()));
    assert_eq!(
        reg.maestro,
        Some(Maestro {
            target_ch0: MAX_QTR_PWM,
            target_ch1: MAX_QTR_PWM,
            target_ch2: MAX_QTR_PWM,
        })
    );
}

#[test]
fn scenario_calibrate_then_idle_uses_new_thresholds() {
    let mut reg = init_resource_managers();
    let io = EmgReadings {
        channels: Some(vec![160, 40]),
        inner_samples: vec![100, 200],
        outer_samples: vec![50],
    };
    // before calibration the thresholds are zero: 160 >= 0 but 40 > 0, no
    // open intent, so the idle sample reads as a close
    let res = dispatch_task(&mut reg, request(Resource::Emg, "IDLE"), &io);
    assert_eq!(res, Ok("CLOSE HAND".to_string()));
    // calibration sets thresholds to the sweep means: 150 and 50
    let res = dispatch_task(&mut reg, request(Resource::Emg, "CALIBRATE"), &io);
    assert_eq!(res, Ok("Successfully ran task".to_string()));
    assert_eq!(reg.emg, Some(Emg { inner_threshold: 150, outer_threshold: 50 }));
    // the same sample now classifies as an open intent: 160 >= 150, 40 <= 50
    let res = dispatch_task(&mut reg, request(Resource::Emg, "IDLE"), &io);
    assert_eq!(res, Ok("OPEN HAND".to_string()));
}

#[test]
fn scenario_bogus_bms_task_keeps_the_connection_usable() {
    let mut reg = init_resource_managers();
    let res = dispatch_task(&mut reg, request(Resource::Bms, "BOGUS"), &no_readings());
    assert_eq!(res, Ok("Undefined task".to_string()));
    assert_eq!(connection_response(res), "Undefined task");
    // a later request on the same connection still works
    let res = dispatch_task(&mut reg, request(Resource::Bms, "GET_HEALTH_METRICS"), &no_readings());
    assert_eq!(res, Ok("Successfully ran task".to_string()));
}

#[test]
fn fifo_slow_task_effect_visible_to_fast_task() {
    let mut reg = init_resource_managers();
    let io = EmgReadings {
        channels: Some(vec![160, 40]),
        inner_samples: vec![100, 200],
        outer_samples: vec![50],
    };
    // a slow calibration followed immediately by a fast idle sample:
    // the idle reply must reflect the thresholds the calibration computed
    let results = run_queue(
        &mut reg,
        vec![request(Resource::Emg, "CALIBRATE"), request(Resource::Emg, "IDLE")],
        &io,
    );
    assert_eq!(
        results,
        vec![Ok("Successfully ran task".to_string()), Ok("OPEN HAND".to_string())]
    );
    assert_eq!(reg.emg, Some(Emg { inner_threshold: 150, outer_threshold: 50 }));
}

#[test]
fn admission_control_bounds_connections() {
    let mut sem = TcpDispatcher::new(1);
    // the first connection is admitted
    assert!(sem.try_acquire());
    assert_eq!(sem.active_connections, 1);
    // a second simultaneous connection is rejected after its retries run out
    assert!(!sem.acquire_with_retry(5));
    // the first connection still holds its permit
    assert_eq!(sem.active_connections, 1);
    // once the first ends, a new connection is admitted again
    sem.release();
    assert!(sem.try_acquire());
}

#[test]
fn retry_policy_defaults() {
    let p = RetryPolicy::standard();
    assert_eq!(p.max_retries, 5);
    assert_eq!(p.interval_ms, 100);
    assert!(p.should_retry(0));
    assert!(p.should_retry(5));
    assert!(!p.should_retry(6));
}

#[test]
fn gpio_levels_become_fist_commands() {
    let open = gpio_request(true);
    assert_eq!(open.resource, Resource::Maestro);
    assert_eq!(open.task_code, "OPEN_FIST");
    assert!(open.task_data.is_none());
    let close = gpio_request(false);
    assert_eq!(close.task_code, "CLOSE_FIST");
}

#[test]
fn idle_strategy_requests_and_follow_ups() {
    assert_eq!(calibrate_request().task_code, "CALIBRATE");
    assert_eq!(calibrate_request().resource, Resource::Emg);
    assert_eq!(idle_request().task_code, "IDLE");

    let mapping = emg_response_mapping();
    let follow = handle_idle_response(&mapping, "OPEN HAND").expect("mapped response");
    assert_eq!(follow.resource, Resource::Maestro);
    assert_eq!(follow.task_code, "OPEN_FIST");
    let follow = handle_idle_response(&mapping, "CLOSE HAND").expect("mapped response");
    assert_eq!(follow.task_code, "CLOSE_FIST");
    // an unrecognized response is dropped without a follow-up command
    assert!(handle_idle_response(&mapping, "Undefined task").is_none());
}

#[test]
fn full_registry_serves_all_resources() {
    let mut reg = init_resource_managers();
    assert!(reg.bms.is_some() && reg.emg.is_some() && reg.maestro.is_some());
    for (resource, code) in [
        (Resource::Bms, "GET_HEALTH_METRICS"),
        (Resource::Maestro, "OPEN_FIST"),
        (Resource::Emg, "ABORT"),
    ] {
        let res = dispatch_task(&mut reg, request(resource, code), &no_readings());
        assert_eq!(res, Ok("Successfully ran task".to_string()));
    }
}

#[test]
fn config_path_and_default_strategy() {
    assert_eq!(get_config_path(true), "./gpm.config.pi.toml");
    assert_eq!(get_config_path(false), "./gpm.config.dev.toml");
    assert_eq!(CommandDispatchStrategy::default(), CommandDispatchStrategy::Tcp);
}

#[test]
fn manager_registry_can_start_empty() {
    let mut reg = ManagerRegistry { bms: None, emg: None, maestro: None };
    for resource in [Resource::Bms, Resource::Emg, Resource::Maestro] {
        let res = dispatch_task(&mut reg, request(resource, "ANY"), &no_readings());
        assert_eq!(res, Err(DispatchError::ManagerNotInitialized(resource)));
    }
}
