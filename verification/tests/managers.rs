//! Manager and helper tests: classification, calibration, queues, ADC.

use gpm::adc::{adc_parse_response, adc_request_frame};
use gpm::errors::GpmError;
use gpm::managers::bms::{bms_task_of, Bms, BmsTask};
use gpm::managers::emg::{
    calibrate_emg, emg_task_of, process_data, sample_plan, Emg, EmgReadings, EmgSamplePlan, EmgTask,
};
use gpm::managers::maestro::{maestro_task_of, Maestro, MaestroTask, MAX_QTR_PWM, MIN_QTR_PWM};
use gpm::managers::{effective_task_data, ManagerChannelData, Resource as ResourceTrait, TaskQueue, MAX_MPSC_CHANNEL_BUFFER};
use gpm::sgcp::{Resource, TaskData};
use gpm::utils::{average, str_eq};

fn envelope(code: &str) -> ManagerChannelData {
    ManagerChannelData { task_code: code.to_string(), task_data: None }
}

fn no_readings() -> EmgReadings {
    EmgReadings { channels: None, inner_samples: vec![], outer_samples: vec![] }
}

#[test]
fn average_of_samples() {
    assert_eq!(average(&vec![1, 2, 3, 4]), Ok(2));
    assert_eq!(average(&vec![7]), Ok(7));
    assert_eq!(average(&vec![65535, 65535]), Ok(65535));
    assert_eq!(average(&vec![]), Err(GpmError::EmptyList));
    assert_eq!(
        GpmError::EmptyList.message(),
        "Cannot calculate average of an empty list"
    );
}

#[test]
fn classification_branches() {
    // inner high and outer low: open
    assert_eq!(process_data(&vec![10, 1], 5, 3), Ok(1));
    // inner low and outer high: close
    assert_eq!(process_data(&vec![1, 10], 5, 3), Ok(0));
    // neither: no action
    assert_eq!(process_data(&vec![10, 10], 5, 3), Ok(-1));
    // wrong sample count
    assert_eq!(process_data(&vec![1, 2, 3], 5, 3), Err(GpmError::WrongSampleCount));
    assert_eq!(GpmError::WrongSampleCount.message(), "Expected 2 EMG values");
}

#[test]
fn calibration_means() {
    let thresholds = calibrate_emg(&vec![2, 4], &vec![10]);
    assert_eq!(thresholds, [3, 10]);
    // an empty sweep falls back to zero
    let thresholds = calibrate_emg(&vec![], &vec![9, 9, 9]);
    assert_eq!(thresholds, [0, 9]);
}

#[test]
fn adc_request_frame_layout() {
    assert_eq!(adc_request_frame(0), Ok([0b00000001, 0b10000000, 0]));
    assert_eq!(adc_request_frame(3), Ok([0b00000001, 0b10110000, 0]));
    assert_eq!(adc_request_frame(7), Ok([0b00000001, 0b11110000, 0]));
    assert_eq!(adc_request_frame(8), Err(GpmError::InvalidChannel));
    assert_eq!(
        GpmError::InvalidChannel.message(),
        "Invalid channel. Must be between 0 and 7."
    );
}

#[test]
fn adc_response_ten_bits() {
    assert_eq!(adc_parse_response(&[0, 0b00000011, 0xff]), 1023);
    assert_eq!(adc_parse_response(&[0, 0, 5]), 5);
    // bits above the low two of the middle byte are ignored
    assert_eq!(adc_parse_response(&[0x55, 0b11111101, 0]), 256);
}

#[test]
fn task_codes_resolve_per_resource() {
    assert_eq!(maestro_task_of("OPEN_FIST"), MaestroTask::OpenFist);
    assert_eq!(maestro_task_of("CLOSE_FIST"), MaestroTask::CloseFist);
    assert_eq!(maestro_task_of("BOGUS"), MaestroTask::UndefinedTask);
    assert_eq!(emg_task_of("IDLE"), EmgTask::Idle);
    assert_eq!(emg_task_of("CALIBRATE"), EmgTask::Calibrate);
    assert_eq!(emg_task_of("ABORT"), EmgTask::Abort);
    assert_eq!(emg_task_of("open_fist"), EmgTask::UndefinedTask);
    assert_eq!(bms_task_of("GET_HEALTH_METRICS"), BmsTask::GetHealthMetrics);
    assert_eq!(bms_task_of(""), BmsTask::UndefinedTask);
}

#[test]
fn sample_plans_follow_the_task() {
    assert_eq!(sample_plan("IDLE"), EmgSamplePlan::IdleChannels);
    assert_eq!(sample_plan("CALIBRATE"), EmgSamplePlan::CalibrationSweeps);
    assert_eq!(sample_plan("ABORT"), EmgSamplePlan::NoSamples);
    assert_eq!(sample_plan("BOGUS"), EmgSamplePlan::NoSamples);
}

#[test]
fn resource_names() {
    assert_eq!(Bms::name(), "BMS");
    assert_eq!(Emg::name(), "EMG");
    assert_eq!(Maestro::name(), "MAESTRO");
    assert!(str_eq("BMS", "BMS"));
    assert!(!str_eq("BMS", "EMG"));
}

#[test]
fn mismatched_task_data_is_dropped() {
    let kept = effective_task_data(Resource::Emg, Some(TaskData::Emg(vec![1])));
    assert_eq!(kept, Some(TaskData::Emg(vec![1])));
    let dropped = effective_task_data(Resource::Emg, Some(TaskData::Maestro(vec![1])));
    assert_eq!(dropped, None);
    assert_eq!(effective_task_data(Resource::Bms, None), None);
}

#[test]
fn maestro_tasks_drive_targets() {
    let mut m = Maestro::init();
    let resp = m.handle_task(&envelope("CLOSE_FIST"));
    assert_eq!(resp, "Successfully ran task");
    assert_eq!(
        (m.target_ch0, m.target_ch1, m.target_ch2),
        (MAX_QTR_PWM, MAX_QTR_PWM, MAX_QTR_PWM)
    );
    let resp = m.handle_task(&envelope("OPEN_FIST"));
    assert_eq!(resp, "Successfully ran task");
    assert_eq!(
        (m.target_ch0, m.target_ch1, m.target_ch2),
        (MIN_QTR_PWM, MIN_QTR_PWM, MIN_QTR_PWM)
    );
    let before = m;
    let resp = m.handle_task(&envelope("WIGGLE"));
    assert_eq!(resp, "Undefined task");
    assert_eq!(m, before);
}

#[test]
fn emg_idle_read_failure_is_an_error_response() {
    let mut e = Emg::init();
    let resp = e.handle_task(&envelope("IDLE"), &no_readings());
    assert_eq!(resp, "Error: Failed to read ADC channels");
}

#[test]
fn emg_idle_wrong_sample_count_is_an_error_response() {
    let mut e = Emg::init();
    let io = EmgReadings { channels: Some(vec![1, 2, 3]), inner_samples: vec![], outer_samples: vec![] };
    let resp = e.handle_task(&envelope("IDLE"), &io);
    assert_eq!(resp, "Error: Expected 2 EMG values");
}

#[test]
fn emg_abort_acknowledges() {
    let mut e = Emg::init();
    let resp = e.handle_task(&envelope("ABORT"), &no_readings());
    assert_eq!(resp, "Successfully ran task");
}

#[test]
fn queue_is_fifo() {
    let mut q = TaskQueue::new();
    assert!(q.try_send(envelope("FIRST")).is_ok());
    assert!(q.try_send(envelope("SECOND")).is_ok());
    assert_eq!(q.len(), 2);
    assert_eq!(q.recv().unwrap().task_code, "FIRST");
    assert_eq!(q.recv().unwrap().task_code, "SECOND");
    assert!(q.recv().is_none());
}

#[test]
fn full_queue_refuses_and_returns_the_envelope() {
    let mut q = TaskQueue::new();
    for i in 0..MAX_MPSC_CHANNEL_BUFFER {
        assert!(q.try_send(envelope(&format!("T{}", i))).is_ok());
    }
    let refused = q.try_send(envelope("OVERFLOW"));
    match refused {
        Err(envelope_back) => assert_eq!(envelope_back.task_code, "OVERFLOW"),
        Ok(_) => panic!("a full queue must refuse"),
    }
    // the queued envelopes are untouched and still in order
    assert_eq!(q.len(), MAX_MPSC_CHANNEL_BUFFER);
    assert_eq!(q.recv().unwrap().task_code, "T0");
}
