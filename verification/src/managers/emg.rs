//! Tasks operating on the EMG (muscle sensor) system.
//!
//! The manager owns the calibrated activation thresholds for the two
//! sensor channels. Sampling the ADC is I/O and happens outside this
//! crate: each envelope is handed the samples that the hardware delivered
//! while the task ran, and this module does all the classification and
//! calibration arithmetic on them.

use crate::errors::GpmError;
use crate::managers::ManagerChannelData;
use crate::managers::Resource;
use crate::managers::spec_task_success;
use crate::managers::spec_undefined_task;
use crate::managers::task_success;
use crate::managers::undefined_task;
use crate::utils::average;
use crate::utils::sample_sum;
use crate::utils::str_eq;
use vstd::prelude::*;

verus! {

/// The EMG resource: thresholds computed by the latest calibration.
#[derive(Clone, Copy, PartialEq, Eq, Structural, Debug)]
pub struct Emg {
    pub inner_threshold: u16,
    pub outer_threshold: u16,
}

/// The tasks the EMG manager understands.
#[derive(Clone, Copy, PartialEq, Eq, Structural, Debug)]
pub enum EmgTask {
    UndefinedTask,
    Idle,
    Calibrate,
    Abort,
}

/// The samples the ADC delivered while one envelope was served. `channels`
/// is one reading per sampled channel, or `None` when the read failed;
/// the two buffers hold the calibration sweeps of the inner and outer
/// sensor. Fields a task does not need are ignored.
pub struct EmgReadings {
    pub channels: Option<Vec<u16>>,
    pub inner_samples: Vec<u16>,
    pub outer_samples: Vec<u16>,
}

/// Mathematical model of an [`EmgReadings`].
pub struct EmgReadingsView {
    pub channels: Option<Seq<u16>>,
    pub inner_samples: Seq<u16>,
    pub outer_samples: Seq<u16>,
}

impl View for EmgReadings {
    type V = EmgReadingsView;

    open spec fn view(&self) -> EmgReadingsView {
        EmgReadingsView {
            channels: match self.channels {
                Option::None => Option::None,
                Option::Some(v) => Option::Some(v@),
            },
            inner_samples: self.inner_samples@,
            outer_samples: self.outer_samples@,
        }
    }
}

/// The task named by a task code; any unknown code is the undefined task.
pub open spec fn spec_emg_task_of(code: Seq<char>) -> EmgTask {
    if code == "IDLE"@ {
        EmgTask::Idle
    } else if code == "CALIBRATE"@ {
        EmgTask::Calibrate
    } else if code == "ABORT"@ {
        EmgTask::Abort
    } else {
        EmgTask::UndefinedTask
    }
}

pub fn emg_task_of(code: &str) -> (t: EmgTask)
    ensures
        t == spec_emg_task_of(code@),
{
    if str_eq(code, "IDLE") {
        EmgTask::Idle
    } else if str_eq(code, "CALIBRATE") {
        EmgTask::Calibrate
    } else if str_eq(code, "ABORT") {
        EmgTask::Abort
    } else {
        EmgTask::UndefinedTask
    }
}

/// Grip intent read from one sample of each channel: 1 to open the hand,
/// 0 to close it, -1 for no clear intent.
pub open spec fn spec_classify(v0: u16, v1: u16, inner_threshold: u16, outer_threshold: u16) -> int {
    if v0 >= inner_threshold && v1 <= outer_threshold {
        1
    } else if v0 <= inner_threshold && v1 >= outer_threshold {
        0
    } else {
        -1
    }
}

/// Classifies one reading of the two EMG channels against the calibrated
/// thresholds. Fails exactly when not exactly two values were sampled.
pub fn process_data(values: &Vec<u16>, inner_threshold: u16, outer_threshold: u16) -> (r: Result<
    i32,
    GpmError,
>)
    ensures
        r is Err <==> values@.len() != 2,
        r is Err ==> r->Err_0 == GpmError::WrongSampleCount,
        r is Ok ==> r->Ok_0 == spec_classify(values@[0], values@[1], inner_threshold, outer_threshold),
{
    if values.len() != 2 {
        return Result::Err(GpmError::WrongSampleCount);
    }
    if values[0] >= inner_threshold && values[1] <= outer_threshold {
        Result::Ok(1)
    } else if values[0] <= inner_threshold && values[1] >= outer_threshold {
        Result::Ok(0)
    } else {
        Result::Ok(-1)
    }
}

/// The mean of a calibration sweep, or 0 when no samples were collected.
pub open spec fn spec_avg_or_zero(s: Seq<u16>) -> int {
    if s.len() == 0 {
        0
    } else {
        sample_sum(s) / (s.len() as int)
    }
}

/// Computes the activation thresholds from the two calibration sweeps:
/// the mean of each buffer, or 0 for a buffer with no samples.
pub fn calibrate_emg(inner_buffer: &Vec<u16>, outer_buffer: &Vec<u16>) -> (r: [u16; 2])
    ensures
        r[0] == spec_avg_or_zero(inner_buffer@),
        r[1] == spec_avg_or_zero(outer_buffer@),
{
    let avg_inner = match average(inner_buffer) {
        Result::Ok(v) => v,
        Result::Err(_) => 0,
    };
    let avg_outer = match average(outer_buffer) {
        Result::Ok(v) => v,
        Result::Err(_) => 0,
    };
    [avg_inner, avg_outer]
}

/// ADC channel of the inner muscle sensor.
pub const INNER_CHANNEL: u8 = 0;

/// ADC channel of the outer muscle sensor.
pub const OUTER_CHANNEL: u8 = 1;

/// What the hardware must sample before an envelope can be handled.
#[derive(Clone, Copy, PartialEq, Eq, Structural, Debug)]
pub enum EmgSamplePlan {
    /// One reading of the inner and outer channels, in that order.
    IdleChannels,
    /// A full calibration sweep of each sensor: inner first, then outer.
    CalibrationSweeps,
    /// No samples are needed.
    NoSamples,
}

/// The samples each task needs: an idle classification reads both
/// channels once, a calibration sweeps both sensors, everything else
/// runs without hardware input.
pub fn sample_plan(code: &str) -> (p: EmgSamplePlan)
    ensures
        p == (match spec_emg_task_of(code@) {
            EmgTask::Idle => EmgSamplePlan::IdleChannels,
            EmgTask::Calibrate => EmgSamplePlan::CalibrationSweeps,
            EmgTask::Abort => EmgSamplePlan::NoSamples,
            EmgTask::UndefinedTask => EmgSamplePlan::NoSamples,
        }),
{
    match emg_task_of(code) {
        EmgTask::Idle => EmgSamplePlan::IdleChannels,
        EmgTask::Calibrate => EmgSamplePlan::CalibrationSweeps,
        EmgTask::Abort => EmgSamplePlan::NoSamples,
        EmgTask::UndefinedTask => EmgSamplePlan::NoSamples,
    }
}

/// Response when the ADC read failed during an idle sample.
pub open spec fn spec_read_failure() -> Seq<char> {
    "Error: Failed to read ADC channels"@
}

/// Response when an idle sample did not hold exactly two values.
pub open spec fn spec_bad_sample_count() -> Seq<char> {
    "Error: Expected 2 EMG values"@
}

/// State and response after the EMG manager handles one envelope.
pub open spec fn spec_handle_emg(s: Emg, code: Seq<char>, io: EmgReadingsView) -> (Emg, Seq<char>) {
    match spec_emg_task_of(code) {
        EmgTask::UndefinedTask => (s, spec_undefined_task()),
        EmgTask::Idle => match io.channels {
            Option::None => (s, spec_read_failure()),
            Option::Some(v) => {
                if v.len() != 2 {
                    (s, spec_bad_sample_count())
                } else if spec_classify(v[0], v[1], s.inner_threshold, s.outer_threshold) == 1 {
                    (s, "OPEN HAND"@)
                } else {
                    (s, "CLOSE HAND"@)
                }
            },
        },
        EmgTask::Calibrate => (
            Emg {
                inner_threshold: spec_avg_or_zero(io.inner_samples) as u16,
                outer_threshold: spec_avg_or_zero(io.outer_samples) as u16,
            },
            spec_task_success(),
        ),
        EmgTask::Abort => (s, spec_task_success()),
    }
}

impl Resource for Emg {
    open spec fn spec_name() -> Seq<char> {
        "EMG"@
    }

    /// Boot state: thresholds start at zero until a calibration runs.
    open spec fn spec_boot() -> Self {
        Emg { inner_threshold: 0, outer_threshold: 0 }
    }

    fn init() -> Self {
        Emg { inner_threshold: 0, outer_threshold: 0 }
    }

    fn name() -> (s: String) {
        "EMG".to_owned()
    }
}

impl Emg {
    /// Handles one EMG envelope and produces its response. Idle samples
    /// are classified into an open or close intent against the calibrated
    /// thresholds; calibration replaces the thresholds with the sweep
    /// means; abort acknowledges without side effects; an unknown task
    /// code resolves to the fixed undefined-task response. Hardware read
    /// failures become `Error: …` responses, never a missing reply.
    pub fn handle_task(&mut self, data: &ManagerChannelData, io: &EmgReadings) -> (resp: String)
        ensures
            ({
                let (s2, r2) = spec_handle_emg(*old(self), data@.task_code, io@);
                *final(self) == s2 && resp@ == r2
            }),
    {
        match emg_task_of(data.task_code.as_str()) {
            EmgTask::UndefinedTask => undefined_task(),
            EmgTask::Idle => match &io.channels {
                Option::None => "Error: Failed to read ADC channels".to_owned(),
                Option::Some(values) => match process_data(
                    values,
                    self.inner_threshold,
                    self.outer_threshold,
                ) {
                    Result::Err(_) => "Error: Expected 2 EMG values".to_owned(),
                    Result::Ok(grip_state) => {
                        if grip_state == 1 {
                            "OPEN HAND".to_owned()
                        } else {
                            "CLOSE HAND".to_owned()
                        }
                    },
                },
            },
            EmgTask::Calibrate => {
                let thresholds = calibrate_emg(&io.inner_samples, &io.outer_samples);
                self.inner_threshold = thresholds[0];
                self.outer_threshold = thresholds[1];
                task_success()
            },
            EmgTask::Abort => task_success(),
        }
    }
}

} // verus!
