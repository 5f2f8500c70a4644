//! Tasks operating on the BMS (battery management system).
//!
//! The battery interface is a stub: its one task acknowledges success.

use crate::managers::ManagerChannelData;
use crate::managers::Resource;
use crate::managers::spec_task_success;
use crate::managers::spec_undefined_task;
use crate::managers::task_success;
use crate::managers::undefined_task;
use crate::utils::str_eq;
use vstd::prelude::*;

verus! {

/// The battery monitor resource.
pub struct Bms {}

/// The tasks the BMS manager understands.
#[derive(Clone, Copy, PartialEq, Eq, Structural, Debug)]
pub enum BmsTask {
    UndefinedTask,
    GetHealthMetrics,
}

/// The task named by a task code; any unknown code is the undefined task.
pub open spec fn spec_bms_task_of(code: Seq<char>) -> BmsTask {
    if code == "GET_HEALTH_METRICS"@ {
        BmsTask::GetHealthMetrics
    } else {
        BmsTask::UndefinedTask
    }
}

pub fn bms_task_of(code: &str) -> (t: BmsTask)
    ensures
        t == spec_bms_task_of(code@),
{
    if str_eq(code, "GET_HEALTH_METRICS") {
        BmsTask::GetHealthMetrics
    } else {
        BmsTask::UndefinedTask
    }
}

/// State and response after the BMS manager handles one envelope.
pub open spec fn spec_handle_bms(s: Bms, code: Seq<char>) -> (Bms, Seq<char>) {
    match spec_bms_task_of(code) {
        BmsTask::UndefinedTask => (s, spec_undefined_task()),
        BmsTask::GetHealthMetrics => (s, spec_task_success()),
    }
}

impl Resource for Bms {
    open spec fn spec_name() -> Seq<char> {
        "BMS"@
    }

    open spec fn spec_boot() -> Self {
        Bms {}
    }

    fn init() -> Self {
        Bms {}
    }

    fn name() -> (s: String) {
        "BMS".to_owned()
    }
}

impl Bms {
    /// Handles one BMS envelope and produces its response. Health metrics
    /// are a stub that acknowledges success; an unknown task code resolves
    /// to the fixed undefined-task response.
    pub fn handle_task(&mut self, data: &ManagerChannelData) -> (resp: String)
        ensures
            ({
                let (s2, r2) = spec_handle_bms(*old(self), data@.task_code);
                *final(self) == s2 && resp@ == r2
            }),
    {
        match bms_task_of(data.task_code.as_str()) {
            BmsTask::UndefinedTask => undefined_task(),
            BmsTask::GetHealthMetrics => task_success(),
        }
    }
}

} // verus!
