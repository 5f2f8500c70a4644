//! Tasks operating on the Maestro servo controller.
//!
//! The manager owns the controller's commanded PWM targets for the three
//! finger channels. Opening the fist drives every channel to the minimum
//! quarter-microsecond target, closing it to the maximum. The process that
//! forwards these targets to the physical controller lives outside this
//! crate; this state is the single source of truth for what was commanded.

use crate::managers::ManagerChannelData;
use crate::managers::Resource;
use crate::managers::spec_task_success;
use crate::managers::spec_undefined_task;
use crate::managers::task_success;
use crate::managers::undefined_task;
use crate::utils::str_eq;
use vstd::prelude::*;

verus! {

/// Smallest commandable servo target, in quarter microseconds.
pub const MIN_QTR_PWM: u16 = 3968;

/// Largest commandable servo target, in quarter microseconds.
pub const MAX_QTR_PWM: u16 = 8000;

/// The servo-controller resource: the last commanded target of each of
/// the three finger channels.
#[derive(Clone, Copy, PartialEq, Eq, Structural, Debug)]
pub struct Maestro {
    pub target_ch0: u16,
    pub target_ch1: u16,
    pub target_ch2: u16,
}

/// The tasks the Maestro manager understands.
#[derive(Clone, Copy, PartialEq, Eq, Structural, Debug)]
pub enum MaestroTask {
    UndefinedTask,
    OpenFist,
    CloseFist,
}

/// The task named by a task code; any unknown code is the undefined task.
pub open spec fn spec_maestro_task_of(code: Seq<char>) -> MaestroTask {
    if code == "OPEN_FIST"@ {
        MaestroTask::OpenFist
    } else if code == "CLOSE_FIST"@ {
        MaestroTask::CloseFist
    } else {
        MaestroTask::UndefinedTask
    }
}

pub fn maestro_task_of(code: &str) -> (t: MaestroTask)
    ensures
        t == spec_maestro_task_of(code@),
{
    if str_eq(code, "OPEN_FIST") {
        MaestroTask::OpenFist
    } else if str_eq(code, "CLOSE_FIST") {
        MaestroTask::CloseFist
    } else {
        MaestroTask::UndefinedTask
    }
}

/// State and response after the Maestro manager handles one envelope.
pub open spec fn spec_handle_maestro(s: Maestro, code: Seq<char>) -> (Maestro, Seq<char>) {
    match spec_maestro_task_of(code) {
        MaestroTask::UndefinedTask => (s, spec_undefined_task()),
        MaestroTask::OpenFist => (
            Maestro { target_ch0: MIN_QTR_PWM, target_ch1: MIN_QTR_PWM, target_ch2: MIN_QTR_PWM },
            spec_task_success(),
        ),
        MaestroTask::CloseFist => (
            Maestro { target_ch0: MAX_QTR_PWM, target_ch1: MAX_QTR_PWM, target_ch2: MAX_QTR_PWM },
            spec_task_success(),
        ),
    }
}

impl Resource for Maestro {
    open spec fn spec_name() -> Seq<char> {
        "MAESTRO"@
    }

    /// Boot state: all channels at the minimum target (hand open).
    open spec fn spec_boot() -> Self {
        Maestro { target_ch0: MIN_QTR_PWM, target_ch1: MIN_QTR_PWM, target_ch2: MIN_QTR_PWM }
    }

    fn init() -> Self {
        Maestro { target_ch0: MIN_QTR_PWM, target_ch1: MIN_QTR_PWM, target_ch2: MIN_QTR_PWM }
    }

    fn name() -> (s: String) {
        "MAESTRO".to_owned()
    }
}

impl Maestro {
    /// Handles one Maestro envelope and produces its response. Open and
    /// close drive all three channels to the extreme targets; an unknown
    /// task code resolves to the fixed undefined-task response and leaves
    /// the targets untouched.
    pub fn handle_task(&mut self, data: &ManagerChannelData) -> (resp: String)
        ensures
            ({
                let (s2, r2) = spec_handle_maestro(*old(self), data@.task_code);
                *final(self) == s2 && resp@ == r2
            }),
    {
        match maestro_task_of(data.task_code.as_str()) {
            MaestroTask::UndefinedTask => undefined_task(),
            MaestroTask::OpenFist => {
                self.target_ch0 = MIN_QTR_PWM;
                self.target_ch1 = MIN_QTR_PWM;
                self.target_ch2 = MIN_QTR_PWM;
                task_success()
            },
            MaestroTask::CloseFist => {
                self.target_ch0 = MAX_QTR_PWM;
                self.target_ch1 = MAX_QTR_PWM;
                self.target_ch2 = MAX_QTR_PWM;
                task_success()
            },
        }
    }
}

} // verus!
