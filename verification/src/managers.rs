//! The resource-manager framework.
//!
//! Each hardware resource (battery monitor, EMG sensor, servo controller)
//! is owned by one manager. A manager consumes task envelopes from its own
//! FIFO queue, validates them, executes the resource-specific work, and
//! always produces exactly one response string per envelope — success or
//! an `Error: …` text — so a caller is never left waiting.

pub mod bms;
pub mod emg;
pub mod maestro;

use crate::sgcp::Resource as SgcpResource;
use crate::sgcp::TaskData;
use crate::sgcp::TaskDataView;
use vstd::prelude::*;

verus! {

/// Capacity of each manager's task queue; a full queue blocks producers,
/// which is the deliberate per-resource backpressure.
pub const MAX_MPSC_CHANNEL_BUFFER: usize = 32;

/// The fixed response for a task that completed successfully.
pub open spec fn spec_task_success() -> Seq<char> {
    "Successfully ran task"@
}

/// The fixed response for a task code that names no task of the resource.
pub open spec fn spec_undefined_task() -> Seq<char> {
    "Undefined task"@
}

pub fn task_success() -> (s: String)
    ensures
        s@ == spec_task_success(),
{
    "Successfully ran task".to_owned()
}

pub fn undefined_task() -> (s: String)
    ensures
        s@ == spec_undefined_task(),
{
    "Undefined task".to_owned()
}

/// The format of messages sent to each resource manager. The manager
/// validates the received data itself: an unknown task code resolves to
/// the fixed undefined-task response, and a payload of the wrong variant
/// is treated as absent.
pub struct ManagerChannelData {
    pub task_code: String,
    pub task_data: Option<TaskData>,
}

/// Mathematical model of a [`ManagerChannelData`].
pub struct ChannelDataView {
    pub task_code: Seq<char>,
    pub task_data: Option<TaskDataView>,
}

impl View for ManagerChannelData {
    type V = ChannelDataView;

    open spec fn view(&self) -> ChannelDataView {
        ChannelDataView {
            task_code: self.task_code@,
            task_data: match self.task_data {
                Option::None => Option::None,
                Option::Some(d) => Option::Some(d@),
            },
        }
    }
}

/// A hardware resource owned by a manager: it can be constructed at boot
/// and has a registry name.
pub trait Resource: Sized {
    /// The name under which the resource is registered.
    spec fn spec_name() -> Seq<char>;

    /// The state the resource starts from at boot.
    spec fn spec_boot() -> Self;

    /// Constructs the resource's boot state.
    fn init() -> (r: Self)
        ensures
            r == Self::spec_boot(),
    ;

    /// The name under which the resource is registered.
    fn name() -> (s: String)
        ensures
            s@ == Self::spec_name(),
    ;
}

/// Whether an optional payload is the variant belonging to `resource`.
pub open spec fn spec_data_matches(resource: SgcpResource, d: Option<TaskDataView>) -> bool {
    match d {
        Option::None => true,
        Option::Some(TaskDataView::Bms(_)) => resource == SgcpResource::Bms,
        Option::Some(TaskDataView::Emg(_)) => resource == SgcpResource::Emg,
        Option::Some(TaskDataView::Maestro(_)) => resource == SgcpResource::Maestro,
    }
}

/// Keeps a payload only when it is the variant belonging to `resource`;
/// a mismatched payload is dropped, so the task runs as if none was sent.
pub fn effective_task_data(resource: SgcpResource, d: Option<TaskData>) -> (r: Option<TaskData>)
    ensures
        match d {
            Option::None => r is None,
            Option::Some(data) => {
                if spec_data_matches(resource, Option::Some(data@)) {
                    r == d
                } else {
                    r is None
                }
            },
        },
{
    match d {
        Option::None => Option::None,
        Option::Some(data) => {
            let matches_resource: bool = match &data {
                TaskData::Bms(_) => matches!(resource, SgcpResource::Bms),
                TaskData::Emg(_) => matches!(resource, SgcpResource::Emg),
                TaskData::Maestro(_) => matches!(resource, SgcpResource::Maestro),
            };
            if matches_resource {
                Option::Some(data)
            } else {
                Option::None
            }
        },
    }
}

/// The bounded FIFO task queue of one manager. Envelopes leave in exactly
/// the order they entered; a full queue refuses new envelopes instead of
/// dropping old ones.
pub struct TaskQueue {
    items: Vec<ManagerChannelData>,
}

impl View for TaskQueue {
    type V = Seq<ManagerChannelData>;

    closed spec fn view(&self) -> Seq<ManagerChannelData> {
        self.items@
    }
}

impl TaskQueue {
    /// An empty queue.
    pub fn new() -> (q: Self)
        ensures
            q@ == Seq::<ManagerChannelData>::empty(),
    {
        TaskQueue { items: Vec::new() }
    }

    /// Number of queued envelopes.
    pub fn len(&self) -> (n: usize)
        ensures
            n == self@.len(),
    {
        self.items.len()
    }

    /// Appends an envelope at the back. A full queue returns the envelope
    /// to the sender unchanged, to retry once space frees up.
    pub fn try_send(&mut self, data: ManagerChannelData) -> (r: Result<(), ManagerChannelData>)
        ensures
            old(self)@.len() < MAX_MPSC_CHANNEL_BUFFER ==> r is Ok && final(self)@ == old(
                self,
            )@.push(data),
            old(self)@.len() >= MAX_MPSC_CHANNEL_BUFFER ==> r == Result::<(),
                ManagerChannelData,
            >::Err(data) && final(self)@ == old(self)@,
    {
        if self.items.len() < MAX_MPSC_CHANNEL_BUFFER {
            self.items.push(data);
            Result::Ok(())
        } else {
            Result::Err(data)
        }
    }

    /// Removes and returns the oldest envelope, if any.
    pub fn recv(&mut self) -> (r: Option<ManagerChannelData>)
        ensures
            old(self)@.len() == 0 ==> r is None && final(self)@ == old(self)@,
            old(self)@.len() > 0 ==> r is Some && r->0 == old(self)@.first() && final(self)@ == old(
                self,
            )@.drop_first(),
    {
        if self.items.len() == 0 {
            Option::None
        } else {
            let data = self.items.remove(0);
            proof {
                assert(self.items@ =~= old(self)@.drop_first());
            }
            Option::Some(data)
        }
    }
}

/// FIFO ordering: two envelopes sent one after the other to the same
/// queue stand in that same order, whatever was queued before, and the
/// earlier one is received first: `recv` always takes the front.
pub proof fn lemma_queue_fifo(
    q: Seq<ManagerChannelData>,
    a: ManagerChannelData,
    b: ManagerChannelData,
)
    ensures
        ({
            let q2 = q.push(a).push(b);
            &&& q2[q.len() as int] == a
            &&& q2[q.len() as int + 1] == b
            &&& q2.skip(q.len() as int) == seq![a, b]
        }),
{
    let q2 = q.push(a).push(b);
    assert(q2.skip(q.len() as int) =~= seq![a, b]);
}

} // verus!
