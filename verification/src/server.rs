//! The dispatch core: the manager registry and the routing of requests.
//!
//! The registry maps each resource to its manager, is built once at boot,
//! and is read-only afterwards. Dispatching looks the manager up, hands it
//! a task envelope, and returns the manager's single response; a request
//! for a resource with no registered manager fails without contacting any
//! manager.

use crate::managers::ManagerChannelData;
use crate::managers::bms::Bms;
use crate::managers::bms::spec_bms_task_of;
use crate::managers::bms::BmsTask;
use crate::managers::effective_task_data;
use crate::managers::emg::Emg;
use crate::managers::emg::EmgReadings;
use crate::managers::emg::EmgReadingsView;
use crate::managers::emg::EmgTask;
use crate::managers::emg::spec_emg_task_of;
use crate::managers::emg::spec_handle_emg;
use crate::managers::bms::spec_handle_bms;
use crate::managers::maestro::Maestro;
use crate::managers::maestro::MaestroTask;
use crate::managers::maestro::spec_handle_maestro;
use crate::managers::maestro::spec_maestro_task_of;
use crate::managers::maestro::MIN_QTR_PWM;
use crate::managers::Resource as ResourceTrait;
use crate::managers::spec_undefined_task;
use crate::sgcp::Request;
use crate::sgcp::Resource;
use vstd::prelude::*;
use vstd::string::StringExecFns;

verus! {

/// Routing failures: the request never reached a manager.
#[derive(Clone, Copy, PartialEq, Eq, Structural, Debug)]
pub enum DispatchError {
    /// The resource has no registered manager.
    ManagerNotInitialized(Resource),
}

/// The message text of a routing failure.
pub open spec fn spec_dispatch_error_message(e: DispatchError) -> Seq<char> {
    match e {
        DispatchError::ManagerNotInitialized(Resource::Bms) => {
            "BMS resource manager not initialized"@
        },
        DispatchError::ManagerNotInitialized(Resource::Emg) => {
            "EMG resource manager not initialized"@
        },
        DispatchError::ManagerNotInitialized(Resource::Maestro) => {
            "MAESTRO resource manager not initialized"@
        },
    }
}

impl DispatchError {
    /// A human-readable description of the error.
    pub fn message(&self) -> (s: String)
        ensures
            s@ == spec_dispatch_error_message(*self),
    {
        match self {
            DispatchError::ManagerNotInitialized(Resource::Bms) => {
                "BMS resource manager not initialized".to_owned()
            },
            DispatchError::ManagerNotInitialized(Resource::Emg) => {
                "EMG resource manager not initialized".to_owned()
            },
            DispatchError::ManagerNotInitialized(Resource::Maestro) => {
                "MAESTRO resource manager not initialized".to_owned()
            },
        }
    }
}

/// The mapping from each resource to its manager, if one was registered.
/// Built once at startup; no entries are added or removed afterwards.
pub struct ManagerRegistry {
    pub bms: Option<Bms>,
    pub emg: Option<Emg>,
    pub maestro: Option<Maestro>,
}

/// Whether `resource` has a registered manager.
pub open spec fn spec_registered(reg: ManagerRegistry, resource: Resource) -> bool {
    match resource {
        Resource::Bms => reg.bms is Some,
        Resource::Emg => reg.emg is Some,
        Resource::Maestro => reg.maestro is Some,
    }
}

/// Registry state and dispatch result after routing one request.
pub open spec fn spec_dispatch(
    reg: ManagerRegistry,
    resource: Resource,
    code: Seq<char>,
    io: EmgReadingsView,
) -> (ManagerRegistry, Result<Seq<char>, DispatchError>) {
    match resource {
        Resource::Bms => match reg.bms {
            Option::None => (reg, Result::Err(DispatchError::ManagerNotInitialized(Resource::Bms))),
            Option::Some(m) => {
                let (m2, resp) = spec_handle_bms(m, code);
                (ManagerRegistry { bms: Option::Some(m2), ..reg }, Result::Ok(resp))
            },
        },
        Resource::Emg => match reg.emg {
            Option::None => (reg, Result::Err(DispatchError::ManagerNotInitialized(Resource::Emg))),
            Option::Some(m) => {
                let (m2, resp) = spec_handle_emg(m, code, io);
                (ManagerRegistry { emg: Option::Some(m2), ..reg }, Result::Ok(resp))
            },
        },
        Resource::Maestro => match reg.maestro {
            Option::None => (
                reg,
                Result::Err(DispatchError::ManagerNotInitialized(Resource::Maestro)),
            ),
            Option::Some(m) => {
                let (m2, resp) = spec_handle_maestro(m, code);
                (ManagerRegistry { maestro: Option::Some(m2), ..reg }, Result::Ok(resp))
            },
        },
    }
}

/// The mathematical value of an exec dispatch result.
pub open spec fn dispatch_result_view(r: Result<String, DispatchError>) -> Result<
    Seq<char>,
    DispatchError,
> {
    match r {
        Result::Ok(s) => Result::Ok(s@),
        Result::Err(e) => Result::Err(e),
    }
}

/// Builds the registry with every resource's manager in its boot state.
/// Construction is the one place a hardware failure may abort the process;
/// the boot states here are the ones the managers start from.
pub fn init_resource_managers() -> (reg: ManagerRegistry)
    ensures
        reg.bms == Option::Some(Bms {}),
        reg.emg == Option::Some(Emg { inner_threshold: 0, outer_threshold: 0 }),
        reg.maestro == Option::Some(
            Maestro { target_ch0: MIN_QTR_PWM, target_ch1: MIN_QTR_PWM, target_ch2: MIN_QTR_PWM },
        ),
{
    ManagerRegistry {
        bms: Option::Some(Bms::init()),
        emg: Option::Some(Emg::init()),
        maestro: Option::Some(Maestro::init()),
    }
}

/// Dispatches a request to the appropriate resource manager and returns
/// the manager's response. A resource with no registered manager yields
/// `ManagerNotInitialized` and touches no manager state. A payload of the
/// wrong variant for the resource is dropped from the envelope before the
/// manager sees it.
pub fn dispatch_task(reg: &mut ManagerRegistry, request: Request, io: &EmgReadings) -> (r: Result<
    String,
    DispatchError,
>)
    ensures
        ({
            let (reg2, r2) = spec_dispatch(*old(reg), request.resource, request@.task_code, io@);
            *final(reg) == reg2 && dispatch_result_view(r) == r2
        }),
{
    let resource = request.resource;
    let env = ManagerChannelData {
        task_code: request.task_code,
        task_data: effective_task_data(resource, request.task_data),
    };
    match resource {
        Resource::Bms => match &mut reg.bms {
            Option::None => Result::Err(DispatchError::ManagerNotInitialized(Resource::Bms)),
            Option::Some(m) => Result::Ok(m.handle_task(&env)),
        },
        Resource::Emg => match &mut reg.emg {
            Option::None => Result::Err(DispatchError::ManagerNotInitialized(Resource::Emg)),
            Option::Some(m) => Result::Ok(m.handle_task(&env, io)),
        },
        Resource::Maestro => match &mut reg.maestro {
            Option::None => Result::Err(DispatchError::ManagerNotInitialized(Resource::Maestro)),
            Option::Some(m) => Result::Ok(m.handle_task(&env)),
        },
    }
}

/// The response text written back on a connection for a dispatch result:
/// the manager's response, or an error line for a routing failure. The
/// connection stays usable either way.
pub open spec fn spec_connection_response(r: Result<Seq<char>, DispatchError>) -> Seq<char> {
    match r {
        Result::Ok(resp) => resp,
        Result::Err(e) => "An error occurred; Error="@ + spec_dispatch_error_message(e),
    }
}

pub fn connection_response(res: Result<String, DispatchError>) -> (s: String)
    ensures
        s@ == spec_connection_response(dispatch_result_view(res)),
{
    match res {
        Result::Ok(resp) => resp,
        Result::Err(e) => {
            let mut s = "An error occurred; Error=".to_owned();
            s.append(e.message().as_str());
            s
        },
    }
}

// ---------------------------------------------------------------------------
// In-order processing
// ---------------------------------------------------------------------------

/// Registry state and responses after dispatching a batch of requests in
/// arrival order: each request runs against the state left by all the
/// requests before it.
pub open spec fn spec_run(
    reg: ManagerRegistry,
    reqs: Seq<Request>,
    io: EmgReadingsView,
) -> (ManagerRegistry, Seq<Result<Seq<char>, DispatchError>>)
    decreases reqs.len(),
{
    if reqs.len() == 0 {
        (reg, Seq::empty())
    } else {
        let (reg1, r1) = spec_dispatch(reg, reqs.first().resource, reqs.first()@.task_code, io);
        let (reg2, rest) = spec_run(reg1, reqs.drop_first(), io);
        (reg2, seq![r1] + rest)
    }
}

/// A batch yields exactly one response per request.
pub proof fn lemma_spec_run_len(reg: ManagerRegistry, reqs: Seq<Request>, io: EmgReadingsView)
    ensures
        spec_run(reg, reqs, io).1.len() == reqs.len(),
    decreases reqs.len(),
{
    if reqs.len() > 0 {
        let (reg1, r1) = spec_dispatch(reg, reqs.first().resource, reqs.first()@.task_code, io);
        lemma_spec_run_len(reg1, reqs.drop_first(), io);
    }
}

/// Dispatches the queued requests strictly in arrival order and collects
/// one response per request. Within one resource there is no priority or
/// reordering: a task observes every effect of the tasks queued before it.
pub fn run_queue(reg: &mut ManagerRegistry, requests: Vec<Request>, io: &EmgReadings) -> (results:
    Vec<Result<String, DispatchError>>)
    ensures
        ({
            let (reg2, rs) = spec_run(*old(reg), requests@, io@);
            &&& *final(reg) == reg2
            &&& results@.len() == rs.len()
            &&& forall|i: int|
                0 <= i < rs.len() ==> dispatch_result_view(#[trigger] results@[i]) == rs[i]
        }),
{
    let ghost reqs0 = requests@;
    let ghost reg0 = *reg;
    let ghost pair = spec_run(reg0, reqs0, io@);
    proof {
        lemma_spec_run_len(reg0, reqs0, io@);
    }
    let mut remaining = requests;
    let mut results: Vec<Result<String, DispatchError>> = Vec::new();
    while remaining.len() > 0
        invariant
            results@.len() + remaining@.len() == reqs0.len(),
            pair.1.len() == reqs0.len(),
            spec_run(*reg, remaining@, io@).0 == pair.0,
            spec_run(*reg, remaining@, io@).1 == pair.1.skip(results@.len() as int),
            forall|i: int|
                0 <= i < results@.len() ==> dispatch_result_view(#[trigger] results@[i])
                    == pair.1[i],
            pair == spec_run(reg0, reqs0, io@),
        decreases remaining@.len(),
    {
        let ghost k = results@.len() as int;
        let ghost pre = remaining@;
        let req = remaining.remove(0);
        proof {
            assert(remaining@ =~= pre.drop_first());
        }
        let r = dispatch_task(reg, req, io);
        proof {
            let tail = pair.1.skip(k);
            assert(tail.first() == pair.1[k]);
            assert(tail.drop_first() =~= pair.1.skip(k + 1));
        }
        results.push(r);
    }
    proof {
        assert(pair.1.skip(results@.len() as int) =~= Seq::<
            Result<Seq<char>, DispatchError>,
        >::empty());
    }
    results
}

// ---------------------------------------------------------------------------
// Laws of the dispatch core
// ---------------------------------------------------------------------------

/// Whether a task code names a task of the resource's own task set.
pub open spec fn spec_known_task(resource: Resource, code: Seq<char>) -> bool {
    match resource {
        Resource::Bms => spec_bms_task_of(code) != BmsTask::UndefinedTask,
        Resource::Emg => spec_emg_task_of(code) != EmgTask::UndefinedTask,
        Resource::Maestro => spec_maestro_task_of(code) != MaestroTask::UndefinedTask,
    }
}

/// A request for a resource with no registered manager fails with
/// `ManagerNotInitialized` and contacts no manager: every manager state
/// is left exactly as it was.
pub proof fn lemma_unregistered_resource(
    reg: ManagerRegistry,
    resource: Resource,
    code: Seq<char>,
    io: EmgReadingsView,
)
    requires
        !spec_registered(reg, resource),
    ensures
        spec_dispatch(reg, resource, code, io) == (
            reg,
            Result::<Seq<char>, DispatchError>::Err(DispatchError::ManagerNotInitialized(resource)),
        ),
{
}

/// A request whose task code names no task of its (registered) resource
/// yields the fixed undefined-task response, not an error, and leaves
/// every manager state unchanged.
pub proof fn lemma_unmatched_task_code(
    reg: ManagerRegistry,
    resource: Resource,
    code: Seq<char>,
    io: EmgReadingsView,
)
    requires
        spec_registered(reg, resource),
        !spec_known_task(resource, code),
    ensures
        spec_dispatch(reg, resource, code, io) == (
            reg,
            Result::<Seq<char>, DispatchError>::Ok(spec_undefined_task()),
        ),
{
    match resource {
        Resource::Bms => {
            assert(ManagerRegistry { bms: reg.bms, ..reg } == reg);
        },
        Resource::Emg => {
            assert(ManagerRegistry { emg: reg.emg, ..reg } == reg);
        },
        Resource::Maestro => {
            assert(ManagerRegistry { maestro: reg.maestro, ..reg } == reg);
        },
    }
}

/// FIFO ordering with effects: for two requests submitted back to back,
/// the second one is dispatched against exactly the registry state the
/// first one left behind, and the responses come back in submission
/// order.
pub proof fn lemma_run_order(
    reg: ManagerRegistry,
    a: Request,
    b: Request,
    io: EmgReadingsView,
)
    ensures
        ({
            let (reg1, r1) = spec_dispatch(reg, a.resource, a@.task_code, io);
            let (reg2, r2) = spec_dispatch(reg1, b.resource, b@.task_code, io);
            spec_run(reg, seq![a, b], io) == (reg2, seq![r1, r2])
        }),
{
    reveal_with_fuel(spec_run, 3);
    let s = seq![a, b];
    assert(s.first() == a);
    assert(s.drop_first() =~= seq![b]);
    let (reg1, r1) = spec_dispatch(reg, a.resource, a@.task_code, io);
    let t = s.drop_first();
    assert(t.first() == b);
    assert(t.drop_first() =~= Seq::<Request>::empty());
    let (reg2, r2) = spec_dispatch(reg1, b.resource, b@.task_code, io);
    assert(spec_run(reg1, t, io).1 =~= seq![r2]);
    assert(spec_run(reg, s, io).1 =~= seq![r1, r2]);
}

} // verus!
