//! The reconciliation pass as a state machine: from each state and each
//! response of the cluster or the table store, the next state and the next
//! request. The surrounding process performs requests and feeds responses
//! back; every decision in between is made, and verified, here.

use vstd::prelude::*;
use vstd::string::*;

use crate::dispatch::job_blueprint_ok;
use crate::dispatch::JobBlueprint;
use crate::error::Error;
use crate::options::OptionsMap;
use crate::resolver::cache_covers;
use crate::resolver::cache_matches_plan_prefix;
use crate::resolver::lemma_cache_covers;
use crate::resolver::lemma_empty_plan_covers;
use crate::resolver::plan_covers;
use crate::resolver::plan_distinct;
use crate::resolver::plan_within;
use crate::resolver::FetchedObject;
use crate::resolver::ObjectData;
use crate::types::Action;
use crate::types::DeltaTable;
use crate::types::DeltaTableStatus;
use crate::types::JobSettings;
use crate::types::ReferenceKind;
use crate::types::StatusPatch;

verus! {

/// What deletion does to the backing table: nothing under either policy;
/// they differ only in the event text.
#[derive(Clone, Copy, Debug, PartialEq, Eq, Structural)]
pub enum ReconciliationPolicy {
    Manage,
    Detach,
}

/// What a pass does with a resource, decided before any call is made.
#[derive(Clone, Copy, Debug, PartialEq, Eq, Structural)]
pub enum PassPlan {
    /// Live object without our finalizer yet: attach it first.
    AttachFinalizer,
    /// Live object with the finalizer: run the apply machine.
    Apply,
    /// Deletion observed: clean up, then let the deletion finish.
    Cleanup,
}

/// An event for the cluster's event stream.
#[derive(Clone, Debug)]
pub struct EventSpec {
    pub warning: bool,
    pub reason: String,
    pub note: Option<String>,
    pub action: String,
}

/// The outcome of the cleanup path: one informational event and the order to
/// remove the finalizer. No table-store call can be expressed here: deletion
/// never touches the backing table under either policy.
#[derive(Clone, Debug)]
pub struct CleanupOutcome {
    pub event: EventSpec,
    pub finalize: bool,
}

/// What the machine asks the surrounding process to do next.
#[derive(Debug)]
pub enum Request {
    /// Initialize the status block (the resource had none).
    ReplaceStatus { status: DeltaTableStatus },
    /// Fetch one referenced object.
    GetReference { kind: ReferenceKind, name: String },
    /// Load the backing table with these storage options.
    LoadTable { options: OptionsMap },
    /// The load said there is no table: create it.
    CreateTable { options: OptionsMap, configuration: OptionsMap },
    /// Submit one maintenance job.
    CreateJob { job: JobBlueprint },
    /// Merge-patch the resource's status.
    PatchStatus { patch: StatusPatch },
}

/// What the surrounding process reports back.
#[derive(Debug)]
pub enum Response {
    /// The status replace finished; a failure is logged, not fatal.
    StatusReplaced { ok: bool },
    /// One referenced object came back, or was absent.
    Reference { data: Option<ObjectData> },
    /// The fetch of a referenced object failed.
    ReferenceFailed { message: String },
    TableLoaded { version: i64 },
    /// The location holds no table yet.
    TableMissing,
    /// The load or the create failed.
    TableFailed { message: String },
    TableCreated { version: i64 },
    /// Creation failed before the table store was reached: the schema did
    /// not parse, or the store refused.
    CreateTableFailed { error: Error },
    JobCreated,
    /// The job already exists: benign, the pass goes on.
    JobConflict,
    JobFailed { message: String },
    /// The status patch finished; a failure is logged, not fatal.
    StatusPatched { ok: bool },
}

/// Where the pass stands.
#[derive(Clone, Copy, Debug, PartialEq, Eq, Structural)]
pub enum Step {
    Init,
    AfterReplaceStatus,
    Fetching,
    AfterLoad,
    AfterCreateTable,
    Dispatching,
    AfterPublish,
    AfterFailPublish,
    Done,
    Failed,
}

/// Everything one pass works from, fixed when the pass starts: the resource
/// as observed, the job settings, and the operator's own emulator endpoint,
/// read from its environment once.
pub struct ReconcileInput {
    pub resource: DeltaTable,
    pub settings: JobSettings,
    pub emulator_endpoint: Option<String>,
}

impl ReconcileInput {
    /// The resource is namespaced and its annotations are a well-formed map.
    pub open spec fn wf(&self) -> bool {
        &&& self.resource.metadata.namespace is Some
        &&& self.resource.metadata.annotations.wf()
    }
}

/// The machine's state between two requests.
#[derive(Debug)]
pub struct ReconcileState {
    pub step: Step,
    pub plan: Vec<(ReferenceKind, String)>,
    pub next_ref: usize,
    pub cache: Vec<FetchedObject>,
    pub options: OptionsMap,
    pub version: i64,
    pub queue: Vec<Action>,
    pub next_action: usize,
    pub error: Option<Error>,
}

/// A status patch that records success: the observed version and health,
/// and nothing else.
pub open spec fn healthy_patch_ok(p: StatusPatch, version: i64) -> bool {
    &&& p.table_uri matches Some(u) && u@ == Seq::<char>::empty()
    &&& p.schema matches Some(s) && s@ == Seq::<char>::empty()
    &&& p.version == Some(version)
    &&& p.is_healthy == Some(true)
    &&& p.last_checkpoint_commit is None
    &&& p.last_checkpoint_timestamp is None
    &&& p.last_vacuum_commit is None
    &&& p.last_vacuum_timestamp is None
    &&& p.last_optimize_commit is None
    &&& p.last_optimize_timestamp is None
}

/// A status patch that records failure: unhealthy, nothing else changed.
pub open spec fn unhealthy_patch_ok(p: StatusPatch) -> bool {
    &&& p.table_uri matches Some(u) && u@ == Seq::<char>::empty()
    &&& p.schema matches Some(s) && s@ == Seq::<char>::empty()
    &&& p.version is None
    &&& p.is_healthy == Some(false)
    &&& p.last_checkpoint_commit is None
    &&& p.last_checkpoint_timestamp is None
    &&& p.last_vacuum_commit is None
    &&& p.last_vacuum_timestamp is None
    &&& p.last_optimize_commit is None
    &&& p.last_optimize_timestamp is None
}

/// Builds the success patch.
fn healthy_patch(version: i64) -> (p: StatusPatch)
    ensures
        healthy_patch_ok(p, version),
{
    let mut p = StatusPatch::empty();
    p.table_uri = Some(String::new());
    p.schema = Some(String::new());
    p.version = Some(version);
    p.is_healthy = Some(true);
    p
}

/// Builds the failure patch.
fn unhealthy_patch() -> (p: StatusPatch)
    ensures
        unhealthy_patch_ok(p),
{
    let mut p = StatusPatch::empty();
    p.table_uri = Some(String::new());
    p.schema = Some(String::new());
    p.is_healthy = Some(false);
    p
}

/// A status block with nothing recorded.
pub open spec fn is_empty_status(s: DeltaTableStatus) -> bool {
    &&& s.table_uri@ == Seq::<char>::empty()
    &&& s.schema@ == Seq::<char>::empty()
    &&& s.last_checkpoint_commit is None
    &&& s.last_checkpoint_timestamp is None
    &&& s.last_vacuum_commit is None
    &&& s.last_vacuum_timestamp is None
    &&& s.last_optimize_commit is None
    &&& s.last_optimize_timestamp is None
    &&& s.version is None
    &&& s.is_healthy is None
}

/// The resource's namespace, which every pass requires.
pub open spec fn namespace_of(input: ReconcileInput) -> String {
    input.resource.metadata.namespace.unwrap()
}

/// Which responses a state can be fed. Terminal states take none.
pub open spec fn response_expected(state: ReconcileState, resp: Option<Response>) -> bool {
    match state.step {
        Step::Init => resp is None,
        Step::AfterReplaceStatus => resp matches Some(Response::StatusReplaced { .. }),
        Step::Fetching => resp matches Some(Response::Reference { .. }) || resp matches Some(
            Response::ReferenceFailed { .. },
        ),
        Step::AfterLoad => resp matches Some(
            Response::TableLoaded { .. },
        ) || resp matches Some(Response::TableMissing) || resp matches Some(
            Response::TableFailed { .. },
        ),
        Step::AfterCreateTable => resp matches Some(Response::TableCreated { .. }) || resp matches
            Some(Response::CreateTableFailed { .. }),
        Step::Dispatching => resp matches Some(Response::JobCreated) || resp matches Some(
            Response::JobConflict,
        ) || resp matches Some(Response::JobFailed { .. }),
        Step::AfterPublish => resp matches Some(Response::StatusPatched { .. }),
        Step::AfterFailPublish => resp matches Some(Response::StatusPatched { .. }),
        Step::Done => false,
        Step::Failed => false,
    }
}

/// What holds of the machine's state between two requests.
pub open spec fn inv(input: ReconcileInput, s: ReconcileState) -> bool {
    match s.step {
        Step::Init => true,
        Step::AfterReplaceStatus => true,
        Step::Fetching => {
            &&& plan_distinct(s.plan@)
            &&& plan_covers(s.plan@, input.resource.option_references())
            &&& plan_within(s.plan@, input.resource.option_references())
            &&& s.next_ref < s.plan@.len()
            &&& s.cache@.len() == s.next_ref
            &&& cache_matches_plan_prefix(s.cache@, s.plan@, s.next_ref as int)
        },
        Step::AfterLoad => s.options.wf(),
        Step::AfterCreateTable => s.options.wf(),
        Step::Dispatching => {
            &&& s.options.wf()
            &&& s.next_action < s.queue@.len()
            &&& exists|now: i64| s.queue@ == input.resource.due_actions_spec(s.version, now)
        },
        Step::AfterPublish => true,
        Step::AfterFailPublish => s.error is Some,
        Step::Done => true,
        Step::Failed => s.error is Some,
    }
}

/// The pass is over and succeeded.
pub fn reconcile_done(state: &ReconcileState) -> (r: bool)
    ensures
        r == (state.step == Step::Done),
{
    match state.step {
        Step::Done => true,
        _ => false,
    }
}

/// The pass is over and failed; the error says why.
pub fn reconcile_error(state: &ReconcileState) -> (r: bool)
    ensures
        r == (state.step == Step::Failed),
{
    match state.step {
        Step::Failed => true,
        _ => false,
    }
}

/// The state a pass starts from.
pub fn reconcile_init() -> (s: ReconcileState)
    ensures
        s.step == Step::Init,
        s.error is None,
{
    ReconcileState {
        step: Step::Init,
        plan: Vec::new(),
        next_ref: 0,
        cache: Vec::new(),
        options: OptionsMap::new(),
        version: 0,
        queue: Vec::new(),
        next_action: 0,
        error: None,
    }
}

/// After the status block is known to exist: the fetch plan is laid out —
/// distinct, covering the declared references and drawn from them alone —
/// and either the first fetch is requested or, with an empty plan (which a
/// covering plan can only be when nothing is referenced), resolution runs at
/// once over the empty cache, pinning it to the inline options.
pub open spec fn fetch_started(input: ReconcileInput, s: ReconcileState, req: Option<
    Request,
>) -> bool {
    &&& plan_distinct(s.plan@)
    &&& plan_covers(s.plan@, input.resource.option_references())
    &&& plan_within(s.plan@, input.resource.option_references())
    &&& if s.plan@.len() > 0 {
        &&& s.step == Step::Fetching
        &&& s.next_ref == 0
        &&& s.cache@.len() == 0
        &&& req matches Some(Request::GetReference { kind, name }) && kind == s.plan@[0].0
            && name@ == s.plan@[0].1@
    } else {
        &&& s.cache@.len() == 0
        &&& resolved_now(input, s, req)
    }
}

/// Resolution ran over the fetched objects: on success the load is
/// requested with exactly the resolved options; a missing required
/// reference ends the pass with that error and no further request.
pub open spec fn resolved_now(input: ReconcileInput, s: ReconcileState, req: Option<
    Request,
>) -> bool {
    match input.resource.resolved_options(s.cache@) {
        Ok(m) => {
            &&& s.step == Step::AfterLoad
            &&& s.options.wf()
            &&& s.options@ == m
            &&& req matches Some(Request::LoadTable { options }) && options.wf() && options@ == m
        },
        Err(e) => {
            &&& s.step == Step::Failed
            &&& s.error == Some(e)
            &&& req is None
        },
    }
}

/// A table version is known: the due actions are evaluated, in the fixed
/// order vacuum, checkpoint, optimize, at the version and the clock's time;
/// the first due action's job is requested, or with none due the healthy
/// status is published.
pub open spec fn table_ready_post(
    input: ReconcileInput,
    s: ReconcileState,
    req: Option<Request>,
    version: i64,
    options: OptionsMap,
) -> bool {
    &&& s.version == version
    &&& s.options == options
    &&& exists|now: i64| s.queue@ == input.resource.due_actions_spec(version, now)
    &&& if s.queue@.len() == 0 {
        &&& s.step == Step::AfterPublish
        &&& req matches Some(Request::PatchStatus { patch }) && healthy_patch_ok(patch, version)
    } else {
        &&& s.step == Step::Dispatching
        &&& s.next_action == 0
        &&& req matches Some(Request::CreateJob { job }) && job_blueprint_ok(
            input.resource,
            s.queue@[0],
            namespace_of(input),
            input.settings,
            options,
            input.emulator_endpoint,
            job,
        )
    }
}

/// One job went through (created, or already there): the next due action's
/// job is requested, or with the queue done the healthy status is published.
pub open spec fn job_done_post(
    input: ReconcileInput,
    old_s: ReconcileState,
    s: ReconcileState,
    req: Option<Request>,
) -> bool {
    &&& s.queue@ == old_s.queue@
    &&& s.version == old_s.version
    &&& s.options == old_s.options
    &&& s.next_action == old_s.next_action + 1
    &&& if old_s.next_action + 1 < old_s.queue@.len() {
        &&& s.step == Step::Dispatching
        &&& req matches Some(Request::CreateJob { job }) && job_blueprint_ok(
            input.resource,
            s.queue@[old_s.next_action + 1],
            namespace_of(input),
            input.settings,
            s.options,
            input.emulator_endpoint,
            job,
        )
    } else {
        &&& s.step == Step::AfterPublish
        &&& req matches Some(Request::PatchStatus { patch }) && healthy_patch_ok(
            patch,
            old_s.version,
        )
    }
}

/// The resource's namespace.
fn resource_namespace(resource: &DeltaTable) -> (ns: &String)
    requires
        resource.metadata.namespace is Some,
    ensures
        ns == &resource.metadata.namespace.unwrap(),
{
    match &resource.metadata.namespace {
        Some(ns) => ns,
        None => {
            proof {
                assert(false);
            }
            &resource.metadata.name
        },
    }
}

/// Builds the job blueprint for the queued action at `idx`.
fn make_job(input: &ReconcileInput, s: &ReconcileState, idx: usize) -> (job: JobBlueprint)
    requires
        input.wf(),
        idx < s.queue@.len(),
    ensures
        job_blueprint_ok(
            input.resource,
            s.queue@[idx as int],
            namespace_of(*input),
            input.settings,
            s.options,
            input.emulator_endpoint,
            job,
        ),
{
    let ns = resource_namespace(&input.resource);
    input.resource.create_job(
        s.queue[idx],
        ns,
        &input.settings,
        &s.options,
        &input.emulator_endpoint,
    )
}

/// Runs resolution over the fetched objects and either requests the load or
/// ends the pass with the resolution error.
fn resolve_now(input: &ReconcileInput, state: ReconcileState) -> (r: (
    ReconcileState,
    Option<Request>,
))
    requires
        cache_covers(state.cache@, input.resource.option_references()),
    ensures
        resolved_now(*input, r.0, r.1),
        inv(*input, r.0),
        r.0.plan == state.plan,
        r.0.cache == state.cache,
        r.0.next_ref == state.next_ref,
{
    let mut s = state;
    match input.resource.accumulate_storage_options(&s.cache) {
        Ok(m) => {
            let options = m.duplicate();
            s.options = m;
            s.step = Step::AfterLoad;
            (s, Some(Request::LoadTable { options }))
        },
        Err(e) => {
            s.error = Some(e);
            s.step = Step::Failed;
            (s, None)
        },
    }
}

/// Lays out the fetch plan and requests the first fetch, or resolves at
/// once when nothing is referenced.
fn begin_fetching(input: &ReconcileInput, state: ReconcileState) -> (r: (
    ReconcileState,
    Option<Request>,
))
    ensures
        fetch_started(*input, r.0, r.1),
        inv(*input, r.0),
{
    let mut s = state;
    s.plan = input.resource.fetch_plan();
    s.next_ref = 0;
    s.cache = Vec::new();
    if s.plan.len() > 0 {
        let kind = s.plan[0].0;
        let name = s.plan[0].1.clone();
        s.step = Step::Fetching;
        (s, Some(Request::GetReference { kind, name }))
    } else {
        proof {
            lemma_empty_plan_covers(s.plan@, input.resource.option_references());
        }
        resolve_now(input, s)
    }
}

/// Records the table version, evaluates the due actions at the clock's time
/// and either dispatches the first one or publishes the healthy status.
fn table_ready(input: &ReconcileInput, state: ReconcileState, version: i64) -> (r: (
    ReconcileState,
    Option<Request>,
))
    requires
        input.wf(),
        state.options.wf(),
    ensures
        table_ready_post(*input, r.0, r.1, version, state.options),
        inv(*input, r.0),
{
    let mut s = state;
    s.version = version;
    let now = crate::clock::now_timestamp();
    s.queue = input.resource.due_actions(version, now);
    s.next_action = 0;
    proof {
        assert(s.queue@ == input.resource.due_actions_spec(version, now));
    }
    if s.queue.len() == 0 {
        s.step = Step::AfterPublish;
        (s, Some(Request::PatchStatus { patch: healthy_patch(version) }))
    } else {
        s.step = Step::Dispatching;
        let job = make_job(input, &s, 0);
        (s, Some(Request::CreateJob { job }))
    }
}

/// One transition of the pass: from the machine's state and the response to
/// its last request, the next state and the next request. The pass is over
/// when no request comes back; `reconcile_done` and `reconcile_error` say
/// how it ended.
pub fn reconcile_core(input: &ReconcileInput, resp: Option<Response>, state: ReconcileState) -> (r:
    (ReconcileState, Option<Request>))
    requires
        input.wf(),
        inv(*input, state),
        response_expected(state, resp),
    ensures
        inv(*input, r.0),
        // A resource with no status gets one before anything else; the
        // failure of that write is not fatal.
        state.step == Step::Init && input.resource.status is None ==> (r.0.step
            == Step::AfterReplaceStatus && (r.1 matches Some(Request::ReplaceStatus { status })
            && is_empty_status(status))),
        state.step == Step::Init && input.resource.status is Some ==> fetch_started(
            *input,
            r.0,
            r.1,
        ),
        // Whatever the status write reported — failure included — the pass
        // goes on to fetching and resolution; the outcome is logged only.
        state.step == Step::AfterReplaceStatus ==> fetch_started(*input, r.0, r.1),
        // Each fetched object is cached under its planned coordinates; the
        // next object is requested, or resolution runs over the cache.
        state.step == Step::Fetching ==> (resp matches Some(Response::Reference { data }) ==> {
            &&& r.0.plan@ == state.plan@
            &&& r.0.cache@ == state.cache@.push(
                FetchedObject {
                    kind: state.plan@[state.next_ref as int].0,
                    name: state.plan@[state.next_ref as int].1,
                    data,
                },
            )
            &&& if state.next_ref + 1 < state.plan@.len() {
                &&& r.0.step == Step::Fetching
                &&& r.0.next_ref == state.next_ref + 1
                &&& r.1 matches Some(Request::GetReference { kind, name }) && kind
                    == state.plan@[state.next_ref + 1].0 && name@ == state.plan@[state.next_ref
                    + 1].1@
            } else {
                resolved_now(*input, r.0, r.1)
            }
        }),
        // A failed fetch fails the pass as a control-plane error.
        state.step == Step::Fetching ==> (resp matches Some(
            Response::ReferenceFailed { message },
        ) ==> (r.0.step == Step::Failed && r.0.error == Some(Error::Kubernetes { message }) && r.1
            is None)),
        // A loaded table hands its version to the decision engine.
        state.step == Step::AfterLoad ==> (resp matches Some(Response::TableLoaded { version })
            ==> table_ready_post(*input, r.0, r.1, version, state.options)),
        // No table yet: create it, with the resolved options and the
        // configured table settings.
        state.step == Step::AfterLoad ==> (resp matches Some(Response::TableMissing) ==> (r.0.step
            == Step::AfterCreateTable && r.0.options == state.options && (r.1 matches Some(
            Request::CreateTable { options, configuration },
        ) && options@ == state.options@ && configuration@
            == input.resource.table_config_map()))),
        // A failed load publishes the unhealthy status, then the pass fails.
        state.step == Step::AfterLoad ==> (resp matches Some(Response::TableFailed { message })
            ==> (r.0.step == Step::AfterFailPublish && r.0.error == Some(
            Error::DeltaLake { message },
        ) && (r.1 matches Some(Request::PatchStatus { patch }) && unhealthy_patch_ok(patch)))),
        state.step == Step::AfterCreateTable ==> (resp matches Some(
            Response::TableCreated { version },
        ) ==> table_ready_post(*input, r.0, r.1, version, state.options)),
        state.step == Step::AfterCreateTable ==> (resp matches Some(
            Response::CreateTableFailed { error },
        ) ==> (r.0.step == Step::AfterFailPublish && r.0.error == Some(error) && (r.1 matches Some(
            Request::PatchStatus { patch },
        ) && unhealthy_patch_ok(patch)))),
        // A creation conflict is success: the job already exists.
        state.step == Step::Dispatching ==> ((resp == Some(Response::JobCreated) || resp == Some(
            Response::JobConflict,
        )) ==> job_done_post(*input, state, r.0, r.1)),
        // A dispatch failure aborts the remaining actions of this pass.
        state.step == Step::Dispatching ==> (resp matches Some(Response::JobFailed { message })
            ==> (r.0.step == Step::Failed && r.0.error == Some(Error::Kubernetes { message })
            && r.1 is None)),
        state.step == Step::AfterPublish ==> (r.0.step == Step::Done && r.1 is None),
        state.step == Step::AfterFailPublish ==> (r.0.step == Step::Failed && r.0.error
            == state.error && r.1 is None),
{
    match state.step {
        Step::Init => {
            if input.resource.status.is_none() {
                let mut s = state;
                s.step = Step::AfterReplaceStatus;
                (s, Some(Request::ReplaceStatus { status: DeltaTableStatus::default() }))
            } else {
                begin_fetching(input, state)
            }
        },
        Step::AfterReplaceStatus => begin_fetching(input, state),
        Step::Fetching => {
            match resp {
                Some(Response::Reference { data }) => {
                    let mut s = state;
                    let n = s.plan.len();
                    let kind = s.plan[s.next_ref].0;
                    let name = s.plan[s.next_ref].1.clone();
                    s.cache.push(FetchedObject { kind, name, data });
                    s.next_ref += 1;
                    if s.next_ref < n {
                        let kind = s.plan[s.next_ref].0;
                        let name = s.plan[s.next_ref].1.clone();
                        (s, Some(Request::GetReference { kind, name }))
                    } else {
                        proof {
                            lemma_cache_covers(
                                s.cache@,
                                s.plan@,
                                input.resource.option_references(),
                            );
                        }
                        resolve_now(input, s)
                    }
                },
                Some(Response::ReferenceFailed { message }) => {
                    let mut s = state;
                    s.error = Some(Error::Kubernetes { message });
                    s.step = Step::Failed;
                    (s, None)
                },
                _ => (state, None),
            }
        },
        Step::AfterLoad => {
            match resp {
                Some(Response::TableLoaded { version }) => table_ready(input, state, version),
                Some(Response::TableMissing) => {
                    let mut s = state;
                    let options = s.options.duplicate();
                    let configuration = input.resource.extract_config();
                    s.step = Step::AfterCreateTable;
                    (s, Some(Request::CreateTable { options, configuration }))
                },
                Some(Response::TableFailed { message }) => {
                    let mut s = state;
                    s.error = Some(Error::DeltaLake { message });
                    s.step = Step::AfterFailPublish;
                    (s, Some(Request::PatchStatus { patch: unhealthy_patch() }))
                },
                _ => (state, None),
            }
        },
        Step::AfterCreateTable => {
            match resp {
                Some(Response::TableCreated { version }) => table_ready(input, state, version),
                Some(Response::CreateTableFailed { error }) => {
                    let mut s = state;
                    s.error = Some(error);
                    s.step = Step::AfterFailPublish;
                    (s, Some(Request::PatchStatus { patch: unhealthy_patch() }))
                },
                _ => (state, None),
            }
        },
        Step::Dispatching => {
            match resp {
                Some(Response::JobCreated) | Some(Response::JobConflict) => {
                    let mut s = state;
                    s.next_action += 1;
                    if s.next_action < s.queue.len() {
                        let job = make_job(input, &s, s.next_action);
                        (s, Some(Request::CreateJob { job }))
                    } else {
                        s.step = Step::AfterPublish;
                        let patch = healthy_patch(s.version);
                        (s, Some(Request::PatchStatus { patch }))
                    }
                },
                Some(Response::JobFailed { message }) => {
                    let mut s = state;
                    s.error = Some(Error::Kubernetes { message });
                    s.step = Step::Failed;
                    (s, None)
                },
                _ => (state, None),
            }
        },
        Step::AfterPublish => {
            let mut s = state;
            s.step = Step::Done;
            (s, None)
        },
        Step::AfterFailPublish => {
            let mut s = state;
            s.step = Step::Failed;
            (s, None)
        },
        Step::Done => (state, None),
        Step::Failed => (state, None),
    }
}


/// The annotation consulted at cleanup time.
pub const ANNOTATION_RECONCILIATION_POLICY: &'static str =
    "delta-operator.rs/reconciliation-policy";

pub const RECONCILIATION_MANAGE: &'static str = "manage";

pub const RECONCILIATION_DETACH: &'static str = "detach";

/// What the retry policy orders after a pass: wait for the next change, or
/// run again after a delay.
#[derive(Clone, Copy, Debug, PartialEq, Eq, Structural)]
pub enum Directive {
    AwaitChange,
    Requeue { delay_secs: u64 },
}

/// Every error from a pass has the triggering event retried after a fixed
/// backoff of five minutes, indefinitely; the error's kind changes nothing.
pub fn error_policy(error: &Error) -> (d: Directive)
    ensures
        d == (Directive::Requeue { delay_secs: 300 }),
{
    let _ = error;
    Directive::Requeue { delay_secs: 300 }
}

impl DeltaTable {
    /// The reconciliation policy the resource asks for: `detach` exactly
    /// when the annotation says so; absent or unrecognized values collapse
    /// to `manage`.
    pub open spec fn cleanup_policy(&self) -> ReconciliationPolicy {
        if self.metadata.annotations@.dom().contains(
            "delta-operator.rs/reconciliation-policy"@,
        ) && self.metadata.annotations@["delta-operator.rs/reconciliation-policy"@]
            == "detach"@ {
            ReconciliationPolicy::Detach
        } else {
            ReconciliationPolicy::Manage
        }
    }

    /// What this pass does: cleanup once deletion is observed, otherwise
    /// apply, with the finalizer attached first when it is missing.
    pub fn plan_pass(&self) -> (p: PassPlan)
        ensures
            p == (if self.metadata.deletion_timestamp is Some {
                PassPlan::Cleanup
            } else if self.metadata.has_finalizer {
                PassPlan::Apply
            } else {
                PassPlan::AttachFinalizer
            }),
    {
        if self.metadata.deletion_timestamp.is_some() {
            PassPlan::Cleanup
        } else if self.metadata.has_finalizer {
            PassPlan::Apply
        } else {
            PassPlan::AttachFinalizer
        }
    }

    /// The cleanup path: under either policy the backing table is left
    /// alone — the outcome can express no table-store call — one
    /// informational event is emitted, whose text the policy picks, and the
    /// finalizer is removed so the deletion can finish.
    pub fn cleanup(&self) -> (o: CleanupOutcome)
        requires
            self.metadata.annotations.wf(),
        ensures
            o.finalize,
            !o.event.warning,
            o.event.reason@ == "DeleteRequested"@,
            o.event.action@ == "Deleting"@,
            o.event.note matches Some(note) && note@ == (if self.cleanup_policy()
                == ReconciliationPolicy::Detach {
                "Delete `"@ + self.metadata.name@ + "`: no action due to policy"@
            } else {
                "Delete `"@ + self.metadata.name@ + "`: delete not implemented"@
            }),
    {
        let key = String::from_str(ANNOTATION_RECONCILIATION_POLICY);
        let detach = String::from_str(RECONCILIATION_DETACH);
        let is_detach = match self.metadata.annotations.get(&key) {
            Some(value) => *value == detach,
            None => false,
        };
        let mut note = String::from_str("Delete `");
        note.append(self.metadata.name.as_str());
        if is_detach {
            note.append("`: no action due to policy");
        } else {
            note.append("`: delete not implemented");
        }
        CleanupOutcome {
            event: EventSpec {
                warning: false,
                reason: String::from_str("DeleteRequested"),
                note: Some(note),
                action: String::from_str("Deleting"),
            },
            finalize: true,
        }
    }
}

} // verus!
