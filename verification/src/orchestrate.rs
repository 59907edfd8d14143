//! Split orchestration: one invocation moves through resolution of the
//! output location, directory creation, a write-permission probe, bridge
//! installation and the pipeline run, ending in a success path or a
//! failure. The machine decides; the caller performs each returned action
//! (filesystem work, callback installation, the blocking pipeline call)
//! and feeds the outcome back in as the next event.
use crate::paths::joined;
use crate::paths::project_label;
use crate::paths::resolve_output_paths;
use crate::paths::ResolvedOutputPath;
use vstd::prelude::*;
use vstd::string::StringExecFns;

verus! {

/// The name of the throwaway file written and deleted to test write
/// permission: the bytes of `.stemmer_write_test`.
pub open spec fn probe_label() -> Seq<u8> {
    seq![
        46u8,
        115u8,
        116u8,
        101u8,
        109u8,
        109u8,
        101u8,
        114u8,
        95u8,
        119u8,
        114u8,
        105u8,
        116u8,
        101u8,
        95u8,
        116u8,
        101u8,
        115u8,
        116u8,
    ]
}

/// Builds the probe file name as bytes.
pub fn probe_label_bytes() -> (r: Vec<u8>)
    ensures
        r@ == probe_label(),
{
    let mut v: Vec<u8> = Vec::new();
    v.push(46);
    v.push(115);
    v.push(116);
    v.push(101);
    v.push(109);
    v.push(109);
    v.push(101);
    v.push(114);
    v.push(95);
    v.push(119);
    v.push(114);
    v.push(105);
    v.push(116);
    v.push(101);
    v.push(95);
    v.push(116);
    v.push(101);
    v.push(115);
    v.push(116);
    proof {
        assert(v@ =~= probe_label());
    }
    v
}

fn copy_bytes(v: &Vec<u8>) -> (r: Vec<u8>)
    ensures
        r@ == v@,
{
    vstd::slice::slice_to_vec(v.as_slice())
}

/// One split invocation as the caller hands it over; immutable once
/// accepted.
pub struct SplitRequest {
    pub input_path: Vec<u8>,
    pub output_base_dir: Vec<u8>,
}

/// Why an invocation failed.
pub enum SplitFailure {
    /// A directory could not be created; `base` tells the base directory
    /// from the project folder.
    DirectoryCreation { path: Vec<u8>, base: bool, error_text: String, error_code: String },
    /// The write-permission probe failed.
    WritePermission { path: Vec<u8>, error_text: String, error_code: String },
    /// The pipeline itself returned an error.
    Pipeline { message: String },
    /// The blocking task did not run to completion.
    Task { message: String },
}

/// Where one invocation stands.
pub enum OrchestratorState {
    Idle,
    EnsuringBase { request: SplitRequest, resolved: ResolvedOutputPath },
    EnsuringProject { request: SplitRequest, resolved: ResolvedOutputPath },
    WritingProbe { request: SplitRequest, resolved: ResolvedOutputPath },
    RemovingProbe { request: SplitRequest, resolved: ResolvedOutputPath },
    Installing { request: SplitRequest, resolved: ResolvedOutputPath },
    Running { request: SplitRequest, resolved: ResolvedOutputPath },
    Completed { output_path: Vec<u8> },
    Failed { failure: SplitFailure },
}

/// What the caller reports back after performing an action.
pub enum StepEvent {
    Start { request: SplitRequest },
    FsOk,
    FsFailed { error_text: String, error_code: String },
    Installed,
    PipelineOk,
    PipelineFailed { message: String },
    TaskFailed { message: String },
}

/// What the caller must do next.
pub enum StepAction {
    EnsureDir { path: Vec<u8> },
    WriteProbe { path: Vec<u8> },
    RemoveProbe { path: Vec<u8> },
    InstallBridge { output_path: Vec<u8> },
    RunPipeline { input_path: Vec<u8>, output_dir: Vec<u8> },
    ReportSuccess { output_path: Vec<u8> },
    ReportFailure { failure: SplitFailure },
}

/// The events a state accepts.
pub open spec fn event_fits(s: OrchestratorState, e: StepEvent) -> bool {
    match s {
        OrchestratorState::Idle => e is Start,
        OrchestratorState::EnsuringBase { .. } => e is FsOk || e is FsFailed,
        OrchestratorState::EnsuringProject { .. } => e is FsOk || e is FsFailed,
        OrchestratorState::WritingProbe { .. } => e is FsOk || e is FsFailed,
        OrchestratorState::RemovingProbe { .. } => e is FsOk || e is FsFailed,
        OrchestratorState::Installing { .. } => e is Installed,
        OrchestratorState::Running { .. } => e is PipelineOk || e is PipelineFailed
            || e is TaskFailed,
        OrchestratorState::Completed { .. } => false,
        OrchestratorState::Failed { .. } => false,
    }
}

/// A state that carries a request also carries the location resolved for
/// it.
pub open spec fn state_wf(s: OrchestratorState) -> bool {
    match s {
        OrchestratorState::EnsuringBase { request, resolved } => carried_wf(request, resolved),
        OrchestratorState::EnsuringProject { request, resolved } => carried_wf(request, resolved),
        OrchestratorState::WritingProbe { request, resolved } => carried_wf(request, resolved),
        OrchestratorState::RemovingProbe { request, resolved } => carried_wf(request, resolved),
        OrchestratorState::Installing { request, resolved } => carried_wf(request, resolved),
        OrchestratorState::Running { request, resolved } => carried_wf(request, resolved),
        _ => true,
    }
}

/// The resolved location belongs to the request it travels with.
pub open spec fn carried_wf(request: SplitRequest, resolved: ResolvedOutputPath) -> bool {
    &&& resolved.wf()
    &&& resolved.base_dir@ == request.output_base_dir@
    &&& resolved.project_subdir@ == project_label(request.input_path@)
    &&& resolved.full_path@ == joined(
        request.output_base_dir@,
        project_label(request.input_path@),
    )
}

/// Two carried pairs hold the same request and location.
pub open spec fn same_carried(
    rq1: SplitRequest,
    rs1: ResolvedOutputPath,
    rq2: SplitRequest,
    rs2: ResolvedOutputPath,
) -> bool {
    &&& rq2.input_path@ == rq1.input_path@
    &&& rq2.output_base_dir@ == rq1.output_base_dir@
    &&& rs2.base_dir@ == rs1.base_dir@
    &&& rs2.project_subdir@ == rs1.project_subdir@
    &&& rs2.full_path@ == rs1.full_path@
}

/// The transition table of the orchestrator, one arm per accepted
/// state/event pair.
pub open spec fn step_relation(
    s: OrchestratorState,
    e: StepEvent,
    s2: OrchestratorState,
    a: StepAction,
) -> bool {
    match (s, e) {
        (OrchestratorState::Idle, StepEvent::Start { request }) => {
            &&& s2 matches OrchestratorState::EnsuringBase { request: rq, resolved }
                && rq.input_path@ == request.input_path@ && rq.output_base_dir@
                == request.output_base_dir@ && carried_wf(rq, resolved)
            &&& a matches StepAction::EnsureDir { path } && path@ == request.output_base_dir@
        },
        (OrchestratorState::EnsuringBase { request, resolved }, StepEvent::FsOk) => {
            &&& s2 matches OrchestratorState::EnsuringProject { request: rq, resolved: rs }
                && same_carried(request, resolved, rq, rs)
            &&& a matches StepAction::EnsureDir { path } && path@ == resolved.full_path@
        },
        (
            OrchestratorState::EnsuringBase { request, .. },
            StepEvent::FsFailed { error_text, error_code },
        ) => failure_step(
            s2,
            a,
            SplitFailure::DirectoryCreation {
                path: request.output_base_dir,
                base: true,
                error_text,
                error_code,
            },
        ),
        (OrchestratorState::EnsuringProject { request, resolved }, StepEvent::FsOk) => {
            &&& s2 matches OrchestratorState::WritingProbe { request: rq, resolved: rs }
                && same_carried(request, resolved, rq, rs)
            &&& a matches StepAction::WriteProbe { path } && path@ == joined(
                resolved.full_path@,
                probe_label(),
            )
        },
        (
            OrchestratorState::EnsuringProject { resolved, .. },
            StepEvent::FsFailed { error_text, error_code },
        ) => failure_step(
            s2,
            a,
            SplitFailure::DirectoryCreation {
                path: resolved.full_path,
                base: false,
                error_text,
                error_code,
            },
        ),
        (OrchestratorState::WritingProbe { request, resolved }, StepEvent::FsOk) => {
            &&& s2 matches OrchestratorState::RemovingProbe { request: rq, resolved: rs }
                && same_carried(request, resolved, rq, rs)
            &&& a matches StepAction::RemoveProbe { path } && path@ == joined(
                resolved.full_path@,
                probe_label(),
            )
        },
        (
            OrchestratorState::WritingProbe { resolved, .. },
            StepEvent::FsFailed { error_text, error_code },
        ) => failure_step(
            s2,
            a,
            SplitFailure::WritePermission { path: resolved.full_path, error_text, error_code },
        ),
        // The probe file must never remain behind a successful resolution,
        // so a failed removal fails the run like a failed write.
        (OrchestratorState::RemovingProbe { request, resolved }, StepEvent::FsOk) => {
            &&& s2 matches OrchestratorState::Installing { request: rq, resolved: rs }
                && same_carried(request, resolved, rq, rs)
            &&& a matches StepAction::InstallBridge { output_path } && output_path@
                == resolved.full_path@
        },
        (
            OrchestratorState::RemovingProbe { resolved, .. },
            StepEvent::FsFailed { error_text, error_code },
        ) => failure_step(
            s2,
            a,
            SplitFailure::WritePermission { path: resolved.full_path, error_text, error_code },
        ),
        (OrchestratorState::Installing { request, resolved }, StepEvent::Installed) => {
            &&& s2 matches OrchestratorState::Running { request: rq, resolved: rs }
                && same_carried(request, resolved, rq, rs)
            &&& a matches StepAction::RunPipeline { input_path, output_dir } && input_path@
                == request.input_path@ && output_dir@ == resolved.full_path@
        },
        (OrchestratorState::Running { request, resolved }, StepEvent::PipelineOk) => {
            &&& s2 matches OrchestratorState::Completed { output_path } && output_path@
                == resolved.full_path@
            &&& a matches StepAction::ReportSuccess { output_path } && output_path@
                == resolved.full_path@
        },
        (
            OrchestratorState::Running { .. },
            StepEvent::PipelineFailed { message },
        ) => failure_step(s2, a, SplitFailure::Pipeline { message }),
        (OrchestratorState::Running { .. }, StepEvent::TaskFailed { message }) => failure_step(
            s2,
            a,
            SplitFailure::Task { message },
        ),
        _ => false,
    }
}

/// Both the next state and the action carry the given failure.
pub open spec fn failure_step(s2: OrchestratorState, a: StepAction, f: SplitFailure) -> bool {
    &&& s2 matches OrchestratorState::Failed { failure } && same_failure(failure, f)
    &&& a matches StepAction::ReportFailure { failure } && same_failure(failure, f)
}

fn clone_failure(f: &SplitFailure) -> (r: SplitFailure)
    ensures
        same_failure(*f, r),
{
    match f {
        SplitFailure::DirectoryCreation { path, base, error_text, error_code } => {
            SplitFailure::DirectoryCreation {
                path: copy_bytes(path),
                base: *base,
                error_text: error_text.clone(),
                error_code: error_code.clone(),
            }
        },
        SplitFailure::WritePermission { path, error_text, error_code } => {
            SplitFailure::WritePermission {
                path: copy_bytes(path),
                error_text: error_text.clone(),
                error_code: error_code.clone(),
            }
        },
        SplitFailure::Pipeline { message } => SplitFailure::Pipeline {
            message: message.clone(),
        },
        SplitFailure::Task { message } => SplitFailure::Task { message: message.clone() },
    }
}

/// Advances the machine by one event; the caller performs the returned
/// action and reports its outcome as the next event.
pub fn orchestrator_step(state: OrchestratorState, event: StepEvent) -> (r: (
    OrchestratorState,
    StepAction,
))
    requires
        event_fits(state, event),
        state_wf(state),
    ensures
        step_relation(state, event, r.0, r.1),
        state_wf(r.0),
{
    match (state, event) {
        (OrchestratorState::Idle, StepEvent::Start { request }) => {
            let resolved = resolve_output_paths(
                request.input_path.as_slice(),
                request.output_base_dir.as_slice(),
            );
            let path = copy_bytes(&request.output_base_dir);
            (
                OrchestratorState::EnsuringBase { request, resolved },
                StepAction::EnsureDir { path },
            )
        },
        (OrchestratorState::EnsuringBase { request, resolved }, StepEvent::FsOk) => {
            let path = copy_bytes(&resolved.full_path);
            (
                OrchestratorState::EnsuringProject { request, resolved },
                StepAction::EnsureDir { path },
            )
        },
        (
            OrchestratorState::EnsuringBase { request, .. },
            StepEvent::FsFailed { error_text, error_code },
        ) => {
            let failure = SplitFailure::DirectoryCreation {
                path: request.output_base_dir,
                base: true,
                error_text,
                error_code,
            };
            let reported = clone_failure(&failure);
            (
                OrchestratorState::Failed { failure },
                StepAction::ReportFailure { failure: reported },
            )
        },
        (OrchestratorState::EnsuringProject { request, resolved }, StepEvent::FsOk) => {
            let probe = probe_label_bytes();
            let path = crate::paths::join_path(resolved.full_path.as_slice(), probe.as_slice());
            (
                OrchestratorState::WritingProbe { request, resolved },
                StepAction::WriteProbe { path },
            )
        },
        (
            OrchestratorState::EnsuringProject { resolved, .. },
            StepEvent::FsFailed { error_text, error_code },
        ) => {
            let failure = SplitFailure::DirectoryCreation {
                path: resolved.full_path,
                base: false,
                error_text,
                error_code,
            };
            let reported = clone_failure(&failure);
            (
                OrchestratorState::Failed { failure },
                StepAction::ReportFailure { failure: reported },
            )
        },
        (OrchestratorState::WritingProbe { request, resolved }, StepEvent::FsOk) => {
            let probe = probe_label_bytes();
            let path = crate::paths::join_path(resolved.full_path.as_slice(), probe.as_slice());
            (
                OrchestratorState::RemovingProbe { request, resolved },
                StepAction::RemoveProbe { path },
            )
        },
        (
            OrchestratorState::WritingProbe { resolved, .. },
            StepEvent::FsFailed { error_text, error_code },
        ) => {
            let failure = SplitFailure::WritePermission {
                path: resolved.full_path,
                error_text,
                error_code,
            };
            let reported = clone_failure(&failure);
            (
                OrchestratorState::Failed { failure },
                StepAction::ReportFailure { failure: reported },
            )
        },
        (OrchestratorState::RemovingProbe { request, resolved }, StepEvent::FsOk) => {
            let output_path = copy_bytes(&resolved.full_path);
            (
                OrchestratorState::Installing { request, resolved },
                StepAction::InstallBridge { output_path },
            )
        },
        (
            OrchestratorState::RemovingProbe { resolved, .. },
            StepEvent::FsFailed { error_text, error_code },
        ) => {
            let failure = SplitFailure::WritePermission {
                path: resolved.full_path,
                error_text,
                error_code,
            };
            let reported = clone_failure(&failure);
            (
                OrchestratorState::Failed { failure },
                StepAction::ReportFailure { failure: reported },
            )
        },
        (OrchestratorState::Installing { request, resolved }, StepEvent::Installed) => {
            let input_path = copy_bytes(&request.input_path);
            let output_dir = copy_bytes(&resolved.full_path);
            (
                OrchestratorState::Running { request, resolved },
                StepAction::RunPipeline { input_path, output_dir },
            )
        },
        (OrchestratorState::Running { resolved, .. }, StepEvent::PipelineOk) => {
            let reported = copy_bytes(&resolved.full_path);
            (
                OrchestratorState::Completed { output_path: resolved.full_path },
                StepAction::ReportSuccess { output_path: reported },
            )
        },
        (OrchestratorState::Running { .. }, StepEvent::PipelineFailed { message }) => {
            let failure = SplitFailure::Pipeline { message };
            let reported = clone_failure(&failure);
            (
                OrchestratorState::Failed { failure },
                StepAction::ReportFailure { failure: reported },
            )
        },
        (OrchestratorState::Running { .. }, StepEvent::TaskFailed { message }) => {
            let failure = SplitFailure::Task { message };
            let reported = clone_failure(&failure);
            (
                OrchestratorState::Failed { failure },
                StepAction::ReportFailure { failure: reported },
            )
        },
        _ => {
            proof {
                assert(false);
            }
            vstd::pervasive::unreached()
        },
    }
}

/// Two failures hold the same kind and the same contents.
pub open spec fn same_failure(f1: SplitFailure, f2: SplitFailure) -> bool {
    match (f1, f2) {
        (
            SplitFailure::DirectoryCreation { path, base, error_text, error_code },
            SplitFailure::DirectoryCreation { path: p2, base: b2, error_text: t2, error_code: c2 },
        ) => p2@ == path@ && b2 == base && t2@ == error_text@ && c2@ == error_code@,
        (
            SplitFailure::WritePermission { path, error_text, error_code },
            SplitFailure::WritePermission { path: p2, error_text: t2, error_code: c2 },
        ) => p2@ == path@ && t2@ == error_text@ && c2@ == error_code@,
        (SplitFailure::Pipeline { message }, SplitFailure::Pipeline { message: m2 }) => m2@
            == message@,
        (SplitFailure::Task { message }, SplitFailure::Task { message: m2 }) => m2@ == message@,
        _ => false,
    }
}

/// Renders a directory-creation failure as the caller-facing message; the
/// base-directory form carries the full troubleshooting guidance, the
/// project-folder form a short one.
pub fn directory_creation_message(
    path_text: &str,
    base: bool,
    error_text: &str,
    error_code: &str,
) -> (m: String)
    ensures
        base ==> m@ == "Failed to create output directory '"@ + path_text@ + "': "@ + error_text@
            + ". \n\nTroubleshooting:\n• Try selecting a different folder in Settings\n• Use Desktop or Downloads folder\n• Check if you have write permissions\n• Error code: "@
            + error_code@,
        !base ==> m@ == "Failed to create project folder '"@ + path_text@ + "': "@ + error_text@
            + ". \n\nError code: "@ + error_code@,
{
    if base {
        let mut m = String::from_str("Failed to create output directory '");
        m.append(path_text);
        m.append("': ");
        m.append(error_text);
        m.append(
            ". \n\nTroubleshooting:\n• Try selecting a different folder in Settings\n• Use Desktop or Downloads folder\n• Check if you have write permissions\n• Error code: ",
        );
        m.append(error_code);
        m
    } else {
        let mut m = String::from_str("Failed to create project folder '");
        m.append(path_text);
        m.append("': ");
        m.append(error_text);
        m.append(". \n\nError code: ");
        m.append(error_code);
        m
    }
}

/// Renders a write-permission failure as the caller-facing message.
pub fn write_permission_message(path_text: &str, error_text: &str, error_code: &str) -> (m:
    String)
    ensures
        m@ == "No write permission for output directory '"@ + path_text@ + "': "@ + error_text@
            + ". \n\nTroubleshooting:\n• The app may need permission to access this folder\n• Try Desktop or Downloads folder\n• On macOS, check System Settings > Privacy & Security > Files and Folders\n• Error code: "@
            + error_code@,
{
    let mut m = String::from_str("No write permission for output directory '");
    m.append(path_text);
    m.append("': ");
    m.append(error_text);
    m.append(
        ". \n\nTroubleshooting:\n• The app may need permission to access this folder\n• Try Desktop or Downloads folder\n• On macOS, check System Settings > Privacy & Security > Files and Folders\n• Error code: ",
    );
    m.append(error_code);
    m
}

/// A run of the machine: each event moves `states[i]` to `states[i + 1]`
/// with `actions[i]` issued.
pub open spec fn is_trace(
    states: Seq<OrchestratorState>,
    events: Seq<StepEvent>,
    actions: Seq<StepAction>,
) -> bool {
    &&& states.len() == events.len() + 1
    &&& actions.len() == events.len()
    &&& forall|i: int|
        0 <= i < events.len() ==> #[trigger] step_relation(
            states[i],
            events[i],
            states[i + 1],
            actions[i],
        )
}

/// The write-permission probe does not outlive a successful resolution:
/// any run from the idle state that reaches the bridge installation has
/// issued the removal of the probe file right after the write that created
/// it, for the same path, and that removal was reported successful.
pub proof fn lemma_probe_removed(
    states: Seq<OrchestratorState>,
    events: Seq<StepEvent>,
    actions: Seq<StepAction>,
    k: int,
)
    requires
        is_trace(states, events, actions),
        states[0] is Idle,
        0 <= k < states.len(),
        states[k] is Installing,
    ensures
        k >= 3,
        actions[k - 3] matches StepAction::WriteProbe { path: w } && (actions[k - 2] matches
            StepAction::RemoveProbe { path: r } && r@ == w@),
        events[k - 1] is FsOk,
{
    assert(k >= 1);
    let i1: int = k - 1;
    assert(step_relation(states[i1], events[i1], states[i1 + 1], actions[i1]));
    assert(states[k - 1] is RemovingProbe);
    assert(k - 1 >= 1);
    let i2: int = k - 2;
    assert(step_relation(states[i2], events[i2], states[i2 + 1], actions[i2]));
    assert(states[k - 2] is WritingProbe);
    assert(k - 2 >= 1);
    let i3: int = k - 3;
    assert(step_relation(states[i3], events[i3], states[i3 + 1], actions[i3]));
    assert(states[k - 3] is EnsuringProject);
}

/// Every state of a run from the idle state carries the location resolved
/// for its request.
pub proof fn lemma_trace_wf(
    states: Seq<OrchestratorState>,
    events: Seq<StepEvent>,
    actions: Seq<StepAction>,
    k: int,
)
    requires
        is_trace(states, events, actions),
        states[0] is Idle,
        0 <= k < states.len(),
    ensures
        state_wf(states[k]),
    decreases k,
{
    if k > 0 {
        lemma_trace_wf(states, events, actions, k - 1);
        let i: int = k - 1;
        assert(step_relation(states[i], events[i], states[i + 1], actions[i]));
    }
}

/// A completed run reports the location that was resolved for it — the
/// caller-chosen base directory with the derived project subdirectory
/// under it — never the raw base directory itself.
pub proof fn lemma_completed_reports_resolved(
    states: Seq<OrchestratorState>,
    events: Seq<StepEvent>,
    actions: Seq<StepAction>,
    k: int,
)
    requires
        is_trace(states, events, actions),
        states[0] is Idle,
        0 <= k < states.len(),
        states[k] is Completed,
    ensures
        k >= 1,
        states[k - 1] matches OrchestratorState::Running { request, resolved } && (states[k]
            matches OrchestratorState::Completed { output_path } && output_path@ == joined(
            request.output_base_dir@,
            project_label(request.input_path@),
        ) && output_path@ != request.output_base_dir@),
{
    assert(k >= 1);
    let i: int = k - 1;
    assert(step_relation(states[i], events[i], states[i + 1], actions[i]));
    assert(states[k - 1] is Running);
    lemma_trace_wf(states, events, actions, k - 1);
    match states[k - 1] {
        OrchestratorState::Running { request, resolved } => {
            crate::paths::lemma_full_path_strict_descendant(resolved);
        },
        _ => {},
    }
}

} // verus!
