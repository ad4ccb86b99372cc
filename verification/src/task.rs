//! Task execution engine: consumes upstream intents one at a time and owns
//! the single cancellable upload operation.

use vstd::prelude::*;

pub mod state;

use crate::task::state::UploadState;
use crate::task::state::WindowState;

verus! {

/// Envelope multiplexing the two state axes over one logical channel.
#[derive(Debug, Clone, Copy, PartialEq, Eq, Structural)]
pub enum AppState {
    /// Upload page state
    Upload(UploadState),
    /// Window visibility state
    Window(WindowState),
}

impl From<UploadState> for AppState {
    fn from(s: UploadState) -> (r: Self) {
        AppState::Upload(s)
    }
}

impl vstd::std_specs::convert::FromSpecImpl<UploadState> for AppState {
    open spec fn obeys_from_spec() -> bool {
        true
    }

    open spec fn from_spec(s: UploadState) -> AppState {
        AppState::Upload(s)
    }
}

impl AppState {
    /// The reverse of the total conversion from `UploadState`: a partial
    /// pattern match recovering the upload variant.
    pub open spec fn as_upload_spec(self) -> Option<UploadState> {
        match self {
            AppState::Upload(u) => Some(u),
            AppState::Window(_) => None,
        }
    }

    pub fn as_upload(self) -> (r: Option<UploadState>)
        ensures
            r == self.as_upload_spec(),
    {
        match self {
            AppState::Upload(u) => Some(u),
            AppState::Window(_) => None,
        }
    }
}

/// Converting an `UploadState` into the envelope and back loses nothing,
/// and nothing else maps to that envelope value.
pub proof fn lemma_upload_roundtrip(u: UploadState, a: AppState)
    ensures
        AppState::Upload(u).as_upload_spec() == Some(u),
        a.as_upload_spec() == Some(u) ==> a == AppState::Upload(u),
{
}

/// An event the engine reacts to: either an intent arriving on the upstream
/// channel, or the notice that the spawned operation has finished on its own.
#[derive(Debug, Clone, Copy, PartialEq, Eq, Structural)]
pub enum EngineEvent {
    /// An intent dequeued from the upstream channel
    Intent(AppState),
    /// The active operation ran to natural completion
    OperationDone,
}

/// What the runtime around the engine must do in response to one event.
#[derive(Debug, Clone, Copy, PartialEq, Eq, Structural)]
pub enum Action {
    /// Log only; nothing to run, nothing to emit
    NoOp,
    /// Spawn the upload operation and keep its cancellable handle
    StartOperation,
    /// A start intent arrived while an operation was active: refuse it
    RejectStart,
    /// Abort the active operation, await its confirmed termination, then
    /// emit the terminal `Idle` downstream
    CancelOperation,
    /// A cancel intent arrived with no active operation: warn only
    WarnNoOperation,
    /// Quit the UI event loop; the process winds down
    QuitEventLoop,
}

/// The engine's own state: whether an operation handle is live, and whether
/// the terminal `Closed` intent has been processed.
#[derive(Debug, Clone, Copy, PartialEq, Eq, Structural)]
pub struct TaskEngine {
    /// An operation handle is live
    pub active: bool,
    /// `Window(Closed)` has been processed; the engine is quiescent
    pub closed: bool,
}

impl TaskEngine {
    /// The transition function of the engine: from state and event to next
    /// state and the action the surrounding runtime must perform.
    pub open spec fn step_spec(self, ev: EngineEvent) -> (TaskEngine, Action) {
        if self.closed {
            (self, Action::NoOp)
        } else {
            match ev {
                EngineEvent::OperationDone => (
                    TaskEngine { active: false, ..self },
                    Action::NoOp,
                ),
                EngineEvent::Intent(AppState::Upload(UploadState::Idle)) => (self, Action::NoOp),
                EngineEvent::Intent(AppState::Upload(UploadState::Uploading { .. })) => {
                    if self.active {
                        (self, Action::RejectStart)
                    } else {
                        (TaskEngine { active: true, ..self }, Action::StartOperation)
                    }
                },
                EngineEvent::Intent(AppState::Upload(UploadState::Cancelling)) => {
                    if self.active {
                        (TaskEngine { active: false, ..self }, Action::CancelOperation)
                    } else {
                        (self, Action::WarnNoOperation)
                    }
                },
                EngineEvent::Intent(AppState::Window(WindowState::Shown)) => (self, Action::NoOp),
                EngineEvent::Intent(AppState::Window(WindowState::Hidden)) => (self, Action::NoOp),
                EngineEvent::Intent(AppState::Window(WindowState::Closed)) => (
                    TaskEngine { closed: true, ..self },
                    Action::QuitEventLoop,
                ),
            }
        }
    }

    /// The downstream emissions the engine itself owes for one action.
    /// `StartOperation` emits nothing here: the spawned operation streams
    /// its own progress.
    pub open spec fn emissions_of(a: Action) -> Seq<AppState> {
        match a {
            Action::CancelOperation => seq![AppState::Upload(UploadState::Idle)],
            _ => Seq::<AppState>::empty(),
        }
    }

    /// A fresh engine: no operation, not closed.
    pub fn init() -> (e: TaskEngine)
        ensures
            e == engine_init(),
    {
        TaskEngine { active: false, closed: false }
    }

    /// Process one event, in arrival order, exactly as `step_spec` says.
    pub fn handle_event(&mut self, ev: EngineEvent) -> (a: Action)
        ensures
            (*(final(self)), a) == old(self).step_spec(ev),
    {
        if self.closed {
            Action::NoOp
        } else {
            match ev {
                EngineEvent::OperationDone => {
                    self.active = false;
                    Action::NoOp
                },
                EngineEvent::Intent(AppState::Upload(UploadState::Idle)) => Action::NoOp,
                EngineEvent::Intent(AppState::Upload(UploadState::Uploading { .. })) => {
                    if self.active {
                        Action::RejectStart
                    } else {
                        self.active = true;
                        Action::StartOperation
                    }
                },
                EngineEvent::Intent(AppState::Upload(UploadState::Cancelling)) => {
                    if self.active {
                        self.active = false;
                        Action::CancelOperation
                    } else {
                        Action::WarnNoOperation
                    }
                },
                EngineEvent::Intent(AppState::Window(WindowState::Shown)) => Action::NoOp,
                EngineEvent::Intent(AppState::Window(WindowState::Hidden)) => Action::NoOp,
                EngineEvent::Intent(AppState::Window(WindowState::Closed)) => {
                    self.closed = true;
                    Action::QuitEventLoop
                },
            }
        }
    }
}

/// The engine every session starts from.
pub open spec fn engine_init() -> TaskEngine {
    TaskEngine { active: false, closed: false }
}

/// The engine state after processing a sequence of events from `e`.
pub open spec fn run_engine(e: TaskEngine, evs: Seq<EngineEvent>) -> TaskEngine
    decreases evs.len(),
{
    if evs.len() == 0 {
        e
    } else {
        run_engine(e.step_spec(evs[0]).0, evs.drop_first())
    }
}

/// The engine state just before the event at index `i` is processed.
pub open spec fn engine_at(e: TaskEngine, evs: Seq<EngineEvent>, i: int) -> TaskEngine {
    run_engine(e, evs.take(i))
}

/// The action the engine issues for the event at index `i`.
pub open spec fn action_at(e: TaskEngine, evs: Seq<EngineEvent>, i: int) -> Action {
    engine_at(e, evs, i).step_spec(evs[i]).1
}

/// However intents and completions are interleaved, the engine never holds
/// more than one operation handle: a handle is only created when none is
/// live, and processing an event never creates a handle any other way.
pub proof fn lemma_at_most_one_operation(e: TaskEngine, evs: Seq<EngineEvent>, i: int)
    requires
        0 <= i < evs.len(),
    ensures
        action_at(e, evs, i) == Action::StartOperation ==> !engine_at(e, evs, i).active,
        engine_at(e, evs, i).active ==> action_at(e, evs, i) != Action::StartOperation,
        engine_at(e, evs, i + 1) == engine_at(e, evs, i).step_spec(evs[i]).0,
{
    lemma_run_engine_snoc(e, evs, i);
}

/// Unrolling one step at the end of a prefix run.
proof fn lemma_run_engine_snoc(e: TaskEngine, evs: Seq<EngineEvent>, i: int)
    requires
        0 <= i < evs.len(),
    ensures
        run_engine(e, evs.take(i + 1)) == run_engine(e, evs.take(i)).step_spec(evs[i]).0,
    decreases i,
{
    if i == 0 {
        assert(evs.take(0) =~= Seq::<EngineEvent>::empty());
        assert(evs.take(1)[0] == evs[0]);
        assert(evs.take(1).drop_first() =~= Seq::<EngineEvent>::empty());
        assert(run_engine(e, evs.take(0)) == e);
        assert(evs.take(1).len() == 1);
        assert(run_engine(e, evs.take(1)) == run_engine(
            e.step_spec(evs.take(1)[0]).0,
            evs.take(1).drop_first(),
        ));
    } else {
        let e1 = e.step_spec(evs[0]).0;
        assert(evs.take(i + 1)[0] == evs[0]);
        assert(evs.take(i)[0] == evs[0]);
        assert(evs.take(i + 1).drop_first() =~= evs.drop_first().take(i));
        assert(evs.take(i).drop_first() =~= evs.drop_first().take(i - 1));
        lemma_run_engine_snoc(e1, evs.drop_first(), i - 1);
        assert(evs.drop_first()[i - 1] == evs[i]);
    }
}

/// How many quit signals a run of the engine issues.
pub open spec fn quit_count(e: TaskEngine, evs: Seq<EngineEvent>) -> int
    decreases evs.len(),
{
    if evs.len() == 0 {
        0
    } else {
        (if e.step_spec(evs[0]).1 == Action::QuitEventLoop {
            1int
        } else {
            0int
        }) + quit_count(e.step_spec(evs[0]).0, evs.drop_first())
    }
}

/// Whether some event in the sequence is the `Window(Closed)` intent.
pub open spec fn has_closed_intent(evs: Seq<EngineEvent>) -> bool {
    exists|i: int|
        0 <= i < evs.len() && evs[i] == EngineEvent::Intent(
            AppState::Window(WindowState::Closed),
        )
}

/// Once the engine has processed `Closed` it is quiescent: no run from a
/// closed engine ever issues another quit signal.
pub proof fn lemma_closed_is_quiescent(e: TaskEngine, evs: Seq<EngineEvent>)
    requires
        e.closed,
    ensures
        quit_count(e, evs) == 0,
        run_engine(e, evs) == e,
    decreases evs.len(),
{
    if evs.len() > 0 {
        lemma_closed_is_quiescent(e, evs.drop_first());
    }
}

/// A `Window(Closed)` intent makes the event loop receive a quit signal
/// exactly once, whatever the upload state; without one it never does.
pub proof fn lemma_quit_exactly_once(e: TaskEngine, evs: Seq<EngineEvent>)
    requires
        !e.closed,
    ensures
        quit_count(e, evs) == if has_closed_intent(evs) {
            1int
        } else {
            0int
        },
    decreases evs.len(),
{
    if evs.len() > 0 {
        let (e1, a) = e.step_spec(evs[0]);
        if evs[0] == EngineEvent::Intent(AppState::Window(WindowState::Closed)) {
            lemma_closed_is_quiescent(e1, evs.drop_first());
        } else {
            lemma_quit_exactly_once(e1, evs.drop_first());
            if has_closed_intent(evs.drop_first()) {
                let j = choose|j: int|
                    0 <= j < evs.drop_first().len() && evs.drop_first()[j] == EngineEvent::Intent(
                        AppState::Window(WindowState::Closed),
                    );
                assert(evs[j + 1] == EngineEvent::Intent(AppState::Window(WindowState::Closed)));
            }
            if has_closed_intent(evs) {
                let j = choose|j: int|
                    0 <= j < evs.len() && evs[j] == EngineEvent::Intent(
                        AppState::Window(WindowState::Closed),
                    );
                assert(evs.drop_first()[j - 1] == EngineEvent::Intent(
                    AppState::Window(WindowState::Closed),
                ));
            }
        }
    }
}

/// Whether an emission reports upload progress.
pub open spec fn is_uploading(a: AppState) -> bool {
    a matches AppState::Upload(UploadState::Uploading { .. })
}

/// The progress an emission reports, in hundredths.
pub open spec fn progress_of(a: AppState) -> int
    recommends
        is_uploading(a),
{
    match a {
        AppState::Upload(UploadState::Uploading { progress }) => progress as int,
        _ => 0,
    }
}

/// The emission the operation makes at its `i`-th step.
pub open spec fn op_emission(i: int) -> AppState {
    AppState::Upload(UploadState::Uploading { progress: i as u8 })
}

/// The first `k` emissions of the operation: progress one through `k`.
pub open spec fn op_emissions_upto(k: int) -> Seq<AppState> {
    Seq::new(k as nat, |i: int| op_emission(i + 1))
}

/// Everything a run to natural completion emits downstream: one hundred
/// strictly increasing progress values, then the terminal `Idle`.
pub open spec fn completed_run_emissions() -> Seq<AppState> {
    op_emissions_upto(100) + seq![AppState::Upload(UploadState::Idle)]
}

/// Everything a run cancelled after `k` steps emits downstream: the first
/// `k` progress values, then the terminal `Idle` the engine owes for the
/// confirmed cancellation.
pub open spec fn cancelled_run_emissions(k: int) -> Seq<AppState> {
    op_emissions_upto(k) + seq![AppState::Upload(UploadState::Idle)]
}

/// The long-running operation, reduced to its injectable core: a cursor
/// that advances progress one hundredth per step. The runtime around it
/// supplies the delay between steps and the channel each emission goes to.
#[derive(Debug, Clone, Copy, PartialEq, Eq, Structural)]
pub struct Operation {
    /// Progress so far, in hundredths
    pub progress: u8,
}

impl Operation {
    pub open spec fn wf(self) -> bool {
        self.progress <= 100
    }

    /// A fresh operation, no progress yet.
    pub fn new() -> (op: Operation)
        ensures
            op.progress == 0,
            op.wf(),
    {
        Operation { progress: 0 }
    }

    /// Whether the operation has run to natural completion.
    pub fn done(&self) -> (r: bool)
        ensures
            r == (self.progress == 100),
    {
        self.progress == 100
    }

    /// One step: advance progress and hand back the emission that reports
    /// it. The step after the last is the caller's terminal `Idle`.
    pub fn step(&mut self) -> (em: AppState)
        requires
            old(self).wf(),
            old(self).progress < 100,
        ensures
            final(self).progress == old(self).progress + 1,
            final(self).wf(),
            em == op_emission(final(self).progress as int),
    {
        self.progress = self.progress + 1;
        AppState::Upload(UploadState::Uploading { progress: self.progress })
    }

    /// The emission that reports natural completion or confirmed
    /// cancellation: a return to `Idle`.
    pub fn terminal_emission() -> (em: AppState)
        ensures
            em == AppState::Upload(UploadState::Idle),
    {
        AppState::Upload(UploadState::Idle)
    }
}

/// Progress values emitted for a single uncancelled operation form a
/// strictly increasing sequence bounded in (0, 100] hundredths, and the run
/// terminates with the single `Idle` emission.
pub proof fn lemma_progress_strictly_increasing(k: int)
    requires
        0 <= k <= 100,
    ensures
        forall|i: int, j: int|
            0 <= i < j < k ==> progress_of(#[trigger] op_emissions_upto(k)[i]) < progress_of(
                #[trigger] op_emissions_upto(k)[j],
            ),
        forall|i: int|
            0 <= i < k ==> is_uploading(#[trigger] op_emissions_upto(k)[i]) && 0 < progress_of(
                op_emissions_upto(k)[i],
            ) <= 100,
        completed_run_emissions().len() == 101,
        completed_run_emissions().last() == AppState::Upload(UploadState::Idle),
        forall|i: int|
            0 <= i < 100 ==> #[trigger] completed_run_emissions()[i] == op_emission(i + 1),
{
}

/// Cancellation truncates the run: the downstream sequence holds exactly
/// one `Idle`, it stands at the end, and after the cancel is accepted no
/// further `Uploading` emission follows.
pub proof fn lemma_cancel_truncates(k: int)
    requires
        0 <= k < 100,
    ensures
        cancelled_run_emissions(k).len() == k + 1,
        cancelled_run_emissions(k).last() == AppState::Upload(UploadState::Idle),
        forall|i: int| 0 <= i < k ==> is_uploading(#[trigger] cancelled_run_emissions(k)[i]),
        forall|i: int|
            0 <= i <= k ==> (#[trigger] cancelled_run_emissions(k)[i] == AppState::Upload(
                UploadState::Idle,
            ) <==> i == k),
        forall|i: int| k < i < cancelled_run_emissions(k).len() ==> !is_uploading(
            #[trigger] cancelled_run_emissions(k)[i],
        ),
{
    assert forall|i: int| 0 <= i < k implies is_uploading(
        #[trigger] cancelled_run_emissions(k)[i],
    ) by {
        assert(cancelled_run_emissions(k)[i] == op_emission(i + 1));
    }
}

/// Deterministic replay of a full session in which one upload runs to
/// natural completion: the engine accepts the start intent, the operation
/// emits its hundred progress values, and the completion notice clears the
/// engine's handle. Returns the downstream emissions and the final engine.
pub fn run_upload_to_completion() -> (r: (Vec<AppState>, TaskEngine))
    ensures
        r.0@ == completed_run_emissions(),
        r.1 == engine_init(),
{
    let mut engine = TaskEngine::init();
    let a = engine.handle_event(
        EngineEvent::Intent(AppState::Upload(UploadState::Uploading { progress: 0 })),
    );
    assert(a == Action::StartOperation);
    let mut op = Operation::new();
    let mut v: Vec<AppState> = Vec::new();
    proof {
        assert(v@ =~= op_emissions_upto(0));
    }
    while op.progress < 100
        invariant
            op.wf(),
            v@ == op_emissions_upto(op.progress as int),
            engine == (TaskEngine { active: true, closed: false }),
        decreases 100 - op.progress,
    {
        let em = op.step();
        v.push(em);
        proof {
            assert(v@ =~= op_emissions_upto(op.progress as int));
        }
    }
    let done = engine.handle_event(EngineEvent::OperationDone);
    assert(done == Action::NoOp);
    v.push(Operation::terminal_emission());
    proof {
        assert(v@ =~= completed_run_emissions());
    }
    (v, engine)
}

/// Deterministic replay of a session in which the upload is cancelled
/// after `k` steps: the engine accepts the start, the operation emits `k`
/// progress values, the cancel intent aborts it, and the engine emits the
/// terminal `Idle` once termination is confirmed. No handle is leaked: the
/// final engine is ready for a fresh start intent.
pub fn run_upload_cancelled(k: u8) -> (r: (Vec<AppState>, TaskEngine))
    requires
        k < 100,
    ensures
        r.0@ == cancelled_run_emissions(k as int),
        r.1 == engine_init(),
{
    let mut engine = TaskEngine::init();
    let a = engine.handle_event(
        EngineEvent::Intent(AppState::Upload(UploadState::Uploading { progress: 0 })),
    );
    assert(a == Action::StartOperation);
    let mut op = Operation::new();
    let mut v: Vec<AppState> = Vec::new();
    proof {
        assert(v@ =~= op_emissions_upto(0));
    }
    while op.progress < k
        invariant
            k < 100,
            op.progress <= k,
            v@ == op_emissions_upto(op.progress as int),
            engine == (TaskEngine { active: true, closed: false }),
        decreases k - op.progress,
    {
        let em = op.step();
        v.push(em);
        proof {
            assert(v@ =~= op_emissions_upto(op.progress as int));
        }
    }
    let c = engine.handle_event(EngineEvent::Intent(AppState::Upload(UploadState::Cancelling)));
    assert(c == Action::CancelOperation);
    v.push(Operation::terminal_emission());
    proof {
        assert(v@ =~= cancelled_run_emissions(k as int));
    }
    (v, engine)
}

/// A cancel intent with no active operation only warns: the engine is left
/// exactly as it was, nothing is emitted downstream, and a following start
/// intent is accepted.
pub proof fn lemma_cancel_without_operation(e: TaskEngine, p: u8)
    requires
        !e.active,
        !e.closed,
    ensures
        e.step_spec(EngineEvent::Intent(AppState::Upload(UploadState::Cancelling))) == (
            e,
            Action::WarnNoOperation,
        ),
        TaskEngine::emissions_of(Action::WarnNoOperation) == Seq::<AppState>::empty(),
        e.step_spec(
            EngineEvent::Intent(AppState::Upload(UploadState::Uploading { progress: p })),
        ).1 == Action::StartOperation,
{
}

} // verus!
