use vstd::prelude::*;
use crate::util::reply::{Reply, ReplyKey, join};

verus! {

/// How a request answers one kind of failure: status, JSON field, and a text that is
/// either fixed or followed by the error that the database reported.
pub struct Failure {
    pub status: u16,
    pub key: ReplyKey,
    pub text: String,
    pub with_detail: bool,
}

/// One statement run inside the transaction. `on_empty`, when present, is the answer
/// for a statement that changed no row or a lookup that found none.
pub struct TxStep {
    pub on_error: Failure,
    pub on_empty: Option<Failure>,
}

/// A write request: begin a transaction, run its statements in order, commit.
pub struct TxPlan {
    pub on_begin_error: Failure,
    pub steps: Vec<TxStep>,
    pub success_status: u16,
    pub on_commit_error: Failure,
    /// Whether a failure must also remove the file that came with the request.
    pub discard_upload_on_failure: bool,
}

/// The parts of a plan that decide the order of the work.
pub struct TxShape {
    /// For each statement, whether an empty outcome ends the request.
    pub checks: Seq<bool>,
    pub success_status: u16,
    pub discard: bool,
}

impl TxPlan {
    pub open spec fn shape(&self) -> TxShape {
        TxShape {
            checks: Seq::new(self.steps@.len(), |i: int| self.steps@[i].on_empty is Some),
            success_status: self.success_status,
            discard: self.discard_upload_on_failure,
        }
    }
}

/// Where a request stands.
#[derive(Clone, Copy, PartialEq, Eq, Structural, Debug)]
pub enum TxState {
    AwaitBegin,
    AwaitStep(usize),
    AwaitCommit,
    Closed,
}

/// What the database answered to the last action.
#[derive(Clone, Copy, PartialEq, Eq, Structural, Debug)]
pub enum TxEvent {
    Began { ok: bool },
    /// `hit`: the statement changed a row, or the lookup found one.
    StepDone { ok: bool, hit: bool },
    Committed { ok: bool },
}

/// Where a request failed.
#[derive(Clone, Copy, PartialEq, Eq, Structural, Debug)]
pub enum FailPoint {
    Begin,
    Step(usize),
    Empty(usize),
    Commit,
}

/// What to do next.
#[derive(Clone, Copy, PartialEq, Eq, Structural, Debug)]
pub enum TxAction {
    Begin,
    RunStep(usize),
    Commit,
    /// Answer with the failure at `at`; first roll back when `rollback`, and remove the
    /// uploaded file when `discard_upload`.
    Fail { at: FailPoint, rollback: bool, discard_upload: bool },
    Succeed { status: u16 },
    Idle,
}

/// The first action of every request.
pub open spec fn tx_start() -> (TxState, TxAction) {
    (TxState::AwaitBegin, TxAction::Begin)
}

/// The next state and action when `e` answers the action taken in `s`.
pub open spec fn tx_next_spec(shape: TxShape, s: TxState, e: TxEvent) -> (TxState, TxAction) {
    let n = shape.checks.len();
    let after = |k: int|
        if k < n {
            (TxState::AwaitStep(k as usize), TxAction::RunStep(k as usize))
        } else {
            (TxState::AwaitCommit, TxAction::Commit)
        };
    match (s, e) {
        (TxState::AwaitBegin, TxEvent::Began { ok }) => if ok {
            after(0)
        } else {
            (
                TxState::Closed,
                TxAction::Fail { at: FailPoint::Begin, rollback: false, discard_upload: shape.discard },
            )
        },
        (TxState::AwaitStep(k), TxEvent::StepDone { ok, hit }) => if k >= n {
            (TxState::Closed, TxAction::Idle)
        } else if !ok {
            (
                TxState::Closed,
                TxAction::Fail { at: FailPoint::Step(k), rollback: true, discard_upload: shape.discard },
            )
        } else if !hit && shape.checks[k as int] {
            (
                TxState::Closed,
                TxAction::Fail { at: FailPoint::Empty(k), rollback: true, discard_upload: shape.discard },
            )
        } else {
            after(k + 1)
        },
        (TxState::AwaitCommit, TxEvent::Committed { ok }) => if ok {
            (TxState::Closed, TxAction::Succeed { status: shape.success_status })
        } else {
            (
                TxState::Closed,
                TxAction::Fail { at: FailPoint::Commit, rollback: false, discard_upload: shape.discard },
            )
        },
        _ => (TxState::Closed, TxAction::Idle),
    }
}

/// Starts a write request: the first thing to do is to begin a transaction.
pub fn tx_begin() -> (r: (TxState, TxAction))
    ensures
        r == tx_start(),
{
    (TxState::AwaitBegin, TxAction::Begin)
}

/// Decides the next action of a write request from where it stands and what the
/// database answered.
pub fn tx_next(plan: &TxPlan, s: TxState, e: TxEvent) -> (r: (TxState, TxAction))
    ensures
        r == tx_next_spec(plan.shape(), s, e),
        r.1 matches TxAction::Fail { at, rollback, discard_upload } ==> {
            &&& (rollback <==> (at is Step || at is Empty))
            &&& discard_upload == plan.discard_upload_on_failure
            &&& r.0 == TxState::Closed
        },
        r.1 == TxAction::Commit ==> r.0 == TxState::AwaitCommit,
        r.1 is Succeed ==> s == TxState::AwaitCommit && e == (TxEvent::Committed { ok: true }),
{
    let n = plan.steps.len();
    let discard = plan.discard_upload_on_failure;
    match (s, e) {
        (TxState::AwaitBegin, TxEvent::Began { ok }) => {
            if ok {
                if 0 < n {
                    (TxState::AwaitStep(0), TxAction::RunStep(0))
                } else {
                    (TxState::AwaitCommit, TxAction::Commit)
                }
            } else {
                (
                    TxState::Closed,
                    TxAction::Fail { at: FailPoint::Begin, rollback: false, discard_upload: discard },
                )
            }
        },
        (TxState::AwaitStep(k), TxEvent::StepDone { ok, hit }) => {
            if k >= n {
                (TxState::Closed, TxAction::Idle)
            } else if !ok {
                (
                    TxState::Closed,
                    TxAction::Fail { at: FailPoint::Step(k), rollback: true, discard_upload: discard },
                )
            } else if !hit && plan.steps[k].on_empty.is_some() {
                (
                    TxState::Closed,
                    TxAction::Fail { at: FailPoint::Empty(k), rollback: true, discard_upload: discard },
                )
            } else if k + 1 < n {
                (TxState::AwaitStep(k + 1), TxAction::RunStep(k + 1))
            } else {
                (TxState::AwaitCommit, TxAction::Commit)
            }
        },
        (TxState::AwaitCommit, TxEvent::Committed { ok }) => {
            if ok {
                (TxState::Closed, TxAction::Succeed { status: plan.success_status })
            } else {
                (
                    TxState::Closed,
                    TxAction::Fail { at: FailPoint::Commit, rollback: false, discard_upload: discard },
                )
            }
        },
        _ => (TxState::Closed, TxAction::Idle),
    }
}

/// The answer that a failure gets.
pub open spec fn failure_text(f: &Failure, detail: Seq<char>) -> Seq<char> {
    if f.with_detail {
        f.text@ + detail
    } else {
        f.text@
    }
}

pub fn failure_reply(f: &Failure, detail: &str) -> (r: Reply)
    ensures
        r.status == f.status,
        r.key == f.key,
        r.text@ == failure_text(f, detail@),
{
    let text = if f.with_detail {
        join(f.text.as_str(), detail)
    } else {
        f.text.clone()
    };
    Reply { status: f.status, key: f.key, text }
}

/// Which failure of `plan` happened at `at`; `None` for an empty outcome of a statement
/// that is not checked for one.
pub open spec fn failure_at(plan: &TxPlan, at: FailPoint) -> Option<&Failure> {
    match at {
        FailPoint::Begin => Some(&plan.on_begin_error),
        FailPoint::Commit => Some(&plan.on_commit_error),
        FailPoint::Step(k) => if k < plan.steps@.len() {
            Some(&plan.steps@[k as int].on_error)
        } else {
            None
        },
        FailPoint::Empty(k) => if k < plan.steps@.len() {
            match plan.steps@[k as int].on_empty {
                Some(f) => Some(&f),
                None => None,
            }
        } else {
            None
        },
    }
}

/// The answer to give when the request failed at `at`, `detail` being the error that
/// the database reported.
pub fn fail_reply(plan: &TxPlan, at: FailPoint, detail: &str) -> (r: Option<Reply>)
    ensures
        match failure_at(plan, at) {
            Some(f) => r matches Some(rep) && rep.status == f.status && rep.key == f.key
                && rep.text@ == failure_text(f, detail@),
            None => r is None,
        },
{
    match at {
        FailPoint::Begin => Some(failure_reply(&plan.on_begin_error, detail)),
        FailPoint::Commit => Some(failure_reply(&plan.on_commit_error, detail)),
        FailPoint::Step(k) => {
            if k < plan.steps.len() {
                Some(failure_reply(&plan.steps[k].on_error, detail))
            } else {
                None
            }
        },
        FailPoint::Empty(k) => {
            if k < plan.steps.len() {
                match &plan.steps[k].on_empty {
                    Some(f) => Some(failure_reply(f, detail)),
                    None => None,
                }
            } else {
                None
            }
        },
    }
}


/// The state reached and the actions taken, `Begin` first, when the database answers
/// with `events` in turn.
pub open spec fn tx_run(shape: TxShape, events: Seq<TxEvent>) -> (TxState, Seq<TxAction>)
    decreases events.len(),
{
    if events.len() == 0 {
        (TxState::AwaitBegin, seq![TxAction::Begin])
    } else {
        let prev = tx_run(shape, events.drop_last());
        let step = tx_next_spec(shape, prev.0, events.last());
        (step.0, prev.1.push(step.1))
    }
}

/// Statement `j` went through: it ran, and an empty outcome is not one that ends the
/// request.
pub open spec fn step_passed(shape: TxShape, e: TxEvent, j: int) -> bool {
    &&& 0 <= j < shape.checks.len()
    &&& e matches TxEvent::StepDone { ok, hit }
    &&& ok
    &&& (hit || !shape.checks[j])
}

/// `events` opens with a begin that worked, followed by `m` statements that went
/// through.
pub open spec fn happy_prefix(shape: TxShape, events: Seq<TxEvent>, m: int) -> bool {
    &&& 0 <= m
    &&& events.len() >= m + 1
    &&& events[0] == (TxEvent::Began { ok: true })
    &&& forall|j: int| 0 <= j < m ==> #[trigger] step_passed(shape, events[j + 1], j)
}

proof fn lemma_happy_prefix_extend(shape: TxShape, a: Seq<TxEvent>, b: Seq<TxEvent>, m: int)
    requires
        happy_prefix(shape, a, m),
        b.len() >= m + 1,
        forall|j: int| 0 <= j <= m ==> b[j] == a[j],
    ensures
        happy_prefix(shape, b, m),
{
    assert(b[0] == a[0]);
    assert forall|j: int| 0 <= j < m implies #[trigger] step_passed(shape, b[j + 1], j) by {
        assert(step_passed(shape, a[j + 1], j));
        assert(b[j + 1] == a[j + 1]);
    }
}

proof fn lemma_tx_run_invariant(shape: TxShape, events: Seq<TxEvent>)
    requires
        shape.checks.len() < usize::MAX,
    ensures
        ({
            let (s, acts) = tx_run(shape, events);
            let n = shape.checks.len() as int;
            &&& acts.len() == events.len() + 1
            &&& acts[0] == TxAction::Begin
            &&& (s == TxState::AwaitBegin <==> events.len() == 0)
            &&& (s matches TxState::AwaitStep(k) ==> k < n && events.len() == k + 1 && happy_prefix(
                shape,
                events,
                k as int,
            ))
            &&& (s == TxState::AwaitCommit ==> events.len() == n + 1 && happy_prefix(
                shape,
                events,
                n,
            ) && acts.last() == TxAction::Commit)
        }),
    decreases events.len(),
{
    if events.len() > 0 {
        let pre = events.drop_last();
        lemma_tx_run_invariant(shape, pre);
        let (s, acts) = tx_run(shape, pre);
        let e = events.last();
        let n = shape.checks.len() as int;
        assert(forall|j: int| 0 <= j < pre.len() ==> pre[j] == events[j]);
        match s {
            TxState::AwaitBegin => {
                assert(pre.len() == 0);
                if e == (TxEvent::Began { ok: true }) {
                    assert(events[0] == e);
                    assert(happy_prefix(shape, events, 0));
                }
            },
            TxState::AwaitStep(k) => {
                if step_passed(shape, e, k as int) {
                    lemma_happy_prefix_extend(shape, pre, events, k as int);
                    assert(events[k + 1] == e);
                    assert(happy_prefix(shape, events, k + 1));
                }
            },
            _ => {},
        }
    }
}

proof fn lemma_tx_run_prefix(shape: TxShape, events: Seq<TxEvent>, i: int)
    requires
        shape.checks.len() < usize::MAX,
        0 <= i <= events.len(),
    ensures
        tx_run(shape, events.take(i)).1 == tx_run(shape, events).1.take(i + 1),
    decreases events.len(),
{
    lemma_tx_run_invariant(shape, events);
    if i == events.len() {
        assert(events.take(i) =~= events);
        assert(tx_run(shape, events).1.take(i + 1) =~= tx_run(shape, events).1);
    } else {
        let pre = events.drop_last();
        lemma_tx_run_prefix(shape, pre, i);
        assert(pre.take(i) =~= events.take(i));
        lemma_tx_run_invariant(shape, pre);
        assert(tx_run(shape, pre).1.take(i + 1) =~= tx_run(shape, events).1.take(i + 1));
    }
}

/// The action taken in answer to `events[i - 1]`, from the state that the events before
/// it led to.
proof fn lemma_tx_action_at(shape: TxShape, events: Seq<TxEvent>, i: int)
    requires
        shape.checks.len() < usize::MAX,
        1 <= i <= events.len(),
    ensures
        tx_run(shape, events).1[i] == tx_next_spec(
            shape,
            tx_run(shape, events.take(i - 1)).0,
            events[i - 1],
        ).1,
{
    lemma_tx_run_prefix(shape, events, i);
    lemma_tx_run_invariant(shape, events);
    let t = events.take(i);
    assert(t.drop_last() =~= events.take(i - 1));
    assert(t.last() == events[i - 1]);
    lemma_tx_run_invariant(shape, t);
    lemma_tx_run_invariant(shape, t.drop_last());
    let prev = tx_run(shape, t.drop_last());
    let step = tx_next_spec(shape, prev.0, t.last());
    assert(tx_run(shape, t) == (step.0, prev.1.push(step.1)));
    assert(tx_run(shape, t).1[i] == step.1);
    assert(tx_run(shape, events).1.take(i + 1)[i] == tx_run(shape, events).1[i]);
}

/// A write request commits only after its transaction began and every statement went
/// through, and it answers with success only right after that commit went through.
/// A failure or a success ends it: nothing is done afterwards.
pub proof fn lemma_tx_commits_only_after_every_step(shape: TxShape, events: Seq<TxEvent>)
    requires
        shape.checks.len() < usize::MAX,
    ensures
        ({
            let acts = tx_run(shape, events).1;
            let n = shape.checks.len() as int;
            &&& forall|i: int|
                0 <= i < acts.len() && #[trigger] acts[i] == TxAction::Commit ==> i == n + 1
                    && happy_prefix(shape, events, n)
            &&& forall|i: int|
                0 <= i < acts.len() && (#[trigger] acts[i] is Succeed) ==> i == n + 2
                    && happy_prefix(shape, events, n) && events[n + 1] == (TxEvent::Committed {
                    ok: true,
                }) && acts[n + 1] == TxAction::Commit
            &&& forall|i: int, j: int|
                0 <= i < j < acts.len() && ((#[trigger] acts[i] is Fail) || acts[i] is Succeed)
                    ==> #[trigger] acts[j] == TxAction::Idle
        }),
{
    let acts = tx_run(shape, events).1;
    let n = shape.checks.len() as int;
    lemma_tx_run_invariant(shape, events);
    assert forall|i: int|
        0 <= i < acts.len() && #[trigger] acts[i] == TxAction::Commit implies i == n + 1
        && happy_prefix(shape, events, n) by {
        lemma_commit_at(shape, events, i);
    }
    assert forall|i: int| 0 <= i < acts.len() && (#[trigger] acts[i] is Succeed) implies i == n
        + 2 && happy_prefix(shape, events, n) && events[n + 1] == (TxEvent::Committed { ok: true })
        && acts[n + 1] == TxAction::Commit by {
        lemma_tx_action_at(shape, events, i);
        let pre = events.take(i - 1);
        lemma_tx_run_invariant(shape, pre);
        lemma_happy_prefix_extend(shape, pre, events, n);
        lemma_tx_run_prefix(shape, events, i - 1);
        assert(tx_run(shape, pre).1.last() == acts.take(i)[i - 1]);
    }
    assert forall|i: int, j: int|
        0 <= i < j < acts.len() && ((#[trigger] acts[i] is Fail) || acts[i] is Succeed)
            implies #[trigger] acts[j] == TxAction::Idle by {
        lemma_closed_after(shape, events, i, j);
    }
}

proof fn lemma_commit_at(shape: TxShape, events: Seq<TxEvent>, i: int)
    requires
        shape.checks.len() < usize::MAX,
        0 <= i < tx_run(shape, events).1.len(),
        tx_run(shape, events).1[i] == TxAction::Commit,
    ensures
        i == shape.checks.len() + 1,
        happy_prefix(shape, events, shape.checks.len() as int),
{
    lemma_tx_run_invariant(shape, events);
    let n = shape.checks.len() as int;
    lemma_tx_action_at(shape, events, i);
    let pre = events.take(i - 1);
    lemma_tx_run_invariant(shape, pre);
    let s = tx_run(shape, pre).0;
    match s {
        TxState::AwaitBegin => {
            assert(events[0] == (TxEvent::Began { ok: true }));
            assert(happy_prefix(shape, events, 0));
        },
        TxState::AwaitStep(k) => {
            lemma_happy_prefix_extend(shape, pre, events, k as int);
            assert(step_passed(shape, events[k + 1], k as int));
            assert(happy_prefix(shape, events, k + 1));
        },
        _ => {},
    }
}

/// Once a request has answered, it stays closed.
proof fn lemma_closed_after(shape: TxShape, events: Seq<TxEvent>, i: int, j: int)
    requires
        shape.checks.len() < usize::MAX,
        0 <= i < j < tx_run(shape, events).1.len(),
        (tx_run(shape, events).1[i] is Fail) || (tx_run(shape, events).1[i] is Succeed),
    ensures
        tx_run(shape, events).1[j] == TxAction::Idle,
    decreases j - i,
{
    lemma_tx_run_invariant(shape, events);
    lemma_tx_action_at(shape, events, i);
    lemma_tx_action_at(shape, events, j);
    lemma_closed_state(shape, events, i, j - 1);
}

/// After the action at `i` ended the request, the state after `events.take(m)` is
/// `Closed` for every `m >= i`.
proof fn lemma_closed_state(shape: TxShape, events: Seq<TxEvent>, i: int, m: int)
    requires
        shape.checks.len() < usize::MAX,
        1 <= i <= m <= events.len(),
        (tx_run(shape, events).1[i] is Fail) || (tx_run(shape, events).1[i] is Succeed),
    ensures
        tx_run(shape, events.take(m)).0 == TxState::Closed,
    decreases m - i,
{
    lemma_tx_run_invariant(shape, events);
    lemma_tx_action_at(shape, events, i);
    let t = events.take(m);
    if m == i {
        assert(t.drop_last() =~= events.take(i - 1));
        assert(t.last() == events[i - 1]);
    } else {
        lemma_closed_state(shape, events, i, m - 1);
        assert(t.drop_last() =~= events.take(m - 1));
    }
}

/// The events of a request where everything goes through.
pub open spec fn happy_events(shape: TxShape) -> Seq<TxEvent> {
    seq![TxEvent::Began { ok: true }] + Seq::new(
        shape.checks.len(),
        |j: int| TxEvent::StepDone { ok: true, hit: true },
    ) + seq![TxEvent::Committed { ok: true }]
}

/// The actions of a request where everything goes through.
pub open spec fn happy_actions(shape: TxShape) -> Seq<TxAction> {
    seq![TxAction::Begin] + Seq::new(
        shape.checks.len(),
        |j: int| TxAction::RunStep(j as usize),
    ) + seq![TxAction::Commit, TxAction::Succeed { status: shape.success_status }]
}

proof fn lemma_happy_run_prefix(shape: TxShape, m: int)
    requires
        0 <= m <= shape.checks.len(),
        shape.checks.len() < usize::MAX,
    ensures
        tx_run(shape, happy_events(shape).take(m + 1)).1 =~= happy_actions(shape).take(m + 2),
        m < shape.checks.len() ==> tx_run(shape, happy_events(shape).take(m + 1)).0
            == TxState::AwaitStep(m as usize),
        m == shape.checks.len() ==> tx_run(shape, happy_events(shape).take(m + 1)).0
            == TxState::AwaitCommit,
    decreases m,
{
    let ev = happy_events(shape);
    let ha = happy_actions(shape);
    let n = shape.checks.len() as int;
    let t = ev.take(m + 1);
    assert(ev[0] == (TxEvent::Began { ok: true }));
    assert(ha[0] == TxAction::Begin);
    assert(m >= 1 ==> ev[m] == (TxEvent::StepDone { ok: true, hit: true }));
    assert(m < n ==> ha[m + 1] == TxAction::RunStep(m as usize));
    assert(m == n ==> ha[m + 1] == TxAction::Commit);
    if m == 0 {
        assert(t.drop_last() =~= Seq::<TxEvent>::empty());
        assert(t.last() == ev[0]);
        assert(ha.take(2) =~= seq![TxAction::Begin, ha[1]]);
        let e0 = Seq::<TxEvent>::empty();
        assert(tx_run(shape, e0) == (TxState::AwaitBegin, seq![TxAction::Begin]));
        let step = tx_next_spec(shape, TxState::AwaitBegin, TxEvent::Began { ok: true });
        assert(0 < n ==> step == (TxState::AwaitStep(0), TxAction::RunStep(0)));
        assert(0 == n ==> step == (TxState::AwaitCommit, TxAction::Commit));
        assert(tx_run(shape, t) == (step.0, seq![TxAction::Begin].push(step.1)));
    } else {
        lemma_happy_run_prefix(shape, m - 1);
        assert(t.drop_last() =~= ev.take(m));
        assert(t.last() == ev[m]);
        assert(ha.take(m + 1).push(ha[m + 1]) =~= ha.take(m + 2));
        let prev = tx_run(shape, ev.take(m));
        assert(prev.0 == TxState::AwaitStep((m - 1) as usize));
        let step = tx_next_spec(shape, prev.0, TxEvent::StepDone { ok: true, hit: true });
        assert(m < n ==> step == (TxState::AwaitStep(m as usize), TxAction::RunStep(m as usize)));
        assert(m == n ==> step == (TxState::AwaitCommit, TxAction::Commit));
        assert(tx_run(shape, t) == (step.0, prev.1.push(step.1)));
    }
}

/// When the transaction begins, every statement goes through and the commit goes
/// through, the request runs each statement once in order, commits, and answers with
/// its success status.
pub proof fn lemma_tx_happy_path(shape: TxShape)
    requires
        shape.checks.len() < usize::MAX,
    ensures
        tx_run(shape, happy_events(shape)).1 =~= happy_actions(shape),
{
    let n = shape.checks.len() as int;
    let ev = happy_events(shape);
    lemma_happy_run_prefix(shape, n);
    assert(ev.take(n + 1) =~= ev.drop_last());
    assert(happy_actions(shape).take(n + 2).push(TxAction::Succeed { status: shape.success_status }) =~= happy_actions(shape));
}


/// The parts of a failure answer: status, JSON field, text, and whether the database
/// error follows the text.
pub open spec fn failure_matches(f: Failure, v: (u16, ReplyKey, Seq<char>, bool)) -> bool {
    f.status == v.0 && f.key == v.1 && f.text@ == v.2 && f.with_detail == v.3
}

pub open spec fn step_matches(
    s: TxStep,
    on_error: (u16, ReplyKey, Seq<char>, bool),
    on_empty: Option<(u16, ReplyKey, Seq<char>, bool)>,
) -> bool {
    &&& failure_matches(s.on_error, on_error)
    &&& match on_empty {
        Some(v) => s.on_empty matches Some(f) && failure_matches(f, v),
        None => s.on_empty is None,
    }
}

pub fn failure(status: u16, key: ReplyKey, text: &str, with_detail: bool) -> (f: Failure)
    ensures
        failure_matches(f, (status, key, text@, with_detail)),
{
    Failure { status, key, text: text.to_owned(), with_detail }
}

/// The failure `Failed to start transaction: <error>` with status 500.
pub fn begin_failure(key: ReplyKey) -> (f: Failure)
    ensures
        failure_matches(f, (500, key, "Failed to start transaction: "@, true)),
{
    failure(500, key, "Failed to start transaction: ", true)
}

/// The failure `Failed to commit transaction: <error>` with status 500.
pub fn commit_failure(key: ReplyKey) -> (f: Failure)
    ensures
        failure_matches(f, (500, key, "Failed to commit transaction: "@, true)),
{
    failure(500, key, "Failed to commit transaction: ", true)
}

/// A statement whose failure answers 500 with `text` and the database error.
pub fn plain_step(key: ReplyKey, text: &str) -> (s: TxStep)
    ensures
        step_matches(s, (500, key, text@, true), None),
{
    TxStep { on_error: failure(500, key, text, true), on_empty: None }
}

} // verus!
