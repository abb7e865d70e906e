use vstd::prelude::*;

verus! {

/// One operation of a synchronisation tick, in the order a tick can meet them.
#[derive(Clone, Copy, Debug, PartialEq, Eq, Structural)]
pub enum Stage {
    /// Open the mirror repository on disk.
    OpenMirror,
    /// Look up the remote named by `remote_name`.
    FindRemote,
    /// Create the remote named by `remote_name`, pointing at the upstream URL.
    CreateRemote,
    /// Fetch every branch with `fetch_refspec`, with default credentials.
    Fetch,
    /// Resolve the reference `fetch_head_ref` into an annotated commit.
    ResolveFetchHead,
    /// Compare the local master tip with the fetched commit.
    AnalyzeMerge,
    /// Point `master_ref` at the fetched commit, logging `fast_forward_log_message`.
    UpdateMaster,
    /// Make `HEAD` refer to `master_ref`.
    SetHead,
    /// Force the working tree to match `HEAD`, discarding local edits.
    Checkout,
}

/// What the merge analysis reports of the fetched commit against local master.
#[derive(Clone, Copy, Debug, PartialEq, Eq, Structural)]
pub enum MergeKind {
    /// The fetched commit is already contained in local master.
    UpToDate,
    /// Local master is an ancestor of the fetched commit.
    FastForward,
    /// Neither contains the other: a true merge would be needed.
    Diverged,
}

/// How one pull cycle ended.
#[derive(Clone, Copy, Debug, PartialEq, Eq, Structural)]
pub enum Outcome {
    UpToDate,
    FastForwarded,
    /// The histories diverged; nothing was changed.
    DivergedUnsupported,
    /// The named operation failed and the cycle was abandoned there.
    Failed(Stage),
}

/// Where a pull cycle stands.
#[derive(Clone, Copy, Debug, PartialEq, Eq, Structural)]
pub enum PullState {
    /// The operation of this stage has been requested and its result is awaited.
    Running(Stage),
    /// The cycle is over.
    Done(Outcome),
}

/// What the caller is asked to do next.
#[derive(Clone, Copy, Debug, PartialEq, Eq, Structural)]
pub enum Action {
    /// Perform the operation of this stage and report how it went.
    Perform(Stage),
    /// The cycle is over with this outcome: report it.
    Finish(Outcome),
}

/// The result of the operation last requested.
#[derive(Clone, Copy, Debug, PartialEq, Eq, Structural)]
pub enum Event {
    Succeeded,
    Failed,
    /// The merge analysis completed with this verdict.
    Analyzed(MergeKind),
}

pub open spec fn request(stage: Stage) -> (PullState, Action) {
    (PullState::Running(stage), Action::Perform(stage))
}

pub open spec fn conclude(outcome: Outcome) -> (PullState, Action) {
    (PullState::Done(outcome), Action::Finish(outcome))
}

/// Continue with `then` when the operation of `stage` succeeded, else fail there.
pub open spec fn on_success(stage: Stage, e: Event, then: (PullState, Action)) -> (
    PullState,
    Action,
) {
    if e == Event::Succeeded {
        then
    } else {
        conclude(Outcome::Failed(stage))
    }
}

/// The first state and request of every pull cycle.
pub open spec fn initial() -> (PullState, Action) {
    request(Stage::OpenMirror)
}

/// The transition of a pull cycle on the result of the requested operation.
pub open spec fn next(s: PullState, e: Event) -> (PullState, Action) {
    match s {
        PullState::Done(o) => conclude(o),
        PullState::Running(stage) => match stage {
            Stage::FindRemote => match e {
                Event::Succeeded => request(Stage::Fetch),
                Event::Failed => request(Stage::CreateRemote),
                Event::Analyzed(_) => conclude(Outcome::Failed(Stage::FindRemote)),
            },
            Stage::CreateRemote => on_success(stage, e, request(Stage::Fetch)),
            Stage::Fetch => on_success(stage, e, request(Stage::ResolveFetchHead)),
            Stage::ResolveFetchHead => on_success(stage, e, request(Stage::AnalyzeMerge)),
            Stage::AnalyzeMerge => match e {
                Event::Analyzed(MergeKind::UpToDate) => conclude(Outcome::UpToDate),
                Event::Analyzed(MergeKind::FastForward) => request(Stage::UpdateMaster),
                Event::Analyzed(MergeKind::Diverged) => conclude(Outcome::DivergedUnsupported),
                _ => conclude(Outcome::Failed(Stage::AnalyzeMerge)),
            },
            Stage::UpdateMaster => on_success(stage, e, request(Stage::SetHead)),
            Stage::SetHead => on_success(stage, e, request(Stage::Checkout)),
            Stage::Checkout => on_success(stage, e, conclude(Outcome::FastForwarded)),
            Stage::OpenMirror => on_success(stage, e, request(Stage::FindRemote)),
        },
    }
}

/// The state reached and the actions issued (the initial request first) by a
/// fresh cycle that receives `evs` in order.
pub open spec fn run(evs: Seq<Event>) -> (PullState, Seq<Action>)
    decreases evs.len(),
{
    if evs.len() == 0 {
        (initial().0, seq![initial().1])
    } else {
        let prev = run(evs.drop_last());
        let step = next(prev.0, evs.last());
        (step.0, prev.1.push(step.1))
    }
}

/// An action that changes the master branch, `HEAD` or the working tree.
pub open spec fn is_mutating(a: Action) -> bool {
    a == Action::Perform(Stage::UpdateMaster) || a == Action::Perform(Stage::SetHead) || a
        == Action::Perform(Stage::Checkout)
}

/// The mutating actions among `acts`, in order.
pub open spec fn mutations(acts: Seq<Action>) -> Seq<Action>
    decreases acts.len(),
{
    if acts.len() == 0 {
        seq![]
    } else if is_mutating(acts.last()) {
        mutations(acts.drop_last()).push(acts.last())
    } else {
        mutations(acts.drop_last())
    }
}

/// The three mutating steps of a fast-forward, in order.
pub open spec fn fast_forward_steps() -> Seq<Action> {
    seq![
        Action::Perform(Stage::UpdateMaster),
        Action::Perform(Stage::SetHead),
        Action::Perform(Stage::Checkout),
    ]
}

/// The mutations a cycle has issued by the time it stands in `s`.
pub open spec fn mutations_by(s: PullState) -> Seq<Action> {
    match s {
        PullState::Running(Stage::UpdateMaster) | PullState::Done(
            Outcome::Failed(Stage::UpdateMaster),
        ) => fast_forward_steps().take(1),
        PullState::Running(Stage::SetHead) | PullState::Done(Outcome::Failed(Stage::SetHead)) => {
            fast_forward_steps().take(2)
        },
        PullState::Running(Stage::Checkout) | PullState::Done(Outcome::Failed(Stage::Checkout))
        | PullState::Done(Outcome::FastForwarded) => fast_forward_steps(),
        _ => seq![],
    }
}


/// The name of the remote that the mirror fetches from.
pub fn remote_name() -> (r: &'static str)
    ensures
        r@ == "origin"@,
{
    "origin"
}

/// The refspec of a fetch: every upstream branch onto the local branch of the same name.
pub fn fetch_refspec() -> (r: &'static str)
    ensures
        r@ == "refs/heads/*:refs/heads/*"@,
{
    "refs/heads/*:refs/heads/*"
}

/// The reference that a fetch leaves pointing at what it fetched.
pub fn fetch_head_ref() -> (r: &'static str)
    ensures
        r@ == "FETCH_HEAD"@,
{
    "FETCH_HEAD"
}

/// The branch that the mirror keeps in step with upstream.
pub fn master_ref() -> (r: &'static str)
    ensures
        r@ == "refs/heads/master"@,
{
    "refs/heads/master"
}

/// The reflog message of a fast-forward.
pub fn fast_forward_log_message() -> (r: &'static str)
    ensures
        r@ == "Fast-forward"@,
{
    "Fast-forward"
}

/// Reads the two verdicts of a merge analysis: up to date wins over fast-forward,
/// and a commit that is neither needs a real merge.
pub fn classify(up_to_date: bool, fast_forward: bool) -> (r: MergeKind)
    ensures
        up_to_date ==> r == MergeKind::UpToDate,
        !up_to_date && fast_forward ==> r == MergeKind::FastForward,
        !up_to_date && !fast_forward ==> r == MergeKind::Diverged,
{
    if up_to_date {
        MergeKind::UpToDate
    } else if fast_forward {
        MergeKind::FastForward
    } else {
        MergeKind::Diverged
    }
}

impl Outcome {
    /// The line logged when a cycle ends this way.
    pub fn describe(&self) -> (r: &'static str)
        ensures
            *self == Outcome::UpToDate ==> r@ == "Already up-to-date"@,
            *self == Outcome::FastForwarded ==> r@ == "Performed fast-forward merge"@,
            *self == Outcome::DivergedUnsupported ==> r@ == "Merge required but not implemented"@,
            *self is Failed ==> r@ == "Pull cycle failed; retrying at the next tick"@,
    {
        match self {
            Outcome::UpToDate => "Already up-to-date",
            Outcome::FastForwarded => "Performed fast-forward merge",
            Outcome::DivergedUnsupported => "Merge required but not implemented",
            Outcome::Failed(_) => "Pull cycle failed; retrying at the next tick",
        }
    }
}

fn request_exec(stage: Stage) -> (r: (PullState, Action))
    ensures
        r == request(stage),
{
    (PullState::Running(stage), Action::Perform(stage))
}

fn conclude_exec(outcome: Outcome) -> (r: (PullState, Action))
    ensures
        r == conclude(outcome),
{
    (PullState::Done(outcome), Action::Finish(outcome))
}

/// The transition of a pull cycle, as `next` states it.
pub fn step(s: PullState, e: Event) -> (r: (PullState, Action))
    ensures
        r == next(s, e),
{
    match s {
        PullState::Done(o) => conclude_exec(o),
        PullState::Running(stage) => {
            let succeeded = e == Event::Succeeded;
            match stage {
                Stage::OpenMirror if succeeded => request_exec(Stage::FindRemote),
                Stage::FindRemote => match e {
                    Event::Succeeded => request_exec(Stage::Fetch),
                    Event::Failed => request_exec(Stage::CreateRemote),
                    Event::Analyzed(_) => conclude_exec(Outcome::Failed(Stage::FindRemote)),
                },
                Stage::CreateRemote if succeeded => request_exec(Stage::Fetch),
                Stage::Fetch if succeeded => request_exec(Stage::ResolveFetchHead),
                Stage::ResolveFetchHead if succeeded => request_exec(Stage::AnalyzeMerge),
                Stage::AnalyzeMerge => match e {
                    Event::Analyzed(MergeKind::UpToDate) => conclude_exec(Outcome::UpToDate),
                    Event::Analyzed(MergeKind::FastForward) => request_exec(Stage::UpdateMaster),
                    Event::Analyzed(MergeKind::Diverged) => conclude_exec(
                        Outcome::DivergedUnsupported,
                    ),
                    _ => conclude_exec(Outcome::Failed(Stage::AnalyzeMerge)),
                },
                Stage::UpdateMaster if succeeded => request_exec(Stage::SetHead),
                Stage::SetHead if succeeded => request_exec(Stage::Checkout),
                Stage::Checkout if succeeded => conclude_exec(Outcome::FastForwarded),
                _ => conclude_exec(Outcome::Failed(stage)),
            }
        },
    }
}

/// One pull cycle in progress: it asks for operations and is told how each went.
pub struct PullCycle {
    pub state: PullState,
}

impl PullCycle {
    /// Starts a cycle; the first request is to open the mirror.
    pub fn new() -> (r: (PullCycle, Action))
        ensures
            (r.0.state, r.1) == initial(),
            r.1 == Action::Perform(Stage::OpenMirror),
    {
        (PullCycle { state: PullState::Running(Stage::OpenMirror) }, Action::Perform(Stage::OpenMirror))
    }

    /// Takes the result of the last request and returns the next one.
    pub fn advance(&mut self, e: Event) -> (r: Action)
        ensures
            (final(self).state, r) == next(old(self).state, e),
    {
        let (s, a) = step(self.state, e);
        self.state = s;
        a
    }

    /// The outcome, once the cycle is over.
    pub fn outcome(&self) -> (r: Option<Outcome>)
        ensures
            r == (match self.state {
                PullState::Done(o) => Some(o),
                PullState::Running(_) => None::<Outcome>,
            }),
    {
        match self.state {
            PullState::Done(o) => Some(o),
            PullState::Running(_) => None,
        }
    }
}

/// Every cycle has issued exactly the mutations that its state accounts for.
pub proof fn lemma_mutations_follow_state(evs: Seq<Event>)
    ensures
        mutations(run(evs).1) == mutations_by(run(evs).0),
    decreases evs.len(),
{
    if evs.len() == 0 {
        assert(run(evs).1.drop_last() =~= Seq::<Action>::empty());
        assert(mutations(Seq::<Action>::empty()) =~= Seq::<Action>::empty());
        assert(mutations_by(run(evs).0) =~= Seq::<Action>::empty());
    } else {
        let prev = run(evs.drop_last());
        lemma_mutations_follow_state(evs.drop_last());
        let acts = run(evs).1;
        let step = next(prev.0, evs.last());
        assert(acts.drop_last() =~= prev.1);
        assert(acts.last() == step.1);
        assert(mutations(acts) == if is_mutating(step.1) {
            mutations(prev.1).push(step.1)
        } else {
            mutations(prev.1)
        });
        assert(fast_forward_steps().take(1) =~= seq![Action::Perform(Stage::UpdateMaster)]);
        assert(fast_forward_steps().take(2) =~= fast_forward_steps().take(1).push(
            Action::Perform(Stage::SetHead),
        ));
        assert(fast_forward_steps() =~= fast_forward_steps().take(2).push(
            Action::Perform(Stage::Checkout),
        ));
    }
}


pub(crate) proof fn lemma_run_push(evs: Seq<Event>, e: Event)
    ensures
        run(evs.push(e)).0 == next(run(evs).0, e).0,
        run(evs.push(e)).1 == run(evs).1.push(next(run(evs).0, e).1),
        mutations(run(evs.push(e)).1) == mutations_by(run(evs.push(e)).0),
{
    assert(evs.push(e).drop_last() =~= evs);
    lemma_mutations_follow_state(evs.push(e));
}

/// A cycle whose merge analysis finds the fetched commit already in local
/// master (the two tips are equal) ends up to date, and has changed neither
/// master, `HEAD` nor the working tree.
pub proof fn lemma_up_to_date_changes_nothing(evs: Seq<Event>)
    requires
        run(evs).0 == PullState::Running(Stage::AnalyzeMerge),
    ensures
        run(evs.push(Event::Analyzed(MergeKind::UpToDate))).0 == PullState::Done(
            Outcome::UpToDate,
        ),
        mutations(run(evs.push(Event::Analyzed(MergeKind::UpToDate))).1) == Seq::<Action>::empty(),
{
    lemma_run_push(evs, Event::Analyzed(MergeKind::UpToDate));
}

/// A cycle whose merge analysis finds local master an ancestor of the fetched
/// commit, and whose three following operations succeed, ends fast-forwarded;
/// on its way it has pointed master at the fetched commit, set `HEAD` to
/// master and force-checked-out the tree, in that order, and changed nothing else.
pub proof fn lemma_fast_forward_advances_master(evs: Seq<Event>)
    requires
        run(evs).0 == PullState::Running(Stage::AnalyzeMerge),
    ensures
        ({
            let full = evs.push(Event::Analyzed(MergeKind::FastForward)).push(
                Event::Succeeded,
            ).push(Event::Succeeded).push(Event::Succeeded);
            &&& run(full).0 == PullState::Done(Outcome::FastForwarded)
            &&& mutations(run(full).1) == fast_forward_steps()
        }),
{
    let e1 = evs.push(Event::Analyzed(MergeKind::FastForward));
    let e2 = e1.push(Event::Succeeded);
    let e3 = e2.push(Event::Succeeded);
    lemma_run_push(evs, Event::Analyzed(MergeKind::FastForward));
    lemma_run_push(e1, Event::Succeeded);
    lemma_run_push(e2, Event::Succeeded);
    lemma_run_push(e3, Event::Succeeded);
}

/// Every cycle that ends fast-forwarded has made exactly the three mutations
/// of a fast-forward, in order.
pub proof fn lemma_fast_forward_mutations(evs: Seq<Event>)
    requires
        run(evs).0 == PullState::Done(Outcome::FastForwarded),
    ensures
        mutations(run(evs).1) == fast_forward_steps(),
{
    lemma_mutations_follow_state(evs);
}

/// A cycle whose merge analysis finds the histories diverged ends reporting
/// that as unsupported, and has changed neither master, `HEAD` nor the working tree.
pub proof fn lemma_diverged_changes_nothing(evs: Seq<Event>)
    requires
        run(evs).0 == PullState::Running(Stage::AnalyzeMerge),
    ensures
        run(evs.push(Event::Analyzed(MergeKind::Diverged))).0 == PullState::Done(
            Outcome::DivergedUnsupported,
        ),
        mutations(run(evs.push(Event::Analyzed(MergeKind::Diverged))).1) == Seq::<
            Action,
        >::empty(),
{
    lemma_run_push(evs, Event::Analyzed(MergeKind::Diverged));
}

/// A cycle whose operations all succeed reaches the merge analysis after four
/// results (open, find remote, fetch, resolve `FETCH_HEAD`), or after five when
/// the remote had to be created.
pub proof fn lemma_successes_reach_analysis()
    ensures
        run(seq![Event::Succeeded, Event::Succeeded, Event::Succeeded, Event::Succeeded]).0
            == PullState::Running(Stage::AnalyzeMerge),
        run(
            seq![Event::Succeeded, Event::Failed, Event::Succeeded, Event::Succeeded, Event::Succeeded],
        ).0 == PullState::Running(Stage::AnalyzeMerge),
{
    let s = Event::Succeeded;
    let f = Event::Failed;
    let e0 = Seq::<Event>::empty();
    lemma_run_push(e0, s);
    lemma_run_push(e0.push(s), s);
    lemma_run_push(e0.push(s).push(s), s);
    lemma_run_push(e0.push(s).push(s).push(s), s);
    assert(seq![s, s, s, s] =~= e0.push(s).push(s).push(s).push(s));
    lemma_run_push(e0.push(s), f);
    lemma_run_push(e0.push(s).push(f), s);
    lemma_run_push(e0.push(s).push(f).push(s), s);
    lemma_run_push(e0.push(s).push(f).push(s).push(s), s);
    assert(seq![s, f, s, s, s] =~= e0.push(s).push(f).push(s).push(s).push(s));
}

/// Every cycle that ends up to date or diverged has changed nothing.
pub proof fn lemma_no_change_without_fast_forward(evs: Seq<Event>)
    requires
        run(evs).0 == PullState::Done(Outcome::UpToDate) || run(evs).0 == PullState::Done(
            Outcome::DivergedUnsupported,
        ),
    ensures
        mutations(run(evs).1) == Seq::<Action>::empty(),
{
    lemma_mutations_follow_state(evs);
}

} // verus!
