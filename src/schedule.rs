use vstd::prelude::*;
use crate::config::Config;
use crate::sync::{initial, lemma_run_push, next, run, step, Action, Event, Outcome, PullState, Stage};

verus! {

/// The periodic driver of pull cycles: each tick starts a fresh cycle, and the
/// results of the requested operations are fed back until the cycle is over.
#[derive(Clone, Copy, Debug)]
pub struct Scheduler {
    /// Seconds between two ticks.
    pub interval_secs: u64,
    /// The cycle in progress, if any.
    pub cycle: Option<PullState>,
    /// How the last finished cycle ended.
    pub last_outcome: Option<Outcome>,
}

impl Scheduler {
    pub open spec fn wf(&self) -> bool {
        self.interval_secs > 0
    }
}

/// A tick: whatever came before, a fresh cycle begins.
pub open spec fn tick(s: Scheduler) -> (Scheduler, Action) {
    (Scheduler { cycle: Some(initial().0), ..s }, initial().1)
}

/// The result of the requested operation, handed to the cycle in progress.
pub open spec fn feed(s: Scheduler, e: Event) -> (Scheduler, Option<Action>) {
    match s.cycle {
        None => (s, None),
        Some(st) => {
            let (st2, a) = next(st, e);
            match st2 {
                PullState::Done(o) => (
                    Scheduler { cycle: None, last_outcome: Some(o), ..s },
                    Some(a),
                ),
                PullState::Running(_) => (Scheduler { cycle: Some(st2), ..s }, Some(a)),
            }
        },
    }
}

/// The scheduler after `evs` are fed in order, and what each one returned.
pub open spec fn feed_all(s: Scheduler, evs: Seq<Event>) -> (Scheduler, Seq<Option<Action>>)
    decreases evs.len(),
{
    if evs.len() == 0 {
        (s, seq![])
    } else {
        let prev = feed_all(s, evs.drop_last());
        let f = feed(prev.0, evs.last());
        (f.0, prev.1.push(f.1))
    }
}

impl Scheduler {
    /// A scheduler that ticks at the configured interval and has run no cycle yet.
    pub fn new(config: &Config) -> (r: Scheduler)
        requires
            config.wf(),
        ensures
            r.wf(),
            r.interval_secs == config.update_interval,
            r.cycle == None::<PullState>,
            r.last_outcome == None::<Outcome>,
    {
        Scheduler { interval_secs: config.update_interval, cycle: None, last_outcome: None }
    }

    /// Starts a fresh cycle and returns its first request.
    pub fn on_tick(&mut self) -> (r: Action)
        ensures
            (*final(self), r) == tick(*old(self)),
            r == Action::Perform(Stage::OpenMirror),
    {
        self.cycle = Some(PullState::Running(Stage::OpenMirror));
        Action::Perform(Stage::OpenMirror)
    }

    /// Hands the result of the last request to the cycle in progress and
    /// returns what it asks next; `None` when no cycle is in progress.
    pub fn on_event(&mut self, e: Event) -> (r: Option<Action>)
        ensures
            (*final(self), r) == feed(*old(self), e),
    {
        match self.cycle {
            None => None,
            Some(st) => {
                let (st2, a) = step(st, e);
                match st2 {
                    PullState::Done(o) => {
                        self.cycle = None;
                        self.last_outcome = Some(o);
                    },
                    PullState::Running(_) => {
                        self.cycle = Some(st2);
                    },
                }
                Some(a)
            },
        }
    }
}

proof fn lemma_feed_all_agree(a: Scheduler, b: Scheduler, evs: Seq<Event>)
    requires
        a.cycle == b.cycle,
        a.cycle is None ==> a.last_outcome == b.last_outcome,
    ensures
        feed_all(a, evs).1 == feed_all(b, evs).1,
        feed_all(a, evs).0.cycle == feed_all(b, evs).0.cycle,
        feed_all(a, evs).0.cycle is None ==> feed_all(a, evs).0.last_outcome == feed_all(
            b,
            evs,
        ).0.last_outcome,
    decreases evs.len(),
{
    if evs.len() > 0 {
        lemma_feed_all_agree(a, b, evs.drop_last());
    }
}

/// Cycles are independent: after a tick, the same results fed in give the
/// same requests and the same outcome, whatever the scheduler held before,
/// a failed cycle included.
pub proof fn lemma_cycles_independent(earlier: Scheduler, other: Scheduler, evs: Seq<Event>)
    ensures
        feed_all(tick(earlier).0, evs).1 == feed_all(tick(other).0, evs).1,
        feed_all(tick(earlier).0, evs).0.cycle == feed_all(tick(other).0, evs).0.cycle,
        feed_all(tick(earlier).0, evs).0.cycle is None ==> feed_all(
            tick(earlier).0,
            evs,
        ).0.last_outcome == feed_all(tick(other).0, evs).0.last_outcome,
{
    lemma_feed_all_agree(tick(earlier).0, tick(other).0, evs);
}

/// A tick that cannot open the mirror ends its cycle as a failure and leaves
/// the scheduler running: the next tick starts a fresh attempt.
pub proof fn lemma_unopenable_mirror_skips_tick(s: Scheduler)
    ensures
        ({
            let (after, r) = feed(tick(s).0, Event::Failed);
            &&& r == Some(Action::Finish(Outcome::Failed(Stage::OpenMirror)))
            &&& after.cycle == None::<PullState>
            &&& after.last_outcome == Some(Outcome::Failed(Stage::OpenMirror))
            &&& after.interval_secs == s.interval_secs
            &&& tick(after).1 == Action::Perform(Stage::OpenMirror)
            &&& tick(after).0.cycle == Some(PullState::Running(Stage::OpenMirror))
        }),
{
}


/// After a tick, the scheduler hands out exactly the requests of a fresh
/// cycle fed the same results, and records that cycle's outcome when it ends.
pub proof fn lemma_scheduler_runs_cycle(s: Scheduler, evs: Seq<Event>)
    requires
        evs.len() == 0 || run(evs.drop_last()).0 is Running,
    ensures
        feed_all(tick(s).0, evs).1 =~= run(evs).1.drop_first().map_values(
            |a: Action| Some(a),
        ),
        feed_all(tick(s).0, evs).0.interval_secs == s.interval_secs,
        run(evs).0 is Running ==> feed_all(tick(s).0, evs).0.cycle == Some(run(evs).0),
        run(evs).0 matches PullState::Done(o) ==> {
            &&& feed_all(tick(s).0, evs).0.cycle == None::<PullState>
            &&& feed_all(tick(s).0, evs).0.last_outcome == Some(o)
        },
    decreases evs.len(),
{
    if evs.len() > 0 {
        let p = evs.drop_last();
        let e = evs.last();
        assert(p.push(e) =~= evs);
        lemma_run_push(p, e);
        if p.len() > 0 {
            lemma_run_push(p.drop_last(), p.last());
            assert(p.drop_last().push(p.last()) =~= p);
        }
        lemma_scheduler_runs_cycle(s, p);
    }
}

} // verus!
