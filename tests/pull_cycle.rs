use index_mirror::sync::{
    classify, fast_forward_log_message, fetch_head_ref, fetch_refspec, master_ref, remote_name,
    step, Action, Event, MergeKind, Outcome, PullCycle, PullState, Stage,
};

fn is_mutating(a: &Action) -> bool {
    matches!(
        a,
        Action::Perform(Stage::UpdateMaster) | Action::Perform(Stage::SetHead) | Action::Perform(Stage::Checkout)
    )
}

/// Runs a fresh cycle on `events` and returns every action it issued.
fn drive(events: &[Event]) -> (PullCycle, Vec<Action>) {
    let (mut cycle, first) = PullCycle::new();
    let mut actions = vec![first];
    for e in events {
        actions.push(cycle.advance(*e));
    }
    (cycle, actions)
}

const TO_ANALYSIS: [Event; 4] = [Event::Succeeded, Event::Succeeded, Event::Succeeded, Event::Succeeded];

#[test]
fn cycle_starts_by_opening_the_mirror() {
    let (cycle, first) = PullCycle::new();
    assert_eq!(first, Action::Perform(Stage::OpenMirror));
    assert_eq!(cycle.state, PullState::Running(Stage::OpenMirror));
    assert_eq!(cycle.outcome(), None);
}

#[test]
fn operations_are_requested_in_order() {
    let (_, actions) = drive(&TO_ANALYSIS);
    assert_eq!(
        actions,
        vec![
            Action::Perform(Stage::OpenMirror),
            Action::Perform(Stage::FindRemote),
            Action::Perform(Stage::Fetch),
            Action::Perform(Stage::ResolveFetchHead),
            Action::Perform(Stage::AnalyzeMerge),
        ]
    );
}

#[test]
fn missing_remote_is_created() {
    let (cycle, actions) = drive(&[Event::Succeeded, Event::Failed, Event::Succeeded]);
    assert_eq!(actions[2], Action::Perform(Stage::CreateRemote));
    assert_eq!(actions[3], Action::Perform(Stage::Fetch));
    assert_eq!(cycle.state, PullState::Running(Stage::Fetch));
}

#[test]
fn failed_remote_creation_ends_cycle() {
    let (cycle, actions) = drive(&[Event::Succeeded, Event::Failed, Event::Failed]);
    assert_eq!(cycle.outcome(), Some(Outcome::Failed(Stage::CreateRemote)));
    assert_eq!(actions.last(), Some(&Action::Finish(Outcome::Failed(Stage::CreateRemote))));
}

#[test]
fn fetch_failure_ends_cycle() {
    let (cycle, actions) = drive(&[Event::Succeeded, Event::Succeeded, Event::Failed]);
    assert_eq!(cycle.outcome(), Some(Outcome::Failed(Stage::Fetch)));
    assert!(!actions.iter().any(is_mutating));
}

#[test]
fn missing_fetch_head_ends_cycle() {
    let (cycle, _) = drive(&[Event::Succeeded, Event::Succeeded, Event::Succeeded, Event::Failed]);
    assert_eq!(cycle.outcome(), Some(Outcome::Failed(Stage::ResolveFetchHead)));
}

#[test]
fn analysis_failure_ends_cycle() {
    let mut events = TO_ANALYSIS.to_vec();
    events.push(Event::Failed);
    let (cycle, _) = drive(&events);
    assert_eq!(cycle.outcome(), Some(Outcome::Failed(Stage::AnalyzeMerge)));
}

#[test]
fn up_to_date_when_tips_are_equal() {
    let mut events = TO_ANALYSIS.to_vec();
    events.push(Event::Analyzed(MergeKind::UpToDate));
    let (cycle, actions) = drive(&events);
    assert_eq!(cycle.outcome(), Some(Outcome::UpToDate));
    assert_eq!(actions.last(), Some(&Action::Finish(Outcome::UpToDate)));
    assert!(!actions.iter().any(is_mutating));
}

#[test]
fn fast_forward_moves_master_then_head_then_tree() {
    let mut events = TO_ANALYSIS.to_vec();
    events.extend([Event::Analyzed(MergeKind::FastForward), Event::Succeeded, Event::Succeeded, Event::Succeeded]);
    let (cycle, actions) = drive(&events);
    assert_eq!(cycle.outcome(), Some(Outcome::FastForwarded));
    let mutations: Vec<Action> = actions.iter().copied().filter(is_mutating).collect();
    assert_eq!(
        mutations,
        vec![
            Action::Perform(Stage::UpdateMaster),
            Action::Perform(Stage::SetHead),
            Action::Perform(Stage::Checkout),
        ]
    );
}

#[test]
fn failed_branch_update_stops_before_head() {
    let mut events = TO_ANALYSIS.to_vec();
    events.extend([Event::Analyzed(MergeKind::FastForward), Event::Failed]);
    let (cycle, actions) = drive(&events);
    assert_eq!(cycle.outcome(), Some(Outcome::Failed(Stage::UpdateMaster)));
    assert_eq!(actions.iter().filter(|a| is_mutating(a)).count(), 1);
}

#[test]
fn failed_checkout_ends_cycle() {
    let mut events = TO_ANALYSIS.to_vec();
    events.extend([Event::Analyzed(MergeKind::FastForward), Event::Succeeded, Event::Succeeded, Event::Failed]);
    let (cycle, _) = drive(&events);
    assert_eq!(cycle.outcome(), Some(Outcome::Failed(Stage::Checkout)));
}

#[test]
fn failed_set_head_ends_cycle() {
    let mut events = TO_ANALYSIS.to_vec();
    events.extend([Event::Analyzed(MergeKind::FastForward), Event::Succeeded, Event::Failed]);
    let (cycle, _) = drive(&events);
    assert_eq!(cycle.outcome(), Some(Outcome::Failed(Stage::SetHead)));
}

#[test]
fn unopenable_mirror_ends_cycle() {
    let (cycle, actions) = drive(&[Event::Failed]);
    assert_eq!(cycle.outcome(), Some(Outcome::Failed(Stage::OpenMirror)));
    assert_eq!(actions, vec![Action::Perform(Stage::OpenMirror), Action::Finish(Outcome::Failed(Stage::OpenMirror))]);
}

#[test]
fn analysis_verdict_where_none_expected_fails_stage() {
    let (cycle, _) = drive(&[Event::Succeeded, Event::Succeeded, Event::Analyzed(MergeKind::UpToDate)]);
    assert_eq!(cycle.outcome(), Some(Outcome::Failed(Stage::Fetch)));
}

#[test]
fn finished_cycle_stays_finished() {
    let r = step(PullState::Done(Outcome::UpToDate), Event::Succeeded);
    assert_eq!(r, (PullState::Done(Outcome::UpToDate), Action::Finish(Outcome::UpToDate)));
}

#[test]
fn classify_reads_analysis_flags() {
    assert_eq!(classify(true, false), MergeKind::UpToDate);
    assert_eq!(classify(true, true), MergeKind::UpToDate);
    assert_eq!(classify(false, true), MergeKind::FastForward);
    assert_eq!(classify(false, false), MergeKind::Diverged);
}

#[test]
fn operation_names() {
    assert_eq!(remote_name(), "origin");
    assert_eq!(fetch_refspec(), "refs/heads/*:refs/heads/*");
    assert_eq!(fetch_head_ref(), "FETCH_HEAD");
    assert_eq!(master_ref(), "refs/heads/master");
    assert_eq!(fast_forward_log_message(), "Fast-forward");
}

#[test]
fn outcome_log_lines() {
    assert_eq!(Outcome::UpToDate.describe(), "Already up-to-date");
    assert_eq!(Outcome::DivergedUnsupported.describe(), "Merge required but not implemented");
    assert_eq!(Outcome::FastForwarded.describe(), "Performed fast-forward merge");
    assert!(Outcome::Failed(Stage::Fetch).describe().contains("failed"));
}

// A fresh mirror just cloned from an upstream with three commits: the next
// pull finds both tips equal.
#[test]
fn scenario_fresh_clone_then_pull_is_up_to_date() {
    let mut events = TO_ANALYSIS.to_vec();
    events.push(Event::Analyzed(classify(true, false)));
    let (cycle, actions) = drive(&events);
    assert_eq!(cycle.outcome(), Some(Outcome::UpToDate));
    assert!(!actions.iter().any(is_mutating));
}

// A mirror two commits behind a linear upstream is fast-forwarded.
#[test]
fn scenario_behind_linear_upstream_fast_forwards() {
    let mut events = TO_ANALYSIS.to_vec();
    events.push(Event::Analyzed(classify(false, true)));
    events.extend([Event::Succeeded, Event::Succeeded, Event::Succeeded]);
    let (cycle, actions) = drive(&events);
    assert_eq!(cycle.outcome(), Some(Outcome::FastForwarded));
    assert!(actions.contains(&Action::Perform(Stage::UpdateMaster)));
    assert!(actions.contains(&Action::Perform(Stage::Checkout)));
}

// A mirror with a commit of its own against an upstream with another one.
#[test]
fn scenario_diverged_history_is_left_alone() {
    let mut events = TO_ANALYSIS.to_vec();
    events.push(Event::Analyzed(classify(false, false)));
    let (cycle, actions) = drive(&events);
    assert_eq!(cycle.outcome(), Some(Outcome::DivergedUnsupported));
    assert!(!actions.iter().any(is_mutating));
}
