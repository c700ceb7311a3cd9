//! The catalog mutator: the handle through which catalog changes are sent
//! to the metastore, and its retry rules.
use vstd::prelude::*;

verus! {

/// Number of commits tried before a commit that keeps losing races fails.
pub const MAX_COMMIT_ATTEMPTS: u32 = 5;

/// Wrapper around a metastore client for mutating the catalog.
#[derive(Clone)]
pub struct CatalogMutator<C> {
    pub client: Option<C>,
}

impl<C> CatalogMutator<C> {
    /// A mutator without a client: every mutation fails.
    pub fn empty() -> (m: CatalogMutator<C>)
        ensures
            m.client is None,
    {
        CatalogMutator { client: None }
    }

    /// Whether there is no client.
    pub fn is_empty(&self) -> (r: bool)
        ensures
            r == self.client is None,
    {
        self.client.is_none()
    }

    pub fn new(client: Option<C>) -> (m: CatalogMutator<C>)
        ensures
            m.client == client,
    {
        CatalogMutator { client }
    }

    pub fn get_metastore_client(&self) -> (r: Option<&C>)
        ensures
            r == match self.client {
                Some(c) => Some(&c),
                None => None::<&C>,
            },
    {
        self.client.as_ref()
    }

    /// The client, or the error every mutation fails with when there is
    /// none.
    pub fn require_client(&self) -> (r: Result<&C, String>)
        ensures
            match self.client {
                Some(c) => r == Ok::<&C, String>(&c),
                None => r matches Err(m) && m@ == "metastore client not configured"@,
            },
    {
        match &self.client {
            Some(c) => Ok(c),
            None => Err("metastore client not configured".to_owned()),
        }
    }
}

impl<C> From<C> for CatalogMutator<C> {
    fn from(value: C) -> (m: Self) {
        CatalogMutator { client: Some(value) }
    }
}

impl<C> vstd::std_specs::convert::FromSpecImpl<C> for CatalogMutator<C> {
    open spec fn obeys_from_spec() -> bool {
        true
    }

    open spec fn from_spec(v: C) -> CatalogMutator<C> {
        CatalogMutator { client: Some(v) }
    }
}

/// How a mutation or a commit sent to the metastore ended.
#[derive(Debug, Clone, Copy, PartialEq, Eq, Structural)]
pub enum MetastoreOutcome {
    Done,
    /// Refused against an out-of-date catalog; fetching the catalog and
    /// trying again may succeed.
    Stale,
    /// Refused for any other reason.
    Failed,
}

/// What to do after a mutation was tried against a catalog version.
#[derive(Debug, Clone, Copy, PartialEq, Eq, Structural)]
pub enum MutateStep {
    /// The mutated state is ready.
    Ready,
    /// Fetch the catalog and try the mutation once more at its version.
    RefreshAndRetry,
    /// Return the error.
    Fail,
}

/// After the first try of a mutation: a stale catalog is fetched again and
/// the mutation retried once; any other error is returned. A retried
/// mutation that fails again is returned as it is.
pub fn mutate_step(outcome: MetastoreOutcome, retried: bool) -> (s: MutateStep)
    ensures
        s == match outcome {
            MetastoreOutcome::Done => MutateStep::Ready,
            MetastoreOutcome::Stale => if retried {
                MutateStep::Fail
            } else {
                MutateStep::RefreshAndRetry
            },
            MetastoreOutcome::Failed => MutateStep::Fail,
        },
{
    match outcome {
        MetastoreOutcome::Done => MutateStep::Ready,
        MetastoreOutcome::Stale => if retried {
            MutateStep::Fail
        } else {
            MutateStep::RefreshAndRetry
        },
        MetastoreOutcome::Failed => MutateStep::Fail,
    }
}

/// The number of the next commit attempt after a commit: a commit that lost
/// a race to another session is replayed from a fresh catalog as long as
/// fewer than [`MAX_COMMIT_ATTEMPTS`] commits were tried; otherwise there is
/// none and the commit's result is returned.
pub open spec fn next_commit_attempt(attempt: int, outcome: MetastoreOutcome) -> Option<int> {
    if outcome == MetastoreOutcome::Stale && attempt + 1 < MAX_COMMIT_ATTEMPTS {
        Some(attempt + 1)
    } else {
        None
    }
}

/// What to do after a commit: the number of the next attempt, or None to
/// return the commit's result.
pub fn commit_retry(attempt: u32, outcome: MetastoreOutcome) -> (next: Option<u32>)
    ensures
        match next_commit_attempt(attempt as int, outcome) {
            Some(a) => next == Some(a as u32),
            None => next is None,
        },
{
    match outcome {
        MetastoreOutcome::Stale => if attempt < MAX_COMMIT_ATTEMPTS - 1 {
            Some(attempt + 1)
        } else {
            None
        },
        _ => None,
    }
}

/// Where a mutate-and-commit stands.
#[derive(Debug, Clone, Copy, PartialEq, Eq, Structural)]
pub enum CommitStage {
    /// The mutation was sent; `retried` when it already was refused once
    /// for a stale catalog.
    Mutating { retried: bool },
    /// The catalog is fetched again before the mutation is retried.
    RefreshingToMutate,
    /// The mutated state was sent to be committed.
    Committing,
    /// The catalog is fetched again before the whole mutation is replayed.
    RefreshingToReplay,
    /// The result was returned.
    Finished,
}

/// A mutate-and-commit in progress: the catalog version that commits are
/// made against, the number of commits that lost a race so far, and the
/// stage.
#[derive(Debug, Clone, Copy, PartialEq, Eq, Structural)]
pub struct CommitFlow {
    pub version: u64,
    pub attempt: u32,
    pub stage: CommitStage,
}

/// What the metastore answered.
#[derive(Debug, Clone, Copy, PartialEq, Eq, Structural)]
pub enum CommitEvent {
    /// The answer to a mutation.
    Mutated(MetastoreOutcome),
    /// The catalog was fetched again; its version.
    Refreshed(u64),
    /// Fetching the catalog failed.
    RefreshFailed,
    /// The answer to a commit.
    Committed(MetastoreOutcome),
}

/// What the mutator does next.
#[derive(Debug, Clone, Copy, PartialEq, Eq, Structural)]
pub enum CommitAction {
    /// Send the mutations against this catalog version.
    TryMutate(u64),
    /// Fetch the catalog again.
    Refresh,
    /// Commit the mutated state against this catalog version.
    Commit(u64),
    /// Return the committed state.
    ReturnState,
    /// Return the last error.
    ReturnError,
}

/// The next flow and action for an answer; an answer that does not fit the
/// stage changes nothing and asks for nothing.
pub open spec fn commit_step(f: CommitFlow, e: CommitEvent) -> (CommitFlow, Option<CommitAction>) {
    let done = CommitFlow { stage: CommitStage::Finished, ..f };
    match (f.stage, e) {
        (CommitStage::Mutating { retried }, CommitEvent::Mutated(o)) => match o {
            MetastoreOutcome::Done => (
                CommitFlow { stage: CommitStage::Committing, ..f },
                Some(CommitAction::Commit(f.version)),
            ),
            MetastoreOutcome::Stale => if retried {
                (done, Some(CommitAction::ReturnError))
            } else {
                (CommitFlow { stage: CommitStage::RefreshingToMutate, ..f }, Some(CommitAction::Refresh))
            },
            MetastoreOutcome::Failed => (done, Some(CommitAction::ReturnError)),
        },
        (CommitStage::RefreshingToMutate, CommitEvent::Refreshed(v)) => (
            CommitFlow { stage: CommitStage::Mutating { retried: true }, ..f },
            Some(CommitAction::TryMutate(v)),
        ),
        (CommitStage::Committing, CommitEvent::Committed(o)) => match o {
            MetastoreOutcome::Done => (done, Some(CommitAction::ReturnState)),
            _ => match next_commit_attempt(f.attempt as int, o) {
                Some(a) => (
                    CommitFlow { attempt: a as u32, stage: CommitStage::RefreshingToReplay, ..f },
                    Some(CommitAction::Refresh),
                ),
                None => (done, Some(CommitAction::ReturnError)),
            },
        },
        (CommitStage::RefreshingToReplay, CommitEvent::Refreshed(v)) => (
            CommitFlow { version: v, stage: CommitStage::Mutating { retried: false }, ..f },
            Some(CommitAction::TryMutate(v)),
        ),
        (CommitStage::RefreshingToMutate, CommitEvent::RefreshFailed) => (
            done,
            Some(CommitAction::ReturnError),
        ),
        (CommitStage::RefreshingToReplay, CommitEvent::RefreshFailed) => (
            done,
            Some(CommitAction::ReturnError),
        ),
        _ => (f, None),
    }
}

impl CommitFlow {
    /// Starts a mutate-and-commit against a catalog version: the mutations
    /// are sent, unless there is no client, in which case the error is
    /// returned at once.
    pub fn start(version: u64, has_client: bool) -> (r: (CommitFlow, CommitAction))
        ensures
            has_client ==> r == (
                CommitFlow { version, attempt: 0, stage: CommitStage::Mutating { retried: false } },
                CommitAction::TryMutate(version),
            ),
            !has_client ==> r == (
                CommitFlow { version, attempt: 0, stage: CommitStage::Finished },
                CommitAction::ReturnError,
            ),
    {
        if has_client {
            (
                CommitFlow { version, attempt: 0, stage: CommitStage::Mutating { retried: false } },
                CommitAction::TryMutate(version),
            )
        } else {
            (CommitFlow { version, attempt: 0, stage: CommitStage::Finished }, CommitAction::ReturnError)
        }
    }

    /// Takes one answer of the metastore: the next flow and what to do.
    pub fn step(self, e: CommitEvent) -> (r: (CommitFlow, Option<CommitAction>))
        ensures
            r == commit_step(self, e),
    {
        let done = CommitFlow { stage: CommitStage::Finished, ..self };
        match (self.stage, e) {
            (CommitStage::Mutating { retried }, CommitEvent::Mutated(o)) => match mutate_step(o, retried) {
                MutateStep::Ready => (
                    CommitFlow { stage: CommitStage::Committing, ..self },
                    Some(CommitAction::Commit(self.version)),
                ),
                MutateStep::RefreshAndRetry => (
                    CommitFlow { stage: CommitStage::RefreshingToMutate, ..self },
                    Some(CommitAction::Refresh),
                ),
                MutateStep::Fail => (done, Some(CommitAction::ReturnError)),
            },
            (CommitStage::RefreshingToMutate, CommitEvent::Refreshed(v)) => (
                CommitFlow { stage: CommitStage::Mutating { retried: true }, ..self },
                Some(CommitAction::TryMutate(v)),
            ),
            (CommitStage::Committing, CommitEvent::Committed(o)) => match o {
                MetastoreOutcome::Done => (done, Some(CommitAction::ReturnState)),
                _ => match commit_retry(self.attempt, o) {
                    Some(a) => (
                        CommitFlow { attempt: a, stage: CommitStage::RefreshingToReplay, ..self },
                        Some(CommitAction::Refresh),
                    ),
                    None => (done, Some(CommitAction::ReturnError)),
                },
            },
            (CommitStage::RefreshingToReplay, CommitEvent::Refreshed(v)) => (
                CommitFlow { version: v, stage: CommitStage::Mutating { retried: false }, ..self },
                Some(CommitAction::TryMutate(v)),
            ),
            (CommitStage::RefreshingToMutate, CommitEvent::RefreshFailed) => (
                done,
                Some(CommitAction::ReturnError),
            ),
            (CommitStage::RefreshingToReplay, CommitEvent::RefreshFailed) => (
                done,
                Some(CommitAction::ReturnError),
            ),
            _ => (self, None),
        }
    }
}

/// How many more commits a flow can still make.
pub open spec fn commit_budget(f: CommitFlow) -> int {
    match f.stage {
        CommitStage::Finished => 0,
        CommitStage::Committing => MAX_COMMIT_ATTEMPTS - f.attempt - 1,
        _ => MAX_COMMIT_ATTEMPTS - f.attempt,
    }
}

/// The flows that a mutate-and-commit passes through: fewer commits lost
/// than the limit while it runs.
pub open spec fn commit_flow_ok(f: CommitFlow) -> bool {
    f.stage != CommitStage::Finished ==> f.attempt < MAX_COMMIT_ATTEMPTS
}

/// Whether an action is a commit.
pub open spec fn is_commit(a: Option<CommitAction>) -> bool {
    a matches Some(CommitAction::Commit(_))
}

/// The flow after a run of answers, and the number of commits made on the
/// way.
pub open spec fn commit_run(f: CommitFlow, events: Seq<CommitEvent>) -> (CommitFlow, nat)
    decreases events.len(),
{
    if events.len() == 0 {
        (f, 0)
    } else {
        let (g, a) = commit_step(f, events[0]);
        let (h, n) = commit_run(g, events.drop_first());
        (h, n + if is_commit(a) {
            1nat
        } else {
            0nat
        })
    }
}

proof fn lemma_commit_step_budget(f: CommitFlow, e: CommitEvent)
    requires
        commit_flow_ok(f),
    ensures
        commit_flow_ok(commit_step(f, e).0),
        commit_budget(commit_step(f, e).0) + (if is_commit(commit_step(f, e).1) {
            1int
        } else {
            0int
        }) <= commit_budget(f),
        commit_budget(commit_step(f, e).0) >= 0,
{
}

proof fn lemma_commit_run_budget(f: CommitFlow, events: Seq<CommitEvent>)
    requires
        commit_flow_ok(f),
        commit_budget(f) >= 0,
    ensures
        commit_run(f, events).1 <= commit_budget(f),
    decreases events.len(),
{
    if events.len() > 0 {
        lemma_commit_step_budget(f, events[0]);
        lemma_commit_run_budget(commit_step(f, events[0]).0, events.drop_first());
    }
}

/// Whatever the metastore answers, a mutate-and-commit commits at most
/// [`MAX_COMMIT_ATTEMPTS`] times.
pub proof fn lemma_commit_attempts_bounded(version: u64, events: Seq<CommitEvent>)
    ensures
        commit_run(
            CommitFlow { version, attempt: 0, stage: CommitStage::Mutating { retried: false } },
            events,
        ).1 <= MAX_COMMIT_ATTEMPTS,
{
    lemma_commit_run_budget(
        CommitFlow { version, attempt: 0, stage: CommitStage::Mutating { retried: false } },
        events,
    );
}

/// A mutation refused for a stale catalog is retried once, against the
/// version fetched again; refused again, the error is returned.
pub proof fn lemma_stale_mutation_retried_once(version: u64, attempt: u32, fresh: u64)
    ensures
        ({
            let f = CommitFlow { version, attempt, stage: CommitStage::Mutating { retried: false } };
            let (g, a) = commit_step(f, CommitEvent::Mutated(MetastoreOutcome::Stale));
            let (h, b) = commit_step(g, CommitEvent::Refreshed(fresh));
            let (k, c) = commit_step(h, CommitEvent::Mutated(MetastoreOutcome::Stale));
            &&& a == Some(CommitAction::Refresh)
            &&& b == Some(CommitAction::TryMutate(fresh))
            &&& c == Some(CommitAction::ReturnError)
            &&& k.stage == CommitStage::Finished
        }),
{
}

/// A commit that lost a race, while the limit is not reached, replays the
/// mutation from the catalog fetched again and commits against its version.
pub proof fn lemma_lost_commit_replayed(version: u64, attempt: u32, fresh: u64)
    requires
        attempt + 1 < MAX_COMMIT_ATTEMPTS,
    ensures
        ({
            let f = CommitFlow { version, attempt, stage: CommitStage::Committing };
            let (g, a) = commit_step(f, CommitEvent::Committed(MetastoreOutcome::Stale));
            let (h, b) = commit_step(g, CommitEvent::Refreshed(fresh));
            let (k, c) = commit_step(h, CommitEvent::Mutated(MetastoreOutcome::Done));
            &&& a == Some(CommitAction::Refresh)
            &&& b == Some(CommitAction::TryMutate(fresh))
            &&& c == Some(CommitAction::Commit(fresh))
            &&& k.attempt == attempt + 1
        }),
{
}

} // verus!
