//! Project creation, as a state machine around one transaction. The creation
//! statement matches the managing user, creates the Project node and its
//! Manages edge, and returns the node: both are written, or the transaction is
//! rolled back and neither is.
use vstd::prelude::*;
use crate::model::{opt_view, provided, required, DeconflictError, Project};

verus! {

/// Relies on `uuid::Uuid::new_v4` and its `Display`: a fresh random identifier
/// in hyphenated form, 36 characters. Nothing else holds of every outcome.
#[verifier::external_body]
fn new_project_id() -> (r: String)
    ensures
        r@.len() == 36,
{
    uuid::Uuid::new_v4().to_string()
}

/// Where a project creation stands.
#[derive(Clone, Copy, Debug, PartialEq, Eq)]
pub enum CreationPhase {
    /// The transaction is open; waiting for the row of the creation statement.
    AwaitingRow,
    /// Waiting for the commit.
    Committing,
    /// Waiting for the rollback; the error is reported once it is done.
    RollingBack(DeconflictError),
    Finished(Result<(), DeconflictError>),
}

/// What the caller must do next against the store.
#[derive(Clone, Copy, Debug, PartialEq, Eq)]
pub enum TxnAction {
    /// Open a transaction and run the creation statement in it with the
    /// project's id and name and the managing user's name.
    RunCreate,
    Commit,
    Rollback,
    /// The creation is over, with this result.
    Finish(Result<(), DeconflictError>),
}

/// What came of the last action.
#[derive(Clone, Debug)]
pub enum TxnEvent {
    /// The creation statement returned this project id, or no row at all (no
    /// user of that name).
    Row(Option<String>),
    Committed,
    RolledBack,
    /// The store could not be reached or the statement failed.
    StoreFailed,
}

/// A project creation in progress.
pub struct ProjectCreation {
    pub user: String,
    pub project: Project,
    pub phase: CreationPhase,
}

pub open spec fn txn_pending(p: CreationPhase) -> TxnAction {
    match p {
        CreationPhase::AwaitingRow => TxnAction::RunCreate,
        CreationPhase::Committing => TxnAction::Commit,
        CreationPhase::RollingBack(_) => TxnAction::Rollback,
        CreationPhase::Finished(r) => TxnAction::Finish(r),
    }
}

pub open spec fn txn_finish(r: Result<(), DeconflictError>) -> (CreationPhase, TxnAction) {
    (CreationPhase::Finished(r), TxnAction::Finish(r))
}

pub open spec fn roll_back(e: DeconflictError) -> (CreationPhase, TxnAction) {
    (CreationPhase::RollingBack(e), TxnAction::Rollback)
}

/// One step of a creation whose generated id is `id`. The transaction is
/// committed only when the statement returned the project under that id;
/// otherwise it is rolled back, and then the error is reported.
pub open spec fn txn_transition(p: CreationPhase, id: Seq<char>, e: TxnEvent) -> (
    CreationPhase,
    TxnAction,
) {
    match (p, e) {
        (CreationPhase::Finished(r), _) => txn_finish(r),
        (CreationPhase::AwaitingRow, TxnEvent::Row(Some(rid))) => {
            if rid@ == id {
                (CreationPhase::Committing, TxnAction::Commit)
            } else {
                roll_back(DeconflictError::ConsistencyViolation)
            }
        },
        (CreationPhase::AwaitingRow, TxnEvent::Row(None)) => roll_back(
            DeconflictError::TransactionAborted,
        ),
        (CreationPhase::AwaitingRow, TxnEvent::StoreFailed) => roll_back(
            DeconflictError::Connectivity,
        ),
        (CreationPhase::Committing, TxnEvent::Committed) => txn_finish(Ok(())),
        (CreationPhase::Committing, TxnEvent::StoreFailed) => txn_finish(
            Err(DeconflictError::TransactionAborted),
        ),
        (CreationPhase::RollingBack(err), TxnEvent::RolledBack) => txn_finish(Err(err)),
        (CreationPhase::RollingBack(err), TxnEvent::StoreFailed) => txn_finish(Err(err)),
        _ => (p, txn_pending(p)),
    }
}

/// The actions issued when `events` are fed one by one from phase `p`.
pub open spec fn txn_run(p: CreationPhase, id: Seq<char>, events: Seq<TxnEvent>) -> Seq<TxnAction>
    decreases events.len(),
{
    if events.len() == 0 {
        Seq::empty()
    } else {
        let (q, a) = txn_transition(p, id, events[0]);
        seq![a] + txn_run(q, id, events.drop_first())
    }
}

impl ProjectCreation {
    /// Opens a creation with the identifier `id`. A missing or empty project
    /// name ends it at once with `InputInvalid`, before any store access.
    pub fn begin(user: String, name: Option<String>, id: String) -> (r: (ProjectCreation, TxnAction))
        ensures
            r.0.user@ == user@,
            r.1 == txn_pending(r.0.phase),
            provided(opt_view(name)) ==> {
                &&& r.0.phase == CreationPhase::AwaitingRow
                &&& r.0.project.id@ == id@
                &&& r.0.project.name@ == name->0@
            },
            !provided(opt_view(name)) ==> r.0.phase == CreationPhase::Finished(
                Err(DeconflictError::InputInvalid),
            ),
    {
        match required(name) {
            Some(name) => (
                ProjectCreation {
                    user,
                    project: Project { id, name },
                    phase: CreationPhase::AwaitingRow,
                },
                TxnAction::RunCreate,
            ),
            None => {
                let r = Err(DeconflictError::InputInvalid);
                (
                    ProjectCreation {
                        user,
                        project: Project { id, name: String::new() },
                        phase: CreationPhase::Finished(r),
                    },
                    TxnAction::Finish(r),
                )
            },
        }
    }

    /// Opens a creation under a freshly generated identifier; as `begin`
    /// otherwise. No identifier is generated for a missing name.
    pub fn start(user: String, name: Option<String>) -> (r: (ProjectCreation, TxnAction))
        ensures
            r.0.user@ == user@,
            r.1 == txn_pending(r.0.phase),
            provided(opt_view(name)) ==> {
                &&& r.0.phase == CreationPhase::AwaitingRow
                &&& r.0.project.id@.len() == 36
                &&& r.0.project.name@ == name->0@
            },
            !provided(opt_view(name)) ==> r.0.phase == CreationPhase::Finished(
                Err(DeconflictError::InputInvalid),
            ),
    {
        let id = match &name {
            Some(n) => {
                if n.as_str().is_empty() {
                    String::new()
                } else {
                    new_project_id()
                }
            },
            None => String::new(),
        };
        ProjectCreation::begin(user, name, id)
    }

    /// Feeds the outcome of the pending action to the creation and returns the
    /// next action.
    pub fn step(&mut self, e: TxnEvent) -> (a: TxnAction)
        ensures
            (final(self).phase, a) == txn_transition(old(self).phase, old(self).project.id@, e),
            final(self).user == old(self).user,
            final(self).project == old(self).project,
    {
        let (p, a) = match (self.phase, e) {
            (CreationPhase::Finished(r), _) => (CreationPhase::Finished(r), TxnAction::Finish(r)),
            (CreationPhase::AwaitingRow, TxnEvent::Row(Some(rid))) => {
                if rid == self.project.id {
                    (CreationPhase::Committing, TxnAction::Commit)
                } else {
                    (
                        CreationPhase::RollingBack(DeconflictError::ConsistencyViolation),
                        TxnAction::Rollback,
                    )
                }
            },
            (CreationPhase::AwaitingRow, TxnEvent::Row(None)) => (
                CreationPhase::RollingBack(DeconflictError::TransactionAborted),
                TxnAction::Rollback,
            ),
            (CreationPhase::AwaitingRow, TxnEvent::StoreFailed) => (
                CreationPhase::RollingBack(DeconflictError::Connectivity),
                TxnAction::Rollback,
            ),
            (CreationPhase::Committing, TxnEvent::Committed) => {
                let r = Ok(());
                (CreationPhase::Finished(r), TxnAction::Finish(r))
            },
            (CreationPhase::Committing, TxnEvent::StoreFailed) => {
                let r = Err(DeconflictError::TransactionAborted);
                (CreationPhase::Finished(r), TxnAction::Finish(r))
            },
            (CreationPhase::RollingBack(err), TxnEvent::RolledBack) => {
                let r = Err(err);
                (CreationPhase::Finished(r), TxnAction::Finish(r))
            },
            (CreationPhase::RollingBack(err), TxnEvent::StoreFailed) => {
                let r = Err(err);
                (CreationPhase::Finished(r), TxnAction::Finish(r))
            },
            (p, _) => (p, self.pending_action()),
        };
        self.phase = p;
        a
    }

    /// The action the creation is waiting on.
    pub fn pending_action(&self) -> (a: TxnAction)
        ensures
            a == txn_pending(self.phase),
    {
        match self.phase {
            CreationPhase::AwaitingRow => TxnAction::RunCreate,
            CreationPhase::Committing => TxnAction::Commit,
            CreationPhase::RollingBack(_) => TxnAction::Rollback,
            CreationPhase::Finished(r) => TxnAction::Finish(r),
        }
    }

    /// The created project, or the error that ended the creation; `None`
    /// while it is still in progress.
    pub fn result(self) -> (r: Option<Result<Project, DeconflictError>>)
        ensures
            match self.phase {
                CreationPhase::Finished(Ok(())) => r matches Some(Ok(p)) && p == self.project,
                CreationPhase::Finished(Err(e)) => r == Some(Err::<Project, DeconflictError>(e)),
                _ => r is None,
            },
    {
        match self.phase {
            CreationPhase::Finished(Ok(())) => Some(Ok(self.project)),
            CreationPhase::Finished(Err(e)) => Some(Err(e)),
            _ => None,
        }
    }
}

proof fn lemma_committed_never_rolls_back(p: CreationPhase, id: Seq<char>, events: Seq<TxnEvent>)
    requires
        p == CreationPhase::Committing || p is Finished,
    ensures
        !txn_run(p, id, events).contains(TxnAction::Rollback),
    decreases events.len(),
{
    if events.len() > 0 {
        let (q, a) = txn_transition(p, id, events[0]);
        lemma_committed_never_rolls_back(q, id, events.drop_first());
        let rest = txn_run(q, id, events.drop_first());
        let t = txn_run(p, id, events);
        assert(t == seq![a] + rest);
        assert forall|k: int| 0 <= k < t.len() implies t[k] != TxnAction::Rollback by {
            if k > 0 {
                assert(t[k] == rest[k - 1]);
            }
        }
    }
}

proof fn lemma_rolled_back_never_commits(p: CreationPhase, id: Seq<char>, events: Seq<TxnEvent>)
    requires
        p is RollingBack || p matches CreationPhase::Finished(Err(_)),
    ensures
        !txn_run(p, id, events).contains(TxnAction::Commit),
        !txn_run(p, id, events).contains(TxnAction::Finish(Ok(()))),
    decreases events.len(),
{
    if events.len() > 0 {
        let (q, a) = txn_transition(p, id, events[0]);
        lemma_rolled_back_never_commits(q, id, events.drop_first());
        let rest = txn_run(q, id, events.drop_first());
        let t = txn_run(p, id, events);
        assert(t == seq![a] + rest);
        assert forall|k: int| 0 <= k < t.len() implies t[k] != TxnAction::Commit && t[k]
            != TxnAction::Finish(Ok(())) by {
            if k > 0 {
                assert(t[k] == rest[k - 1]);
            }
        }
    }
}

/// Atomicity: whatever the store reports, a creation never both commits and
/// rolls back its transaction, and it reports success only where it committed
/// the one statement that writes the Project node together with its Manages
/// edge. A statement that fails inside the transaction is answered with a
/// rollback, and its error is reported once the rollback is done.
pub proof fn law_creation_is_atomic(id: Seq<char>, events: Seq<TxnEvent>)
    ensures
        !(txn_run(CreationPhase::AwaitingRow, id, events).contains(TxnAction::Commit) && txn_run(
            CreationPhase::AwaitingRow,
            id,
            events,
        ).contains(TxnAction::Rollback)),
        txn_run(CreationPhase::AwaitingRow, id, events).contains(TxnAction::Finish(Ok(())))
            ==> txn_run(CreationPhase::AwaitingRow, id, events).contains(TxnAction::Commit),
        txn_run(
            CreationPhase::AwaitingRow,
            id,
            seq![TxnEvent::StoreFailed, TxnEvent::RolledBack],
        ) == seq![TxnAction::Rollback, TxnAction::Finish(Err(DeconflictError::Connectivity))],
    decreases events.len(),
{
    let two = seq![TxnEvent::StoreFailed, TxnEvent::RolledBack];
    let one = seq![TxnEvent::RolledBack];
    assert(two.drop_first() =~= one);
    assert(one.drop_first() =~= Seq::<TxnEvent>::empty());
    let failed = CreationPhase::Finished(Err(DeconflictError::Connectivity));
    assert(txn_run(failed, id, Seq::empty()) == Seq::<TxnAction>::empty());
    let back = CreationPhase::RollingBack(DeconflictError::Connectivity);
    assert(txn_run(back, id, one) =~= seq![
        TxnAction::Finish(Err(DeconflictError::Connectivity)),
    ]);
    assert(txn_run(CreationPhase::AwaitingRow, id, two) =~= seq![
        TxnAction::Rollback,
        TxnAction::Finish(Err(DeconflictError::Connectivity)),
    ]);
    if events.len() > 0 {
        let p = CreationPhase::AwaitingRow;
        let (q, a) = txn_transition(p, id, events[0]);
        let rest = txn_run(q, id, events.drop_first());
        let t = txn_run(p, id, events);
        assert(t == seq![a] + rest);
        assert forall|k: int| 0 < k < t.len() implies t[k] == rest[k - 1] by {}
        if q == CreationPhase::AwaitingRow {
            law_creation_is_atomic(id, events.drop_first());
            if t.contains(TxnAction::Commit) {
                let k = choose|k: int| 0 <= k < t.len() && t[k] == TxnAction::Commit;
                assert(rest.contains(TxnAction::Commit));
            }
            if t.contains(TxnAction::Rollback) {
                let k = choose|k: int| 0 <= k < t.len() && t[k] == TxnAction::Rollback;
                assert(rest.contains(TxnAction::Rollback));
            }
            if t.contains(TxnAction::Finish(Ok(()))) {
                let k = choose|k: int| 0 <= k < t.len() && t[k] == TxnAction::Finish(Ok(()));
                assert(rest.contains(TxnAction::Finish(Ok(()))));
                let j = choose|j: int| 0 <= j < rest.len() && rest[j] == TxnAction::Commit;
                assert(t[j + 1] == TxnAction::Commit);
            }
            if rest.contains(TxnAction::Commit) {
                let j = choose|j: int| 0 <= j < rest.len() && rest[j] == TxnAction::Commit;
                assert(t[j + 1] == TxnAction::Commit);
            }
            if rest.contains(TxnAction::Rollback) {
                let j = choose|j: int| 0 <= j < rest.len() && rest[j] == TxnAction::Rollback;
                assert(t[j + 1] == TxnAction::Rollback);
            }
        } else if q == CreationPhase::Committing {
            lemma_committed_never_rolls_back(q, id, events.drop_first());
            assert(t[0] == TxnAction::Commit);
            if t.contains(TxnAction::Rollback) {
                let k = choose|k: int| 0 <= k < t.len() && t[k] == TxnAction::Rollback;
                assert(rest[k - 1] == TxnAction::Rollback);
            }
        } else {
            lemma_rolled_back_never_commits(q, id, events.drop_first());
            if t.contains(TxnAction::Commit) {
                let k = choose|k: int| 0 <= k < t.len() && t[k] == TxnAction::Commit;
                assert(rest[k - 1] == TxnAction::Commit);
            }
            if t.contains(TxnAction::Finish(Ok(()))) {
                let k = choose|k: int| 0 <= k < t.len() && t[k] == TxnAction::Finish(Ok(()));
                assert(rest[k - 1] == TxnAction::Finish(Ok(())));
            }
        }
    }
}

/// A finished creation stays finished: whatever is fed to it afterwards, it
/// only repeats its result and asks nothing more of the store. In particular a
/// creation rejected for a missing name never opens a transaction.
pub proof fn law_finished_creation_is_final(
    r: Result<(), DeconflictError>,
    id: Seq<char>,
    events: Seq<TxnEvent>,
)
    ensures
        forall|k: int|
            0 <= k < txn_run(CreationPhase::Finished(r), id, events).len() ==> #[trigger] txn_run(
                CreationPhase::Finished(r),
                id,
                events,
            )[k] == TxnAction::Finish(r),
    decreases events.len(),
{
    if events.len() > 0 {
        law_finished_creation_is_final(r, id, events.drop_first());
        let t = txn_run(CreationPhase::Finished(r), id, events);
        let rest = txn_run(CreationPhase::Finished(r), id, events.drop_first());
        assert(t == seq![TxnAction::Finish(r)] + rest);
        assert forall|k: int| 0 <= k < t.len() implies #[trigger] t[k] == TxnAction::Finish(r) by {
            if k > 0 {
                assert(t[k] == rest[k - 1]);
            }
        }
    }
}

} // verus!
