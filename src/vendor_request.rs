//! The vendor request workflow, as a state machine. The caller performs each
//! action against the store and hands back what came of it as an event; the
//! machine decides what happens next. Steps run strictly one after another.
use vstd::prelude::*;
use crate::authorize::{authorized, is_managing_user};
use crate::conflict::{active_engagement, has_active};
use crate::model::{opt_view, provided, required, DeconflictError, Engagement, Outcome};

verus! {

/// Where a vendor request stands.
#[derive(Clone, Copy, Debug, PartialEq, Eq)]
pub enum Phase {
    /// Waiting for the vendor's incoming UsesVendor relations.
    CheckingConflict,
    /// No conflict; waiting for the project's managing user.
    CheckingManager,
    /// Authorized; waiting for the new engagement to be written.
    Assigning,
    /// Conflict; waiting for the managing user of the engagement to be notified.
    Notifying,
    Finished(Result<Outcome, DeconflictError>),
}

/// What the caller must do next against the store.
#[derive(Clone, Copy, Debug, PartialEq, Eq)]
pub enum Action {
    /// Read the UsesVendor relations incoming to the vendor.
    FindEngagements,
    /// Read the managing user of the project.
    FindManagingUser,
    /// Write a UsesVendor relation (type "prime", started today, no end) from
    /// the project to the vendor, unless the vendor has an active engagement
    /// by then.
    CreateEngagement,
    /// Look up who manages the vendor's active engagement, report it, and wait
    /// until the report is done.
    NotifyManagingUser,
    /// The request is over, with this result.
    Finish(Result<Outcome, DeconflictError>),
}

/// What came of the last action.
#[derive(Clone, Debug)]
pub enum Event {
    /// The vendor's incoming UsesVendor relations.
    Engagements(Vec<Engagement>),
    /// The project's managing user, if it has one.
    ManagingUser(Option<String>),
    /// The new engagement was written.
    EngagementCreated,
    /// The write found an active engagement of the vendor that appeared after
    /// the conflict check, and wrote nothing.
    VendorTaken,
    /// The managing user of the active engagement was reported.
    Notified,
    /// The notification lookup found no active engagement.
    NoActiveEngagementFound,
    /// The store could not be reached or the statement failed.
    StoreFailed,
}

/// A vendor request in progress.
pub struct VendorRequest {
    pub user: String,
    pub vendor: String,
    pub project: String,
    pub phase: Phase,
}

/// The action that a phase is waiting on.
pub open spec fn pending(p: Phase) -> Action {
    match p {
        Phase::CheckingConflict => Action::FindEngagements,
        Phase::CheckingManager => Action::FindManagingUser,
        Phase::Assigning => Action::CreateEngagement,
        Phase::Notifying => Action::NotifyManagingUser,
        Phase::Finished(r) => Action::Finish(r),
    }
}

pub open spec fn finish(r: Result<Outcome, DeconflictError>) -> (Phase, Action) {
    (Phase::Finished(r), Action::Finish(r))
}

/// One step of the workflow for requester `user`. A store failure ends the
/// request with a connectivity error; an event that does not answer the pending
/// action changes nothing.
pub open spec fn transition(p: Phase, user: Seq<char>, e: Event) -> (Phase, Action) {
    match (p, e) {
        (Phase::Finished(r), _) => finish(r),
        (_, Event::StoreFailed) => finish(Err(DeconflictError::Connectivity)),
        (Phase::CheckingConflict, Event::Engagements(rels)) => {
            if has_active(rels@) {
                (Phase::Notifying, Action::NotifyManagingUser)
            } else {
                (Phase::CheckingManager, Action::FindManagingUser)
            }
        },
        (Phase::CheckingManager, Event::ManagingUser(m)) => {
            if authorized(opt_view(m), user) {
                (Phase::Assigning, Action::CreateEngagement)
            } else {
                finish(Ok(Outcome::Unauthorized))
            }
        },
        (Phase::Assigning, Event::EngagementCreated) => finish(Ok(Outcome::Assigned)),
        (Phase::Assigning, Event::VendorTaken) => (Phase::Notifying, Action::NotifyManagingUser),
        (Phase::Notifying, Event::Notified) => finish(Ok(Outcome::ConflictNotified)),
        (Phase::Notifying, Event::NoActiveEngagementFound) => finish(
            Err(DeconflictError::ConsistencyViolation),
        ),
        _ => (p, pending(p)),
    }
}

/// The actions issued when `events` are fed one by one from phase `p`.
pub open spec fn run(p: Phase, user: Seq<char>, events: Seq<Event>) -> Seq<Action>
    decreases events.len(),
{
    if events.len() == 0 {
        Seq::empty()
    } else {
        let (q, a) = transition(p, user, events[0]);
        seq![a] + run(q, user, events.drop_first())
    }
}

impl VendorRequest {
    /// Opens a request. A missing or empty vendor or project name ends it at
    /// once with `InputInvalid`, before any store access; otherwise the first
    /// action is the conflict check.
    pub fn start(user: String, vendor: Option<String>, project: Option<String>) -> (r: (
        VendorRequest,
        Action,
    ))
        ensures
            r.0.user@ == user@,
            r.1 == pending(r.0.phase),
            provided(opt_view(vendor)) && provided(opt_view(project)) ==> {
                &&& r.0.phase == Phase::CheckingConflict
                &&& r.0.vendor@ == vendor->0@
                &&& r.0.project@ == project->0@
            },
            !(provided(opt_view(vendor)) && provided(opt_view(project))) ==> r.0.phase
                == Phase::Finished(Ok(Outcome::InputInvalid)),
    {
        let v = required(vendor);
        let p = required(project);
        match (v, p) {
            (Some(vendor), Some(project)) => (
                VendorRequest { user, vendor, project, phase: Phase::CheckingConflict },
                Action::FindEngagements,
            ),
            _ => {
                let r = Ok(Outcome::InputInvalid);
                (
                    VendorRequest {
                        user,
                        vendor: String::new(),
                        project: String::new(),
                        phase: Phase::Finished(r),
                    },
                    Action::Finish(r),
                )
            },
        }
    }

    /// Feeds the outcome of the pending action to the workflow and returns the
    /// next action.
    pub fn step(&mut self, e: Event) -> (a: Action)
        ensures
            (final(self).phase, a) == transition(old(self).phase, old(self).user@, e),
            final(self).user == old(self).user,
            final(self).vendor == old(self).vendor,
            final(self).project == old(self).project,
    {
        let (p, a) = match (self.phase, e) {
            (Phase::Finished(r), _) => (Phase::Finished(r), Action::Finish(r)),
            (_, Event::StoreFailed) => {
                let r = Err(DeconflictError::Connectivity);
                (Phase::Finished(r), Action::Finish(r))
            },
            (Phase::CheckingConflict, Event::Engagements(rels)) => {
                if active_engagement(&rels).is_some() {
                    (Phase::Notifying, Action::NotifyManagingUser)
                } else {
                    (Phase::CheckingManager, Action::FindManagingUser)
                }
            },
            (Phase::CheckingManager, Event::ManagingUser(m)) => {
                if is_managing_user(&m, self.user.as_str()) {
                    (Phase::Assigning, Action::CreateEngagement)
                } else {
                    let r = Ok(Outcome::Unauthorized);
                    (Phase::Finished(r), Action::Finish(r))
                }
            },
            (Phase::Assigning, Event::EngagementCreated) => {
                let r = Ok(Outcome::Assigned);
                (Phase::Finished(r), Action::Finish(r))
            },
            (Phase::Assigning, Event::VendorTaken) => (
                Phase::Notifying,
                Action::NotifyManagingUser,
            ),
            (Phase::Notifying, Event::Notified) => {
                let r = Ok(Outcome::ConflictNotified);
                (Phase::Finished(r), Action::Finish(r))
            },
            (Phase::Notifying, Event::NoActiveEngagementFound) => {
                let r = Err(DeconflictError::ConsistencyViolation);
                (Phase::Finished(r), Action::Finish(r))
            },
            (p, _) => (p, self.pending_action()),
        };
        self.phase = p;
        a
    }

    /// The action the request is waiting on.
    pub fn pending_action(&self) -> (a: Action)
        ensures
            a == pending(self.phase),
    {
        match self.phase {
            Phase::CheckingConflict => Action::FindEngagements,
            Phase::CheckingManager => Action::FindManagingUser,
            Phase::Assigning => Action::CreateEngagement,
            Phase::Notifying => Action::NotifyManagingUser,
            Phase::Finished(r) => Action::Finish(r),
        }
    }
}

/// Once a conflict has been seen, no run of the workflow writes an engagement.
proof fn lemma_notifying_never_assigns(p: Phase, user: Seq<char>, events: Seq<Event>)
    requires
        p == Phase::Notifying || p is Finished,
    ensures
        !run(p, user, events).contains(Action::CreateEngagement),
    decreases events.len(),
{
    if events.len() > 0 {
        let (q, a) = transition(p, user, events[0]);
        lemma_notifying_never_assigns(q, user, events.drop_first());
        let rest = run(q, user, events.drop_first());
        assert(run(p, user, events) == seq![a] + rest);
        if run(p, user, events).contains(Action::CreateEngagement) {
            let k = choose|k: int|
                0 <= k < run(p, user, events).len() && run(p, user, events)[k]
                    == Action::CreateEngagement;
            if k > 0 {
                assert(rest[k - 1] == Action::CreateEngagement);
            }
        }
    }
}

/// Mutation suppression: when the vendor already has an active engagement,
/// the request goes to notification, and whatever the store reports afterwards
/// no engagement is ever written; a completed notification ends the request
/// with `ConflictNotified`.
pub proof fn law_conflict_suppresses_assignment(user: Seq<char>, rels: Vec<Engagement>, events: Seq<Event>)
    requires
        has_active(rels@),
    ensures
        !run(Phase::CheckingConflict, user, seq![Event::Engagements(rels)] + events).contains(
            Action::CreateEngagement,
        ),
        run(Phase::CheckingConflict, user, seq![Event::Engagements(rels), Event::Notified])
            == seq![Action::NotifyManagingUser, Action::Finish(Ok(Outcome::ConflictNotified))],
{
    let all = seq![Event::Engagements(rels)] + events;
    assert(all[0] == Event::Engagements(rels));
    assert(all.drop_first() =~= events);
    lemma_notifying_never_assigns(Phase::Notifying, user, events);
    let r = run(Phase::CheckingConflict, user, all);
    assert(r == seq![Action::NotifyManagingUser] + run(Phase::Notifying, user, events));
    if r.contains(Action::CreateEngagement) {
        let k = choose|k: int| 0 <= k < r.len() && r[k] == Action::CreateEngagement;
        assert(run(Phase::Notifying, user, events)[k - 1] == Action::CreateEngagement);
    }
    let two = seq![Event::Engagements(rels), Event::Notified];
    assert(two.drop_first() =~= seq![Event::Notified]);
    assert(seq![Event::Notified].drop_first() =~= Seq::<Event>::empty());
    let done = Phase::Finished(Ok(Outcome::ConflictNotified));
    assert(run(done, user, Seq::empty()) == Seq::<Action>::empty());
    assert(run(Phase::Notifying, user, seq![Event::Notified]) =~= seq![
        Action::Finish(Ok(Outcome::ConflictNotified)),
    ]);
    assert(run(Phase::CheckingConflict, user, two) =~= seq![
        Action::NotifyManagingUser,
        Action::Finish(Ok(Outcome::ConflictNotified)),
    ]);
}

/// Reachability: when the vendor has no active engagement and the requester
/// is the project's managing user, the request writes the engagement and, once
/// the write succeeds, ends with `Assigned`.
pub proof fn law_free_vendor_is_assignable(
    user: Seq<char>,
    rels: Vec<Engagement>,
    manager: Option<String>,
)
    requires
        !has_active(rels@),
        authorized(opt_view(manager), user),
    ensures
        run(
            Phase::CheckingConflict,
            user,
            seq![Event::Engagements(rels), Event::ManagingUser(manager), Event::EngagementCreated],
        ) == seq![
            Action::FindManagingUser,
            Action::CreateEngagement,
            Action::Finish(Ok(Outcome::Assigned)),
        ],
{
    let e3 = seq![Event::Engagements(rels), Event::ManagingUser(manager), Event::EngagementCreated];
    let e2 = seq![Event::ManagingUser(manager), Event::EngagementCreated];
    let e1 = seq![Event::EngagementCreated];
    assert(e3.drop_first() =~= e2);
    assert(e2.drop_first() =~= e1);
    assert(e1.drop_first() =~= Seq::<Event>::empty());
    assert(e3[0] == Event::Engagements(rels));
    assert(e2[0] == Event::ManagingUser(manager));
    let done = Phase::Finished(Ok(Outcome::Assigned));
    assert(run(done, user, Seq::empty()) == Seq::<Action>::empty());
    assert(run(Phase::Assigning, user, e1) =~= seq![Action::Finish(Ok(Outcome::Assigned))]);
    assert(run(Phase::CheckingManager, user, e2) =~= seq![
        Action::CreateEngagement,
        Action::Finish(Ok(Outcome::Assigned)),
    ]);
    assert(run(Phase::CheckingConflict, user, e3) =~= seq![
        Action::FindManagingUser,
        Action::CreateEngagement,
        Action::Finish(Ok(Outcome::Assigned)),
    ]);
}

/// Closed engagements are no conflict: when every relation into the vendor has
/// an end, the request goes on to the authorization check, exactly as for a
/// vendor with no relations at all.
pub proof fn law_closed_engagements_do_not_conflict(
    user: Seq<char>,
    rels: Vec<Engagement>,
    none: Vec<Engagement>,
)
    requires
        forall|i: int| 0 <= i < rels@.len() ==> (#[trigger] rels@[i]).end is Some,
        none@.len() == 0,
    ensures
        transition(Phase::CheckingConflict, user, Event::Engagements(rels)) == (
            Phase::CheckingManager,
            Action::FindManagingUser,
        ),
        transition(Phase::CheckingConflict, user, Event::Engagements(rels)) == transition(
            Phase::CheckingConflict,
            user,
            Event::Engagements(none),
        ),
{
    assert(!has_active(rels@));
    assert(!has_active(none@));
}

/// A finished request stays finished: whatever is fed to it afterwards, it
/// only repeats its result and asks nothing more of the store. In particular a
/// request rejected for missing input never reaches the store.
pub proof fn law_finished_request_is_final(
    r: Result<Outcome, DeconflictError>,
    user: Seq<char>,
    events: Seq<Event>,
)
    ensures
        forall|k: int|
            0 <= k < run(Phase::Finished(r), user, events).len() ==> #[trigger] run(
                Phase::Finished(r),
                user,
                events,
            )[k] == Action::Finish(r),
    decreases events.len(),
{
    if events.len() > 0 {
        law_finished_request_is_final(r, user, events.drop_first());
        let t = run(Phase::Finished(r), user, events);
        let rest = run(Phase::Finished(r), user, events.drop_first());
        assert(t == seq![Action::Finish(r)] + rest);
        assert forall|k: int| 0 <= k < t.len() implies #[trigger] t[k] == Action::Finish(r) by {
            if k > 0 {
                assert(t[k] == rest[k - 1]);
            }
        }
    }
}

/// A requester who is not the project's managing user (or a project without
/// one) ends the request with `Unauthorized`, and no engagement is written
/// whatever the store reports afterwards.
pub proof fn law_unauthorized_never_writes(
    user: Seq<char>,
    manager: Option<String>,
    events: Seq<Event>,
)
    requires
        !authorized(opt_view(manager), user),
    ensures
        run(Phase::CheckingManager, user, seq![Event::ManagingUser(manager)] + events)[0]
            == Action::Finish(Ok(Outcome::Unauthorized)),
        !run(Phase::CheckingManager, user, seq![Event::ManagingUser(manager)] + events).contains(
            Action::CreateEngagement,
        ),
{
    let all = seq![Event::ManagingUser(manager)] + events;
    assert(all[0] == Event::ManagingUser(manager));
    assert(all.drop_first() =~= events);
    let done = Phase::Finished(Ok(Outcome::Unauthorized));
    lemma_notifying_never_assigns(done, user, events);
    let t = run(Phase::CheckingManager, user, all);
    let rest = run(done, user, events);
    assert(t == seq![Action::Finish(Ok(Outcome::Unauthorized))] + rest);
    if t.contains(Action::CreateEngagement) {
        let k = choose|k: int| 0 <= k < t.len() && t[k] == Action::CreateEngagement;
        assert(rest[k - 1] == Action::CreateEngagement);
    }
}

} // verus!
