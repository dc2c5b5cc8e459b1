use deconflict::authorize::{is_managing_user, same_user_name};
use deconflict::conflict::active_engagement;
use deconflict::notify::Notice;
use deconflict::model::{DeconflictError, Engagement, Outcome};
use deconflict::project::{CreationPhase, ProjectCreation, TxnAction, TxnEvent};
use deconflict::vendor_request::{Action, Event, Phase, VendorRequest};

fn prime(start: i64, end: Option<i64>) -> Engagement {
    Engagement { kind: "prime".to_string(), start, end }
}

fn request(user: &str, vendor: &str, project: &str) -> (VendorRequest, Action) {
    VendorRequest::start(
        user.to_string(),
        Some(vendor.to_string()),
        Some(project.to_string()),
    )
}

/// Runs a request against a vendor with the given relations and a project with
/// the given manager, with every write succeeding.
fn run_request(user: &str, rels: Vec<Engagement>, manager: Option<&str>) -> (Vec<Action>, Action) {
    let (mut req, mut action) = request(user, "Acme", "Alpha");
    let mut issued = vec![];
    let mut rels = Some(rels);
    loop {
        let event = match action {
            Action::FindEngagements => Event::Engagements(rels.take().unwrap()),
            Action::FindManagingUser => Event::ManagingUser(manager.map(|m| m.to_string())),
            Action::CreateEngagement => Event::EngagementCreated,
            Action::NotifyManagingUser => Event::Notified,
            Action::Finish(_) => return (issued, action),
        };
        issued.push(action);
        action = req.step(event);
    }
}

#[test]
fn free_vendor_is_assigned_to_managing_user() {
    let (issued, end) = run_request("alice", vec![], Some("alice"));
    assert_eq!(
        issued,
        vec![Action::FindEngagements, Action::FindManagingUser, Action::CreateEngagement]
    );
    assert_eq!(end, Action::Finish(Ok(Outcome::Assigned)));
}

#[test]
fn active_engagement_is_notified_and_not_written() {
    let (issued, end) = run_request("alice", vec![prime(100, None)], Some("alice"));
    assert_eq!(issued, vec![Action::FindEngagements, Action::NotifyManagingUser]);
    assert!(!issued.contains(&Action::CreateEngagement));
    assert_eq!(end, Action::Finish(Ok(Outcome::ConflictNotified)));
}

#[test]
fn authorization_ignores_ascii_case_only() {
    let (_, end) = run_request("Alice", vec![], Some("alice"));
    assert_eq!(end, Action::Finish(Ok(Outcome::Assigned)));
    let (issued, end) = run_request("Bob", vec![], Some("alice"));
    assert_eq!(end, Action::Finish(Ok(Outcome::Unauthorized)));
    assert!(!issued.contains(&Action::CreateEngagement));
}

#[test]
fn project_without_manager_is_unauthorized() {
    let (issued, end) = run_request("alice", vec![], None);
    assert_eq!(end, Action::Finish(Ok(Outcome::Unauthorized)));
    assert!(!issued.contains(&Action::CreateEngagement));
}

#[test]
fn closed_engagement_is_no_conflict() {
    let (issued, end) = run_request("alice", vec![prime(10, Some(20))], Some("alice"));
    assert!(issued.contains(&Action::CreateEngagement));
    assert!(!issued.contains(&Action::NotifyManagingUser));
    assert_eq!(end, Action::Finish(Ok(Outcome::Assigned)));
}

#[test]
fn scenario_assign_then_conflict() {
    // Alpha, managed by alice, takes Acme, which has no engagements.
    let mut acme: Vec<Engagement> = vec![];
    let (issued, end) = run_request("alice", acme.clone(), Some("alice"));
    assert_eq!(end, Action::Finish(Ok(Outcome::Assigned)));
    assert_eq!(active_engagement(&acme), None);
    assert!(issued.contains(&Action::CreateEngagement));
    acme.push(prime(200, None));
    assert_eq!(active_engagement(&acme), Some(0));

    // BetaProject, managed by bob, then asks for Acme.
    let (mut req, first) = request("bob", "Acme", "BetaProject");
    assert_eq!(first, Action::FindEngagements);
    assert_eq!(req.step(Event::Engagements(acme.clone())), Action::NotifyManagingUser);
    assert_eq!(req.step(Event::Notified), Action::Finish(Ok(Outcome::ConflictNotified)));
    assert_eq!(req.project, "BetaProject");
    assert_eq!(active_engagement(&acme), Some(0));
    assert_eq!(acme.len(), 1);
}

#[test]
fn missing_vendor_or_project_is_input_invalid() {
    let invalid = Action::Finish(Ok(Outcome::InputInvalid));
    let (_, a) = VendorRequest::start("alice".to_string(), None, Some("Alpha".to_string()));
    assert_eq!(a, invalid);
    let (_, a) = VendorRequest::start("alice".to_string(), Some("Acme".to_string()), None);
    assert_eq!(a, invalid);
    let (mut req, a) = request("alice", "", "Alpha");
    assert_eq!(a, invalid);
    assert_eq!(req.step(Event::EngagementCreated), invalid);
}

#[test]
fn store_failure_is_a_connectivity_error() {
    let (mut req, _) = request("alice", "Acme", "Alpha");
    let failed = Action::Finish(Err(DeconflictError::Connectivity));
    assert_eq!(req.step(Event::StoreFailed), failed);
    assert_eq!(req.phase, Phase::Finished(Err(DeconflictError::Connectivity)));

    let (mut req, _) = request("alice", "Acme", "Alpha");
    req.step(Event::Engagements(vec![]));
    req.step(Event::ManagingUser(Some("alice".to_string())));
    assert_eq!(req.step(Event::StoreFailed), failed);
}

#[test]
fn missing_notification_target_is_a_consistency_violation() {
    let (mut req, _) = request("alice", "Acme", "Alpha");
    req.step(Event::Engagements(vec![prime(1, Some(2)), prime(3, None)]));
    assert_eq!(
        req.step(Event::NoActiveEngagementFound),
        Action::Finish(Err(DeconflictError::ConsistencyViolation))
    );
}

#[test]
fn unexpected_event_repeats_pending_action() {
    let (mut req, _) = request("alice", "Acme", "Alpha");
    assert_eq!(req.step(Event::Notified), Action::FindEngagements);
    assert_eq!(req.phase, Phase::CheckingConflict);
}

#[test]
fn first_active_engagement_is_found() {
    let rels = vec![prime(1, Some(5)), prime(2, Some(6)), prime(7, None), prime(8, None)];
    assert_eq!(active_engagement(&rels), Some(2));
    assert_eq!(active_engagement(&vec![prime(1, Some(5))]), None);
    assert_eq!(active_engagement(&vec![]), None);
}

#[test]
fn names_compare_ignoring_ascii_case() {
    assert!(same_user_name("Alice", "aLICE"));
    assert!(same_user_name("", ""));
    assert!(!same_user_name("Alice", "Alicia"));
    assert!(!same_user_name("Alice", "Alic"));
    assert!(!same_user_name("Émile", "émile"));
    assert!(is_managing_user(&Some("carol".to_string()), "CAROL"));
    assert!(!is_managing_user(&None, "carol"));
}

#[test]
fn project_is_committed_when_row_returns_its_id() {
    let (mut c, a) = ProjectCreation::start("alice".to_string(), Some("Alpha".to_string()));
    assert_eq!(a, TxnAction::RunCreate);
    assert_eq!(c.project.id.len(), 36);
    assert_eq!(c.project.name, "Alpha");
    let id = c.project.id.clone();
    assert_eq!(c.step(TxnEvent::Row(Some(id.clone()))), TxnAction::Commit);
    assert_eq!(c.step(TxnEvent::Committed), TxnAction::Finish(Ok(())));
    let p = c.result().unwrap().unwrap();
    assert_eq!(p.id, id);
    assert_eq!(p.name, "Alpha");
}

#[test]
fn generated_ids_differ() {
    let (a, _) = ProjectCreation::start("alice".to_string(), Some("Alpha".to_string()));
    let (b, _) = ProjectCreation::start("alice".to_string(), Some("Alpha".to_string()));
    assert_ne!(a.project.id, b.project.id);
}

#[test]
fn empty_project_name_is_input_invalid() {
    let (c, a) = ProjectCreation::start("carol".to_string(), Some(String::new()));
    assert_eq!(a, TxnAction::Finish(Err(DeconflictError::InputInvalid)));
    assert_eq!(c.result(), Some(Err(DeconflictError::InputInvalid)));
    let (_, a) = ProjectCreation::start("carol".to_string(), None);
    assert_eq!(a, TxnAction::Finish(Err(DeconflictError::InputInvalid)));
}

#[test]
fn failed_statement_is_rolled_back() {
    let (mut c, _) = ProjectCreation::begin("alice".to_string(), Some("Alpha".to_string()), "id-1".to_string());
    assert_eq!(c.step(TxnEvent::StoreFailed), TxnAction::Rollback);
    assert_eq!(c.step(TxnEvent::RolledBack), TxnAction::Finish(Err(DeconflictError::Connectivity)));
}

#[test]
fn missing_user_row_is_rolled_back() {
    let (mut c, _) = ProjectCreation::begin("nobody".to_string(), Some("Alpha".to_string()), "id-1".to_string());
    assert_eq!(c.step(TxnEvent::Row(None)), TxnAction::Rollback);
    assert_eq!(c.phase, CreationPhase::RollingBack(DeconflictError::TransactionAborted));
    assert_eq!(
        c.step(TxnEvent::RolledBack),
        TxnAction::Finish(Err(DeconflictError::TransactionAborted))
    );
    assert_eq!(c.result(), Some(Err(DeconflictError::TransactionAborted)));
}

#[test]
fn mismatched_id_is_rolled_back() {
    let (mut c, _) = ProjectCreation::begin("alice".to_string(), Some("Alpha".to_string()), "id-1".to_string());
    assert_eq!(c.step(TxnEvent::Row(Some("id-2".to_string()))), TxnAction::Rollback);
    assert_eq!(
        c.step(TxnEvent::StoreFailed),
        TxnAction::Finish(Err(DeconflictError::ConsistencyViolation))
    );
}

#[test]
fn failed_commit_is_aborted() {
    let (mut c, _) = ProjectCreation::begin("alice".to_string(), Some("Alpha".to_string()), "id-1".to_string());
    c.step(TxnEvent::Row(Some("id-1".to_string())));
    assert_eq!(c.step(TxnEvent::StoreFailed), TxnAction::Finish(Err(DeconflictError::TransactionAborted)));
    assert!(c.result().unwrap().is_err());
}

#[test]
fn creation_in_progress_has_no_result() {
    let (c, _) = ProjectCreation::begin("alice".to_string(), Some("Alpha".to_string()), "id-1".to_string());
    assert!(c.result().is_none());
}

#[test]
fn vendor_taken_during_write_goes_to_notification() {
    let (mut req, _) = request("alice", "Acme", "Alpha");
    req.step(Event::Engagements(vec![]));
    assert_eq!(req.step(Event::ManagingUser(Some("alice".to_string()))), Action::CreateEngagement);
    assert_eq!(req.step(Event::VendorTaken), Action::NotifyManagingUser);
    assert_eq!(req.step(Event::Notified), Action::Finish(Ok(Outcome::ConflictNotified)));
}

#[test]
fn notice_needs_every_name() {
    let n = Notice::from_names(
        Some("Alpha".to_string()),
        Some("alice".to_string()),
        Some("Acme".to_string()),
    )
    .unwrap();
    assert_eq!(n.project, "Alpha");
    assert_eq!(n.user, "alice");
    assert_eq!(n.vendor, "Acme");
    assert!(Notice::from_names(Some("Alpha".to_string()), None, Some("Acme".to_string())).is_none());
}
