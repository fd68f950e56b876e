use astro_organizer::classify::ClassifiedFolder;
use astro_organizer::error::EngineError;
use astro_organizer::reorganize::{
    dest_root, join_path, make_plan, CreateDirOutcome, ReorganizeTransaction, TxAction, TxEvent,
};
use astro_organizer::role::RoleLabel;

fn folder(path: &str, role: RoleLabel) -> ClassifiedFolder {
    ClassifiedFolder { path: path.to_string(), role }
}

/// What a scripted run of the transaction did: every action the machine
/// asked for, grouped by kind, in order.
struct RunLog {
    made_dirs: Vec<String>,
    role_dirs: Vec<String>,
    listed: Vec<String>,
    copies: Vec<(String, String)>,
    removed: Vec<String>,
    outcome: Result<(), EngineError>,
}

/// Drive the transaction with scripted answers: `proceed` to the first
/// confirmation, `use_existing` when the destination already exists,
/// `delete` to the deletion confirmation; listings come from the given
/// table and every copy and removal succeeds.
fn drive(
    tx: &mut ReorganizeTransaction,
    listings: &[(&str, &[&str])],
    proceed: bool,
    dest_exists: bool,
    use_existing: bool,
    delete: bool,
) -> RunLog {
    let mut log = RunLog {
        made_dirs: Vec::new(),
        role_dirs: Vec::new(),
        listed: Vec::new(),
        copies: Vec::new(),
        removed: Vec::new(),
        outcome: Ok(()),
    };
    loop {
        match tx.next_action() {
            TxAction::AskProceed => tx.step(TxEvent::Answered(proceed)),
            TxAction::MakeDest { path } => {
                if dest_exists {
                    tx.step(TxEvent::DestCreated(CreateDirOutcome::AlreadyExists));
                } else {
                    log.made_dirs.push(path);
                    tx.step(TxEvent::DestCreated(CreateDirOutcome::Created));
                }
            }
            TxAction::AskUseExisting { .. } => tx.step(TxEvent::Answered(use_existing)),
            TxAction::EnsureRoleDir { path } => {
                log.role_dirs.push(path);
                tx.step(TxEvent::RoleDirReady(true));
            }
            TxAction::ListSource { path } => {
                log.listed.push(path.clone());
                let entries: Vec<String> = listings
                    .iter()
                    .find(|(p, _)| *p == path)
                    .map(|(_, es)| es.iter().map(|e| e.to_string()).collect())
                    .unwrap();
                tx.step(TxEvent::Listed(Some(entries)));
            }
            TxAction::CopyEntry { from, to } => {
                log.copies.push((from, to));
                tx.step(TxEvent::Copied(true));
            }
            TxAction::AskDelete => tx.step(TxEvent::Answered(delete)),
            TxAction::RemoveSource { path } => {
                log.removed.push(path);
                tx.step(TxEvent::Removed(true));
            }
            TxAction::Finish => {
                log.outcome = Ok(());
                return log;
            }
            TxAction::Fail { error } => {
                log.outcome = Err(error);
                return log;
            }
        }
    }
}

#[test]
fn dest_root_joins_base_object_and_capture() {
    assert_eq!(dest_root("/photos", "M51", "2024-01-01"), "/photos/M51-2024-01-01");
    assert_eq!(join_path("/photos/x", "Light"), "/photos/x/Light");
}

#[test]
fn plan_keeps_only_concrete_roles_in_order() {
    let folders = vec![
        folder("/r/a", RoleLabel::Light),
        folder("/r/b", RoleLabel::Unknown),
        folder("/r/c", RoleLabel::Dark),
    ];
    let plan = make_plan("/photos", folders, "M51", "2024-01-01");
    assert_eq!(plan.dest_root, "/photos/M51-2024-01-01");
    let kept: Vec<&str> = plan.folders.iter().map(|f| f.path.as_str()).collect();
    assert_eq!(kept, vec!["/r/a", "/r/c"]);
    assert!(plan.folders.iter().all(|f| f.role != RoleLabel::Unknown));
}

#[test]
fn declining_proceed_cancels_before_any_mutation() {
    let plan = make_plan("/photos", vec![folder("/r/a", RoleLabel::Light)], "M51", "d");
    let mut tx = ReorganizeTransaction::new(plan);
    assert!(matches!(tx.next_action(), TxAction::AskProceed));
    let log = drive(&mut tx, &[], false, false, false, false);
    assert_eq!(log.outcome, Err(EngineError::Cancelled));
    assert!(log.made_dirs.is_empty());
    assert!(log.role_dirs.is_empty());
    assert!(log.copies.is_empty());
    assert!(log.removed.is_empty());
}

#[test]
fn successful_run_copies_every_entry_into_role_directories() {
    let folders = vec![folder("/r/a", RoleLabel::Light), folder("/r/c", RoleLabel::Dark)];
    let plan = make_plan("/photos", folders, "M51", "2024-01-01");
    let mut tx = ReorganizeTransaction::new(plan);
    let listings: &[(&str, &[&str])] =
        &[("/r/a", &["La1.fit", "La2.fit"]), ("/r/c", &["Dk1.fit"])];
    let log = drive(&mut tx, listings, true, false, true, false);
    assert_eq!(log.outcome, Ok(()));
    assert_eq!(log.made_dirs, vec!["/photos/M51-2024-01-01"]);
    assert_eq!(
        log.role_dirs,
        vec!["/photos/M51-2024-01-01/Light", "/photos/M51-2024-01-01/Dark"]
    );
    assert_eq!(
        log.copies,
        vec![
            ("/r/a/La1.fit".to_string(), "/photos/M51-2024-01-01/Light/La1.fit".to_string()),
            ("/r/a/La2.fit".to_string(), "/photos/M51-2024-01-01/Light/La2.fit".to_string()),
            ("/r/c/Dk1.fit".to_string(), "/photos/M51-2024-01-01/Dark/Dk1.fit".to_string()),
        ]
    );
    assert!(log.removed.is_empty());
}

#[test]
fn accepting_deletion_removes_exactly_the_planned_sources() {
    let folders = vec![
        folder("/r/a", RoleLabel::Light),
        folder("/r/b", RoleLabel::Unknown),
        folder("/r/c", RoleLabel::Dark),
    ];
    let plan = make_plan("/photos", folders, "M51", "d");
    let mut tx = ReorganizeTransaction::new(plan);
    let listings: &[(&str, &[&str])] = &[("/r/a", &["La1.fit"]), ("/r/c", &["Dk1.fit"])];
    let log = drive(&mut tx, listings, true, false, true, true);
    assert_eq!(log.outcome, Ok(()));
    assert_eq!(log.removed, vec!["/r/a", "/r/c"]);
}

#[test]
fn declining_deletion_removes_nothing() {
    let plan = make_plan("/photos", vec![folder("/r/a", RoleLabel::Flat)], "M51", "d");
    let mut tx = ReorganizeTransaction::new(plan);
    let listings: &[(&str, &[&str])] = &[("/r/a", &["F1.fit"])];
    let log = drive(&mut tx, listings, true, false, true, false);
    assert_eq!(log.outcome, Ok(()));
    assert!(log.removed.is_empty());
}

#[test]
fn existing_destination_needs_a_second_confirmation() {
    let plan = make_plan("/photos", vec![folder("/r/a", RoleLabel::Light)], "M51", "d");
    let mut tx = ReorganizeTransaction::new(plan);
    let listings: &[(&str, &[&str])] = &[("/r/a", &["La1.fit"])];
    let log = drive(&mut tx, listings, true, true, true, false);
    assert_eq!(log.outcome, Ok(()));
    assert!(log.made_dirs.is_empty());
    assert_eq!(log.copies.len(), 1);
}

#[test]
fn declining_the_existing_destination_cancels() {
    let plan = make_plan("/photos", vec![folder("/r/a", RoleLabel::Light)], "M51", "d");
    let mut tx = ReorganizeTransaction::new(plan);
    let log = drive(&mut tx, &[], true, true, false, false);
    assert_eq!(log.outcome, Err(EngineError::Cancelled));
    assert!(log.copies.is_empty());
}

#[test]
fn a_failed_copy_aborts_with_io_error() {
    let plan = make_plan("/photos", vec![folder("/r/a", RoleLabel::Light)], "M51", "d");
    let mut tx = ReorganizeTransaction::new(plan);
    tx.step(TxEvent::Answered(true));
    tx.step(TxEvent::DestCreated(CreateDirOutcome::Created));
    tx.step(TxEvent::RoleDirReady(true));
    tx.step(TxEvent::Listed(Some(vec!["La1.fit".to_string()])));
    assert!(matches!(tx.next_action(), TxAction::CopyEntry { .. }));
    tx.step(TxEvent::Copied(false));
    assert_eq!(tx.outcome(), Some(Err(EngineError::Io)));
}

#[test]
fn a_failed_listing_aborts_with_io_error() {
    let plan = make_plan("/photos", vec![folder("/r/a", RoleLabel::Light)], "M51", "d");
    let mut tx = ReorganizeTransaction::new(plan);
    tx.step(TxEvent::Answered(true));
    tx.step(TxEvent::DestCreated(CreateDirOutcome::Created));
    tx.step(TxEvent::RoleDirReady(true));
    tx.step(TxEvent::Listed(None));
    assert_eq!(tx.outcome(), Some(Err(EngineError::Io)));
}

#[test]
fn empty_plan_still_asks_both_confirmations() {
    let plan = make_plan("/photos", Vec::new(), "M51", "d");
    let mut tx = ReorganizeTransaction::new(plan);
    let log = drive(&mut tx, &[], true, false, true, true);
    assert_eq!(log.outcome, Ok(()));
    assert!(log.copies.is_empty());
    assert!(log.removed.is_empty());
}

#[test]
fn error_messages_match_the_kinds() {
    assert_eq!(EngineError::Cancelled.message(), "Canceled by user.");
    assert_eq!(EngineError::Io.message(), "Unable to read directory!");
    assert_eq!(EngineError::Validation.message(), "Path doesn't exist");
}
