//! The whole engine driven end to end on an in-memory scenario: scan
//! order, classification, correction, and the reorganize transaction.

use astro_organizer::classify::{classify_folders, FolderListing};
use astro_organizer::correct::{CorrectionSession, SessionEvent};
use astro_organizer::reorganize::{
    make_plan, CreateDirOutcome, ReorganizeTransaction, TxAction, TxEvent,
};
use astro_organizer::role::RoleLabel;
use astro_organizer::scan::{order_oldest_first, select_chosen, CandidateFolder};

const DAY: u64 = 86400;

#[test]
fn three_folder_scenario_end_to_end() {
    // Root holds A (three days old, one Light frame), B (one day old,
    // one Dark frame) and C (two days old, empty).
    let scanned = vec![
        CandidateFolder { path: "A".to_string(), age: 3 * DAY },
        CandidateFolder { path: "B".to_string(), age: DAY },
        CandidateFolder { path: "C".to_string(), age: 2 * DAY },
    ];
    let ordered = order_oldest_first(scanned);
    let order: Vec<&str> = ordered.iter().map(|f| f.path.as_str()).collect();
    assert_eq!(order, vec!["A", "C", "B"]);

    // The operator selects all three.
    let picks = vec![0usize, 1usize, 2usize];
    let selected = select_chosen(ordered, &picks);
    assert_eq!(selected.len(), 3);

    // Classification by folder contents, preserving scan order.
    let listings: Vec<FolderListing> = selected
        .iter()
        .map(|f| FolderListing {
            path: f.path.clone(),
            entries: match f.path.as_str() {
                "A" => vec!["Light001.fit".to_string()],
                "B" => vec!["Dark1.fit".to_string()],
                _ => Vec::new(),
            },
        })
        .collect();
    let classified = classify_folders(listings);
    let roles: Vec<RoleLabel> = classified.iter().map(|f| f.role).collect();
    assert_eq!(roles, vec![RoleLabel::Light, RoleLabel::Unknown, RoleLabel::Dark]);

    // The operator confirms the types as they are.
    let mut session = CorrectionSession::new(classified);
    session.step(SessionEvent::Confirmed(true));
    assert!(session.is_done());
    let confirmed = session.into_folders();

    // Reorganize into {base}/M51-2024-01-01, declining deletion.
    let plan = make_plan("/base", confirmed, "M51", "2024-01-01");
    let mut tx = ReorganizeTransaction::new(plan);
    let mut copies: Vec<(String, String)> = Vec::new();
    let removed: Vec<String> = Vec::new();
    loop {
        match tx.next_action() {
            TxAction::AskProceed => tx.step(TxEvent::Answered(true)),
            TxAction::MakeDest { .. } => {
                tx.step(TxEvent::DestCreated(CreateDirOutcome::Created))
            }
            TxAction::AskUseExisting { .. } => tx.step(TxEvent::Answered(true)),
            TxAction::EnsureRoleDir { .. } => tx.step(TxEvent::RoleDirReady(true)),
            TxAction::ListSource { path } => {
                let entries = match path.as_str() {
                    "A" => vec!["Light001.fit".to_string()],
                    "B" => vec!["Dark1.fit".to_string()],
                    other => panic!("listed an unplanned folder: {}", other),
                };
                tx.step(TxEvent::Listed(Some(entries)));
            }
            TxAction::CopyEntry { from, to } => {
                copies.push((from, to));
                tx.step(TxEvent::Copied(true));
            }
            TxAction::AskDelete => tx.step(TxEvent::Answered(false)),
            TxAction::RemoveSource { path } => panic!("removal was declined: {}", path),
            TxAction::Finish => break,
            TxAction::Fail { error } => panic!("run failed: {:?}", error),
        }
    }
    assert_eq!(
        copies,
        vec![
            ("A/Light001.fit".to_string(), "/base/M51-2024-01-01/Light/Light001.fit".to_string()),
            ("B/Dark1.fit".to_string(), "/base/M51-2024-01-01/Dark/Dark1.fit".to_string()),
        ]
    );
    // C's contents never reach the destination, and nothing was removed.
    assert!(copies.iter().all(|(from, _)| !from.starts_with("C")));
    assert!(removed.is_empty());
    assert_eq!(tx.outcome(), Some(Ok(())));
}
