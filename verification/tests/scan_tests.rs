use astro_organizer::scan::{order_oldest_first, select_chosen, CandidateFolder};

const DAY: u64 = 86400;

fn candidate(path: &str, age: u64) -> CandidateFolder {
    CandidateFolder { path: path.to_string(), age }
}

#[test]
fn scan_order_is_oldest_first() {
    let folders = vec![candidate("B", DAY), candidate("A", 3 * DAY), candidate("C", 2 * DAY)];
    let ordered = order_oldest_first(folders);
    let paths: Vec<&str> = ordered.iter().map(|f| f.path.as_str()).collect();
    assert_eq!(paths, vec!["A", "C", "B"]);
    for pair in ordered.windows(2) {
        assert!(pair[0].age >= pair[1].age);
    }
}

#[test]
fn scan_order_keeps_every_folder() {
    let folders = vec![
        candidate("x", 5),
        candidate("y", 5),
        candidate("z", 1),
        candidate("w", 9),
    ];
    let ordered = order_oldest_first(folders);
    assert_eq!(ordered.len(), 4);
    let mut paths: Vec<&str> = ordered.iter().map(|f| f.path.as_str()).collect();
    paths.sort();
    assert_eq!(paths, vec!["w", "x", "y", "z"]);
    assert_eq!(ordered[0].path, "w");
    assert_eq!(ordered[3].path, "z");
}

#[test]
fn empty_scan_stays_empty() {
    let ordered = order_oldest_first(Vec::new());
    assert!(ordered.is_empty());
}

#[test]
fn selection_keeps_chosen_in_scan_order() {
    let folders = vec![candidate("A", 30), candidate("C", 20), candidate("B", 10)];
    let picks = vec![2usize, 0usize];
    let chosen = select_chosen(folders, &picks);
    let paths: Vec<&str> = chosen.iter().map(|f| f.path.as_str()).collect();
    assert_eq!(paths, vec!["A", "B"]);
}

#[test]
fn selecting_nothing_keeps_nothing() {
    let folders = vec![candidate("A", 30), candidate("B", 10)];
    let picks: Vec<usize> = Vec::new();
    let chosen = select_chosen(folders, &picks);
    assert!(chosen.is_empty());
}
