use rbx_config::plan::{
    entry_status, plan_purge, plan_upload, EntryStatus, PurgeStep, RemoteEntry, UploadStep, BATCH,
};

fn changed(exists: bool) -> EntryStatus {
    EntryStatus { exists, unchanged: false }
}

fn unchanged() -> EntryStatus {
    EntryStatus { exists: true, unchanged: true }
}

#[test]
fn entry_status_of_an_unknown_key() {
    let remote = vec![
        RemoteEntry { key: "a", same_value: true },
        RemoteEntry { key: "b", same_value: false },
    ];
    assert_eq!(entry_status("c", &remote), EntryStatus { exists: false, unchanged: false });
    assert_eq!(entry_status("c", &Vec::new()), EntryStatus { exists: false, unchanged: false });
}

#[test]
fn entry_status_of_a_known_key() {
    let remote = vec![
        RemoteEntry { key: "a", same_value: true },
        RemoteEntry { key: "b", same_value: false },
    ];
    assert_eq!(entry_status("a", &remote), EntryStatus { exists: true, unchanged: true });
    assert_eq!(entry_status("b", &remote), EntryStatus { exists: true, unchanged: false });
}

#[test]
fn entry_status_ignores_equal_values_under_other_keys() {
    let remote = vec![
        RemoteEntry { key: "a", same_value: false },
        RemoteEntry { key: "b", same_value: true },
    ];
    assert_eq!(entry_status("a", &remote), EntryStatus { exists: true, unchanged: false });
}

#[test]
fn entry_status_with_a_key_listed_twice() {
    let remote = vec![
        RemoteEntry { key: "a", same_value: false },
        RemoteEntry { key: "a", same_value: true },
    ];
    assert_eq!(entry_status("a", &remote), EntryStatus { exists: true, unchanged: true });
}

#[test]
fn nothing_to_send_is_no_plan() {
    assert_eq!(plan_upload(&Vec::new()), None);
    assert_eq!(plan_upload(&vec![unchanged(), unchanged()]), None);
}

#[test]
fn changed_entries_are_sent_and_the_draft_published() {
    let statuses = vec![changed(false), unchanged(), changed(true)];
    assert_eq!(
        plan_upload(&statuses),
        Some(vec![UploadStep::Create(0), UploadStep::Update(2), UploadStep::Publish])
    );
}

#[test]
fn forty_entries_are_one_batch() {
    let statuses: Vec<EntryStatus> = (0..BATCH).map(|_| changed(false)).collect();
    let steps = plan_upload(&statuses).unwrap();
    assert_eq!(steps.len(), BATCH + 1);
    assert_eq!(steps[BATCH], UploadStep::Publish);
    assert!(steps[..BATCH].iter().all(|s| !matches!(s, UploadStep::Publish)));
}

#[test]
fn the_forty_first_entry_starts_a_new_batch() {
    let statuses: Vec<EntryStatus> = (0..BATCH + 1).map(|_| changed(true)).collect();
    let steps = plan_upload(&statuses).unwrap();
    assert_eq!(steps.len(), BATCH + 3);
    assert_eq!(steps[BATCH - 1], UploadStep::Update(BATCH - 1));
    assert_eq!(steps[BATCH], UploadStep::Publish);
    assert_eq!(steps[BATCH + 1], UploadStep::Update(BATCH));
    assert_eq!(steps[BATCH + 2], UploadStep::Publish);
}

#[test]
fn unchanged_entries_do_not_count_towards_a_batch() {
    let mut statuses: Vec<EntryStatus> = Vec::new();
    for i in 0..100 {
        statuses.push(if i % 2 == 0 { changed(false) } else { unchanged() });
    }
    let steps = plan_upload(&statuses).unwrap();
    let publishes: Vec<usize> = steps
        .iter()
        .enumerate()
        .filter(|(_, s)| matches!(s, UploadStep::Publish))
        .map(|(i, _)| i)
        .collect();
    assert_eq!(publishes, vec![40, 51]);
    let sent: Vec<usize> = steps
        .iter()
        .filter_map(|s| match s {
            UploadStep::Create(i) | UploadStep::Update(i) => Some(*i),
            UploadStep::Publish => None,
        })
        .collect();
    let expected: Vec<usize> = (0..100).filter(|i| i % 2 == 0).collect();
    assert_eq!(sent, expected);
}

#[test]
fn no_batch_of_a_long_plan_exceeds_forty() {
    let statuses: Vec<EntryStatus> = (0..205).map(|i| changed(i % 3 == 0)).collect();
    let steps = plan_upload(&statuses).unwrap();
    let mut run = 0;
    for step in &steps {
        match step {
            UploadStep::Publish => run = 0,
            _ => {
                run += 1;
                assert!(run <= BATCH);
            }
        }
    }
    assert_eq!(steps.last(), Some(&UploadStep::Publish));
    assert_eq!(steps.iter().filter(|s| matches!(s, UploadStep::Publish)).count(), 6);
}

#[test]
fn purge_of_nothing_is_empty() {
    assert_eq!(plan_purge(0), Vec::new());
}

#[test]
fn purge_deletes_in_order_without_publishing_small_runs() {
    assert_eq!(
        plan_purge(3),
        vec![PurgeStep::Delete(0), PurgeStep::Delete(1), PurgeStep::Delete(2)]
    );
    let steps = plan_purge(41);
    assert_eq!(steps.len(), 41);
    assert!(steps.iter().all(|s| matches!(s, PurgeStep::Delete(_))));
}

#[test]
fn purge_publishes_before_the_forty_second_deletion() {
    let steps = plan_purge(42);
    assert_eq!(steps.len(), 43);
    assert_eq!(steps[40], PurgeStep::Delete(40));
    assert_eq!(steps[41], PurgeStep::Publish);
    assert_eq!(steps[42], PurgeStep::Delete(41));
}

#[test]
fn purge_deletes_every_entry_once() {
    let steps = plan_purge(130);
    let deleted: Vec<usize> = steps
        .iter()
        .filter_map(|s| match s {
            PurgeStep::Delete(i) => Some(*i),
            PurgeStep::Publish => None,
        })
        .collect();
    let expected: Vec<usize> = (0..130).collect();
    assert_eq!(deleted, expected);
    assert_eq!(steps.iter().filter(|s| matches!(s, PurgeStep::Publish)).count(), 3);
}
