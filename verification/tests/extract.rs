use candfans::client::PostData;
use candfans::download::{
    conclude, covers, download_all, plan_all, Outcome, OutcomeKind, Plan, Transfer,
};
use candfans::extract::extract;

fn entry_with_slots(post_id: usize, slots: [&str; 4]) -> PostData {
    PostData {
        post_id,
        post_type: 1,
        user_id: 7,
        contents_path1: slots[0].to_string(),
        contents_path2: slots[1].to_string(),
        contents_path3: slots[2].to_string(),
        contents_path4: slots[3].to_string(),
        plans: Vec::new(),
    }
}

#[test]
fn paths_drop_empty_slots_and_keep_slot_order() {
    let entry = entry_with_slots(1, ["a.mp4", "", "b.jpg", ""]);
    assert_eq!(entry.paths(), vec!["a.mp4", "b.jpg"]);
}

#[test]
fn paths_of_a_full_entry_are_all_four_slots() {
    let entry = entry_with_slots(1, ["/1", "/2", "/3", "/4"]);
    assert_eq!(entry.paths(), vec!["/1", "/2", "/3", "/4"]);
}

#[test]
fn paths_of_an_empty_entry_are_none() {
    let entry = entry_with_slots(1, ["", "", "", ""]);
    assert!(entry.paths().is_empty());
}

#[test]
fn paths_keep_a_late_slot_when_earlier_ones_are_empty() {
    let entry = entry_with_slots(1, ["", "", "", "/x/last.mp4"]);
    assert_eq!(entry.paths(), vec!["/x/last.mp4"]);
}

#[test]
fn extract_keeps_entry_order_and_duplicates() {
    let entries = vec![
        entry_with_slots(1, ["/u/a.mp4", "", "/u/b.jpg", ""]),
        entry_with_slots(2, ["", "/u/a.mp4", "", ""]),
        entry_with_slots(3, ["/u/c.mp4", "/u/a.mp4", "", "/u/d.png"]),
    ];
    assert_eq!(
        extract(&entries),
        vec!["/u/a.mp4", "/u/b.jpg", "/u/a.mp4", "/u/c.mp4", "/u/a.mp4", "/u/d.png"]
    );
}

#[test]
fn extract_of_no_entries_is_empty() {
    let entries: Vec<PostData> = Vec::new();
    assert!(extract(&entries).is_empty());
}

#[test]
fn three_entries_one_empty_give_eight_references() {
    let entries = vec![
        entry_with_slots(1, ["/m/1.mp4", "/m/2.mp4", "/m/3.jpg", "/m/4.mp4"]),
        entry_with_slots(2, ["", "", "", ""]),
        entry_with_slots(3, ["/m/5.jpg", "/m/6.mp4", "/m/7.jpg", "/m/8.mp4"]),
    ];
    let references = extract(&entries);
    assert_eq!(references.len(), 8);

    let wanted = vec!["mp4".to_string()];
    let plans = plan_all(&references, &wanted);
    assert_eq!(plans.len(), 8);
    let attempted = plans.iter().filter(|plan| matches!(plan, Plan::Fetch { .. })).count();
    let skipped = plans.iter().filter(|plan| matches!(plan, Plan::Skip)).count();
    assert_eq!(attempted, 5);
    assert_eq!(skipped, 3);

    let mut transfers: Vec<Option<Transfer>> = Vec::new();
    let mut fail_next = true;
    for plan in plans.iter() {
        match plan {
            Plan::Fetch { .. } => {
                if fail_next {
                    transfers.push(Some(Transfer::TransportFailed("reset".to_string())));
                } else {
                    transfers.push(Some(Transfer::Stored));
                }
                fail_next = !fail_next;
            }
            _ => transfers.push(None),
        }
    }
    assert!(covers(&references, &wanted, &transfers));
    let outcomes = download_all(&references, &wanted, transfers);
    assert_eq!(outcomes.len(), 8);
    let saved = outcomes.iter().filter(|o| o.kind() == OutcomeKind::Saved).count();
    let failed = outcomes.iter().filter(|o| o.kind() == OutcomeKind::Failed).count();
    let left = outcomes.iter().filter(|o| o.kind() == OutcomeKind::Skipped).count();
    assert_eq!(saved + failed, 5);
    assert_eq!(failed, 3);
    assert_eq!(left, 3);
    assert_eq!(conclude(&plans[2], None), Outcome::Skipped);
}
