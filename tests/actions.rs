use dcrm::{
    add_activity, add_contact, add_deal, delete_activity, delete_contact, delete_deal,
    toggle_activity_completed, update_activity, update_contact, update_deal, update_deal_stage,
    Activity, ActivityType, AppData, Contact, Deal, DealStage,
};

fn contact(id: &str, first: &str) -> Contact {
    let mut c = Contact::new(first.to_string(), String::new(), String::new());
    c.id = id.to_string();
    c
}

fn ids(data: &AppData) -> Vec<String> {
    data.contacts.iter().map(|c| c.id.clone()).collect()
}

#[test]
fn add_keeps_a_fresh_id() {
    let mut data = AppData::new();
    let c = Contact::new("A".to_string(), "B".to_string(), "a@b".to_string());
    let id = c.id.clone();
    add_contact(&mut data, c);
    assert_eq!(data.contacts.len(), 1);
    assert_eq!(data.contacts[0].id, id);
    assert_eq!(data.contacts[0].created_at, data.contacts[0].updated_at);
}

#[test]
fn add_replaces_an_empty_or_taken_id() {
    let mut data = AppData::new();
    add_contact(&mut data, contact("", "Empty"));
    add_contact(&mut data, contact("x", "First"));
    add_contact(&mut data, contact("x", "Clash"));
    let all = ids(&data);
    assert_eq!(all.len(), 3);
    assert!(!all[0].is_empty());
    assert_eq!(all[1], "x");
    assert!(!all[2].is_empty() && all[2] != "x" && all[2] != all[0]);
    assert_eq!(data.contacts[2].first_name, "Clash");
}

#[test]
fn add_deal_and_activity_append() {
    let mut data = AppData::with_sample_data();
    let before: Vec<String> = data.deals.iter().map(|d| d.id.clone()).collect();
    let mut d = Deal::new("New".to_string(), "Co".to_string(), 7);
    d.id = before[2].clone();
    add_deal(&mut data, d);
    assert_eq!(data.deals.len(), 7);
    assert!(!before.contains(&data.deals[6].id));
    assert_eq!(data.deals[6].title, "New");
    add_activity(&mut data, Activity::new(ActivityType::Email, "Mail".to_string()));
    assert_eq!(data.activities.len(), 7);
    assert_eq!(data.activities[6].title, "Mail");
}

#[test]
fn update_missing_id_changes_nothing() {
    let mut data = AppData::with_sample_data();
    let before = ids(&data);
    let names: Vec<String> = data.contacts.iter().map(|c| c.first_name.clone()).collect();
    update_contact(&mut data, contact("no-such-id", "Ghost"));
    assert_eq!(ids(&data), before);
    let after: Vec<String> = data.contacts.iter().map(|c| c.first_name.clone()).collect();
    assert_eq!(after, names);
}

#[test]
fn update_replaces_in_place() {
    let mut data = AppData::new();
    data.contacts = vec![contact("a", "A"), contact("b", "B"), contact("c", "C")];
    update_contact(&mut data, contact("b", "Bee"));
    let names: Vec<String> = data.contacts.iter().map(|c| c.first_name.clone()).collect();
    assert_eq!(names, vec!["A", "Bee", "C"]);
    let mut deal = Deal::new("x".to_string(), String::new(), 1);
    deal.id = "d".to_string();
    data.deals = vec![deal];
    let mut changed = Deal::new("y".to_string(), String::new(), 2);
    changed.id = "d".to_string();
    update_deal(&mut data, changed);
    assert_eq!(data.deals[0].title, "y");
    let mut act = Activity::new(ActivityType::Note, "n".to_string());
    act.id = "t".to_string();
    data.activities = vec![act];
    let mut act2 = Activity::new(ActivityType::Call, "m".to_string());
    act2.id = "t".to_string();
    update_activity(&mut data, act2);
    assert_eq!(data.activities[0].activity_type, ActivityType::Call);
}

#[test]
fn delete_missing_id_is_a_no_op() {
    let mut data = AppData::with_sample_data();
    let before = ids(&data);
    delete_contact(&mut data, "no-such-id");
    assert_eq!(ids(&data), before);
    delete_deal(&mut data, "");
    assert_eq!(data.deals.len(), 6);
    delete_activity(&mut data, "nope");
    assert_eq!(data.activities.len(), 6);
}

#[test]
fn delete_removes_one_and_keeps_order() {
    let mut data = AppData::new();
    data.contacts = vec![contact("a", "A"), contact("b", "B"), contact("c", "C"), contact("d", "D")];
    delete_contact(&mut data, "b");
    assert_eq!(ids(&data), vec!["a", "c", "d"]);
}

#[test]
fn delete_removes_every_match() {
    let mut data = AppData::new();
    data.contacts = vec![contact("a", "A"), contact("b", "B"), contact("a", "A2")];
    delete_contact(&mut data, "a");
    assert_eq!(ids(&data), vec!["b"]);
}

#[test]
fn delete_deal_and_activity() {
    let mut data = AppData::with_sample_data();
    let deal_id = data.deals[1].id.clone();
    delete_deal(&mut data, &deal_id);
    assert_eq!(data.deals.len(), 5);
    assert!(data.deal_by_id(&deal_id).is_none());
    let act_id = data.activities[0].id.clone();
    delete_activity(&mut data, &act_id);
    assert_eq!(data.activities.len(), 5);
    assert_eq!(data.activities[0].title, "Sent proposal to Marcus");
}

#[test]
fn stage_change_sets_probability() {
    let mut data = AppData::with_sample_data();
    let id = data.deals[0].id.clone();
    data.deals[0].probability = 42;
    update_deal_stage(&mut data, &id, DealStage::Won);
    assert_eq!(data.deals[0].stage, DealStage::Won);
    assert_eq!(data.deals[0].probability, 100);
    update_deal_stage(&mut data, &id, DealStage::Lost);
    assert_eq!(data.deals[0].probability, 0);
    update_deal_stage(&mut data, &id, DealStage::Proposal);
    assert_eq!(data.deals[0].probability, 50);
    assert_eq!(data.deals[0].title, "Enterprise Platform License");
    assert_eq!(data.won_deals_value(), 5_000_000);
}

#[test]
fn stage_change_of_missing_deal_changes_nothing() {
    let mut data = AppData::with_sample_data();
    let stages: Vec<DealStage> = data.deals.iter().map(|d| d.stage).collect();
    update_deal_stage(&mut data, "no-such-deal", DealStage::Won);
    let after: Vec<DealStage> = data.deals.iter().map(|d| d.stage).collect();
    assert_eq!(after, stages);
}

#[test]
fn toggle_flips_completion() {
    let mut data = AppData::with_sample_data();
    let id = data.activities[2].id.clone();
    assert!(!data.activities[2].completed);
    toggle_activity_completed(&mut data, &id);
    assert!(data.activities[2].completed);
    assert_eq!(data.pending_tasks_count(), 1);
    toggle_activity_completed(&mut data, &id);
    assert!(!data.activities[2].completed);
    toggle_activity_completed(&mut data, "missing");
    assert_eq!(data.pending_tasks_count(), 2);
}
