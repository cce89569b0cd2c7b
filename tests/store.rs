use dcrm::{Activity, ActivityType, AppData, Deal, DealStage, Timestamp};

fn deal(value: u64, stage: DealStage, probability: u8) -> Deal {
    let mut d = Deal::new("Deal".to_string(), "Co".to_string(), value);
    d.stage = stage;
    d.probability = probability;
    d
}

#[test]
fn empty_store_statistics() {
    let data = AppData::new();
    assert_eq!(data.total_pipeline_value(), 0);
    assert_eq!(data.weighted_pipeline_value(), 0);
    assert_eq!(data.won_deals_value(), 0);
    assert_eq!(data.active_deals_count(), 0);
    assert_eq!(data.pending_tasks_count(), 0);
    assert!(data.recent_activities(5).is_empty());
    assert_eq!(AppData::default(), AppData::new());
}

#[test]
fn total_pipeline_value_skips_closed_deals() {
    let mut data = AppData::new();
    data.deals = vec![
        deal(10_000, DealStage::Lead, 10),
        deal(20_000, DealStage::Won, 100),
        deal(30_000, DealStage::Qualified, 25),
    ];
    assert_eq!(data.total_pipeline_value(), 40_000);
    assert_eq!(data.won_deals_value(), 20_000);
    assert_eq!(data.active_deals_count(), 2);
}

#[test]
fn pipeline_of_three_small_deals() {
    let mut data = AppData::new();
    data.deals = vec![
        deal(100, DealStage::Lead, 10),
        deal(200, DealStage::Won, 100),
        deal(300, DealStage::Qualified, 25),
    ];
    assert_eq!(data.total_pipeline_value(), 400);
}

#[test]
fn weighted_value_of_a_thousand_at_a_quarter() {
    let mut data = AppData::new();
    data.deals = vec![deal(1000, DealStage::Proposal, 25)];
    assert_eq!(data.weighted_pipeline_value(), 250);
}

#[test]
fn lost_deals_count_nowhere() {
    let mut data = AppData::new();
    data.deals = vec![deal(7, DealStage::Lost, 0), deal(5, DealStage::Negotiation, 75)];
    assert_eq!(data.total_pipeline_value(), 5);
    assert_eq!(data.won_deals_value(), 0);
    assert_eq!(data.active_deals_count(), 1);
}

#[test]
fn weighted_pipeline_value_of_one_deal() {
    let mut data = AppData::new();
    data.deals = vec![deal(100_000, DealStage::Qualified, 25)];
    assert_eq!(data.weighted_pipeline_value(), 25_000);
}

#[test]
fn weighted_pipeline_value_rounds_the_sum() {
    let mut data = AppData::new();
    data.deals = vec![
        deal(1, DealStage::Lead, 50),
        deal(1, DealStage::Proposal, 50),
        deal(1_000, DealStage::Won, 100),
    ];
    assert_eq!(data.weighted_pipeline_value(), 1);
}

#[test]
fn large_values_do_not_overflow() {
    let mut data = AppData::new();
    data.deals = vec![deal(u64::MAX, DealStage::Lead, 100), deal(u64::MAX, DealStage::Won, 100)];
    data.deals.push(deal(u64::MAX, DealStage::Lead, 255));
    assert_eq!(data.total_pipeline_value(), 2 * u64::MAX as u128);
    assert_eq!(data.won_deals_value(), u64::MAX as u128);
    assert_eq!(data.weighted_pipeline_value(), (u64::MAX as u128 * 355) / 100);
}

#[test]
fn pending_tasks_count_only_open_tasks() {
    let mut data = AppData::new();
    let open_task = Activity::new(ActivityType::Task, "a".to_string());
    let mut done_task = Activity::new(ActivityType::Task, "b".to_string());
    done_task.completed = true;
    let call = Activity::new(ActivityType::Call, "c".to_string());
    data.activities = vec![open_task, done_task, call];
    assert_eq!(data.pending_tasks_count(), 1);
}

#[test]
fn sample_data_dashboard_figures() {
    let data = AppData::with_sample_data();
    assert_eq!(data.contacts.len(), 5);
    assert_eq!(data.deals.len(), 6);
    assert_eq!(data.activities.len(), 6);
    assert_eq!(data.active_deals_count(), 5);
    assert_eq!(data.won_deals_value(), 5_000_000);
    assert_eq!(data.total_pipeline_value(), 59_500_000);
    assert_eq!(data.pending_tasks_count(), 2);
    assert_eq!(data.weighted_pipeline_value(), 27_975_000);
}

#[test]
fn sample_data_links_resolve() {
    let data = AppData::with_sample_data();
    let sarah = &data.contacts[0];
    assert_eq!(sarah.full_name(), "Sarah Chen");
    assert_eq!(sarah.tags, vec!["enterprise".to_string(), "hot-lead".to_string()]);
    let first = &data.deals[0];
    assert_eq!(first.contact_id.as_deref(), Some(sarah.id.as_str()));
    assert_eq!(data.activities_for_contact(&sarah.id).len(), 2);
    assert_eq!(data.activities_for_deal(&first.id).len(), 2);
    let found = data.contact_by_id(&sarah.id).unwrap();
    assert_eq!(found.email, "sarah.chen@techcorp.com");
    assert_eq!(data.deal_by_id(&data.deals[5].id).unwrap().title, "Consulting Engagement Q1");
}

#[test]
fn lookups_that_find_nothing() {
    let data = AppData::with_sample_data();
    assert!(data.contact_by_id("missing").is_none());
    assert!(data.deal_by_id("").is_none());
    assert!(data.activities_for_contact("missing").is_empty());
    assert!(data.activities_for_deal("missing").is_empty());
}

#[test]
fn contact_by_id_returns_first_match() {
    let mut data = AppData::new();
    let mut a = dcrm::Contact::new("One".to_string(), String::new(), String::new());
    a.id = "same".to_string();
    let mut b = dcrm::Contact::new("Two".to_string(), String::new(), String::new());
    b.id = "same".to_string();
    data.contacts = vec![a, b];
    assert_eq!(data.contact_by_id("same").unwrap().first_name, "One");
}

#[test]
fn deals_by_stage_keeps_store_order() {
    let mut data = AppData::new();
    data.deals = vec![
        deal(1, DealStage::Proposal, 50),
        deal(2, DealStage::Lead, 10),
        deal(3, DealStage::Proposal, 50),
    ];
    let found: Vec<u64> = data.deals_by_stage(DealStage::Proposal).iter().map(|d| d.value).collect();
    assert_eq!(found, vec![1, 3]);
    assert!(data.deals_by_stage(DealStage::Won).is_empty());
}

#[test]
fn recent_activities_newest_first_and_limited() {
    let mut data = AppData::new();
    let times = [(5, 0), (9, 0), (5, 1), (1, 0), (9, 0)];
    for (i, (secs, nanos)) in times.iter().enumerate() {
        let mut a = Activity::new(ActivityType::Note, format!("a{}", i));
        a.created_at = Timestamp { secs: *secs, nanos: *nanos };
        data.activities.push(a);
    }
    let titles: Vec<String> = data.recent_activities(4).iter().map(|a| a.title.clone()).collect();
    assert_eq!(titles, vec!["a1", "a4", "a2", "a0"]);
    assert_eq!(data.recent_activities(10).len(), 5);
    assert!(data.recent_activities(0).is_empty());
}
