use dcrm::{Activity, ActivityType, Contact, Deal, DealStage, Timestamp};

fn stamp(secs: i64) -> Timestamp {
    Timestamp { secs, nanos: 0 }
}

#[test]
fn contact_new_fills_fields_and_equal_stamps() {
    let c = Contact::new("Ada".to_string(), "Lovelace".to_string(), "ada@example.com".to_string());
    assert_eq!(c.id.chars().count(), 36);
    assert_eq!(c.first_name, "Ada");
    assert_eq!(c.last_name, "Lovelace");
    assert_eq!(c.email, "ada@example.com");
    assert!(c.phone.is_none() && c.company.is_none() && c.position.is_none());
    assert!(c.tags.is_empty());
    assert_eq!(c.created_at, c.updated_at);
}

#[test]
fn new_records_get_distinct_ids() {
    let a = Contact::new(String::new(), String::new(), String::new());
    let b = Contact::new(String::new(), String::new(), String::new());
    assert_ne!(a.id, b.id);
    let d = Deal::new("T".to_string(), "C".to_string(), 5);
    let e = Activity::new(ActivityType::Call, "x".to_string());
    assert_ne!(d.id, e.id);
}

#[test]
fn full_name_and_initials() {
    let c = Contact::new("sarah".to_string(), "chen".to_string(), String::new());
    assert_eq!(c.full_name(), "sarah chen");
    assert_eq!(c.initials(), "SC");
}

#[test]
fn initials_of_empty_names() {
    let c = Contact::new(String::new(), "kim".to_string(), String::new());
    assert_eq!(c.initials(), "?K");
    let d = Contact::default();
    assert_eq!(d.initials(), "??");
    assert_eq!(d.full_name(), " ");
}

#[test]
fn deal_new_starts_as_lead() {
    let d = Deal::new("Licence".to_string(), "Acme".to_string(), 12_345);
    assert_eq!(d.id.len(), 36);
    assert_eq!(d.title, "Licence");
    assert_eq!(d.company, "Acme");
    assert_eq!(d.value, 12_345);
    assert_eq!(d.stage, DealStage::Lead);
    assert_eq!(d.probability, 10);
    assert!(d.contact_id.is_none());
    assert_eq!(d.created_at, d.updated_at);
    let z = Deal::default();
    assert_eq!(z.value, 0);
    assert_eq!(z.stage, DealStage::Lead);
}

#[test]
fn weighted_value_of_a_deal() {
    let mut d = Deal::new(String::new(), String::new(), 100_000);
    d.probability = 25;
    assert_eq!(d.weighted_value(), 25_000);
    d.value = 999;
    d.probability = 33;
    assert_eq!(d.weighted_value(), 329);
}

#[test]
fn format_value_picks_unit() {
    let mut d = Deal::new(String::new(), String::new(), 15_000_000);
    assert_eq!(d.format_value(), "$150K");
    d.value = 150_000_000;
    assert_eq!(d.format_value(), "$1.5M");
    d.value = 95_000;
    assert_eq!(d.format_value(), "$950");
    d.value = 0;
    assert_eq!(d.format_value(), "$0");
    d.value = 100_000;
    assert_eq!(d.format_value(), "$1K");
    d.value = 28_000_000;
    assert_eq!(d.format_value(), "$280K");
}

#[test]
fn format_value_rounds_halves_to_even() {
    let mut d = Deal::new(String::new(), String::new(), 125_000_000);
    assert_eq!(d.format_value(), "$1.2M");
    d.value = 135_000_000;
    assert_eq!(d.format_value(), "$1.4M");
    d.value = 250;
    assert_eq!(d.format_value(), "$2");
    d.value = 351;
    assert_eq!(d.format_value(), "$4");
    d.value = 9_999_999_999;
    assert_eq!(d.format_value(), "$100.0M");
}

#[test]
fn stage_tables() {
    assert_eq!(DealStage::all().len(), 6);
    assert_eq!(
        DealStage::active(),
        vec![DealStage::Lead, DealStage::Qualified, DealStage::Proposal, DealStage::Negotiation]
    );
    assert_eq!(DealStage::Negotiation.display_name(), "Negotiation");
    assert_eq!(DealStage::Won.color(), "#10b981");
    assert_eq!(DealStage::Lost.badge_class(), "badge-lost");
    assert_eq!(DealStage::Qualified.default_probability(), 25);
    assert_eq!(DealStage::Lost.default_probability(), 0);
}

#[test]
fn activity_type_tables() {
    assert_eq!(ActivityType::Meeting.display_name(), "Meeting");
    assert_eq!(ActivityType::Call.icon(), "📞");
    assert_eq!(ActivityType::Task.icon(), "✓");
}

#[test]
fn activity_new_is_open() {
    let a = Activity::new(ActivityType::Task, "Call back".to_string());
    assert_eq!(a.id.len(), 36);
    assert_eq!(a.activity_type, ActivityType::Task);
    assert_eq!(a.title, "Call back");
    assert!(!a.completed);
    assert!(a.contact_id.is_none() && a.deal_id.is_none() && a.description.is_none());
    assert_eq!(a.created_at, a.updated_at);
    assert_eq!(Activity::default().activity_type, ActivityType::Note);
}

#[test]
fn activity_date_and_time() {
    let mut a = Activity::new(ActivityType::Note, String::new());
    a.created_at = stamp(1_709_647_629);
    assert_eq!(a.format_date(), "Mar 05, 2024");
    assert_eq!(a.format_time(), "14:07");
    a.created_at = stamp(i64::MAX);
    assert_eq!(a.format_date(), "");
}

#[test]
fn timestamp_nanos() {
    let t = Timestamp { secs: -2, nanos: 5 };
    assert_eq!(t.total_nanos(), -1_999_999_995);
}
