use dcrm::{
    rank_results, search, Activity, ActivityType, AppData, Contact, Deal, SearchResult,
};

fn titled(title: &str) -> SearchResult {
    SearchResult::Activity(Activity::new(ActivityType::Note, title.to_string()))
}

fn titles(results: &[SearchResult]) -> Vec<String> {
    results.iter().map(|r| r.title()).collect()
}

#[test]
fn empty_query_finds_nothing() {
    let data = AppData::with_sample_data();
    assert!(search(&data, "").is_empty());
}

#[test]
fn unmatched_query_finds_nothing() {
    let data = AppData::with_sample_data();
    assert!(search(&data, "qqqqzzzz").is_empty());
}

#[test]
fn search_finds_a_contact_by_name() {
    let data = AppData::with_sample_data();
    let results = search(&data, "sarah");
    assert!(!results.is_empty());
    assert!(results.iter().any(|r| r.result_type() == "Contact" && r.title() == "Sarah Chen"));
    assert!(results.len() <= 10);
}

#[test]
fn search_matches_deal_company() {
    let data = AppData::with_sample_data();
    let results = search(&data, "medtech");
    assert!(results.iter().any(|r| r.result_type() == "Deal" && r.title() == "Healthcare Compliance Module"));
}

#[test]
fn search_returns_at_most_ten() {
    let mut data = AppData::new();
    for i in 0..15 {
        data.activities.push(Activity::new(ActivityType::Note, format!("meeting {}", i)));
    }
    let results = search(&data, "meet");
    assert_eq!(results.len(), 10);
}

#[test]
fn rank_results_orders_by_score_and_keeps_ties() {
    let scored = vec![
        (5, titled("a")),
        (9, titled("b")),
        (5, titled("c")),
        (12, titled("d")),
        (9, titled("e")),
    ];
    let ranked = rank_results(&scored);
    assert_eq!(titles(&ranked), vec!["d", "b", "e", "a", "c"]);
}

#[test]
fn rank_results_keeps_the_best_ten() {
    let scored: Vec<(i64, SearchResult)> =
        (0..12).map(|i| (i as i64, titled(&format!("r{}", i)))).collect();
    let ranked = rank_results(&scored);
    assert_eq!(ranked.len(), 10);
    assert_eq!(ranked[0].title(), "r11");
    assert_eq!(ranked[9].title(), "r2");
    assert!(rank_results(&Vec::new()).is_empty());
}

#[test]
fn result_titles_and_subtitles() {
    let mut c = Contact::new("Ada".to_string(), "King".to_string(), "ada@x.org".to_string());
    let r = SearchResult::Contact(c.clone());
    assert_eq!(r.title(), "Ada King");
    assert_eq!(r.subtitle(), "ada@x.org");
    assert_eq!(r.result_type(), "Contact");
    c.company = Some("Engines Ltd".to_string());
    assert_eq!(SearchResult::Contact(c).subtitle(), "Engines Ltd");
    let d = SearchResult::Deal(Deal::new("Mill".to_string(), "Looms".to_string(), 4_500_000));
    assert_eq!(d.title(), "Mill");
    assert_eq!(d.subtitle(), "Looms • $45K");
    assert_eq!(d.result_type(), "Deal");
    let a = SearchResult::Activity(Activity::new(ActivityType::Email, "Write".to_string()));
    assert_eq!(a.subtitle(), "Email");
    assert_eq!(a.result_type(), "Activity");
}

#[test]
fn cloned_result_is_equal() {
    let data = AppData::with_sample_data();
    let r = SearchResult::Contact(data.contacts[1].clone());
    assert_eq!(r.clone(), r);
    assert_eq!(data.deals[3].clone(), data.deals[3]);
    assert_eq!(data.activities[4].clone(), data.activities[4]);
}
