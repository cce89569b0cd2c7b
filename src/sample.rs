//! The records a first start shows, before the user has entered any.

use vstd::prelude::*;
use vstd::string::*;

use crate::models::{Activity, ActivityType, Contact, Deal, DealStage};
use crate::store::{open_deals, stage_deals, value_sum, AppData};

verus! {

/// `c` holds the given person, with two tags and no notes.
pub open spec fn contact_row(
    c: Contact,
    first: Seq<char>,
    last: Seq<char>,
    email: Seq<char>,
    company: Seq<char>,
    position: Seq<char>,
    phone: Seq<char>,
    tag1: Seq<char>,
    tag2: Seq<char>,
) -> bool {
    &&& c.id@.len() == 36
    &&& c.first_name@ == first
    &&& c.last_name@ == last
    &&& c.email@ == email
    &&& c.company matches Some(s) && s@ == company
    &&& c.position matches Some(s) && s@ == position
    &&& c.phone matches Some(s) && s@ == phone
    &&& c.tags@.len() == 2 && c.tags@[0]@ == tag1 && c.tags@[1]@ == tag2
    &&& c.notes is None
    &&& c.created_at == c.updated_at
}

/// `d` is the given deal, tied to the contact `contact`.
pub open spec fn deal_row(
    d: Deal,
    title: Seq<char>,
    company: Seq<char>,
    value: u64,
    stage: DealStage,
    probability: u8,
    contact: Contact,
) -> bool {
    &&& d.id@.len() == 36
    &&& d.title@ == title
    &&& d.company@ == company
    &&& d.value == value
    &&& d.stage == stage
    &&& d.probability == probability
    &&& d.contact_id == Some(contact.id)
    &&& d.expected_close is None
    &&& d.notes is None
    &&& d.created_at == d.updated_at
}

/// `a` is the given activity, tied to `contact` and `deal`.
pub open spec fn activity_row(
    a: Activity,
    kind: ActivityType,
    title: Seq<char>,
    description: Option<Seq<char>>,
    completed: bool,
    contact: Contact,
    deal: Deal,
) -> bool {
    &&& a.id@.len() == 36
    &&& a.activity_type == kind
    &&& a.title@ == title
    &&& match description {
        Some(t) => a.description matches Some(s) && s@ == t,
        None => a.description is None,
    }
    &&& a.completed == completed
    &&& a.contact_id == Some(contact.id)
    &&& a.deal_id == Some(deal.id)
    &&& a.due_date is None
    &&& a.created_at == a.updated_at
}

/// The seed records, field by field.
pub open spec fn is_sample_data(r: AppData) -> bool {
    let c = r.contacts@;
    let d = r.deals@;
    let a = r.activities@;
    &&& c.len() == 5 && d.len() == 6 && a.len() == 6
    &&& contact_row(c[0], "Sarah"@, "Chen"@, "sarah.chen@techcorp.com"@, "TechCorp Solutions"@,
        "VP of Engineering"@, "+1 (555) 123-4567"@, "enterprise"@, "hot-lead"@)
    &&& contact_row(c[1], "Marcus"@, "Johnson"@, "m.johnson@innovate.io"@, "Innovate.io"@, "CTO"@,
        "+1 (555) 234-5678"@, "startup"@, "referral"@)
    &&& contact_row(c[2], "Emily"@, "Rodriguez"@, "emily.r@globalfinance.com"@,
        "Global Finance Inc"@, "Director of Operations"@, "+1 (555) 345-6789"@, "enterprise"@,
        "finance"@)
    &&& contact_row(c[3], "David"@, "Kim"@, "david.kim@startupxyz.com"@, "StartupXYZ"@,
        "Founder & CEO"@, "+1 (555) 456-7890"@, "startup"@, "founder"@)
    &&& contact_row(c[4], "Lisa"@, "Thompson"@, "lisa.t@medtech.health"@, "MedTech Health"@,
        "Head of Product"@, "+1 (555) 567-8901"@, "healthcare"@, "enterprise"@)
    &&& deal_row(d[0], "Enterprise Platform License"@, "TechCorp Solutions"@, 15_000_000,
        DealStage::Negotiation, 75, c[0])
    &&& deal_row(d[1], "API Integration Package"@, "Innovate.io"@, 4_500_000, DealStage::Proposal,
        50, c[1])
    &&& deal_row(d[2], "Financial Analytics Suite"@, "Global Finance Inc"@, 28_000_000,
        DealStage::Qualified, 30, c[2])
    &&& deal_row(d[3], "Startup Growth Package"@, "StartupXYZ"@, 2_500_000, DealStage::Lead, 15,
        c[3])
    &&& deal_row(d[4], "Healthcare Compliance Module"@, "MedTech Health"@, 9_500_000,
        DealStage::Proposal, 60, c[4])
    &&& deal_row(d[5], "Consulting Engagement Q1"@, "TechCorp Solutions"@, 5_000_000,
        DealStage::Won, 100, c[0])
    &&& activity_row(a[0], ActivityType::Meeting, "Discovery call with Sarah"@,
        Some("Discussed enterprise requirements and timeline"@), true, c[0], d[0])
    &&& activity_row(a[1], ActivityType::Email, "Sent proposal to Marcus"@,
        Some("API integration proposal with pricing tiers"@), true, c[1], d[1])
    &&& activity_row(a[2], ActivityType::Task, "Follow up with Emily on requirements"@, None,
        false, c[2], d[2])
    &&& activity_row(a[3], ActivityType::Call, "Intro call with David"@,
        Some("Initial discussion about startup needs"@), true, c[3], d[3])
    &&& activity_row(a[4], ActivityType::Note, "Lisa mentioned budget approval pending"@, None,
        false, c[4], d[4])
    &&& activity_row(a[5], ActivityType::Task, "Prepare demo for TechCorp"@, None, false, c[0],
        d[0])
}

fn sample_contact(
    first: &str,
    last: &str,
    email: &str,
    company: &str,
    position: &str,
    phone: &str,
    tag1: &str,
    tag2: &str,
) -> (c: Contact)
    ensures
        contact_row(c, first@, last@, email@, company@, position@, phone@, tag1@, tag2@),
{
    let mut c = Contact::new(String::from_str(first), String::from_str(last), String::from_str(email));
    c.company = Some(String::from_str(company));
    c.position = Some(String::from_str(position));
    c.phone = Some(String::from_str(phone));
    c.tags = vec![String::from_str(tag1), String::from_str(tag2)];
    c
}

fn sample_deal(
    title: &str,
    company: &str,
    value: u64,
    stage: DealStage,
    probability: u8,
    contact: &Contact,
) -> (d: Deal)
    ensures
        deal_row(d, title@, company@, value, stage, probability, *contact),
{
    let mut d = Deal::new(String::from_str(title), String::from_str(company), value);
    d.contact_id = Some(contact.id.clone());
    d.stage = stage;
    d.probability = probability;
    d
}

fn sample_activity(
    kind: ActivityType,
    title: &str,
    description: Option<&str>,
    completed: bool,
    contact: &Contact,
    deal: &Deal,
) -> (a: Activity)
    ensures
        activity_row(a, kind, title@, match description {
            Some(s) => Some(s@),
            None => None,
        }, completed, *contact, *deal),
{
    let mut a = Activity::new(kind, String::from_str(title));
    a.contact_id = Some(contact.id.clone());
    a.deal_id = Some(deal.id.clone());
    a.description = match description {
        Some(s) => Some(String::from_str(s)),
        None => None,
    };
    a.completed = completed;
    a
}

impl AppData {
    /// A store seeded with five contacts, six deals tied to them and six
    /// activities tied to both.
    pub fn with_sample_data() -> (r: AppData)
        ensures
            is_sample_data(r),
            open_deals(r.deals@).len() == 5,
            value_sum(stage_deals(r.deals@, DealStage::Won)) == 5_000_000,
    {
        let contacts = vec![
            sample_contact(
                "Sarah",
                "Chen",
                "sarah.chen@techcorp.com",
                "TechCorp Solutions",
                "VP of Engineering",
                "+1 (555) 123-4567",
                "enterprise",
                "hot-lead",
            ),
            sample_contact(
                "Marcus",
                "Johnson",
                "m.johnson@innovate.io",
                "Innovate.io",
                "CTO",
                "+1 (555) 234-5678",
                "startup",
                "referral",
            ),
            sample_contact(
                "Emily",
                "Rodriguez",
                "emily.r@globalfinance.com",
                "Global Finance Inc",
                "Director of Operations",
                "+1 (555) 345-6789",
                "enterprise",
                "finance",
            ),
            sample_contact(
                "David",
                "Kim",
                "david.kim@startupxyz.com",
                "StartupXYZ",
                "Founder & CEO",
                "+1 (555) 456-7890",
                "startup",
                "founder",
            ),
            sample_contact(
                "Lisa",
                "Thompson",
                "lisa.t@medtech.health",
                "MedTech Health",
                "Head of Product",
                "+1 (555) 567-8901",
                "healthcare",
                "enterprise",
            ),
        ];
        let deals = vec![
            sample_deal(
                "Enterprise Platform License",
                "TechCorp Solutions",
                15_000_000,
                DealStage::Negotiation,
                75,
                &contacts[0],
            ),
            sample_deal(
                "API Integration Package",
                "Innovate.io",
                4_500_000,
                DealStage::Proposal,
                50,
                &contacts[1],
            ),
            sample_deal(
                "Financial Analytics Suite",
                "Global Finance Inc",
                28_000_000,
                DealStage::Qualified,
                30,
                &contacts[2],
            ),
            sample_deal(
                "Startup Growth Package",
                "StartupXYZ",
                2_500_000,
                DealStage::Lead,
                15,
                &contacts[3],
            ),
            sample_deal(
                "Healthcare Compliance Module",
                "MedTech Health",
                9_500_000,
                DealStage::Proposal,
                60,
                &contacts[4],
            ),
            sample_deal(
                "Consulting Engagement Q1",
                "TechCorp Solutions",
                5_000_000,
                DealStage::Won,
                100,
                &contacts[0],
            ),
        ];
        let activities = vec![
            sample_activity(
                ActivityType::Meeting,
                "Discovery call with Sarah",
                Some("Discussed enterprise requirements and timeline"),
                true,
                &contacts[0],
                &deals[0],
            ),
            sample_activity(
                ActivityType::Email,
                "Sent proposal to Marcus",
                Some("API integration proposal with pricing tiers"),
                true,
                &contacts[1],
                &deals[1],
            ),
            sample_activity(
                ActivityType::Task,
                "Follow up with Emily on requirements",
                None,
                false,
                &contacts[2],
                &deals[2],
            ),
            sample_activity(
                ActivityType::Call,
                "Intro call with David",
                Some("Initial discussion about startup needs"),
                true,
                &contacts[3],
                &deals[3],
            ),
            sample_activity(
                ActivityType::Note,
                "Lisa mentioned budget approval pending",
                None,
                false,
                &contacts[4],
                &deals[4],
            ),
            sample_activity(
                ActivityType::Task,
                "Prepare demo for TechCorp",
                None,
                false,
                &contacts[0],
                &deals[0],
            ),
        ];
        let r = AppData { contacts, deals, activities };
        proof {
            lemma_sample_statistics(r);
        }
        r
    }
}

/// The seed holds five open deals and one won deal of 50,000.00.
proof fn lemma_sample_statistics(r: AppData)
    requires
        is_sample_data(r),
    ensures
        open_deals(r.deals@).len() == 5,
        value_sum(stage_deals(r.deals@, DealStage::Won)) == 5_000_000,
{
    let d = r.deals@;
    reveal_with_fuel(Seq::filter, 7);
    assert(d.drop_last() =~= d.take(5));
    assert(d.take(5).drop_last() =~= d.take(4));
    assert(d.take(4).drop_last() =~= d.take(3));
    assert(d.take(3).drop_last() =~= d.take(2));
    assert(d.take(2).drop_last() =~= d.take(1));
    assert(d.take(1).drop_last() =~= d.take(0));
    let won = stage_deals(d, DealStage::Won);
    assert(won =~= seq![d[5]]);
    assert(won.drop_last() =~= Seq::<Deal>::empty());
    assert(value_sum(won.drop_last()) == 0);
    assert(value_sum(won) == value_sum(won.drop_last()) + d[5].value);
}

} // verus!
