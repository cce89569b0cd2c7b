use vstd::prelude::*;
use vstd::string::*;

use crate::outside::{format_utc, new_id, now, to_upper, upper_of, utc_format};
use crate::text::{currency_text, format_currency};

verus! {

/// An instant in UTC: whole seconds since the Unix epoch and the
/// nanoseconds past that second (more than a second's worth only
/// while a leap second lasts).
#[derive(Clone, Copy, Debug, PartialEq, Eq, Structural)]
pub struct Timestamp {
    pub secs: i64,
    pub nanos: u32,
}

impl Timestamp {
    /// The instant as one number of nanoseconds, which orders instants
    /// as the pair (seconds, nanoseconds) does.
    pub open spec fn spec_nanos(self) -> int {
        self.secs * 1_000_000_000 + self.nanos
    }

    /// The instant as nanoseconds since the epoch.
    pub fn total_nanos(&self) -> (r: i128)
        ensures
            r == self.spec_nanos(),
    {
        self.secs as i128 * 1_000_000_000 + self.nanos as i128
    }
}

/// The text chrono writes for `t` under `pattern`; empty where chrono
/// cannot represent the instant.
pub open spec fn timestamp_text(t: Timestamp, pattern: Seq<char>) -> Seq<char> {
    match utc_format(t.secs, t.nanos, pattern) {
        Some(s) => s,
        None => Seq::empty(),
    }
}

/// The first character of a name, or `?` for an empty one.
pub open spec fn initial_of(s: Seq<char>) -> Seq<char> {
    if s.len() > 0 {
        seq![s[0]]
    } else {
        seq!['?']
    }
}

// ---------------------------------------------------------------------------
// Contact
// ---------------------------------------------------------------------------

/// A person that the user keeps in touch with.
#[derive(Debug, PartialEq)]
pub struct Contact {
    pub id: String,
    pub first_name: String,
    pub last_name: String,
    pub email: String,
    pub phone: Option<String>,
    pub company: Option<String>,
    pub position: Option<String>,
    /// Free-text labels, in the order they were added.
    pub tags: Vec<String>,
    pub notes: Option<String>,
    pub created_at: Timestamp,
    pub updated_at: Timestamp,
}

impl Contact {
    /// The two contacts hold the same values field by field.
    pub open spec fn same_as(self, o: Contact) -> bool {
        &&& self.id == o.id
        &&& self.first_name == o.first_name
        &&& self.last_name == o.last_name
        &&& self.email == o.email
        &&& self.phone == o.phone
        &&& self.company == o.company
        &&& self.position == o.position
        &&& self.tags@ == o.tags@
        &&& self.notes == o.notes
        &&& self.created_at == o.created_at
        &&& self.updated_at == o.updated_at
    }

    /// A new contact with a fresh identifier, stamped now.
    pub fn new(first_name: String, last_name: String, email: String) -> (r: Contact)
        ensures
            r.id@.len() == 36,
            r.first_name == first_name,
            r.last_name == last_name,
            r.email == email,
            r.phone is None,
            r.company is None,
            r.position is None,
            r.tags@.len() == 0,
            r.notes is None,
            r.created_at == r.updated_at,
    {
        let t = now();
        Contact {
            id: new_id(),
            first_name,
            last_name,
            email,
            phone: None,
            company: None,
            position: None,
            tags: Vec::new(),
            notes: None,
            created_at: t,
            updated_at: t,
        }
    }

    /// First and last name with a space between.
    pub fn full_name(&self) -> (r: String)
        ensures
            r@ == self.first_name@ + " "@ + self.last_name@,
    {
        String::from_str(self.first_name.as_str()).concat(" ").concat(self.last_name.as_str())
    }

    /// The first letters of the first and last name, upper-cased.
    pub fn initials(&self) -> (r: String)
        ensures
            r@ == upper_of(initial_of(self.first_name@) + initial_of(self.last_name@)),
    {
        let first = first_letter(self.first_name.as_str());
        let last = first_letter(self.last_name.as_str());
        let both = String::from_str(first).concat(last);
        to_upper(both.as_str())
    }
}

/// The first character of `s` as a string of its own, `?` if `s` is empty.
fn first_letter(s: &str) -> (r: &str)
    ensures
        r@ == initial_of(s@),
{
    let n = s.unicode_len();
    if n > 0 {
        s.substring_char(0, 1)
    } else {
        proof {
            reveal_strlit("?");
        }
        "?"
    }
}

impl Clone for Contact {
    fn clone(&self) -> (r: Self)
        ensures
            r.same_as(*self),
    {
        let tags = self.tags.clone();
        assert(tags@ =~= self.tags@);
        Contact {
            id: self.id.clone(),
            first_name: self.first_name.clone(),
            last_name: self.last_name.clone(),
            email: self.email.clone(),
            phone: self.phone.clone(),
            company: self.company.clone(),
            position: self.position.clone(),
            tags,
            notes: self.notes.clone(),
            created_at: self.created_at,
            updated_at: self.updated_at,
        }
    }
}

impl Default for Contact {
    fn default() -> (r: Self)
        ensures
            r.id@.len() == 36,
            r.first_name@.len() == 0,
            r.last_name@.len() == 0,
            r.email@.len() == 0,
            r.created_at == r.updated_at,
    {
        Contact::new(String::new(), String::new(), String::new())
    }
}

// ---------------------------------------------------------------------------
// Deal
// ---------------------------------------------------------------------------

/// The phase of the pipeline that a deal is in.
#[derive(Clone, Copy, Debug, PartialEq, Eq, Hash, Structural)]
pub enum DealStage {
    Lead,
    Qualified,
    Proposal,
    Negotiation,
    Won,
    Lost,
}

/// The probability, in percent, that a deal gets on entering each stage.
pub open spec fn stage_probability(s: DealStage) -> u8 {
    match s {
        DealStage::Lead => 10,
        DealStage::Qualified => 25,
        DealStage::Proposal => 50,
        DealStage::Negotiation => 75,
        DealStage::Won => 100,
        DealStage::Lost => 0,
    }
}

impl DealStage {
    /// Whether the stage still counts toward the open pipeline.
    pub open spec fn is_open(self) -> bool {
        !(self is Won || self is Lost)
    }

    /// Every stage, in pipeline order.
    pub fn all() -> (r: Vec<DealStage>)
        ensures
            r@ == seq![
                DealStage::Lead,
                DealStage::Qualified,
                DealStage::Proposal,
                DealStage::Negotiation,
                DealStage::Won,
                DealStage::Lost,
            ],
    {
        vec![
            DealStage::Lead,
            DealStage::Qualified,
            DealStage::Proposal,
            DealStage::Negotiation,
            DealStage::Won,
            DealStage::Lost,
        ]
    }

    /// The open stages, in pipeline order.
    pub fn active() -> (r: Vec<DealStage>)
        ensures
            r@ == seq![
                DealStage::Lead,
                DealStage::Qualified,
                DealStage::Proposal,
                DealStage::Negotiation,
            ],
            forall|s: DealStage| s.is_open() <==> r@.contains(s),
    {
        let r = vec![
            DealStage::Lead,
            DealStage::Qualified,
            DealStage::Proposal,
            DealStage::Negotiation,
        ];
        assert forall|s: DealStage| s.is_open() <==> r@.contains(s) by {
            if s.is_open() {
                match s {
                    DealStage::Lead => assert(r@[0] == s),
                    DealStage::Qualified => assert(r@[1] == s),
                    DealStage::Proposal => assert(r@[2] == s),
                    DealStage::Negotiation => assert(r@[3] == s),
                    _ => {},
                }
            }
        }
        r
    }

    /// The probability, in percent, that a deal takes on entering the stage.
    pub fn default_probability(&self) -> (r: u8)
        ensures
            r == stage_probability(*self),
    {
        match self {
            DealStage::Lead => 10,
            DealStage::Qualified => 25,
            DealStage::Proposal => 50,
            DealStage::Negotiation => 75,
            DealStage::Won => 100,
            DealStage::Lost => 0,
        }
    }

    /// The stage's name as shown to the user.
    pub fn display_name(&self) -> (r: &str)
        ensures
            r@ == match *self {
                DealStage::Lead => "Lead"@,
                DealStage::Qualified => "Qualified"@,
                DealStage::Proposal => "Proposal"@,
                DealStage::Negotiation => "Negotiation"@,
                DealStage::Won => "Won"@,
                DealStage::Lost => "Lost"@,
            },
    {
        match self {
            DealStage::Lead => "Lead",
            DealStage::Qualified => "Qualified",
            DealStage::Proposal => "Proposal",
            DealStage::Negotiation => "Negotiation",
            DealStage::Won => "Won",
            DealStage::Lost => "Lost",
        }
    }

    /// The stage's colour, as a CSS hex colour.
    pub fn color(&self) -> (r: &str)
        ensures
            r@ == match *self {
                DealStage::Lead => "#3b82f6"@,
                DealStage::Qualified => "#8b5cf6"@,
                DealStage::Proposal => "#f59e0b"@,
                DealStage::Negotiation => "#ec4899"@,
                DealStage::Won => "#10b981"@,
                DealStage::Lost => "#ef4444"@,
            },
    {
        match self {
            DealStage::Lead => "#3b82f6",
            DealStage::Qualified => "#8b5cf6",
            DealStage::Proposal => "#f59e0b",
            DealStage::Negotiation => "#ec4899",
            DealStage::Won => "#10b981",
            DealStage::Lost => "#ef4444",
        }
    }

    /// The CSS class of the stage's badge.
    pub fn badge_class(&self) -> (r: &str)
        ensures
            r@ == match *self {
                DealStage::Lead => "badge-lead"@,
                DealStage::Qualified => "badge-qualified"@,
                DealStage::Proposal => "badge-proposal"@,
                DealStage::Negotiation => "badge-negotiation"@,
                DealStage::Won => "badge-won"@,
                DealStage::Lost => "badge-lost"@,
            },
    {
        match self {
            DealStage::Lead => "badge-lead",
            DealStage::Qualified => "badge-qualified",
            DealStage::Proposal => "badge-proposal",
            DealStage::Negotiation => "badge-negotiation",
            DealStage::Won => "badge-won",
            DealStage::Lost => "badge-lost",
        }
    }
}

/// A sales opportunity. Money is held in cents.
#[derive(Debug, PartialEq)]
pub struct Deal {
    pub id: String,
    pub title: String,
    /// The contact the deal is with; may name a contact that is gone.
    pub contact_id: Option<String>,
    pub company: String,
    /// What the deal is worth, in cents.
    pub value: u64,
    pub stage: DealStage,
    /// Chance of winning, in percent.
    pub probability: u8,
    pub expected_close: Option<Timestamp>,
    pub notes: Option<String>,
    pub created_at: Timestamp,
    pub updated_at: Timestamp,
}

/// A deal's value scaled by its probability, in hundredths of a cent.
pub open spec fn weighted_hundredths(d: Deal) -> int {
    d.value * d.probability
}

impl Deal {
    /// A new deal in the Lead stage, with a fresh identifier, stamped now.
    pub fn new(title: String, company: String, value: u64) -> (r: Deal)
        ensures
            r.id@.len() == 36,
            r.title == title,
            r.contact_id is None,
            r.company == company,
            r.value == value,
            r.stage == DealStage::Lead,
            r.probability == 10,
            r.expected_close is None,
            r.notes is None,
            r.created_at == r.updated_at,
    {
        let t = now();
        Deal {
            id: new_id(),
            title,
            contact_id: None,
            company,
            value,
            stage: DealStage::Lead,
            probability: 10,
            expected_close: None,
            notes: None,
            created_at: t,
            updated_at: t,
        }
    }

    /// The value scaled by the probability, in cents, rounded down.
    pub fn weighted_value(&self) -> (r: u128)
        ensures
            r == weighted_hundredths(*self) / 100,
    {
        let v = self.value as u128;
        let p = self.probability as u128;
        assert(v * p <= u64::MAX * 255) by (nonlinear_arith)
            requires
                v <= u64::MAX,
                p <= 255,
        ;
        (v * p) / 100
    }

    /// The value for display: `$1.5M`, `$150K` or `$950`.
    pub fn format_value(&self) -> (r: String)
        ensures
            r@ == currency_text(self.value as nat),
    {
        format_currency(self.value)
    }
}

impl Clone for Deal {
    fn clone(&self) -> (r: Self)
        ensures
            r == *self,
    {
        Deal {
            id: self.id.clone(),
            title: self.title.clone(),
            contact_id: self.contact_id.clone(),
            company: self.company.clone(),
            value: self.value,
            stage: self.stage,
            probability: self.probability,
            expected_close: self.expected_close,
            notes: self.notes.clone(),
            created_at: self.created_at,
            updated_at: self.updated_at,
        }
    }
}

impl Default for Deal {
    fn default() -> (r: Self)
        ensures
            r.id@.len() == 36,
            r.title@.len() == 0,
            r.company@.len() == 0,
            r.value == 0,
            r.stage == DealStage::Lead,
            r.probability == 10,
            r.created_at == r.updated_at,
    {
        Deal::new(String::new(), String::new(), 0)
    }
}

// ---------------------------------------------------------------------------
// Activity
// ---------------------------------------------------------------------------

/// The kind of a logged interaction.
#[derive(Clone, Copy, Debug, PartialEq, Eq, Structural)]
pub enum ActivityType {
    Note,
    Call,
    Email,
    Meeting,
    Task,
}

/// The name of an activity kind as shown to the user.
pub open spec fn activity_type_name(t: ActivityType) -> Seq<char> {
    match t {
        ActivityType::Note => "Note"@,
        ActivityType::Call => "Call"@,
        ActivityType::Email => "Email"@,
        ActivityType::Meeting => "Meeting"@,
        ActivityType::Task => "Task"@,
    }
}

impl ActivityType {
    /// The kind's name as shown to the user.
    pub fn display_name(&self) -> (r: &str)
        ensures
            r@ == activity_type_name(*self),
    {
        match self {
            ActivityType::Note => "Note",
            ActivityType::Call => "Call",
            ActivityType::Email => "Email",
            ActivityType::Meeting => "Meeting",
            ActivityType::Task => "Task",
        }
    }

    /// The symbol shown beside activities of the kind.
    pub fn icon(&self) -> (r: &str)
        ensures
            r@ == match *self {
                ActivityType::Note => "📝"@,
                ActivityType::Call => "📞"@,
                ActivityType::Email => "✉️"@,
                ActivityType::Meeting => "👥"@,
                ActivityType::Task => "✓"@,
            },
    {
        match self {
            ActivityType::Note => "📝",
            ActivityType::Call => "📞",
            ActivityType::Email => "✉️",
            ActivityType::Meeting => "👥",
            ActivityType::Task => "✓",
        }
    }
}

/// A logged interaction or a task, possibly tied to a contact and a deal.
#[derive(Debug, PartialEq)]
pub struct Activity {
    pub id: String,
    pub activity_type: ActivityType,
    pub title: String,
    pub description: Option<String>,
    pub contact_id: Option<String>,
    pub deal_id: Option<String>,
    pub completed: bool,
    pub due_date: Option<Timestamp>,
    pub created_at: Timestamp,
    pub updated_at: Timestamp,
}

/// The pattern of an activity's date, as in `Mar 05, 2024`.
pub open spec fn date_pattern() -> Seq<char> {
    "%b %d, %Y"@
}

/// The pattern of an activity's time of day, as in `14:30`.
pub open spec fn time_pattern() -> Seq<char> {
    "%H:%M"@
}

impl Activity {
    /// A new, open activity with a fresh identifier, stamped now.
    pub fn new(activity_type: ActivityType, title: String) -> (r: Activity)
        ensures
            r.id@.len() == 36,
            r.activity_type == activity_type,
            r.title == title,
            r.description is None,
            r.contact_id is None,
            r.deal_id is None,
            !r.completed,
            r.due_date is None,
            r.created_at == r.updated_at,
    {
        let t = now();
        Activity {
            id: new_id(),
            activity_type,
            title,
            description: None,
            contact_id: None,
            deal_id: None,
            completed: false,
            due_date: None,
            created_at: t,
            updated_at: t,
        }
    }

    /// The day the activity was created, as in `Mar 05, 2024`.
    pub fn format_date(&self) -> (r: String)
        ensures
            r@ == timestamp_text(self.created_at, date_pattern()),
    {
        let pattern = "%b %d, %Y";
        match format_utc(self.created_at.secs, self.created_at.nanos, pattern) {
            Some(s) => s,
            None => String::new(),
        }
    }

    /// The time of day the activity was created, as in `14:30`.
    pub fn format_time(&self) -> (r: String)
        ensures
            r@ == timestamp_text(self.created_at, time_pattern()),
    {
        let pattern = "%H:%M";
        match format_utc(self.created_at.secs, self.created_at.nanos, pattern) {
            Some(s) => s,
            None => String::new(),
        }
    }
}

impl Clone for Activity {
    fn clone(&self) -> (r: Self)
        ensures
            r == *self,
    {
        Activity {
            id: self.id.clone(),
            activity_type: self.activity_type,
            title: self.title.clone(),
            description: self.description.clone(),
            contact_id: self.contact_id.clone(),
            deal_id: self.deal_id.clone(),
            completed: self.completed,
            due_date: self.due_date,
            created_at: self.created_at,
            updated_at: self.updated_at,
        }
    }
}

impl Default for Activity {
    fn default() -> (r: Self)
        ensures
            r.id@.len() == 36,
            r.activity_type == ActivityType::Note,
            r.title@.len() == 0,
            !r.completed,
            r.created_at == r.updated_at,
    {
        Activity::new(ActivityType::Note, String::new())
    }
}

} // verus!
