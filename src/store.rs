//! The store: every contact, deal and activity, and what is derived from them.

use vstd::prelude::*;
use vstd::string::*;

use crate::models::{Activity, ActivityType, Contact, Deal, DealStage};
use crate::order::{desc_order, order_by_key_desc};

verus! {

/// All the records of the application, each kind in insertion order.
#[derive(Debug, PartialEq)]
pub struct AppData {
    pub contacts: Vec<Contact>,
    pub deals: Vec<Deal>,
    pub activities: Vec<Activity>,
}

// ---------------------------------------------------------------------------
// What the statistics are, over sequences of records
// ---------------------------------------------------------------------------

/// The deals still in the pipeline (not won, not lost), in order.
pub open spec fn open_deals(deals: Seq<Deal>) -> Seq<Deal> {
    deals.filter(|d: Deal| d.stage.is_open())
}

/// The deals in `stage`, in order.
pub open spec fn stage_deals(deals: Seq<Deal>, stage: DealStage) -> Seq<Deal> {
    deals.filter(|d: Deal| d.stage == stage)
}

/// The tasks not yet completed, in order.
pub open spec fn pending_tasks(acts: Seq<Activity>) -> Seq<Activity> {
    acts.filter(|a: Activity| a.activity_type == ActivityType::Task && !a.completed)
}

/// Whether a weak reference names the identifier `id`.
pub open spec fn refers_to(r: Option<String>, id: Seq<char>) -> bool {
    match r {
        Some(s) => s@ == id,
        None => false,
    }
}

/// The activities tied to the contact `id`, in order.
pub open spec fn contact_activities(acts: Seq<Activity>, id: Seq<char>) -> Seq<Activity> {
    acts.filter(|a: Activity| refers_to(a.contact_id, id))
}

/// The activities tied to the deal `id`, in order.
pub open spec fn deal_activities(acts: Seq<Activity>, id: Seq<char>) -> Seq<Activity> {
    acts.filter(|a: Activity| refers_to(a.deal_id, id))
}

/// The sum of the deals' values, in cents.
pub open spec fn value_sum(deals: Seq<Deal>) -> int
    decreases deals.len(),
{
    if deals.len() == 0 {
        0
    } else {
        value_sum(deals.drop_last()) + deals.last().value
    }
}

/// The sum of value times probability over the deals, in hundredths of a cent.
pub open spec fn weighted_sum(deals: Seq<Deal>) -> int
    decreases deals.len(),
{
    if deals.len() == 0 {
        0
    } else {
        weighted_sum(deals.drop_last()) + deals.last().value * deals.last().probability
    }
}

/// The creation instants of the activities, as keys for ordering.
pub open spec fn created_keys(acts: Seq<Activity>) -> Seq<i128> {
    acts.map_values(|a: Activity| a.created_at.spec_nanos() as i128)
}

/// The positions of the activities, newest first; equal instants keep
/// their order.
pub open spec fn newest_first(acts: Seq<Activity>) -> Seq<usize> {
    desc_order(created_keys(acts), acts.len())
}

/// Whether `r` is the first record of `items` whose identifier is `id`, or
/// `None` exactly when no record has it.
pub open spec fn first_with_id<T>(items: Seq<T>, id_of: spec_fn(T) -> Seq<char>, id: Seq<char>, r: Option<T>) -> bool {
    match r {
        None => forall|j: int| 0 <= j < items.len() ==> id_of(items[j]) != id,
        Some(x) => exists|j: int|
            0 <= j < items.len() && items[j] == x && id_of(items[j]) == id && forall|k: int|
                0 <= k < j ==> id_of(items[k]) != id,
    }
}

/// One step of a loop over `s` that keeps the elements meeting `p`.
pub proof fn lemma_filter_step<A>(s: Seq<A>, i: int, p: spec_fn(A) -> bool)
    requires
        0 <= i < s.len(),
    ensures
        s.take(i + 1).filter(p) == if p(s[i]) {
            s.take(i).filter(p).push(s[i])
        } else {
            s.take(i).filter(p)
        },
{
    reveal(Seq::filter);
    assert(s.take(i + 1).drop_last() =~= s.take(i));
}

/// Adding one deal at the end adds its value to the sums.
proof fn lemma_sums_push(deals: Seq<Deal>, d: Deal)
    ensures
        value_sum(deals.push(d)) == value_sum(deals) + d.value,
        weighted_sum(deals.push(d)) == weighted_sum(deals) + d.value * d.probability,
{
    assert(deals.push(d).drop_last() =~= deals);
}

impl AppData {
    /// A store with no records.
    pub fn new() -> (r: AppData)
        ensures
            r.contacts@.len() == 0,
            r.deals@.len() == 0,
            r.activities@.len() == 0,
    {
        AppData { contacts: Vec::new(), deals: Vec::new(), activities: Vec::new() }
    }

    /// The summed value of the open deals, in cents.
    pub fn total_pipeline_value(&self) -> (r: u128)
        ensures
            r == value_sum(open_deals(self.deals@)),
    {
        let mut total: u128 = 0;
        let n = self.deals.len();
        for i in 0..n
            invariant
                n == self.deals@.len(),
                total == value_sum(open_deals(self.deals@.take(i as int))),
                total <= i * (u64::MAX as int),
        {
            let d = &self.deals[i];
            proof {
                lemma_filter_step(self.deals@, i as int, |d: Deal| d.stage.is_open());
                lemma_sums_push(open_deals(self.deals@.take(i as int)), *d);
            }
            assert(total + d.value <= (i + 1) * (u64::MAX as int) <= u128::MAX) by (nonlinear_arith)
                requires
                    total <= i * (u64::MAX as int),
                    d.value <= u64::MAX,
                    i < n <= usize::MAX,
                    usize::MAX <= u64::MAX,
            ;
            if d.stage != DealStage::Won && d.stage != DealStage::Lost {
                total = total + d.value as u128;
            }
        }
        assert(self.deals@.take(n as int) =~= self.deals@);
        total
    }

    /// The open deals' values weighted by their probabilities, in cents,
    /// rounded down; capped where the exact total would not fit.
    pub fn weighted_pipeline_value(&self) -> (r: u128)
        ensures
            weighted_sum(open_deals(self.deals@)) <= u128::MAX ==> r == weighted_sum(
                open_deals(self.deals@),
            ) / 100,
            weighted_sum(open_deals(self.deals@)) > u128::MAX ==> r == u128::MAX / 100,
    {
        let mut total: u128 = 0;
        let n = self.deals.len();
        for i in 0..n
            invariant
                n == self.deals@.len(),
                weighted_sum(open_deals(self.deals@.take(i as int))) <= u128::MAX ==> total
                    == weighted_sum(open_deals(self.deals@.take(i as int))),
                weighted_sum(open_deals(self.deals@.take(i as int))) > u128::MAX ==> total
                    == u128::MAX,
                weighted_sum(open_deals(self.deals@.take(i as int))) >= 0,
        {
            let d = &self.deals[i];
            proof {
                lemma_filter_step(self.deals@, i as int, |d: Deal| d.stage.is_open());
                lemma_sums_push(open_deals(self.deals@.take(i as int)), *d);
            }
            let v = d.value as u128;
            let p = d.probability as u128;
            assert(v * p <= u64::MAX * 255 && v * p >= 0) by (nonlinear_arith)
                requires
                    v <= u64::MAX,
                    p <= 255,
            ;
            if d.stage != DealStage::Won && d.stage != DealStage::Lost {
                total = total.saturating_add(v * p);
            }
        }
        assert(self.deals@.take(n as int) =~= self.deals@);
        total / 100
    }

    /// The summed value of the won deals, in cents.
    pub fn won_deals_value(&self) -> (r: u128)
        ensures
            r == value_sum(stage_deals(self.deals@, DealStage::Won)),
    {
        let mut total: u128 = 0;
        let n = self.deals.len();
        for i in 0..n
            invariant
                n == self.deals@.len(),
                total == value_sum(stage_deals(self.deals@.take(i as int), DealStage::Won)),
                total <= i * (u64::MAX as int),
        {
            let d = &self.deals[i];
            proof {
                lemma_filter_step(self.deals@, i as int, |d: Deal| d.stage == DealStage::Won);
                lemma_sums_push(stage_deals(self.deals@.take(i as int), DealStage::Won), *d);
            }
            assert(total + d.value <= (i + 1) * (u64::MAX as int) <= u128::MAX) by (nonlinear_arith)
                requires
                    total <= i * (u64::MAX as int),
                    d.value <= u64::MAX,
                    i < n <= usize::MAX,
                    usize::MAX <= u64::MAX,
            ;
            if d.stage == DealStage::Won {
                total = total + d.value as u128;
            }
        }
        assert(self.deals@.take(n as int) =~= self.deals@);
        total
    }

    /// The deals in `stage`, in store order.
    pub fn deals_by_stage(&self, stage: DealStage) -> (r: Vec<&Deal>)
        ensures
            r@.map_values(|d: &Deal| *d) == stage_deals(self.deals@, stage),
    {
        let mut r: Vec<&Deal> = Vec::new();
        let n = self.deals.len();
        for i in 0..n
            invariant
                n == self.deals@.len(),
                r@.map_values(|d: &Deal| *d) == stage_deals(self.deals@.take(i as int), stage),
        {
            let d = &self.deals[i];
            proof {
                lemma_filter_step(self.deals@, i as int, |d: Deal| d.stage == stage);
            }
            if d.stage == stage {
                r.push(d);
            }
        }
        assert(self.deals@.take(n as int) =~= self.deals@);
        r
    }

    /// How many deals are still open.
    pub fn active_deals_count(&self) -> (r: usize)
        ensures
            r == open_deals(self.deals@).len(),
    {
        let mut count: usize = 0;
        let n = self.deals.len();
        for i in 0..n
            invariant
                n == self.deals@.len(),
                count == open_deals(self.deals@.take(i as int)).len(),
                count <= i,
        {
            proof {
                lemma_filter_step(self.deals@, i as int, |d: Deal| d.stage.is_open());
            }
            let stage = self.deals[i].stage;
            if stage != DealStage::Won && stage != DealStage::Lost {
                count = count + 1;
            }
        }
        assert(self.deals@.take(n as int) =~= self.deals@);
        count
    }

    /// How many tasks are not yet completed.
    pub fn pending_tasks_count(&self) -> (r: usize)
        ensures
            r == pending_tasks(self.activities@).len(),
    {
        let mut count: usize = 0;
        let n = self.activities.len();
        for i in 0..n
            invariant
                n == self.activities@.len(),
                count == pending_tasks(self.activities@.take(i as int)).len(),
                count <= i,
        {
            proof {
                lemma_filter_step(
                    self.activities@,
                    i as int,
                    |a: Activity| a.activity_type == ActivityType::Task && !a.completed,
                );
            }
            let a = &self.activities[i];
            if a.activity_type == ActivityType::Task && !a.completed {
                count = count + 1;
            }
        }
        assert(self.activities@.take(n as int) =~= self.activities@);
        count
    }

    /// The first contact whose identifier is `id`.
    pub fn contact_by_id(&self, id: &str) -> (r: Option<&Contact>)
        ensures
            first_with_id(self.contacts@, |c: Contact| c.id@, id@, match r {
                Some(c) => Some(*c),
                None => None,
            }),
    {
        let target = String::from_str(id);
        let n = self.contacts.len();
        for i in 0..n
            invariant
                n == self.contacts@.len(),
                target@ == id@,
                forall|k: int| 0 <= k < i ==> self.contacts@[k].id@ != id@,
        {
            if self.contacts[i].id == target {
                return Some(&self.contacts[i]);
            }
        }
        None
    }

    /// The first deal whose identifier is `id`.
    pub fn deal_by_id(&self, id: &str) -> (r: Option<&Deal>)
        ensures
            first_with_id(self.deals@, |d: Deal| d.id@, id@, match r {
                Some(d) => Some(*d),
                None => None,
            }),
    {
        let target = String::from_str(id);
        let n = self.deals.len();
        for i in 0..n
            invariant
                n == self.deals@.len(),
                target@ == id@,
                forall|k: int| 0 <= k < i ==> self.deals@[k].id@ != id@,
        {
            if self.deals[i].id == target {
                return Some(&self.deals[i]);
            }
        }
        None
    }

    /// The activities tied to the contact `contact_id`, in store order.
    pub fn activities_for_contact(&self, contact_id: &str) -> (r: Vec<&Activity>)
        ensures
            r@.map_values(|a: &Activity| *a) == contact_activities(self.activities@, contact_id@),
    {
        let target = String::from_str(contact_id);
        let mut r: Vec<&Activity> = Vec::new();
        let n = self.activities.len();
        for i in 0..n
            invariant
                n == self.activities@.len(),
                target@ == contact_id@,
                r@.map_values(|a: &Activity| *a) == contact_activities(
                    self.activities@.take(i as int),
                    contact_id@,
                ),
        {
            let a = &self.activities[i];
            proof {
                lemma_filter_step(
                    self.activities@,
                    i as int,
                    |a: Activity| refers_to(a.contact_id, contact_id@),
                );
            }
            if refers_to_exec(&a.contact_id, &target) {
                r.push(a);
            }
        }
        assert(self.activities@.take(n as int) =~= self.activities@);
        r
    }

    /// The activities tied to the deal `deal_id`, in store order.
    pub fn activities_for_deal(&self, deal_id: &str) -> (r: Vec<&Activity>)
        ensures
            r@.map_values(|a: &Activity| *a) == deal_activities(self.activities@, deal_id@),
    {
        let target = String::from_str(deal_id);
        let mut r: Vec<&Activity> = Vec::new();
        let n = self.activities.len();
        for i in 0..n
            invariant
                n == self.activities@.len(),
                target@ == deal_id@,
                r@.map_values(|a: &Activity| *a) == deal_activities(
                    self.activities@.take(i as int),
                    deal_id@,
                ),
        {
            let a = &self.activities[i];
            proof {
                lemma_filter_step(
                    self.activities@,
                    i as int,
                    |a: Activity| refers_to(a.deal_id, deal_id@),
                );
            }
            if refers_to_exec(&a.deal_id, &target) {
                r.push(a);
            }
        }
        assert(self.activities@.take(n as int) =~= self.activities@);
        r
    }

    /// At most `limit` activities, newest first.
    pub fn recent_activities(&self, limit: usize) -> (r: Vec<&Activity>)
        ensures
            r@.len() == if limit < self.activities@.len() {
                limit as int
            } else {
                self.activities@.len() as int
            },
            forall|k: int|
                0 <= k < r@.len() ==> *r@[k] == self.activities@[newest_first(
                    self.activities@,
                )[k] as int],
    {
        let n = self.activities.len();
        let mut keys: Vec<i128> = Vec::new();
        for i in 0..n
            invariant
                n == self.activities@.len(),
                keys@ == created_keys(self.activities@).take(i as int),
        {
            let k = self.activities[i].created_at.total_nanos();
            keys.push(k);
            assert(keys@ =~= created_keys(self.activities@).take(i + 1));
        }
        assert(keys@ =~= created_keys(self.activities@));
        let order = order_by_key_desc(&keys);
        let m = if limit < n {
            limit
        } else {
            n
        };
        let mut r: Vec<&Activity> = Vec::new();
        for k in 0..m
            invariant
                m <= n == self.activities@.len() == order@.len(),
                order@ == newest_first(self.activities@),
                forall|j: int| 0 <= j < order@.len() ==> order@[j] < n,
                r@.len() == k,
                forall|j: int|
                    0 <= j < k ==> *r@[j] == self.activities@[order@[j] as int],
        {
            r.push(&self.activities[order[k]]);
        }
        r
    }
}

/// Whether the weak reference `r` names `target`.
fn refers_to_exec(r: &Option<String>, target: &String) -> (b: bool)
    ensures
        b == refers_to(*r, target@),
{
    match r {
        Some(s) => *s == *target,
        None => false,
    }
}

impl Default for AppData {
    fn default() -> (r: Self)
        ensures
            r.contacts@.len() == 0,
            r.deals@.len() == 0,
            r.activities@.len() == 0,
    {
        AppData::new()
    }
}

} // verus!
