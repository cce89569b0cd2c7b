//! The operations that change the store: adding, replacing and removing
//! records, moving deals through the pipeline, and ticking tasks off.

use vstd::prelude::*;
use vstd::string::*;

use crate::models::{stage_probability, Activity, Contact, Deal, DealStage};
use crate::outside::{new_id, now};
use crate::store::AppData;

verus! {

/// A record that carries an identifier.
pub trait Record: Sized {
    /// The record's identifier.
    spec fn spec_id(&self) -> Seq<char>;

    /// The record's identifier, for comparison.
    fn id_string(&self) -> (r: &String)
        ensures
            r@ == self.spec_id(),
    ;
}

impl Record for Contact {
    open spec fn spec_id(&self) -> Seq<char> {
        self.id@
    }

    fn id_string(&self) -> (r: &String) {
        &self.id
    }
}

impl Record for Deal {
    open spec fn spec_id(&self) -> Seq<char> {
        self.id@
    }

    fn id_string(&self) -> (r: &String) {
        &self.id
    }
}

impl Record for Activity {
    open spec fn spec_id(&self) -> Seq<char> {
        self.id@
    }

    fn id_string(&self) -> (r: &String) {
        &self.id
    }
}

/// Whether some record of `items` has the identifier `id`.
pub open spec fn has_id<T: Record>(items: Seq<T>, id: Seq<char>) -> bool {
    exists|j: int| 0 <= j < items.len() && items[j].spec_id() == id
}

/// No two records of `items` share an identifier.
pub open spec fn ids_unique<T: Record>(items: Seq<T>) -> bool {
    forall|a: int, b: int|
        0 <= a < items.len() && 0 <= b < items.len() && a != b ==> items[a].spec_id()
            != items[b].spec_id()
}

/// Within each kind of record of the store, no two share an identifier.
pub open spec fn store_ids_unique(data: AppData) -> bool {
    &&& ids_unique(data.contacts@)
    &&& ids_unique(data.deals@)
    &&& ids_unique(data.activities@)
}

/// The position of the first record with identifier `id`, or -1.
pub open spec fn first_index<T: Record>(items: Seq<T>, id: Seq<char>) -> int
    decreases items.len(),
{
    if items.len() == 0 {
        -1
    } else if items[0].spec_id() == id {
        0
    } else {
        let k = first_index(items.drop_first(), id);
        if k < 0 {
            -1
        } else {
            k + 1
        }
    }
}

/// `items` with every record of identifier `id` taken out.
pub open spec fn without_id<T: Record>(items: Seq<T>, id: Seq<char>) -> Seq<T> {
    items.filter(|x: T| x.spec_id() != id)
}

/// `items` with the first record of `x`'s identifier replaced by `x`;
/// unchanged where no record has it.
pub open spec fn replaced<T: Record>(items: Seq<T>, x: T) -> Seq<T> {
    let j = first_index(items, x.spec_id());
    if j < 0 {
        items
    } else {
        items.update(j, x)
    }
}

/// What `first_index` finds: the first match, or -1 exactly when there is none.
pub proof fn lemma_first_index<T: Record>(items: Seq<T>, id: Seq<char>)
    ensures
        -1 <= first_index(items, id) < items.len(),
        first_index(items, id) < 0 <==> !has_id(items, id),
        first_index(items, id) >= 0 ==> items[first_index(items, id)].spec_id() == id,
        forall|k: int| 0 <= k < first_index(items, id) ==> items[k].spec_id() != id,
    decreases items.len(),
{
    if items.len() > 0 {
        let rest = items.drop_first();
        lemma_first_index(rest, id);
        if items[0].spec_id() != id {
            assert forall|k: int| 0 < k < items.len() implies items[k] == rest[k - 1] by {}
            if has_id(items, id) {
                let j = choose|j: int| 0 <= j < items.len() && items[j].spec_id() == id;
                assert(rest[j - 1].spec_id() == id);
            }
            if has_id(rest, id) {
                let j = choose|j: int| 0 <= j < rest.len() && rest[j].spec_id() == id;
                assert(items[j + 1].spec_id() == id);
            }
        }
    }
}

/// Adding a record whose identifier no stored record has keeps the
/// identifiers unique, and the new one differs from every earlier one.
pub proof fn lemma_add_keeps_ids_unique<T: Record>(before: Seq<T>, after: Seq<T>)
    requires
        ids_unique(before),
        after.len() == before.len() + 1,
        after.drop_last() == before,
        !has_id(before, after.last().spec_id()),
    ensures
        ids_unique(after),
        forall|j: int| 0 <= j < before.len() ==> before[j].spec_id() != after.last().spec_id(),
{
    assert forall|j: int| 0 <= j < before.len() implies after[j] == before[j] by {
        assert(after.drop_last()[j] == after[j]);
    }
    assert forall|j: int| 0 <= j < before.len() implies before[j].spec_id()
        != after.last().spec_id() by {
        if before[j].spec_id() == after.last().spec_id() {
            assert(has_id(before, after.last().spec_id()));
        }
    }
}

/// Replacing by an identifier that no record has changes nothing.
pub proof fn lemma_update_missing_is_noop<T: Record>(items: Seq<T>, x: T)
    requires
        !has_id(items, x.spec_id()),
    ensures
        replaced(items, x) == items,
{
    lemma_first_index(items, x.spec_id());
}

/// Replacing a record never changes which identifier stands where.
pub proof fn lemma_update_keeps_ids<T: Record>(items: Seq<T>, x: T)
    ensures
        replaced(items, x).len() == items.len(),
        forall|k: int|
            0 <= k < items.len() ==> #[trigger] replaced(items, x)[k].spec_id()
                == items[k].spec_id(),
{
    lemma_first_index(items, x.spec_id());
}

/// Replacing a record keeps the identifiers unique.
pub proof fn lemma_update_keeps_ids_unique<T: Record>(items: Seq<T>, x: T)
    requires
        ids_unique(items),
    ensures
        ids_unique(replaced(items, x)),
{
    lemma_update_keeps_ids(items, x);
    let r = replaced(items, x);
    assert forall|a: int, b: int| 0 <= a < r.len() && 0 <= b < r.len() && a != b implies r[a].spec_id()
        != r[b].spec_id() by {
        assert(r[a].spec_id() == items[a].spec_id());
        assert(r[b].spec_id() == items[b].spec_id());
    }
}

/// Removing records keeps the rest, so it keeps identifiers unique.
pub proof fn lemma_delete_keeps_ids_unique<T: Record>(items: Seq<T>, id: Seq<char>)
    requires
        ids_unique(items),
    ensures
        ids_unique(without_id(items, id)),
        forall|k: int|
            0 <= k < without_id(items, id).len() ==> items.contains(
                #[trigger] without_id(items, id)[k],
            ),
    decreases items.len(),
{
    reveal(Seq::filter);
    if items.len() > 0 {
        let rest = items.drop_last();
        assert(ids_unique(rest)) by {
            assert forall|a: int, b: int|
                0 <= a < rest.len() && 0 <= b < rest.len() && a != b implies rest[a].spec_id()
                != rest[b].spec_id() by {
                assert(rest[a] == items[a] && rest[b] == items[b]);
            }
        }
        lemma_delete_keeps_ids_unique(rest, id);
        let kept = without_id(rest, id);
        let last = items.last();
        assert forall|k: int| 0 <= k < kept.len() implies items.contains(kept[k]) by {
            let j = choose|j: int| 0 <= j < rest.len() && rest[j] == kept[k];
            assert(items[j] == kept[k]);
        }
        if last.spec_id() != id {
            let r = kept.push(last);
            assert(without_id(items, id) == r);
            assert forall|k: int| 0 <= k < kept.len() implies kept[k].spec_id() != last.spec_id() by {
                let j = choose|j: int| 0 <= j < rest.len() && rest[j] == kept[k];
                assert(items[j] == kept[k]);
                assert(items[items.len() - 1] == last);
            }
            assert forall|k: int| 0 <= k < r.len() implies items.contains(r[k]) by {
                if k == kept.len() {
                    assert(items[items.len() - 1] == r[k]);
                }
            }
            assert forall|a: int, b: int| 0 <= a < r.len() && 0 <= b < r.len() && a != b
                implies r[a].spec_id() != r[b].spec_id() by {
                if a < kept.len() && b < kept.len() {
                    assert(r[a] == kept[a] && r[b] == kept[b]);
                }
            }
        }
    }
}

/// Removing by an identifier that no record has changes nothing.
pub proof fn lemma_delete_missing_is_noop<T: Record>(items: Seq<T>, id: Seq<char>)
    requires
        !has_id(items, id),
    ensures
        without_id(items, id) == items,
    decreases items.len(),
{
    reveal(Seq::filter);
    if items.len() > 0 {
        let rest = items.drop_last();
        assert(!has_id(rest, id)) by {
            if has_id(rest, id) {
                let j = choose|j: int| 0 <= j < rest.len() && rest[j].spec_id() == id;
                assert(items[j].spec_id() == id);
            }
        }
        lemma_delete_missing_is_noop(rest, id);
        assert(items.last().spec_id() != id) by {
            assert(items[items.len() - 1].spec_id() != id);
        }
        assert(rest.push(items.last()) =~= items);
    }
}

/// Where identifiers are unique, removing the identifier of the record at
/// `j` removes that record alone and keeps the others in their order.
pub proof fn lemma_delete_existing_removes_one<T: Record>(items: Seq<T>, j: int)
    requires
        ids_unique(items),
        0 <= j < items.len(),
    ensures
        without_id(items, items[j].spec_id()) == items.remove(j),
        without_id(items, items[j].spec_id()).len() == items.len() - 1,
    decreases items.len(),
{
    reveal(Seq::filter);
    let id = items[j].spec_id();
    let rest = items.drop_last();
    let last = items.len() - 1;
    if j == last {
        assert(!has_id(rest, id)) by {
            if has_id(rest, id) {
                let k = choose|k: int| 0 <= k < rest.len() && rest[k].spec_id() == id;
                assert(items[k].spec_id() == id);
            }
        }
        lemma_delete_missing_is_noop(rest, id);
        assert(items.remove(j) =~= rest);
    } else {
        assert(ids_unique(rest)) by {
            assert forall|a: int, b: int|
                0 <= a < rest.len() && 0 <= b < rest.len() && a != b implies rest[a].spec_id()
                != rest[b].spec_id() by {
                assert(rest[a] == items[a] && rest[b] == items[b]);
            }
        }
        assert(rest[j] == items[j]);
        lemma_delete_existing_removes_one(rest, j);
        assert(items.last().spec_id() != id) by {
            assert(items[last].spec_id() != items[j].spec_id());
        }
        assert(rest.remove(j).push(items.last()) =~= items.remove(j));
    }
}

/// The position of the first record with identifier `id`.
fn position_of<T: Record>(items: &Vec<T>, id: &String) -> (r: Option<usize>)
    ensures
        match r {
            Some(j) => j == first_index(items@, id@) && j < items@.len(),
            None => first_index(items@, id@) < 0,
        },
{
    proof {
        lemma_first_index(items@, id@);
    }
    let n = items.len();
    for i in 0..n
        invariant
            n == items@.len(),
            -1 <= first_index(items@, id@) < n,
            first_index(items@, id@) < 0 <==> !has_id(items@, id@),
            first_index(items@, id@) >= 0 ==> items@[first_index(items@, id@)].spec_id() == id@,
            forall|k: int| 0 <= k < first_index(items@, id@) ==> items@[k].spec_id() != id@,
            forall|k: int| 0 <= k < i ==> items@[k].spec_id() != id@,
    {
        if *items[i].id_string() == *id {
            return Some(i);
        }
    }
    None
}

/// Puts `x` in place of the first record with its identifier.
fn replace_record<T: Record>(items: &mut Vec<T>, x: T)
    ensures
        final(items)@ == replaced(old(items)@, x),
{
    let id = x.id_string().clone();
    match position_of(items, &id) {
        Some(j) => items.set(j, x),
        None => {},
    }
}

/// Takes out every record whose identifier is `id`.
fn remove_records<T: Record>(items: &mut Vec<T>, id: &String)
    ensures
        final(items)@ == without_id(old(items)@, id@),
{
    let ghost start = items@;
    let mut i: usize = 0;
    let ghost mut k: int = 0;
    while i < items.len()
        invariant
            0 <= k <= start.len(),
            items@ == without_id(start.take(k), id@) + start.skip(k),
            i == without_id(start.take(k), id@).len(),
        decreases items@.len() - i,
    {
        proof {
            lemma_filter_step_inline(start, k, id@);
            assert(items@[i as int] == start[k]);
        }
        if *items[i].id_string() == *id {
            items.remove(i);
            proof {
                assert(items@ =~= without_id(start.take(k + 1), id@) + start.skip(k + 1));
            }
        } else {
            proof {
                assert(items@ =~= without_id(start.take(k + 1), id@) + start.skip(k + 1));
            }
            i = i + 1;
        }
        proof {
            k = k + 1;
        }
    }
    proof {
        assert(start.skip(k).len() == 0);
        assert(start.take(k) =~= start);
        assert(items@ =~= without_id(start, id@));
    }
}

/// One record further into `without_id`.
proof fn lemma_filter_step_inline<T: Record>(s: Seq<T>, k: int, id: Seq<char>)
    requires
        0 <= k < s.len(),
    ensures
        without_id(s.take(k + 1), id) == if s[k].spec_id() != id {
            without_id(s.take(k), id).push(s[k])
        } else {
            without_id(s.take(k), id)
        },
{
    reveal(Seq::filter);
    assert(s.take(k + 1).drop_last() =~= s.take(k));
}

/// An identifier that no record of `items` has: `preferred` where it is
/// non-empty and unused, otherwise a new one.
fn fresh_id<T: Record>(items: &Vec<T>, preferred: String) -> (r: String)
    ensures
        r@.len() > 0,
        !has_id(items@, r@),
        preferred@.len() > 0 && !has_id(items@, preferred@) ==> r == preferred,
{
    if preferred.as_str().unicode_len() > 0 {
        match position_of(items, &preferred) {
            None => {
                proof {
                    lemma_first_index(items@, preferred@);
                }
                return preferred;
            },
            Some(_) => {
                proof {
                    lemma_first_index(items@, preferred@);
                }
            },
        }
    }
    // The longest identifier in use bounds how far a candidate may grow
    // before it cannot clash with any.
    let ghost keep = preferred@.len() > 0 && !has_id(items@, preferred@);
    assert(!keep);
    let n = items.len();
    let mut longest: usize = 0;
    for i in 0..n
        invariant
            !keep,
            keep == (preferred@.len() > 0 && !has_id(items@, preferred@)),
            n == items@.len(),
            forall|k: int| 0 <= k < i ==> items@[k].spec_id().len() <= longest,
    {
        let len = items[i].id_string().as_str().unicode_len();
        if len > longest {
            longest = len;
        }
    }
    let mut candidate = new_id();
    while candidate.as_str().unicode_len() <= longest
        invariant
            !keep,
            keep == (preferred@.len() > 0 && !has_id(items@, preferred@)),
            candidate@.len() > 0,
            forall|k: int| 0 <= k < items@.len() ==> items@[k].spec_id().len() <= longest,
        decreases longest + 1 - candidate@.len(),
    {
        match position_of(items, &candidate) {
            None => {
                proof {
                    lemma_first_index(items@, candidate@);
                }
                return candidate;
            },
            Some(_) => {},
        }
        proof {
            reveal_strlit("-");
        }
        let ghost before = candidate@;
        candidate.append("-");
        assert(candidate@.len() == before.len() + 1);
    }
    assert(!has_id(items@, candidate@));
    candidate
}

/// Whether `c` is `x` under the identifier `id`.
pub open spec fn with_id_contact(c: Contact, x: Contact, id: String) -> bool {
    c == (Contact { id, ..x })
}

/// Adds a contact at the end. Its identifier is kept where it is non-empty
/// and unused; otherwise the contact gets a fresh one.
pub fn add_contact(data: &mut AppData, contact: Contact)
    ensures
        final(data).deals@ == old(data).deals@,
        final(data).activities@ == old(data).activities@,
        final(data).contacts@.len() == old(data).contacts@.len() + 1,
        final(data).contacts@.drop_last() == old(data).contacts@,
        final(data).contacts@.last() == (Contact { id: final(data).contacts@.last().id, ..contact }),
        final(data).contacts@.last().id@.len() > 0,
        !has_id(old(data).contacts@, final(data).contacts@.last().id@),
        contact.id@.len() > 0 && !has_id(old(data).contacts@, contact.id@)
            ==> final(data).contacts@.last().id == contact.id,
        store_ids_unique(*old(data)) ==> store_ids_unique(*final(data)),
{
    let mut contact = contact;
    let id = fresh_id(&data.contacts, contact.id.clone());
    contact.id = id;
    data.contacts.push(contact);
    assert(data.contacts@.drop_last() =~= old(data).contacts@);
    proof {
        if store_ids_unique(*old(data)) {
            lemma_add_keeps_ids_unique(old(data).contacts@, data.contacts@);
        }
    }
}

/// Puts `contact` in place of the stored contact with its identifier; does
/// nothing where there is none.
pub fn update_contact(data: &mut AppData, contact: Contact)
    ensures
        final(data).contacts@ == replaced(old(data).contacts@, contact),
        store_ids_unique(*old(data)) ==> store_ids_unique(*final(data)),
        final(data).deals@ == old(data).deals@,
        final(data).activities@ == old(data).activities@,
{
    replace_record(&mut data.contacts, contact);
    proof {
        if store_ids_unique(*old(data)) {
            lemma_update_keeps_ids_unique(old(data).contacts@, contact);
        }
    }
}

/// Removes every contact whose identifier is `id`.
pub fn delete_contact(data: &mut AppData, id: &str)
    ensures
        final(data).contacts@ == without_id(old(data).contacts@, id@),
        store_ids_unique(*old(data)) ==> store_ids_unique(*final(data)),
        final(data).deals@ == old(data).deals@,
        final(data).activities@ == old(data).activities@,
{
    let target = String::from_str(id);
    remove_records(&mut data.contacts, &target);
    proof {
        if store_ids_unique(*old(data)) {
            lemma_delete_keeps_ids_unique(old(data).contacts@, id@);
        }
    }
}

/// Adds a deal at the end. Its identifier is kept where it is non-empty
/// and unused; otherwise the deal gets a fresh one.
pub fn add_deal(data: &mut AppData, deal: Deal)
    ensures
        final(data).contacts@ == old(data).contacts@,
        final(data).activities@ == old(data).activities@,
        final(data).deals@.len() == old(data).deals@.len() + 1,
        final(data).deals@.drop_last() == old(data).deals@,
        final(data).deals@.last() == (Deal { id: final(data).deals@.last().id, ..deal }),
        final(data).deals@.last().id@.len() > 0,
        !has_id(old(data).deals@, final(data).deals@.last().id@),
        deal.id@.len() > 0 && !has_id(old(data).deals@, deal.id@) ==> final(data).deals@.last().id
            == deal.id,
        store_ids_unique(*old(data)) ==> store_ids_unique(*final(data)),
{
    let mut deal = deal;
    let id = fresh_id(&data.deals, deal.id.clone());
    deal.id = id;
    data.deals.push(deal);
    assert(data.deals@.drop_last() =~= old(data).deals@);
    proof {
        if store_ids_unique(*old(data)) {
            lemma_add_keeps_ids_unique(old(data).deals@, data.deals@);
        }
    }
}

/// Puts `deal` in place of the stored deal with its identifier; does
/// nothing where there is none.
pub fn update_deal(data: &mut AppData, deal: Deal)
    ensures
        final(data).deals@ == replaced(old(data).deals@, deal),
        store_ids_unique(*old(data)) ==> store_ids_unique(*final(data)),
        final(data).contacts@ == old(data).contacts@,
        final(data).activities@ == old(data).activities@,
{
    replace_record(&mut data.deals, deal);
    proof {
        if store_ids_unique(*old(data)) {
            lemma_update_keeps_ids_unique(old(data).deals@, deal);
        }
    }
}

/// Moves the deal `deal_id` to `new_stage`, resets its probability to the
/// stage's own and stamps it now; does nothing where there is no such deal.
pub fn update_deal_stage(data: &mut AppData, deal_id: &str, new_stage: DealStage)
    ensures
        final(data).contacts@ == old(data).contacts@,
        final(data).activities@ == old(data).activities@,
        final(data).deals@.len() == old(data).deals@.len(),
        forall|k: int|
            0 <= k < old(data).deals@.len() ==> #[trigger] final(data).deals@[k].id
                == old(data).deals@[k].id,
        store_ids_unique(*old(data)) ==> store_ids_unique(*final(data)),
        ({
            let j = first_index(old(data).deals@, deal_id@);
            &&& j < 0 ==> final(data).deals@ == old(data).deals@
            &&& j >= 0 ==> final(data).deals@ == old(data).deals@.update(
                j,
                Deal {
                    stage: new_stage,
                    probability: stage_probability(new_stage),
                    updated_at: final(data).deals@[j].updated_at,
                    ..old(data).deals@[j]
                },
            )
            &&& j >= 0 && new_stage == DealStage::Won ==> final(data).deals@[j].probability == 100
            &&& j >= 0 && new_stage == DealStage::Lost ==> final(data).deals@[j].probability == 0
        }),
{
    let target = String::from_str(deal_id);
    match position_of(&data.deals, &target) {
        Some(j) => {
            let mut deal = data.deals[j].clone();
            deal.stage = new_stage;
            deal.updated_at = now();
            deal.probability = new_stage.default_probability();
            data.deals.set(j, deal);
        },
        None => {},
    }
}

/// Removes every deal whose identifier is `id`.
pub fn delete_deal(data: &mut AppData, id: &str)
    ensures
        final(data).deals@ == without_id(old(data).deals@, id@),
        store_ids_unique(*old(data)) ==> store_ids_unique(*final(data)),
        final(data).contacts@ == old(data).contacts@,
        final(data).activities@ == old(data).activities@,
{
    let target = String::from_str(id);
    remove_records(&mut data.deals, &target);
    proof {
        if store_ids_unique(*old(data)) {
            lemma_delete_keeps_ids_unique(old(data).deals@, id@);
        }
    }
}

/// Adds an activity at the end. Its identifier is kept where it is
/// non-empty and unused; otherwise the activity gets a fresh one.
pub fn add_activity(data: &mut AppData, activity: Activity)
    ensures
        final(data).contacts@ == old(data).contacts@,
        final(data).deals@ == old(data).deals@,
        final(data).activities@.len() == old(data).activities@.len() + 1,
        final(data).activities@.drop_last() == old(data).activities@,
        final(data).activities@.last() == (Activity {
            id: final(data).activities@.last().id,
            ..activity
        }),
        final(data).activities@.last().id@.len() > 0,
        !has_id(old(data).activities@, final(data).activities@.last().id@),
        activity.id@.len() > 0 && !has_id(old(data).activities@, activity.id@)
            ==> final(data).activities@.last().id == activity.id,
        store_ids_unique(*old(data)) ==> store_ids_unique(*final(data)),
{
    let mut activity = activity;
    let id = fresh_id(&data.activities, activity.id.clone());
    activity.id = id;
    data.activities.push(activity);
    assert(data.activities@.drop_last() =~= old(data).activities@);
    proof {
        if store_ids_unique(*old(data)) {
            lemma_add_keeps_ids_unique(old(data).activities@, data.activities@);
        }
    }
}

/// Puts `activity` in place of the stored activity with its identifier;
/// does nothing where there is none.
pub fn update_activity(data: &mut AppData, activity: Activity)
    ensures
        final(data).activities@ == replaced(old(data).activities@, activity),
        store_ids_unique(*old(data)) ==> store_ids_unique(*final(data)),
        final(data).contacts@ == old(data).contacts@,
        final(data).deals@ == old(data).deals@,
{
    replace_record(&mut data.activities, activity);
    proof {
        if store_ids_unique(*old(data)) {
            lemma_update_keeps_ids_unique(old(data).activities@, activity);
        }
    }
}

/// Flips whether the activity `id` is completed and stamps it now; does
/// nothing where there is no such activity.
pub fn toggle_activity_completed(data: &mut AppData, id: &str)
    ensures
        final(data).contacts@ == old(data).contacts@,
        final(data).deals@ == old(data).deals@,
        final(data).activities@.len() == old(data).activities@.len(),
        forall|k: int|
            0 <= k < old(data).activities@.len() ==> #[trigger] final(data).activities@[k].id
                == old(data).activities@[k].id,
        store_ids_unique(*old(data)) ==> store_ids_unique(*final(data)),
        ({
            let j = first_index(old(data).activities@, id@);
            &&& j < 0 ==> final(data).activities@ == old(data).activities@
            &&& j >= 0 ==> final(data).activities@ == old(data).activities@.update(
                j,
                Activity {
                    completed: !old(data).activities@[j].completed,
                    updated_at: final(data).activities@[j].updated_at,
                    ..old(data).activities@[j]
                },
            )
        }),
{
    let target = String::from_str(id);
    match position_of(&data.activities, &target) {
        Some(j) => {
            let mut activity = data.activities[j].clone();
            activity.completed = !activity.completed;
            activity.updated_at = now();
            data.activities.set(j, activity);
        },
        None => {},
    }
}

/// Removes every activity whose identifier is `id`.
pub fn delete_activity(data: &mut AppData, id: &str)
    ensures
        final(data).activities@ == without_id(old(data).activities@, id@),
        store_ids_unique(*old(data)) ==> store_ids_unique(*final(data)),
        final(data).contacts@ == old(data).contacts@,
        final(data).deals@ == old(data).deals@,
{
    let target = String::from_str(id);
    remove_records(&mut data.activities, &target);
    proof {
        if store_ids_unique(*old(data)) {
            lemma_delete_keeps_ids_unique(old(data).activities@, id@);
        }
    }
}

} // verus!
