//! The order of lists: campaigns by the time of their creation, oldest
//! first, and discovery items by name. Both orders are stable: items that
//! compare equal stay in the order in which they came.

use crate::records::{item_views, CampaignDiscoveryItem, CampaignDiscoveryItemView};
use crate::types::{campaign_views, Campaign, CampaignView};
use vstd::prelude::*;
use vstd::seq_lib::to_multiset_insert;
use vstd::string::*;

verus! {

/// Whether `a` comes before `b` or equals it, in the order of texts:
/// character by character, by code point, a beginning before its
/// continuations.
pub open spec fn text_le(a: Seq<char>, b: Seq<char>) -> bool
    decreases a.len(),
{
    if a.len() == 0 {
        true
    } else if b.len() == 0 {
        false
    } else if a.first() != b.first() {
        (a.first() as int) < (b.first() as int)
    } else {
        text_le(a.drop_first(), b.drop_first())
    }
}

/// Where a campaign created at `created_at` goes into a list that is
/// ordered by time: before the first campaign that was created later.
pub open spec fn time_position(sorted: Seq<CampaignView>, created_at: i64) -> int
    decreases sorted.len(),
{
    if sorted.len() == 0 || sorted.first().created_at > created_at {
        0
    } else {
        1 + time_position(sorted.drop_first(), created_at)
    }
}

/// The campaigns by the time of their creation, oldest first.
pub open spec fn oldest_first(campaigns: Seq<CampaignView>) -> Seq<CampaignView>
    decreases campaigns.len(),
{
    if campaigns.len() == 0 {
        Seq::empty()
    } else {
        let front = oldest_first(campaigns.drop_last());
        front.insert(time_position(front, campaigns.last().created_at), campaigns.last())
    }
}

/// Whether the campaigns are in the order of their creation.
pub open spec fn is_ordered_by_time(campaigns: Seq<CampaignView>) -> bool {
    forall|i: int, j: int|
        0 <= i < j < campaigns.len() ==> (#[trigger] campaigns[i]).created_at <= (
        #[trigger] campaigns[j]).created_at
}

/// Where an item called `name` goes into a list that is ordered by name:
/// before the first item whose name comes later.
pub open spec fn name_position(sorted: Seq<CampaignDiscoveryItemView>, name: Seq<char>) -> int
    decreases sorted.len(),
{
    if sorted.len() == 0 || !text_le(sorted.first().name, name) {
        0
    } else {
        1 + name_position(sorted.drop_first(), name)
    }
}

/// The items by name.
pub open spec fn by_name(items: Seq<CampaignDiscoveryItemView>) -> Seq<CampaignDiscoveryItemView>
    decreases items.len(),
{
    if items.len() == 0 {
        Seq::empty()
    } else {
        let front = by_name(items.drop_last());
        front.insert(name_position(front, items.last().name), items.last())
    }
}

/// Whether the items are in the order of their names.
pub open spec fn is_ordered_by_name(items: Seq<CampaignDiscoveryItemView>) -> bool {
    forall|i: int, j: int|
        0 <= i < j < items.len() ==> text_le((#[trigger] items[i]).name, (#[trigger] items[j]).name)
}

proof fn lemma_text_le_step(a: Seq<char>, b: Seq<char>, i: int)
    requires
        0 <= i < a.len(),
        i < b.len(),
        a[i] == b[i],
    ensures
        text_le(a.subrange(i, a.len() as int), b.subrange(i, b.len() as int)) == text_le(
            a.subrange(i + 1, a.len() as int),
            b.subrange(i + 1, b.len() as int),
        ),
{
    let x = a.subrange(i, a.len() as int);
    let y = b.subrange(i, b.len() as int);
    assert(x.first() == a[i] && y.first() == b[i]);
    assert(x.drop_first() =~= a.subrange(i + 1, a.len() as int));
    assert(y.drop_first() =~= b.subrange(i + 1, b.len() as int));
}

/// Whether `a` comes before `b` or equals it, in the order of texts.
pub fn text_is_le(a: &str, b: &str) -> (r: bool)
    ensures
        r == text_le(a@, b@),
{
    let la: usize = a.unicode_len();
    let lb: usize = b.unicode_len();
    let mut i: usize = 0;
    assert(a@.subrange(0, la as int) =~= a@);
    assert(b@.subrange(0, lb as int) =~= b@);
    while i < la && i < lb
        invariant
            i <= la,
            i <= lb,
            la == a@.len(),
            lb == b@.len(),
            text_le(a@, b@) == text_le(
                a@.subrange(i as int, la as int),
                b@.subrange(i as int, lb as int),
            ),
        decreases la - i,
    {
        let ca = a.get_char(i);
        let cb = b.get_char(i);
        if ca != cb {
            proof {
                let x = a@.subrange(i as int, la as int);
                let y = b@.subrange(i as int, lb as int);
                assert(x.first() == ca && y.first() == cb);
            }
            return (ca as u32) < (cb as u32);
        }
        proof {
            lemma_text_le_step(a@, b@, i as int);
        }
        i += 1;
    }
    proof {
        let x = a@.subrange(i as int, la as int);
        let y = b@.subrange(i as int, lb as int);
        assert(x.len() == la - i && y.len() == lb - i);
    }
    la <= lb
}

/// Every text comes before itself or equals it; of two texts one comes
/// before the other or equals it; and the order is transitive.
pub proof fn lemma_text_order(a: Seq<char>, b: Seq<char>, c: Seq<char>)
    ensures
        text_le(a, a),
        text_le(a, b) || text_le(b, a),
        text_le(a, b) && text_le(b, c) ==> text_le(a, c),
    decreases a.len(),
{
    if a.len() > 0 {
        let ra = a.drop_first();
        if b.len() > 0 {
            let rb = b.drop_first();
            if c.len() > 0 {
                lemma_text_order(ra, rb, c.drop_first());
            } else {
                lemma_text_order(ra, rb, c);
            }
            if a.first() != b.first() {
                assert(a.first() as int != b.first() as int);
            }
        } else {
            lemma_text_order(ra, ra, ra);
        }
    }
}

proof fn lemma_time_position(sorted: Seq<CampaignView>, created_at: i64)
    ensures
        0 <= time_position(sorted, created_at) <= sorted.len(),
        forall|k: int|
            0 <= k < time_position(sorted, created_at) ==> (#[trigger] sorted[k]).created_at
                <= created_at,
        time_position(sorted, created_at) < sorted.len() ==> sorted[time_position(
            sorted,
            created_at,
        )].created_at > created_at,
    decreases sorted.len(),
{
    if !(sorted.len() == 0 || sorted.first().created_at > created_at) {
        let rest = sorted.drop_first();
        lemma_time_position(rest, created_at);
        let p = time_position(rest, created_at);
        assert forall|k: int| 0 <= k < p + 1 implies (#[trigger] sorted[k]).created_at
            <= created_at by {
            if k > 0 {
                assert(sorted[k] == rest[k - 1]);
            }
        }
        if p < rest.len() {
            assert(sorted[p + 1] == rest[p]);
        }
    }
}

proof fn lemma_name_position(sorted: Seq<CampaignDiscoveryItemView>, name: Seq<char>)
    ensures
        0 <= name_position(sorted, name) <= sorted.len(),
        forall|k: int|
            0 <= k < name_position(sorted, name) ==> text_le((#[trigger] sorted[k]).name, name),
        name_position(sorted, name) < sorted.len() ==> !text_le(
            sorted[name_position(sorted, name)].name,
            name,
        ),
    decreases sorted.len(),
{
    if !(sorted.len() == 0 || !text_le(sorted.first().name, name)) {
        let rest = sorted.drop_first();
        lemma_name_position(rest, name);
        let p = name_position(rest, name);
        assert forall|k: int| 0 <= k < p + 1 implies text_le((#[trigger] sorted[k]).name, name) by {
            if k > 0 {
                assert(sorted[k] == rest[k - 1]);
            }
        }
        if p < rest.len() {
            assert(sorted[p + 1] == rest[p]);
        }
    }
}

/// The campaigns by the time of their creation are in order, and they
/// are the campaigns that came, each as often as it came.
pub proof fn lemma_oldest_first_is_ordered(campaigns: Seq<CampaignView>)
    ensures
        is_ordered_by_time(oldest_first(campaigns)),
        oldest_first(campaigns).len() == campaigns.len(),
        oldest_first(campaigns).to_multiset() == campaigns.to_multiset(),
    decreases campaigns.len(),
{
    broadcast use vstd::seq_lib::group_to_multiset_ensures;

    if campaigns.len() == 0 {
        assert(campaigns =~= Seq::<CampaignView>::empty());
    } else {
        let last = campaigns.last();
        let front = oldest_first(campaigns.drop_last());
        lemma_oldest_first_is_ordered(campaigns.drop_last());
        lemma_time_position(front, last.created_at);
        let p = time_position(front, last.created_at);
        let out = front.insert(p, last);
        assert forall|i: int, j: int| 0 <= i < j < out.len() implies (#[trigger] out[i]).created_at
            <= (#[trigger] out[j]).created_at by {
            if j < p {
                assert(out[i] == front[i] && out[j] == front[j]);
            } else if j == p {
                assert(out[i] == front[i]);
            } else if i < p {
                assert(out[i] == front[i] && out[j] == front[j - 1]);
            } else if i == p {
                assert(out[j] == front[j - 1]);
            } else {
                assert(out[i] == front[i - 1] && out[j] == front[j - 1]);
            }
        }
        to_multiset_insert(front, p, last);
        assert(campaigns =~= campaigns.drop_last().push(last));
    }
}

/// The items by name are in order, and they are the items that came,
/// each as often as it came.
pub proof fn lemma_by_name_is_ordered(items: Seq<CampaignDiscoveryItemView>)
    ensures
        is_ordered_by_name(by_name(items)),
        by_name(items).len() == items.len(),
        by_name(items).to_multiset() == items.to_multiset(),
    decreases items.len(),
{
    broadcast use vstd::seq_lib::group_to_multiset_ensures;

    if items.len() == 0 {
        assert(items =~= Seq::<CampaignDiscoveryItemView>::empty());
    } else {
        let last = items.last();
        let front = by_name(items.drop_last());
        lemma_by_name_is_ordered(items.drop_last());
        lemma_name_position(front, last.name);
        let p = name_position(front, last.name);
        let out = front.insert(p, last);
        assert forall|i: int, j: int| 0 <= i < j < out.len() implies text_le(
            (#[trigger] out[i]).name,
            (#[trigger] out[j]).name,
        ) by {
            if j < p {
                assert(out[i] == front[i] && out[j] == front[j]);
            } else if j == p {
                assert(out[i] == front[i]);
            } else if i < p {
                lemma_text_order(front[i].name, front[j - 1].name, front[j - 1].name);
            } else if i == p {
                lemma_text_order(front[p].name, last.name, last.name);
                if p < j - 1 {
                    assert(text_le(front[p].name, front[j - 1].name));
                }
                lemma_text_order(last.name, front[p].name, front[j - 1].name);
            } else {
                assert(out[i] == front[i - 1] && out[j] == front[j - 1]);
            }
        }
        to_multiset_insert(front, p, last);
        assert(items =~= items.drop_last().push(last));
    }
}

fn position_by_time(sorted: &Vec<Campaign>, created_at: i64) -> (at: usize)
    ensures
        at == time_position(campaign_views(sorted@), created_at),
        at <= sorted.len(),
{
    let ghost views = campaign_views(sorted@);
    let n: usize = sorted.len();
    let mut i: usize = 0;
    assert(views.subrange(0, n as int) =~= views);
    while i < n && sorted[i].created_at <= created_at
        invariant
            i <= n,
            n == sorted.len(),
            views == campaign_views(sorted@),
            time_position(views, created_at) == i + time_position(
                views.subrange(i as int, n as int),
                created_at,
            ),
        decreases n - i,
    {
        proof {
            let rest = views.subrange(i as int, n as int);
            assert(rest.first() == sorted[i as int]@);
            assert(rest.drop_first() =~= views.subrange(i + 1, n as int));
        }
        i += 1;
    }
    proof {
        let rest = views.subrange(i as int, n as int);
        if i < n {
            assert(rest.first() == sorted[i as int]@);
        }
    }
    i
}

fn position_by_name(sorted: &Vec<CampaignDiscoveryItem>, name: &str) -> (at: usize)
    ensures
        at == name_position(item_views(sorted@), name@),
        at <= sorted.len(),
{
    let ghost views = item_views(sorted@);
    let n: usize = sorted.len();
    let mut i: usize = 0;
    assert(views.subrange(0, n as int) =~= views);
    while i < n && text_is_le(sorted[i].name.as_str(), name)
        invariant
            i <= n,
            n == sorted.len(),
            views == item_views(sorted@),
            name_position(views, name@) == i + name_position(
                views.subrange(i as int, n as int),
                name@,
            ),
        decreases n - i,
    {
        proof {
            let rest = views.subrange(i as int, n as int);
            assert(rest.first() == sorted[i as int]@);
            assert(rest.drop_first() =~= views.subrange(i + 1, n as int));
        }
        i += 1;
    }
    proof {
        let rest = views.subrange(i as int, n as int);
        if i < n {
            assert(rest.first() == sorted[i as int]@);
        }
    }
    i
}

/// Orders the campaigns by the time of their creation, oldest first.
/// Campaigns of the same time stay in the order in which they came.
pub fn sort_oldest_first(campaigns: Vec<Campaign>) -> (sorted: Vec<Campaign>)
    ensures
        campaign_views(sorted@) == oldest_first(campaign_views(campaigns@)),
        is_ordered_by_time(campaign_views(sorted@)),
        campaign_views(sorted@).to_multiset() == campaign_views(campaigns@).to_multiset(),
{
    let ghost all = campaign_views(campaigns@);
    let mut rest = campaigns;
    let mut sorted: Vec<Campaign> = Vec::new();
    let n: usize = rest.len();
    let mut i: usize = 0;
    assert(all.take(0) =~= Seq::<CampaignView>::empty());
    while i < n
        invariant
            i <= n,
            n == all.len(),
            rest.len() == n - i,
            campaign_views(rest@) == all.subrange(i as int, n as int),
            campaign_views(sorted@) == oldest_first(all.take(i as int)),
        decreases n - i,
    {
        let ghost before = rest@;
        let campaign = rest.remove(0);
        proof {
            assert(campaign_views(before)[0] == before[0]@);
            assert forall|k: int| 0 <= k < rest@.len() implies campaign_views(rest@)[k] == all[i
                + 1 + k] by {
                assert(campaign_views(before)[k + 1] == before[k + 1]@);
            }
            assert(all.take(i + 1).drop_last() =~= all.take(i as int));
        }
        let at = position_by_time(&sorted, campaign.created_at);
        sorted.insert(at, campaign);
        i += 1;
    }
    proof {
        lemma_oldest_first_is_ordered(all);
    }
    sorted
}

/// Orders the items by name. Items of the same name stay in the order in
/// which they came.
pub fn sort_by_name(items: Vec<CampaignDiscoveryItem>) -> (sorted: Vec<CampaignDiscoveryItem>)
    ensures
        item_views(sorted@) == by_name(item_views(items@)),
        is_ordered_by_name(item_views(sorted@)),
        item_views(sorted@).to_multiset() == item_views(items@).to_multiset(),
{
    let ghost all = item_views(items@);
    let mut rest = items;
    let mut sorted: Vec<CampaignDiscoveryItem> = Vec::new();
    let n: usize = rest.len();
    let mut i: usize = 0;
    assert(all.take(0) =~= Seq::<CampaignDiscoveryItemView>::empty());
    while i < n
        invariant
            i <= n,
            n == all.len(),
            rest.len() == n - i,
            item_views(rest@) == all.subrange(i as int, n as int),
            item_views(sorted@) == by_name(all.take(i as int)),
        decreases n - i,
    {
        let ghost before = rest@;
        let item = rest.remove(0);
        proof {
            assert(item_views(before)[0] == before[0]@);
            assert forall|k: int| 0 <= k < rest@.len() implies item_views(rest@)[k] == all[i + 1
                + k] by {
                assert(item_views(before)[k + 1] == before[k + 1]@);
            }
            assert(all.take(i + 1).drop_last() =~= all.take(i as int));
        }
        let at = position_by_name(&sorted, item.name.as_str());
        sorted.insert(at, item);
        i += 1;
    }
    proof {
        lemma_by_name_is_ordered(all);
    }
    sorted
}

} // verus!
