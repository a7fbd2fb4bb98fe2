use payloadexchange_mvp::listing::{sort_by_name, sort_oldest_first, text_is_le};
use payloadexchange_mvp::records::CampaignDiscoveryItem;
use payloadexchange_mvp::types::Campaign;

fn campaign(id: u128, created_at: i64) -> Campaign {
    Campaign {
        id,
        name: format!("campaign-{id}"),
        sponsor: "acme".to_string(),
        target_roles: vec![],
        target_tools: vec![],
        required_task: "signup".to_string(),
        subsidy_per_call_cents: 5,
        budget_total_cents: 12,
        budget_remaining_cents: 12,
        query_urls: vec![],
        active: true,
        created_at,
    }
}

fn item(id: u128, name: &str) -> CampaignDiscoveryItem {
    CampaignDiscoveryItem {
        campaign_id: id,
        name: name.to_string(),
        sponsor: "acme".to_string(),
        active: true,
        query_urls: vec!["https://example.com".to_string()],
        service_run_url: "http://localhost:3000/proxy/:service/run".to_string(),
        sponsored_api_discovery_url: "http://localhost:3000/sponsored-apis".to_string(),
    }
}

#[test]
fn texts_are_ordered_like_strings() {
    let samples = ["", "a", "A", "ab", "abc", "b", "ä", "z", "zebra", "é", "\u{10ffff}", "a\u{0}", "😀", "aa", "Ab"];
    for a in samples {
        for b in samples {
            assert_eq!(text_is_le(a, b), a <= b, "{a:?} and {b:?}");
        }
    }
}

#[test]
fn campaigns_are_listed_oldest_first() {
    let sorted = sort_oldest_first(vec![campaign(1, 30), campaign(2, 10), campaign(3, 20), campaign(4, -5)]);
    let ids: Vec<u128> = sorted.iter().map(|c| c.id).collect();
    assert_eq!(ids, vec![4, 2, 3, 1]);
    assert!(sort_oldest_first(vec![]).is_empty());
}

#[test]
fn campaigns_of_the_same_time_keep_their_order() {
    let sorted = sort_oldest_first(vec![campaign(1, 7), campaign(2, 3), campaign(3, 7), campaign(4, 3), campaign(5, 7)]);
    let ids: Vec<u128> = sorted.iter().map(|c| c.id).collect();
    assert_eq!(ids, vec![2, 4, 1, 3, 5]);
}

#[test]
fn time_order_agrees_with_the_stable_sort_of_the_standard_library() {
    let times = [5i64, 1, 5, 3, 3, 9, 0, 5, 1, 9, 2];
    let campaigns: Vec<Campaign> = times.iter().enumerate().map(|(i, t)| campaign(i as u128, *t)).collect();
    let mut expected: Vec<(u128, i64)> = campaigns.iter().map(|c| (c.id, c.created_at)).collect();
    expected.sort_by_key(|pair| pair.1);
    let sorted: Vec<(u128, i64)> = sort_oldest_first(campaigns).iter().map(|c| (c.id, c.created_at)).collect();
    assert_eq!(sorted, expected);
}

#[test]
fn items_are_listed_by_name() {
    let sorted = sort_by_name(vec![item(1, "pear"), item(2, "apple"), item(3, "Zebra"), item(4, "apple"), item(5, "")]);
    let ids: Vec<u128> = sorted.iter().map(|i| i.campaign_id).collect();
    assert_eq!(ids, vec![5, 3, 2, 4, 1]);
    let names: Vec<&str> = sorted.iter().map(|i| i.name.as_str()).collect();
    assert_eq!(names, vec!["", "Zebra", "apple", "apple", "pear"]);
}
