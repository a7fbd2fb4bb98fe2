use payloadexchange_mvp::matcher::{
    has_completed_task, is_eligible, select_sponsor, user_matches_campaign, SponsorMatch,
};
use payloadexchange_mvp::types::{Campaign, TaskCompletion, UserProfile};

fn user(roles: &[&str], tools: &[&str]) -> UserProfile {
    UserProfile {
        id: 7,
        email: "a@example.com".to_string(),
        region: "eu".to_string(),
        roles: roles.iter().map(|s| s.to_string()).collect(),
        tools_used: tools.iter().map(|s| s.to_string()).collect(),
        attributes: vec![],
        created_at: 0,
    }
}

fn campaign(id: u128, roles: &[&str], tools: &[&str], task: &str, remaining: u64) -> Campaign {
    Campaign {
        id,
        name: format!("campaign-{id}"),
        sponsor: format!("sponsor-{id}"),
        target_roles: roles.iter().map(|s| s.to_string()).collect(),
        target_tools: tools.iter().map(|s| s.to_string()).collect(),
        required_task: task.to_string(),
        subsidy_per_call_cents: 5,
        budget_total_cents: 100,
        budget_remaining_cents: remaining,
        query_urls: vec![],
        active: true,
        created_at: 1000 - id as i64,
    }
}

fn done(campaign_id: u128, user_id: u128, task: &str) -> TaskCompletion {
    TaskCompletion {
        id: 1,
        campaign_id,
        user_id,
        task_name: task.to_string(),
        details: None,
        created_at: 0,
    }
}

#[test]
fn campaign_without_targets_takes_everyone() {
    assert!(user_matches_campaign(&user(&[], &[]), &campaign(1, &[], &[], "t", 10)));
    assert!(user_matches_campaign(&user(&["dev"], &["git"]), &campaign(1, &[], &[], "t", 10)));
}

#[test]
fn roles_must_intersect() {
    let c = campaign(1, &["dev", "ops"], &[], "t", 10);
    assert!(user_matches_campaign(&user(&["qa", "ops"], &[]), &c));
    assert!(!user_matches_campaign(&user(&["qa"], &[]), &c));
    assert!(!user_matches_campaign(&user(&[], &[]), &c));
    assert!(!user_matches_campaign(&user(&["Dev"], &[]), &c));
}

#[test]
fn roles_and_tools_must_both_match() {
    let c = campaign(1, &["dev"], &["git"], "t", 10);
    assert!(user_matches_campaign(&user(&["dev"], &["git", "vim"]), &c));
    assert!(!user_matches_campaign(&user(&["dev"], &["vim"]), &c));
    assert!(!user_matches_campaign(&user(&["qa"], &["git"]), &c));
    let tools_only = campaign(2, &[], &["git"], "t", 10);
    assert!(user_matches_campaign(&user(&["anything"], &["git"]), &tools_only));
    assert!(!user_matches_campaign(&user(&["anything"], &[]), &tools_only));
}

#[test]
fn completion_is_by_campaign_caller_and_task() {
    let evidence = vec![done(1, 7, "signup"), done(2, 8, "survey")];
    assert!(has_completed_task(&evidence, 1, 7, "signup"));
    assert!(!has_completed_task(&evidence, 1, 7, "survey"));
    assert!(!has_completed_task(&evidence, 1, 8, "signup"));
    assert!(!has_completed_task(&evidence, 2, 7, "signup"));
    assert!(has_completed_task(&evidence, 2, 8, "survey"));
    assert!(!has_completed_task(&vec![], 1, 7, "signup"));
}

#[test]
fn eligibility_needs_activity_budget_and_targeting() {
    let u = user(&["dev"], &[]);
    assert!(is_eligible(&u, 5, &campaign(1, &["dev"], &[], "t", 5)));
    assert!(!is_eligible(&u, 5, &campaign(1, &["dev"], &[], "t", 4)));
    assert!(!is_eligible(&u, 5, &campaign(1, &["ops"], &[], "t", 50)));
    let mut off = campaign(1, &["dev"], &[], "t", 50);
    off.active = false;
    assert!(!is_eligible(&u, 5, &off));
}

#[test]
fn completed_task_wins_over_an_earlier_open_task() {
    let u = user(&["dev"], &[]);
    let campaigns = vec![
        campaign(1, &[], &[], "survey", 50),
        campaign(2, &[], &[], "signup", 50),
    ];
    let evidence = vec![done(2, 7, "signup")];
    assert_eq!(select_sponsor(&u, 5, &campaigns, &evidence), SponsorMatch::Charge(1));
}

#[test]
fn first_completed_candidate_is_charged() {
    let u = user(&[], &[]);
    let campaigns = vec![
        campaign(1, &["ops"], &[], "signup", 50),
        campaign(2, &[], &[], "signup", 50),
        campaign(3, &[], &[], "signup", 50),
    ];
    let evidence = vec![done(1, 7, "signup"), done(2, 7, "signup"), done(3, 7, "signup")];
    assert_eq!(select_sponsor(&u, 5, &campaigns, &evidence), SponsorMatch::Charge(1));
}

#[test]
fn first_open_task_is_named_when_nothing_is_completed() {
    let u = user(&["dev"], &[]);
    let campaigns = vec![
        campaign(1, &["ops"], &[], "a", 50),
        campaign(2, &["dev"], &[], "b", 50),
        campaign(3, &["dev"], &[], "c", 50),
    ];
    assert_eq!(select_sponsor(&u, 5, &campaigns, &vec![]), SponsorMatch::TaskRequired(1));
    let other_caller = vec![done(2, 8, "b")];
    assert_eq!(select_sponsor(&u, 5, &campaigns, &other_caller), SponsorMatch::TaskRequired(1));
}

#[test]
fn nothing_is_found_without_an_eligible_candidate() {
    let u = user(&["dev"], &[]);
    assert_eq!(select_sponsor(&u, 5, &vec![], &vec![]), SponsorMatch::NoSponsor);
    let campaigns = vec![campaign(1, &["ops"], &[], "a", 50), campaign(2, &["dev"], &[], "b", 4)];
    let evidence = vec![done(1, 7, "a"), done(2, 7, "b")];
    assert_eq!(select_sponsor(&u, 5, &campaigns, &evidence), SponsorMatch::NoSponsor);
}

#[test]
fn exhausted_campaign_is_passed_over() {
    let u = user(&[], &[]);
    let campaigns = vec![campaign(1, &[], &[], "a", 2), campaign(2, &[], &[], "a", 50)];
    let evidence = vec![done(1, 7, "a"), done(2, 7, "a")];
    assert_eq!(select_sponsor(&u, 5, &campaigns, &evidence), SponsorMatch::Charge(1));
}
