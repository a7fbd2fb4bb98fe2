use payloadexchange_mvp::error::ApiError;
use payloadexchange_mvp::orchestrator::{
    proxy_step, proxy_step_with, tool_path, AccessDecision, ProxyAction, ProxyCall, ProxyEvent,
    ProxyState,
};
use payloadexchange_mvp::settlement::{Payment, PaymentLedger, PaymentMode};
use payloadexchange_mvp::types::{
    AppConfig, AppState, Campaign, PaymentSource, PaymentStatus, TaskCompletion, UserProfile,
};
use payloadexchange_mvp::verification::{verify_local, PaymentProof, ProofArtifact};

fn config() -> AppConfig {
    AppConfig {
        sponsored_api_create_price_cents: 25,
        sponsored_api_timeout_secs: 12,
        x402_facilitator_url: "https://x402.org/facilitator".to_string(),
        x402_verify_path: "/verify".to_string(),
        x402_settle_path: "/settle".to_string(),
        x402_facilitator_bearer_token: None,
        x402_network: "base-sepolia".to_string(),
        x402_pay_to: Some("0xPayee".to_string()),
        x402_asset: Some("0xAsset".to_string()),
        public_base_url: "http://localhost:3000".to_string(),
    }
}

fn profile(id: u128) -> UserProfile {
    UserProfile {
        id,
        email: "a@example.com".to_string(),
        region: "eu".to_string(),
        roles: vec!["dev".to_string()],
        tools_used: vec![],
        attributes: vec![],
        created_at: 0,
    }
}

fn campaign(id: u128, budget: u64, task: &str, created_at: i64) -> Campaign {
    Campaign {
        id,
        name: format!("campaign-{id}"),
        sponsor: format!("sponsor-{id}"),
        target_roles: vec![],
        target_tools: vec![],
        required_task: task.to_string(),
        subsidy_per_call_cents: 5,
        budget_total_cents: budget,
        budget_remaining_cents: budget,
        query_urls: vec![],
        active: true,
        created_at,
    }
}

fn done(campaign_id: u128, user_id: u128, task: &str) -> TaskCompletion {
    TaskCompletion { id: 1, campaign_id, user_id, task_name: task.to_string(), details: None, created_at: 0 }
}

struct Store {
    profiles: Vec<UserProfile>,
    campaigns: Vec<Campaign>,
    completions: Vec<TaskCompletion>,
    payments: PaymentLedger,
    debits: usize,
}

fn copy_campaign(c: &Campaign) -> Campaign {
    Campaign {
        id: c.id,
        name: c.name.clone(),
        sponsor: c.sponsor.clone(),
        target_roles: c.target_roles.clone(),
        target_tools: c.target_tools.clone(),
        required_task: c.required_task.clone(),
        subsidy_per_call_cents: c.subsidy_per_call_cents,
        budget_total_cents: c.budget_total_cents,
        budget_remaining_cents: c.budget_remaining_cents,
        query_urls: c.query_urls.clone(),
        active: c.active,
        created_at: c.created_at,
    }
}

fn run(store: &mut Store, service: &str, user_id: u128, artifact: ProofArtifact) -> AccessDecision {
    let config = config();
    let state = AppState::new(config);
    let call = ProxyCall::new(&state, service.to_string(), user_id, artifact);
    let (mut at, mut action) = proxy_step(&state.config, &call, ProxyState::Start, ProxyEvent::Begin);
    for _ in 0..50 {
        let event = match action {
            ProxyAction::Finish(decision) => return decision,
            ProxyAction::VerifyPayment => ProxyEvent::Verified(verify_local(
                &state.config,
                &store.payments,
                &call.service,
                call.price,
                &call.resource_path(),
                &call.artifact,
            )),
            ProxyAction::LoadProfile { user_id } => ProxyEvent::Profile(
                store.profiles.iter().find(|p| p.id == user_id).map(|p| profile(p.id)),
            ),
            ProxyAction::LoadCandidates { user_id, price } => {
                let mut campaigns: Vec<Campaign> = store
                    .campaigns
                    .iter()
                    .filter(|c| c.active && c.budget_remaining_cents >= price)
                    .map(copy_campaign)
                    .collect();
                campaigns.sort_by_key(|c| std::cmp::Reverse(c.created_at));
                let completions = store
                    .completions
                    .iter()
                    .filter(|t| t.user_id == user_id)
                    .map(|t| done(t.campaign_id, t.user_id, &t.task_name))
                    .collect();
                ProxyEvent::Candidates { campaigns, completions }
            }
            ProxyAction::ApplyDebit(update) => {
                let target = store.campaigns.iter_mut().find(|c| c.id == update.entity_id).unwrap();
                let applied = target.apply_update(&update);
                if applied {
                    store.debits += 1;
                }
                ProxyEvent::DebitApplied(applied)
            }
            ProxyAction::RecordPayment(payment) => {
                assert!(store.payments.ingest(payment));
                ProxyEvent::Recorded
            }
        };
        let next = proxy_step(&state.config, &call, at, event);
        at = next.0;
        action = next.1;
    }
    panic!("the decision did not finish");
}

fn store_with(budget: u64) -> Store {
    Store {
        profiles: vec![profile(7)],
        campaigns: vec![campaign(1, budget, "signup", 10)],
        completions: vec![done(1, 7, "signup")],
        payments: PaymentLedger::new(),
        debits: 0,
    }
}

#[test]
fn sponsor_pays_until_the_budget_cannot_pay_again() {
    let mut store = store_with(12);
    match run(&mut store, "scraping", 7, ProofArtifact::Missing) {
        AccessDecision::Accepted { mode, payer, reference, receipt } => {
            assert_eq!(mode, PaymentMode::Sponsored);
            assert_eq!(payer.as_deref(), Some("sponsor-1"));
            assert!(reference.unwrap().starts_with("sponsor-"));
            assert!(receipt.is_some());
        }
        other => panic!("unexpected: {other:?}"),
    }
    assert_eq!(store.campaigns[0].budget_remaining_cents, 7);
    assert!(store.campaigns[0].active);
    assert_eq!(store.payments.len(), 1);

    match run(&mut store, "scraping", 7, ProofArtifact::Missing) {
        AccessDecision::Accepted { mode, .. } => assert_eq!(mode, PaymentMode::Sponsored),
        other => panic!("unexpected: {other:?}"),
    }
    assert_eq!(store.campaigns[0].budget_remaining_cents, 2);
    assert!(!store.campaigns[0].active);
    assert_eq!(store.payments.len(), 2);

    match run(&mut store, "scraping", 7, ProofArtifact::Missing) {
        AccessDecision::Required(p) => {
            assert_eq!(p.message, "no eligible sponsor campaign found");
            assert_eq!(p.next_step, "either complete a sponsor task or pay with PAYMENT-SIGNATURE");
            assert_eq!(p.service, "scraping");
            assert_eq!(p.amount_cents, 5);
        }
        other => panic!("unexpected: {other:?}"),
    }
    assert_eq!(store.campaigns[0].budget_remaining_cents, 2);
    assert_eq!(store.payments.len(), 2);
    assert_eq!(store.debits, 2);
}

#[test]
fn unknown_service_is_priced_by_default() {
    let mut store = store_with(12);
    match run(&mut store, "indexing", 7, ProofArtifact::Missing) {
        AccessDecision::Accepted { mode, .. } => assert_eq!(mode, PaymentMode::Sponsored),
        other => panic!("unexpected: {other:?}"),
    }
    assert_eq!(store.campaigns[0].budget_remaining_cents, 7);
    let state = AppState::new(config());
    let call = ProxyCall::new(&state, "indexing".to_string(), 7, ProofArtifact::Missing);
    assert_eq!(call.price, 5);
    assert_eq!(call.resource_path(), "/proxy/indexing/run");
}

#[test]
fn sponsor_payment_is_recorded_as_settled() {
    let mut store = store_with(12);
    let reference = match run(&mut store, "scraping", 7, ProofArtifact::Missing) {
        AccessDecision::Accepted { reference, .. } => reference.unwrap(),
        other => panic!("unexpected: {other:?}"),
    };
    let record = store.payments.find(&reference).unwrap();
    assert_eq!(record.source, PaymentSource::Sponsor);
    assert_eq!(record.status, PaymentStatus::Settled);
    assert_eq!(record.amount_cents, 5);
    assert_eq!(record.payer, "sponsor-1");
    assert_eq!(record.campaign_id, Some(1));
    assert_eq!(record.service, "scraping");
}

#[test]
fn references_of_sponsor_payments_differ() {
    let mut store = store_with(100);
    let mut seen = Vec::new();
    for _ in 0..5 {
        match run(&mut store, "scraping", 7, ProofArtifact::Missing) {
            AccessDecision::Accepted { reference, .. } => seen.push(reference.unwrap()),
            other => panic!("unexpected: {other:?}"),
        }
    }
    for i in 0..seen.len() {
        assert_eq!(seen[i].len(), "sponsor-".len() + 36);
        for j in 0..i {
            assert_ne!(seen[i], seen[j]);
        }
    }
}

#[test]
fn caller_without_profile_is_not_found() {
    let mut store = store_with(12);
    match run(&mut store, "scraping", 8, ProofArtifact::Missing) {
        AccessDecision::NotFound { message } => assert_eq!(message, "profile required"),
        other => panic!("unexpected: {other:?}"),
    }
    assert_eq!(store.debits, 0);
}

#[test]
fn proof_goes_to_the_verifier_even_without_a_profile() {
    let mut store = store_with(12);
    store.payments.ingest(Payment {
        tx_hash: "0xpaid".to_string(),
        campaign_id: None,
        service: "scraping".to_string(),
        amount_cents: 5,
        payer: "0xcaller".to_string(),
        source: PaymentSource::User,
        status: PaymentStatus::Settled,
    });
    let artifact = ProofArtifact::Decoded(PaymentProof {
        tx_hash: "0xpaid".to_string(),
        service: "scraping".to_string(),
        amount_cents: 5,
        payer: "0xcaller".to_string(),
    });
    match run(&mut store, "scraping", 999, artifact) {
        AccessDecision::Accepted { mode, payer, reference, .. } => {
            assert_eq!(mode, PaymentMode::UserDirect);
            assert_eq!(payer.as_deref(), Some("0xcaller"));
            assert_eq!(reference.as_deref(), Some("0xpaid"));
        }
        other => panic!("unexpected: {other:?}"),
    }
    assert_eq!(store.debits, 0);
    assert_eq!(store.campaigns[0].budget_remaining_cents, 12);
}

#[test]
fn bad_proof_is_challenged_even_if_a_sponsor_would_pay() {
    let mut store = store_with(12);
    match run(&mut store, "scraping", 7, ProofArtifact::Undecodable) {
        AccessDecision::Required(p) => assert_eq!(p.message, "invalid proof"),
        other => panic!("unexpected: {other:?}"),
    }
    assert_eq!(store.debits, 0);
}

#[test]
fn open_task_is_named_and_no_budget_is_touched() {
    let mut store = store_with(12);
    store.completions.clear();
    match run(&mut store, "scraping", 7, ProofArtifact::Missing) {
        AccessDecision::PreconditionRequired { task, campaign_name } => {
            assert_eq!(task, "signup");
            assert_eq!(campaign_name, "campaign-1");
        }
        other => panic!("unexpected: {other:?}"),
    }
    assert_eq!(store.campaigns[0].budget_remaining_cents, 12);
    assert_eq!(store.debits, 0);
    assert_eq!(store.payments.len(), 0);
}

#[test]
fn completed_campaign_is_charged_and_the_open_one_is_not() {
    let mut store = store_with(12);
    store.campaigns.push(campaign(2, 50, "survey", 20));
    match run(&mut store, "scraping", 7, ProofArtifact::Missing) {
        AccessDecision::Accepted { payer, .. } => assert_eq!(payer.as_deref(), Some("sponsor-1")),
        other => panic!("unexpected: {other:?}"),
    }
    assert_eq!(store.campaigns[0].budget_remaining_cents, 7);
    assert_eq!(store.campaigns[1].budget_remaining_cents, 50);
    assert!(store.campaigns[1].active);
}

#[test]
fn most_recent_completed_campaign_is_charged() {
    let mut store = store_with(12);
    store.campaigns.push(campaign(2, 50, "signup", 20));
    store.completions.push(done(2, 7, "signup"));
    match run(&mut store, "scraping", 7, ProofArtifact::Missing) {
        AccessDecision::Accepted { payer, .. } => assert_eq!(payer.as_deref(), Some("sponsor-2")),
        other => panic!("unexpected: {other:?}"),
    }
    assert_eq!(store.campaigns[0].budget_remaining_cents, 12);
    assert_eq!(store.campaigns[1].budget_remaining_cents, 45);
}

#[test]
fn missing_configuration_fails_the_fallback() {
    let mut c = config();
    c.x402_pay_to = None;
    let state = AppState::new(c);
    let call = ProxyCall::new(&state, "scraping".to_string(), 7, ProofArtifact::Missing);
    let (at, _) = proxy_step(&state.config, &call, ProxyState::Start, ProxyEvent::Begin);
    let (at, _) = proxy_step(&state.config, &call, at, ProxyEvent::Profile(Some(profile(7))));
    let (_, action) = proxy_step(
        &state.config,
        &call,
        at,
        ProxyEvent::Candidates { campaigns: vec![], completions: vec![] },
    );
    match action {
        ProxyAction::Finish(AccessDecision::Failed(ApiError::Config { message })) => {
            assert_eq!(message, "X402_PAY_TO is required for x402")
        }
        other => panic!("unexpected: {other:?}"),
    }
}

#[test]
fn lost_race_reads_the_candidates_again() {
    let state = AppState::new(config());
    let call = ProxyCall::new(&state, "scraping".to_string(), 7, ProofArtifact::Missing);
    let (at, action) = proxy_step(&state.config, &call, ProxyState::Start, ProxyEvent::Begin);
    assert!(matches!(action, ProxyAction::LoadProfile { user_id: 7 }));
    let (at, action) = proxy_step(&state.config, &call, at, ProxyEvent::Profile(Some(profile(7))));
    assert!(matches!(action, ProxyAction::LoadCandidates { user_id: 7, price: 5 }));
    let (at, action) = proxy_step(
        &state.config,
        &call,
        at,
        ProxyEvent::Candidates {
            campaigns: vec![campaign(1, 12, "signup", 10)],
            completions: vec![done(1, 7, "signup")],
        },
    );
    match action {
        ProxyAction::ApplyDebit(update) => {
            assert_eq!(update.entity_id, 1);
            assert_eq!(update.expected_remaining_cents, 12);
            assert_eq!(update.new_remaining_cents, 7);
            assert!(update.still_active);
        }
        other => panic!("unexpected: {other:?}"),
    }
    let (at, action) = proxy_step(&state.config, &call, at, ProxyEvent::DebitApplied(false));
    assert!(matches!(at, ProxyState::LoadingCandidates { .. }));
    assert!(matches!(action, ProxyAction::LoadCandidates { user_id: 7, price: 5 }));
}

#[test]
fn store_failure_ends_the_decision() {
    let state = AppState::new(config());
    let call = ProxyCall::new(&state, "scraping".to_string(), 7, ProofArtifact::Missing);
    let (at, _) = proxy_step(&state.config, &call, ProxyState::Start, ProxyEvent::Begin);
    let (at, action) = proxy_step(&state.config, &call, at, ProxyEvent::StoreFailed("connection lost".to_string()));
    assert!(matches!(at, ProxyState::Finished));
    match action {
        ProxyAction::Finish(AccessDecision::Failed(ApiError::Supabase { status, message })) => {
            assert_eq!(status, 500);
            assert_eq!(message, "connection lost");
        }
        other => panic!("unexpected: {other:?}"),
    }
}

#[test]
fn event_out_of_place_ends_the_decision() {
    let state = AppState::new(config());
    let call = ProxyCall::new(&state, "scraping".to_string(), 7, ProofArtifact::Missing);
    let (at, action) = proxy_step(&state.config, &call, ProxyState::Start, ProxyEvent::Recorded);
    assert!(matches!(at, ProxyState::Finished));
    assert!(matches!(
        action,
        ProxyAction::Finish(AccessDecision::Failed(ApiError::Internal { .. }))
    ));
    let (_, action) = proxy_step(&state.config, &call, ProxyState::Finished, ProxyEvent::Begin);
    assert!(matches!(action, ProxyAction::Finish(AccessDecision::Failed(ApiError::Internal { .. }))));
}

#[test]
fn reference_is_made_of_the_given_identifier() {
    let state = AppState::new(config());
    let call = ProxyCall::new(&state, "scraping".to_string(), 7, ProofArtifact::Missing);
    let at = ProxyState::Debiting { user: profile(7), campaign: campaign(1, 12, "signup", 10) };
    let (at, action) = proxy_step_with(
        &state.config,
        &call,
        at,
        ProxyEvent::DebitApplied(true),
        0xa1a2a3a4b1b2c1c2d1d2d3d4d5d6d7d8,
    );
    match action {
        ProxyAction::RecordPayment(p) => {
            assert_eq!(p.tx_hash, "sponsor-a1a2a3a4-b1b2-c1c2-d1d2-d3d4d5d6d7d8")
        }
        other => panic!("unexpected: {other:?}"),
    }
    assert!(matches!(at, ProxyState::Recording { .. }));
    assert_eq!(tool_path("scraping"), "/tool/scraping/run");
}
