use base64::Engine;
use payloadexchange_mvp::error::ApiError;
use payloadexchange_mvp::settlement::{Payment, PaymentLedger};
use payloadexchange_mvp::types::{AppConfig, PaymentSource, PaymentStatus, X402SettleResponse};
use payloadexchange_mvp::verification::{
    accept_settlement, encode_settlement, refuse, screen_proof, verify_local, PaymentProof,
    ProofArtifact, Refusal, VerifierMode,
};

fn config() -> AppConfig {
    AppConfig {
        sponsored_api_create_price_cents: 25,
        sponsored_api_timeout_secs: 12,
        x402_facilitator_url: "https://x402.org/facilitator".to_string(),
        x402_verify_path: "/verify".to_string(),
        x402_settle_path: "/settle".to_string(),
        x402_facilitator_bearer_token: None,
        x402_network: "base-sepolia".to_string(),
        x402_pay_to: Some("0xPayee".to_string()),
        x402_asset: Some("0xAsset".to_string()),
        public_base_url: "http://localhost:3000".to_string(),
    }
}

fn decoded(tx: &str, service: &str, amount: u64) -> ProofArtifact {
    ProofArtifact::Decoded(PaymentProof {
        tx_hash: tx.to_string(),
        service: service.to_string(),
        amount_cents: amount,
        payer: "0xpayer".to_string(),
    })
}

fn ledger() -> PaymentLedger {
    let mut ledger = PaymentLedger::new();
    ledger.ingest(Payment {
        tx_hash: "0xsettled".to_string(),
        campaign_id: None,
        service: "scraping".to_string(),
        amount_cents: 5,
        payer: "0xpayer".to_string(),
        source: PaymentSource::User,
        status: PaymentStatus::Settled,
    });
    ledger.ingest(Payment {
        tx_hash: "0xfailed".to_string(),
        campaign_id: None,
        service: "scraping".to_string(),
        amount_cents: 5,
        payer: "0xpayer".to_string(),
        source: PaymentSource::User,
        status: PaymentStatus::Failed,
    });
    ledger
}

fn message_of(r: Result<payloadexchange_mvp::verification::VerifiedX402Payment, ApiError>) -> (String, String) {
    match r {
        Err(ApiError::PaymentRequired(p)) => {
            assert_eq!(p.service, "scraping");
            assert_eq!(p.amount_cents, 5);
            assert!(!p.payment_required.is_empty());
            (p.message, p.next_step)
        }
        other => panic!("unexpected: {other:?}"),
    }
}

const RETRY: &str = "regenerate PAYMENT-SIGNATURE from the latest challenge and retry";

#[test]
fn missing_proof_is_challenged() {
    let r = verify_local(&config(), &ledger(), "scraping", 5, "/tool/scraping/run", &ProofArtifact::Missing);
    assert_eq!(
        message_of(r),
        (
            "missing proof".to_string(),
            "create a payment from the PAYMENT-REQUIRED challenge and retry".to_string()
        )
    );
}

#[test]
fn undecodable_proof_is_challenged() {
    let r = verify_local(&config(), &ledger(), "scraping", 5, "/tool/scraping/run", &ProofArtifact::Undecodable);
    assert_eq!(message_of(r), ("invalid proof".to_string(), RETRY.to_string()));
}

#[test]
fn proof_for_another_service_is_challenged() {
    let r = verify_local(&config(), &ledger(), "scraping", 5, "/p", &decoded("0xsettled", "design", 50));
    assert_eq!(message_of(r), ("service mismatch".to_string(), RETRY.to_string()));
}

#[test]
fn short_proof_is_challenged_even_if_its_payment_is_settled() {
    let r = verify_local(&config(), &ledger(), "scraping", 5, "/p", &decoded("0xsettled", "scraping", 3));
    assert_eq!(message_of(r), ("insufficient amount".to_string(), RETRY.to_string()));
}

#[test]
fn service_is_checked_before_amount() {
    let r = verify_local(&config(), &ledger(), "scraping", 5, "/p", &decoded("0xsettled", "design", 3));
    assert_eq!(message_of(r).0, "service mismatch");
}

#[test]
fn unknown_reference_is_challenged() {
    let r = verify_local(&config(), &ledger(), "scraping", 5, "/p", &decoded("0xnone", "scraping", 5));
    assert_eq!(message_of(r), ("not found".to_string(), RETRY.to_string()));
}

#[test]
fn unsettled_payment_is_challenged() {
    let r = verify_local(&config(), &ledger(), "scraping", 5, "/p", &decoded("0xfailed", "scraping", 5));
    assert_eq!(message_of(r), ("not settled".to_string(), RETRY.to_string()));
}

#[test]
fn settled_payment_is_accepted() {
    let r = verify_local(&config(), &ledger(), "scraping", 5, "/p", &decoded("0xsettled", "scraping", 9));
    let v = r.unwrap();
    assert_eq!(v.tx_hash.as_deref(), Some("0xsettled"));
    assert_eq!(v.payer.as_deref(), Some("0xpayer"));
    let bytes = base64::engine::general_purpose::STANDARD
        .decode(v.payment_response_header.unwrap())
        .unwrap();
    assert_eq!(
        String::from_utf8(bytes).unwrap(),
        "{\"success\":true,\"transaction\":\"0xsettled\",\"payer\":\"0xpayer\",\"errorReason\":null}"
    );
}

#[test]
fn settled_payment_is_accepted_without_payment_configuration() {
    let mut c = config();
    c.x402_pay_to = None;
    let r = verify_local(&c, &ledger(), "scraping", 5, "/p", &decoded("0xsettled", "scraping", 5));
    assert!(r.is_ok());
}

#[test]
fn challenge_without_configuration_is_a_failure() {
    let mut c = config();
    c.x402_pay_to = None;
    let r = verify_local(&c, &ledger(), "scraping", 5, "/p", &ProofArtifact::Missing);
    match r {
        Err(ApiError::Config { message }) => assert_eq!(message, "X402_PAY_TO is required for x402"),
        other => panic!("unexpected: {other:?}"),
    }
}

#[test]
fn screening_returns_the_proof_that_passes() {
    let a = decoded("0x1", "scraping", 5);
    let p = screen_proof(&a, "scraping", 5).unwrap();
    assert_eq!(p.tx_hash, "0x1");
    assert!(matches!(screen_proof(&a, "scraping", 6), Err(Refusal::InsufficientAmount)));
    assert!(matches!(screen_proof(&a, "design", 5), Err(Refusal::ServiceMismatch)));
    assert!(matches!(screen_proof(&ProofArtifact::Missing, "scraping", 0), Err(Refusal::MissingProof)));
    assert!(matches!(screen_proof(&ProofArtifact::Undecodable, "scraping", 0), Err(Refusal::InvalidProof)));
}

#[test]
fn refusals_have_their_messages() {
    assert_eq!(Refusal::NoSponsor.message(), "no eligible sponsor campaign found");
    assert_eq!(
        Refusal::NoSponsor.next_step(),
        "either complete a sponsor task or pay with PAYMENT-SIGNATURE"
    );
    assert_eq!(Refusal::BudgetExhausted.message(), "sponsored budget exhausted");
    assert_eq!(Refusal::BudgetExhausted.next_step(), "pay with PAYMENT-SIGNATURE and retry");
    assert_eq!(Refusal::Rejected("bad signature".to_string()).message(), "payment rejected: bad signature");
    assert_eq!(Refusal::Rejected(String::new()).next_step(), RETRY);
    let e = refuse(&config(), "scraping", 5, "/p", &Refusal::NotFound);
    assert_eq!(e.status_code(), 402);
}

#[test]
fn settlement_receipt_has_the_expected_text() {
    let s = X402SettleResponse {
        success: false,
        transaction: None,
        payer: Some("a\"b".to_string()),
        error_reason: Some("late".to_string()),
    };
    let encoded = encode_settlement(&s).unwrap();
    let bytes = base64::engine::general_purpose::STANDARD.decode(encoded).unwrap();
    assert_eq!(
        String::from_utf8(bytes).unwrap(),
        "{\"success\":false,\"transaction\":null,\"payer\":\"a\\\"b\",\"errorReason\":\"late\"}"
    );
    let v = accept_settlement(X402SettleResponse {
        success: true,
        transaction: Some("0xt".to_string()),
        payer: None,
        error_reason: None,
    });
    assert_eq!(v.tx_hash.as_deref(), Some("0xt"));
    assert_eq!(v.payer, None);
    assert!(v.payment_response_header.is_some());
}

#[test]
fn verifier_is_chosen_by_the_setting() {
    assert_eq!(VerifierMode::from_setting(Some("local")), VerifierMode::Local);
    assert_eq!(VerifierMode::from_setting(Some("facilitator")), VerifierMode::Facilitator);
    assert_eq!(VerifierMode::from_setting(Some("LOCAL")), VerifierMode::Facilitator);
    assert_eq!(VerifierMode::from_setting(None), VerifierMode::Facilitator);
}
