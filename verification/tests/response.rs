use payloadexchange_mvp::error::ApiError;
use payloadexchange_mvp::orchestrator::AccessDecision;
use payloadexchange_mvp::response::{
    access_response, build_paid_tool_response, error_headers, response_headers, run_response,
};
use payloadexchange_mvp::settlement::PaymentMode;
use payloadexchange_mvp::sponsored::ApiRunDecision;
use payloadexchange_mvp::types::{PaymentRequired, ServiceRunRequest, SponsoredApiRunResponse};

const USER: u128 = 0xa1a2a3a4b1b2c1c2d1d2d3d4d5d6d7d8;

fn request() -> ServiceRunRequest {
    ServiceRunRequest { user_id: USER, input: "hello".to_string() }
}

fn pair(a: &str, b: &str) -> (String, String) {
    (a.to_string(), b.to_string())
}

#[test]
fn paid_response_reports_the_task() {
    let r = build_paid_tool_response(
        "scraping".to_string(),
        request(),
        "user_direct".to_string(),
        None,
        Some("0xt".to_string()),
        Some("cmVjZWlwdA=="),
    );
    assert_eq!(r.status, 200);
    assert_eq!(r.payload.service, "scraping");
    assert_eq!(
        r.payload.output,
        "Executed 'scraping' task for user a1a2a3a4-b1b2-c1c2-d1d2-d3d4d5d6d7d8 with input: hello"
    );
    assert_eq!(r.payload.payment_mode, "user_direct");
    assert_eq!(r.payload.sponsored_by, None);
    assert_eq!(r.payload.tx_hash.as_deref(), Some("0xt"));
    assert_eq!(r.headers, vec![pair("x402-version", "2"), pair("payment-response", "cmVjZWlwdA==")]);
}

#[test]
fn version_is_always_named() {
    assert_eq!(response_headers(None), vec![pair("x402-version", "2")]);
    assert_eq!(response_headers(Some("abc")), vec![pair("x402-version", "2"), pair("payment-response", "abc")]);
    assert_eq!(response_headers(Some("a\tb")), vec![pair("x402-version", "2"), pair("payment-response", "a\tb")]);
}

#[test]
fn receipt_that_cannot_stand_in_a_header_is_left_out() {
    assert_eq!(response_headers(Some("line\nbreak")), vec![pair("x402-version", "2")]);
    assert_eq!(response_headers(Some("del\u{7f}")), vec![pair("x402-version", "2")]);
}

#[test]
fn sponsored_access_names_the_sponsor() {
    let decision = AccessDecision::Accepted {
        mode: PaymentMode::Sponsored,
        payer: Some("acme".to_string()),
        reference: Some("sponsor-1".to_string()),
        receipt: Some("cmVjZWlwdA==".to_string()),
    };
    let r = access_response("design".to_string(), request(), decision).unwrap();
    assert_eq!(r.payload.payment_mode, "sponsored");
    assert_eq!(r.payload.sponsored_by.as_deref(), Some("acme"));
    assert_eq!(r.payload.tx_hash.as_deref(), Some("sponsor-1"));
    assert_eq!(r.headers.len(), 2);
}

#[test]
fn direct_access_names_no_sponsor() {
    let decision = AccessDecision::Accepted {
        mode: PaymentMode::UserDirect,
        payer: Some("0xcaller".to_string()),
        reference: Some("0xt".to_string()),
        receipt: None,
    };
    let r = access_response("design".to_string(), request(), decision).unwrap();
    assert_eq!(r.payload.payment_mode, "user_direct");
    assert_eq!(r.payload.sponsored_by, None);
    assert_eq!(r.headers, vec![pair("x402-version", "2")]);
}

fn challenge() -> PaymentRequired {
    PaymentRequired {
        service: "design".to_string(),
        amount_cents: 8,
        accepted_header: "payment-signature".to_string(),
        payment_required: "abc".to_string(),
        message: "missing proof".to_string(),
        next_step: "pay".to_string(),
    }
}

#[test]
fn other_outcomes_are_failures() {
    match access_response("design".to_string(), request(), AccessDecision::Required(challenge())) {
        Err(e) => {
            assert_eq!(e.status_code(), 402);
            assert_eq!(error_headers(&e), vec![pair("x402-version", "2")]);
        }
        other => panic!("unexpected: {other:?}"),
    }
    let open = AccessDecision::PreconditionRequired {
        task: "signup".to_string(),
        campaign_name: "spring".to_string(),
    };
    match access_response("design".to_string(), request(), open) {
        Err(ApiError::Http { status, code, message }) => {
            assert_eq!(status, 428);
            assert_eq!(code, "precondition_required");
            assert_eq!(message, "complete sponsor task 'signup' for campaign 'spring' before sponsored usage");
        }
        other => panic!("unexpected: {other:?}"),
    }
    let gone = AccessDecision::NotFound { message: "profile required".to_string() };
    match access_response("design".to_string(), request(), gone) {
        Err(ApiError::Http { status, code, message }) => {
            assert_eq!(status, 404);
            assert_eq!(code, "not_found");
            assert_eq!(message, "profile required");
        }
        other => panic!("unexpected: {other:?}"),
    }
    let failed = AccessDecision::Failed(ApiError::internal("x"));
    match access_response("design".to_string(), request(), failed) {
        Err(e) => {
            assert_eq!(e.status_code(), 500);
            assert!(error_headers(&e).is_empty());
        }
        other => panic!("unexpected: {other:?}"),
    }
}

#[test]
fn completed_run_hands_the_upstream_answer_back() {
    let response = SponsoredApiRunResponse {
        api_id: 3,
        payment_mode: "sponsored".to_string(),
        sponsored_by: Some("acme".to_string()),
        tx_hash: None,
        upstream_status: 418,
        upstream_body: "teapot".to_string(),
    };
    let r = run_response(ApiRunDecision::Completed { response, receipt: None }).unwrap();
    assert_eq!(r.status, 200);
    assert_eq!(r.payload.upstream_status, 418);
    assert_eq!(r.payload.upstream_body, "teapot");
    assert_eq!(r.headers, vec![pair("x402-version", "2")]);
    assert!(matches!(
        run_response(ApiRunDecision::NotFound { message: "sponsored api not found".to_string() }),
        Err(ApiError::Http { status: 404, .. })
    ));
    assert!(matches!(
        run_response(ApiRunDecision::Required(challenge())),
        Err(ApiError::PaymentRequired(_))
    ));
    assert!(matches!(
        run_response(ApiRunDecision::Failed(ApiError::upstream(502, "down"))),
        Err(ApiError::Upstream { status: 502, .. })
    ));
}
