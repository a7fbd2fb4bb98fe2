use payloadexchange_mvp::error::ApiError;
use payloadexchange_mvp::types::PaymentRequired;

#[test]
fn failures_have_their_status_codes() {
    assert_eq!(ApiError::not_found("x").status_code(), 404);
    assert_eq!(ApiError::validation("x").status_code(), 400);
    assert_eq!(ApiError::precondition("x").status_code(), 428);
    assert_eq!(ApiError::supabase(503, "x").status_code(), 503);
    assert_eq!(ApiError::upstream(502, "x").status_code(), 502);
    assert_eq!(ApiError::config("x").status_code(), 500);
    assert_eq!(ApiError::internal("x").status_code(), 500);
}

#[test]
fn failures_have_their_codes_and_messages() {
    let cases = [
        (ApiError::not_found("a"), "not_found", "a"),
        (ApiError::validation("b"), "validation_error", "b"),
        (ApiError::precondition("c"), "precondition_required", "c"),
        (ApiError::supabase(500, "d"), "supabase_error", "d"),
        (ApiError::upstream(502, "e"), "upstream_error", "e"),
        (ApiError::config("f"), "config_error", "f"),
        (ApiError::internal("g"), "internal_error", "g"),
    ];
    for (e, code, message) in cases {
        let body = e.body();
        assert_eq!(body.code, code);
        assert_eq!(body.message, message);
    }
}

#[test]
fn failures_read_as_text() {
    assert_eq!(ApiError::not_found("campaign not found").to_string(), "campaign not found");
    assert_eq!(ApiError::supabase(500, "down").to_string(), "supabase error: down");
    assert_eq!(ApiError::upstream(502, "late").to_string(), "upstream error: late");
    assert_eq!(ApiError::config("unset").to_string(), "config error: unset");
    assert_eq!(ApiError::internal("odd").to_string(), "internal error: odd");
}

#[test]
fn challenge_is_a_payment_required_outcome() {
    let e = ApiError::PaymentRequired(PaymentRequired {
        service: "scraping".to_string(),
        amount_cents: 5,
        accepted_header: "payment-signature".to_string(),
        payment_required: "abc".to_string(),
        message: "missing proof".to_string(),
        next_step: "pay".to_string(),
    });
    assert_eq!(e.status_code(), 402);
    assert_eq!(e.body().code, "payment_required");
    assert_eq!(e.body().message, "payment required");
    assert_eq!(e.to_string(), "payment required");
}
