use base64::Engine;
use payloadexchange_mvp::error::ApiError;
use payloadexchange_mvp::requirement::{
    amount_to_base_units, build_payment_requirement, encode_payment_required_header,
    payment_required_error, required_non_empty_env_like, requirement_to_json,
};
use payloadexchange_mvp::types::AppConfig;

fn config() -> AppConfig {
    AppConfig {
        sponsored_api_create_price_cents: 25,
        sponsored_api_timeout_secs: 12,
        x402_facilitator_url: "https://x402.org/facilitator".to_string(),
        x402_verify_path: "/verify".to_string(),
        x402_settle_path: "/settle".to_string(),
        x402_facilitator_bearer_token: None,
        x402_network: "base-sepolia".to_string(),
        x402_pay_to: Some(" 0xPayee ".to_string()),
        x402_asset: Some("0xAsset".to_string()),
        public_base_url: "http://localhost:3000/".to_string(),
    }
}

const EXPECTED_JSON: &str = "[{\"scheme\":\"exact\",\"network\":\"base-sepolia\",\"maxAmountRequired\":\"50000\",\"resource\":\"http://localhost:3000/tool/scraping/run\",\"description\":\"Access paid service 'scraping'\",\"mimeType\":\"application/json\",\"payTo\":\"0xPayee\",\"maxTimeoutSeconds\":300,\"asset\":\"0xAsset\"}]";

#[test]
fn requirement_is_built_from_the_configuration() {
    let r = build_payment_requirement(&config(), "scraping", 5, "/tool/scraping/run").unwrap();
    assert_eq!(r.scheme, "exact");
    assert_eq!(r.network, "base-sepolia");
    assert_eq!(r.max_amount_required, "50000");
    assert_eq!(r.resource, "http://localhost:3000/tool/scraping/run");
    assert_eq!(r.description, "Access paid service 'scraping'");
    assert_eq!(r.mime_type, "application/json");
    assert_eq!(r.pay_to, "0xPayee");
    assert_eq!(r.max_timeout_seconds, 300);
    assert_eq!(r.asset, "0xAsset");
}

#[test]
fn missing_payee_is_a_configuration_failure() {
    let mut c = config();
    c.x402_pay_to = None;
    match build_payment_requirement(&c, "scraping", 5, "/tool/scraping/run") {
        Err(ApiError::Config { message }) => assert_eq!(message, "X402_PAY_TO is required for x402"),
        other => panic!("unexpected: {other:?}"),
    }
}

#[test]
fn blank_asset_is_a_configuration_failure() {
    let mut c = config();
    c.x402_asset = Some("   ".to_string());
    match build_payment_requirement(&c, "scraping", 5, "/tool/scraping/run") {
        Err(ApiError::Config { message }) => assert_eq!(message, "X402_ASSET is required for x402"),
        other => panic!("unexpected: {other:?}"),
    }
}

#[test]
fn payee_is_checked_before_asset() {
    let mut c = config();
    c.x402_pay_to = Some("".to_string());
    c.x402_asset = None;
    match build_payment_requirement(&c, "scraping", 5, "/x") {
        Err(ApiError::Config { message }) => assert_eq!(message, "X402_PAY_TO is required for x402"),
        other => panic!("unexpected: {other:?}"),
    }
}

#[test]
fn required_values_are_trimmed() {
    assert_eq!(required_non_empty_env_like(Some("  v "), "KEY").unwrap(), "v");
    assert!(matches!(
        required_non_empty_env_like(None, "KEY"),
        Err(ApiError::Config { message }) if message == "KEY is required for x402"
    ));
    assert!(matches!(
        required_non_empty_env_like(Some("\t\n"), "KEY"),
        Err(ApiError::Config { message }) if message == "KEY is required for x402"
    ));
}

#[test]
fn requirement_has_the_expected_json_text() {
    let r = build_payment_requirement(&config(), "scraping", 5, "/tool/scraping/run").unwrap();
    assert_eq!(requirement_to_json(&r), EXPECTED_JSON);
}

#[test]
fn header_is_the_base64_of_the_json_text() {
    let r = build_payment_requirement(&config(), "scraping", 5, "/tool/scraping/run").unwrap();
    let header = encode_payment_required_header(&r).unwrap();
    assert_ne!(header, EXPECTED_JSON);
    let bytes = base64::engine::general_purpose::STANDARD.decode(header.as_bytes()).unwrap();
    assert_eq!(String::from_utf8(bytes).unwrap(), EXPECTED_JSON);
    assert_eq!(
        header,
        base64::engine::general_purpose::STANDARD.encode(EXPECTED_JSON.as_bytes())
    );
}

#[test]
fn json_text_parses_back_to_the_fields() {
    let r = build_payment_requirement(&config(), "a \"quoted\" \\ service\n", 8, "/p").unwrap();
    let json = requirement_to_json(&r);
    let value: serde_json::Value = serde_json::from_str(&json).unwrap();
    let first = &value[0];
    assert_eq!(first["description"], "Access paid service 'a \"quoted\" \\ service\n'");
    assert_eq!(first["maxAmountRequired"], "80000");
    assert_eq!(first["maxTimeoutSeconds"], 300);
    assert_eq!(first["payTo"], "0xPayee");
    assert_eq!(value.as_array().unwrap().len(), 1);
    assert_eq!(first.as_object().unwrap().len(), 9);
}

#[test]
fn building_twice_gives_the_same_encoded_requirement() {
    let a = build_payment_requirement(&config(), "design", 8, "/proxy/design/run").unwrap();
    let b = build_payment_requirement(&config(), "design", 8, "/proxy/design/run").unwrap();
    assert_eq!(
        encode_payment_required_header(&a).unwrap(),
        encode_payment_required_header(&b).unwrap()
    );
    let c = build_payment_requirement(&config(), "design", 9, "/proxy/design/run").unwrap();
    assert_ne!(
        encode_payment_required_header(&a).unwrap(),
        encode_payment_required_header(&c).unwrap()
    );
}

#[test]
fn challenge_carries_the_texts_and_the_header() {
    let e = payment_required_error(&config(), "scraping", 5, "/tool/scraping/run", "m", "n");
    match e {
        ApiError::PaymentRequired(p) => {
            assert_eq!(p.service, "scraping");
            assert_eq!(p.amount_cents, 5);
            assert_eq!(p.accepted_header, "payment-signature");
            assert_eq!(p.message, "m");
            assert_eq!(p.next_step, "n");
            assert_eq!(
                p.payment_required,
                base64::engine::general_purpose::STANDARD.encode(EXPECTED_JSON.as_bytes())
            );
        }
        other => panic!("unexpected: {other:?}"),
    }
}

#[test]
fn challenge_without_configuration_is_a_configuration_failure() {
    let mut c = config();
    c.x402_asset = None;
    let e = payment_required_error(&c, "scraping", 5, "/tool/scraping/run", "m", "n");
    assert!(matches!(e, ApiError::Config { .. }));
    assert_eq!(e.status_code(), 500);
}

#[test]
fn base_units_are_ten_thousand_per_cent() {
    assert_eq!(amount_to_base_units(3), "30000");
    assert_eq!(amount_to_base_units(100), "1000000");
}

fn requirement_with(scheme: &str) -> payloadexchange_mvp::types::X402PaymentRequirement {
    payloadexchange_mvp::types::X402PaymentRequirement {
        scheme: scheme.to_string(),
        network: "n".to_string(),
        max_amount_required: "1".to_string(),
        resource: "r".to_string(),
        description: "d".to_string(),
        mime_type: "m".to_string(),
        pay_to: "p".to_string(),
        max_timeout_seconds: 1,
        asset: "a".to_string(),
    }
}

fn literal_of(text: &str) -> String {
    let hex: Vec<char> = "0123456789abcdef".chars().collect();
    let mut out = String::from("\"");
    for c in text.chars() {
        let n = c as u32;
        match c {
            '"' => out.push_str("\\\""),
            '\\' => out.push_str("\\\\"),
            _ if n == 8 => out.push_str("\\b"),
            _ if n == 9 => out.push_str("\\t"),
            _ if n == 10 => out.push_str("\\n"),
            _ if n == 12 => out.push_str("\\f"),
            _ if n == 13 => out.push_str("\\r"),
            _ if n < 32 => {
                out.push_str("\\u00");
                out.push(hex[(n / 16) as usize]);
                out.push(hex[(n % 16) as usize]);
            }
            _ => out.push(c),
        }
    }
    out.push('"');
    out
}

#[test]
fn texts_are_escaped_as_json_literals() {
    let mut samples: Vec<String> = (0u32..=0x80).filter_map(char::from_u32).map(|c| format!("a{c}b")).collect();
    samples.push(String::new());
    samples.push("é\u{2028}\u{2029}\u{7f}😀\u{ffff}".to_string());
    samples.push("\"\\\"\\".to_string());
    samples.push("/path/with/slashes".to_string());
    for text in samples {
        let json = requirement_to_json(&requirement_with(&text));
        assert_eq!(
            json,
            format!(
                "[{{\"scheme\":{},\"network\":\"n\",\"maxAmountRequired\":\"1\",\"resource\":\"r\",\"description\":\"d\",\"mimeType\":\"m\",\"payTo\":\"p\",\"maxTimeoutSeconds\":1,\"asset\":\"a\"}}]",
                literal_of(&text)
            ),
            "{text:?}"
        );
    }
}

fn digits_of_six_bits(bytes: &[u8]) -> String {
    let alphabet: Vec<char> = "ABCDEFGHIJKLMNOPQRSTUVWXYZabcdefghijklmnopqrstuvwxyz0123456789+/".chars().collect();
    let mut out = String::new();
    let mut rest = bytes;
    while !rest.is_empty() {
        let b0 = rest[0] as usize;
        if rest.len() == 1 {
            out.push(alphabet[b0 / 4]);
            out.push(alphabet[(b0 % 4) * 16]);
            out.push_str("==");
            break;
        }
        let b1 = rest[1] as usize;
        if rest.len() == 2 {
            out.push(alphabet[b0 / 4]);
            out.push(alphabet[(b0 % 4) * 16 + b1 / 16]);
            out.push(alphabet[(b1 % 16) * 4]);
            out.push('=');
            break;
        }
        let b2 = rest[2] as usize;
        out.push(alphabet[b0 / 4]);
        out.push(alphabet[(b0 % 4) * 16 + b1 / 16]);
        out.push(alphabet[(b1 % 16) * 4 + b2 / 64]);
        out.push(alphabet[b2 % 64]);
        rest = &rest[3..];
    }
    out
}

#[test]
fn header_is_made_of_digits_of_six_bits() {
    let mut samples: Vec<String> = (0..7).map(|n| "x".repeat(n)).collect();
    samples.push("é😀ÿ\u{7ff}\u{ffff}".to_string());
    samples.push((0u32..=0x7f).filter_map(char::from_u32).collect());
    samples.push((0x80u32..0x180).filter_map(char::from_u32).collect());
    for text in samples {
        let r = requirement_with(&text);
        let json = requirement_to_json(&r);
        assert_eq!(
            encode_payment_required_header(&r).unwrap(),
            digits_of_six_bits(json.as_bytes()),
            "{text:?}"
        );
    }
}
