use payloadexchange_mvp::requirement::amount_to_base_units;
use payloadexchange_mvp::types::{AppConfig, AppState, DEFAULT_PRICE_CENTS};

fn config() -> AppConfig {
    AppConfig {
        sponsored_api_create_price_cents: 25,
        sponsored_api_timeout_secs: 12,
        x402_facilitator_url: "https://x402.org/facilitator".to_string(),
        x402_verify_path: "/verify".to_string(),
        x402_settle_path: "/settle".to_string(),
        x402_facilitator_bearer_token: None,
        x402_network: "base-sepolia".to_string(),
        x402_pay_to: Some("0xabc".to_string()),
        x402_asset: Some("0xdef".to_string()),
        public_base_url: "http://localhost:3000".to_string(),
    }
}

#[test]
fn catalog_lists_the_known_services() {
    let state = AppState::new(config());
    assert_eq!(state.service_price("scraping"), 5);
    assert_eq!(state.service_price("design"), 8);
    assert_eq!(state.service_price("storage"), 3);
    assert_eq!(state.service_price("data-tooling"), 4);
}

#[test]
fn unknown_service_has_the_default_price() {
    let state = AppState::new(config());
    assert_eq!(state.service_price("indexing"), DEFAULT_PRICE_CENTS);
    assert_eq!(state.service_price(""), 5);
    assert_eq!(state.service_price("Scraping"), 5);
}

#[test]
fn amounts_convert_to_base_units() {
    assert_eq!(amount_to_base_units(0), "0");
    assert_eq!(amount_to_base_units(1), "10000");
    assert_eq!(amount_to_base_units(5), "50000");
    assert_eq!(amount_to_base_units(25), "250000");
    assert_eq!(amount_to_base_units(u64::MAX), "184467440737095516150000");
}
