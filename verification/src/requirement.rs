//! The payment challenge: what a caller has to pay for a priced resource,
//! and the encoded form in which the challenge travels.
//!
//! A requirement is a function of the configuration, the service, the price
//! and the resource path alone. Whoever issues the challenge and whoever
//! later checks a proof against it build the same requirement and the same
//! encoded text.

use crate::error::{ApiError, ApiErrorView, ApiResult};
use crate::outside::{base64_encode, base64_standard, json_quote, json_string};
use crate::text::{
    decimal, push_decimal, strip_end_slashes, to_decimal, trim, trim_end_slashes, trimmed,
};
use crate::types::{
    opt_as_str, opt_str, opt_text, AppConfig, AppConfigView, PaymentRequired, PaymentRequiredView,
    X402PaymentRequirement, X402PaymentRequirementView, PAYMENT_SIGNATURE_HEADER,
};
use vstd::prelude::*;
use vstd::string::*;
use vstd::utf8::encode_utf8;

verus! {

/// Base units of the payment asset in one cent.
pub const USDC_BASE_UNITS_PER_CENT: u128 = 10_000;

/// How long a payer has to pay, in seconds.
pub const MAX_TIMEOUT_SECONDS: u64 = 300;

/// The amount in base units of the payment asset.
pub open spec fn base_units(amount_cents: u64) -> nat {
    (amount_cents as nat) * (USDC_BASE_UNITS_PER_CENT as nat)
}

/// A configured value as it is used: trimmed, and absent where nothing but
/// white space was configured.
pub open spec fn required_value(value: Option<Seq<char>>) -> Option<Seq<char>> {
    match value {
        Some(raw) => if trimmed(raw).len() > 0 {
            Some(trimmed(raw))
        } else {
            None
        },
        None => None,
    }
}

/// The failure reported where the configuration lacks the value of `key`.
pub open spec fn missing_value(key: Seq<char>) -> ApiErrorView {
    ApiErrorView::Config { message: key + " is required for x402"@ }
}

/// The requirement for one access to `service` at `amount_cents`, or the
/// configuration failure that stands in its way.
pub open spec fn requirement_for(
    config: AppConfigView,
    service: Seq<char>,
    amount_cents: u64,
    resource_path: Seq<char>,
) -> Result<X402PaymentRequirementView, ApiErrorView> {
    match required_value(config.x402_pay_to) {
        None => Err(missing_value("X402_PAY_TO"@)),
        Some(pay_to) => match required_value(config.x402_asset) {
            None => Err(missing_value("X402_ASSET"@)),
            Some(asset) => Ok(
                X402PaymentRequirementView {
                    scheme: "exact"@,
                    network: config.x402_network,
                    max_amount_required: decimal(base_units(amount_cents)),
                    resource: strip_end_slashes(config.public_base_url) + resource_path,
                    description: "Access paid service '"@ + service + "'"@,
                    mime_type: "application/json"@,
                    pay_to,
                    max_timeout_seconds: MAX_TIMEOUT_SECONDS,
                    asset,
                },
            ),
        },
    }
}

/// The JSON text of a list that holds the one requirement: its members in
/// the order of the fields, under their camel-case names, without spaces.
pub open spec fn requirement_json(r: X402PaymentRequirementView) -> Seq<char> {
    "[{\"scheme\":"@ + json_string(r.scheme) + ",\"network\":"@ + json_string(r.network)
        + ",\"maxAmountRequired\":"@ + json_string(r.max_amount_required) + ",\"resource\":"@
        + json_string(r.resource) + ",\"description\":"@ + json_string(r.description)
        + ",\"mimeType\":"@ + json_string(r.mime_type) + ",\"payTo\":"@ + json_string(r.pay_to)
        + ",\"maxTimeoutSeconds\":"@ + decimal(r.max_timeout_seconds as nat) + ",\"asset\":"@
        + json_string(r.asset) + "}]"@
}

/// Whether a byte string of this length can be encoded on this machine.
pub open spec fn fits_base64(len: nat) -> bool {
    len / 3 * 4 + 4 <= usize::MAX
}

/// The encoded challenge: base64 of the UTF-8 bytes of the JSON text,
/// where the bytes are few enough to be encoded.
pub open spec fn encoded_requirement(r: X402PaymentRequirementView) -> Option<Seq<char>> {
    if fits_base64(encode_utf8(requirement_json(r)).len()) {
        Some(base64_standard(encode_utf8(requirement_json(r))))
    } else {
        None
    }
}

/// What a caller is told where payment is required: the challenge with the
/// two texts, or the failure that kept the challenge from being built.
pub open spec fn payment_required_outcome(
    config: AppConfigView,
    service: Seq<char>,
    amount_cents: u64,
    resource_path: Seq<char>,
    message: Seq<char>,
    next_step: Seq<char>,
) -> ApiErrorView {
    match requirement_for(config, service, amount_cents, resource_path) {
        Err(e) => e,
        Ok(requirement) => match encoded_requirement(requirement) {
            None => ApiErrorView::Internal { message: "payment requirement cannot be encoded"@ },
            Some(encoded) => ApiErrorView::PaymentRequired(
                PaymentRequiredView {
                    service,
                    amount_cents,
                    accepted_header: PAYMENT_SIGNATURE_HEADER@,
                    payment_required: encoded,
                    message,
                    next_step,
                },
            ),
        },
    }
}

/// The view of a requirement or of the failure in its place.
pub open spec fn requirement_result(r: ApiResult<X402PaymentRequirement>) -> Result<
    X402PaymentRequirementView,
    ApiErrorView,
> {
    match r {
        Ok(v) => Ok(v@),
        Err(e) => Err(e@),
    }
}

/// The decimal numeral of the amount in base units of the payment asset.
pub fn amount_to_base_units(amount_cents: u64) -> (s: String)
    ensures
        s@ == decimal(base_units(amount_cents)),
{
    let cents: u128 = amount_cents as u128;
    to_decimal(cents * USDC_BASE_UNITS_PER_CENT)
}

/// The configured value of `key`, trimmed. A value that is absent or blank
/// is a configuration failure.
pub fn required_non_empty_env_like(value: Option<&str>, key: &str) -> (r: ApiResult<String>)
    ensures
        match required_value(opt_str(value)) {
            Some(t) => r is Ok && r->Ok_0@ == t,
            None => r is Err && r->Err_0@ == missing_value(key@),
        },
{
    match value {
        None => Err(missing(key)),
        Some(raw) => {
            let t = trim(raw);
            if t.unicode_len() == 0 {
                Err(missing(key))
            } else {
                Ok(String::from_str(t))
            }
        },
    }
}

fn missing(key: &str) -> (e: ApiError)
    ensures
        e@ == missing_value(key@),
{
    let message = String::from_str(key).concat(" is required for x402");
    ApiError::Config { message }
}

/// Builds the requirement for one access to `service` at `amount_cents`.
/// Fails only where the configuration lacks the payee or the asset.
pub fn build_payment_requirement(
    config: &AppConfig,
    service: &str,
    amount_cents: u64,
    resource_path: &str,
) -> (r: ApiResult<X402PaymentRequirement>)
    ensures
        requirement_result(r) == requirement_for(config@, service@, amount_cents, resource_path@),
{
    let pay_to = match required_non_empty_env_like(opt_as_str(&config.x402_pay_to), "X402_PAY_TO") {
        Ok(v) => v,
        Err(e) => {
            return Err(e);
        },
    };
    let asset = match required_non_empty_env_like(opt_as_str(&config.x402_asset), "X402_ASSET") {
        Ok(v) => v,
        Err(e) => {
            return Err(e);
        },
    };
    let resource = String::from_str(trim_end_slashes(config.public_base_url.as_str())).concat(
        resource_path,
    );
    let description = String::from_str("Access paid service '").concat(service).concat("'");
    Ok(
        X402PaymentRequirement {
            scheme: String::from_str("exact"),
            network: config.x402_network.clone(),
            max_amount_required: amount_to_base_units(amount_cents),
            resource,
            description,
            mime_type: String::from_str("application/json"),
            pay_to,
            max_timeout_seconds: MAX_TIMEOUT_SECONDS,
            asset,
        },
    )
}

/// Appends a member's name and the JSON literal of its text to `out`.
fn push_member(out: &mut String, name: &str, text: &str)
    ensures
        final(out)@ == old(out)@ + name@ + json_string(text@),
{
    let literal = json_quote(text);
    out.append(name);
    out.append(literal.as_str());
}

/// The JSON text of a list that holds the one requirement.
pub fn requirement_to_json(requirement: &X402PaymentRequirement) -> (json: String)
    ensures
        json@ == requirement_json(requirement@),
{
    let mut out = String::new();
    assert(out@ + "[{\"scheme\":"@ =~= "[{\"scheme\":"@);
    push_member(&mut out, "[{\"scheme\":", requirement.scheme.as_str());
    push_member(&mut out, ",\"network\":", requirement.network.as_str());
    push_member(&mut out, ",\"maxAmountRequired\":", requirement.max_amount_required.as_str());
    push_member(&mut out, ",\"resource\":", requirement.resource.as_str());
    push_member(&mut out, ",\"description\":", requirement.description.as_str());
    push_member(&mut out, ",\"mimeType\":", requirement.mime_type.as_str());
    push_member(&mut out, ",\"payTo\":", requirement.pay_to.as_str());
    out.append(",\"maxTimeoutSeconds\":");
    push_decimal(&mut out, requirement.max_timeout_seconds as u128);
    push_member(&mut out, ",\"asset\":", requirement.asset.as_str());
    out.append("}]");
    out
}

/// The encoded challenge for `requirement`: base64 of its JSON text. Fails
/// only where the JSON text is too long to encode.
pub fn encode_payment_required_header(requirement: &X402PaymentRequirement) -> (r: Result<
    String,
    String,
>)
    ensures
        match encoded_requirement(requirement@) {
            Some(encoded) => r is Ok && r->Ok_0@ == encoded,
            None => r is Err && r->Err_0@ == "payment requirement cannot be encoded"@,
        },
{
    let json = requirement_to_json(requirement);
    let bytes = json.as_str().as_bytes();
    if bytes.len() / 3 > (usize::MAX - 4) / 4 {
        Err(String::from_str("payment requirement cannot be encoded"))
    } else {
        Ok(base64_encode(bytes))
    }
}

/// What a caller is told where payment is required: the challenge for the
/// access, with `message` and `next_step`. Where the challenge cannot be
/// built, the failure that stood in the way.
pub fn payment_required_error(
    config: &AppConfig,
    service: &str,
    amount_cents: u64,
    resource_path: &str,
    message: &str,
    next_step: &str,
) -> (e: ApiError)
    ensures
        e@ == payment_required_outcome(
            config@,
            service@,
            amount_cents,
            resource_path@,
            message@,
            next_step@,
        ),
{
    let built = build_payment_requirement(config, service, amount_cents, resource_path);
    let requirement = match built {
        Ok(value) => value,
        Err(err) => {
            return err;
        },
    };
    let payment_required = match encode_payment_required_header(&requirement) {
        Ok(value) => value,
        Err(err) => {
            return ApiError::Internal { message: err };
        },
    };
    ApiError::PaymentRequired(
        PaymentRequired {
            service: String::from_str(service),
            amount_cents,
            accepted_header: String::from_str(PAYMENT_SIGNATURE_HEADER),
            payment_required,
            message: String::from_str(message),
            next_step: String::from_str(next_step),
        },
    )
}

/// Building is deterministic: accesses that agree in the configuration, the
/// service, the price and the resource path have the same requirement and
/// the same encoded challenge.
pub proof fn lemma_build_is_deterministic(
    config_a: AppConfigView,
    config_b: AppConfigView,
    service_a: Seq<char>,
    service_b: Seq<char>,
    amount_a: u64,
    amount_b: u64,
    path_a: Seq<char>,
    path_b: Seq<char>,
)
    requires
        config_a == config_b,
        service_a == service_b,
        amount_a == amount_b,
        path_a == path_b,
    ensures
        requirement_for(config_a, service_a, amount_a, path_a) == requirement_for(
            config_b,
            service_b,
            amount_b,
            path_b,
        ),
        requirement_for(config_a, service_a, amount_a, path_a) matches Ok(a) ==> requirement_for(
            config_b,
            service_b,
            amount_b,
            path_b,
        ) matches Ok(b) && encoded_requirement(a) == encoded_requirement(b),
{
}

} // verus!
