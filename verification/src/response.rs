//! What goes back to the caller: the payload of a paid call and the
//! headers around it.
//!
//! Every answer to a paid call names the protocol version. An answer to an
//! accepted call also carries the encoded proof of settlement, where there
//! is one and it can stand in a header.

use crate::error::{
    ApiError, ApiErrorView, ApiResult, STATUS_NOT_FOUND, STATUS_PRECONDITION_REQUIRED,
};
use crate::orchestrator::{AccessDecision, AccessDecisionView};
use crate::outside::{header_value_parses, is_header_value, uuid_hyphenated, uuid_text};
use crate::settlement::{mode_label, PaymentMode};
use crate::sponsored::{ApiRunDecision, ApiRunDecisionView};
use crate::types::{
    opt_as_str, opt_str, opt_text, text_pairs, PaymentRequired, ServiceRunRequest,
    ServiceRunResponse, ServiceRunResponseView, SponsoredApiRunResponse, PAYMENT_RESPONSE_HEADER,
    X402_VERSION, X402_VERSION_HEADER,
};
use vstd::prelude::*;
use vstd::string::*;
use vstd::utf8::encode_utf8;

verus! {

pub const STATUS_OK: u16 = 200;

/// The answer to a paid call: the status, the headers and the payload.
#[derive(Debug)]
pub struct PaidToolResponse {
    pub status: u16,
    pub headers: Vec<(String, String)>,
    pub payload: ServiceRunResponse,
}

/// The answer to a call through a sponsored API.
#[derive(Debug)]
pub struct ApiRunResponse {
    pub status: u16,
    pub headers: Vec<(String, String)>,
    pub payload: SponsoredApiRunResponse,
}

/// The headers of an answer to an accepted call: the protocol version,
/// and the proof of settlement where it can stand in a header.
pub open spec fn envelope(receipt: Option<Seq<char>>) -> Seq<(Seq<char>, Seq<char>)> {
    match receipt {
        Some(r) => if is_header_value(encode_utf8(r)) {
            seq![(X402_VERSION_HEADER@, X402_VERSION@), (PAYMENT_RESPONSE_HEADER@, r)]
        } else {
            seq![(X402_VERSION_HEADER@, X402_VERSION@)]
        },
        None => seq![(X402_VERSION_HEADER@, X402_VERSION@)],
    }
}

/// What the service reports as the result of the task.
pub open spec fn task_output(service: Seq<char>, user_id: u128, input: Seq<char>) -> Seq<char> {
    "Executed '"@ + service + "' task for user "@ + uuid_hyphenated(user_id) + " with input: "@
        + input
}

/// What the caller is told to do where a campaign's task is still open.
pub open spec fn task_message(task: Seq<char>, campaign_name: Seq<char>) -> Seq<char> {
    "complete sponsor task '"@ + task + "' for campaign '"@ + campaign_name
        + "' before sponsored usage"@
}

/// Who is named as the sponsor of an accepted call: the payer of a
/// sponsored call, and nobody where the caller paid.
pub open spec fn sponsor_of(mode: PaymentMode, payer: Option<Seq<char>>) -> Option<Seq<char>> {
    match mode {
        PaymentMode::Sponsored => payer,
        PaymentMode::UserDirect => None,
    }
}

/// The failure that stands for an outcome other than acceptance.
pub open spec fn error_of_decision(decision: AccessDecisionView) -> ApiErrorView
    recommends
        !(decision is Accepted),
{
    match decision {
        AccessDecisionView::Required(challenge) => ApiErrorView::PaymentRequired(challenge),
        AccessDecisionView::PreconditionRequired { task, campaign_name } => ApiErrorView::Http {
            status: STATUS_PRECONDITION_REQUIRED,
            code: "precondition_required"@,
            message: task_message(task, campaign_name),
        },
        AccessDecisionView::NotFound { message } => ApiErrorView::Http {
            status: STATUS_NOT_FOUND,
            code: "not_found"@,
            message,
        },
        AccessDecisionView::Failed(e) => e,
        AccessDecisionView::Accepted { .. } => ApiErrorView::Internal { message: ""@ },
    }
}

/// The headers of an answer to an accepted call.
pub fn response_headers(receipt: Option<&str>) -> (headers: Vec<(String, String)>)
    ensures
        text_pairs(headers@) == envelope(opt_str(receipt)),
{
    let mut headers: Vec<(String, String)> = Vec::new();
    headers.push((String::from_str(X402_VERSION_HEADER), String::from_str(X402_VERSION)));
    match receipt {
        Some(r) => {
            if header_value_parses(r) {
                headers.push((String::from_str(PAYMENT_RESPONSE_HEADER), String::from_str(r)));
            }
        },
        None => {},
    }
    headers
}

/// The answer to a paid call for a service: the payload that reports the
/// task, and the headers of an accepted call.
pub fn build_paid_tool_response(
    service: String,
    request: ServiceRunRequest,
    payment_mode: String,
    sponsored_by: Option<String>,
    tx_hash: Option<String>,
    payment_response_header: Option<&str>,
) -> (response: PaidToolResponse)
    ensures
        response.status == STATUS_OK,
        text_pairs(response.headers@) == envelope(opt_str(payment_response_header)),
        response.payload@ == (ServiceRunResponseView {
            service: service@,
            output: task_output(service@, request.user_id, request.input@),
            payment_mode: payment_mode@,
            sponsored_by: opt_text(sponsored_by),
            tx_hash: opt_text(tx_hash),
        }),
{
    let user = uuid_text(request.user_id);
    let output = String::from_str("Executed '").concat(service.as_str()).concat(
        "' task for user ",
    ).concat(user.as_str()).concat(" with input: ").concat(request.input.as_str());
    let payload = ServiceRunResponse { service, output, payment_mode, sponsored_by, tx_hash };
    PaidToolResponse {
        status: STATUS_OK,
        headers: response_headers(payment_response_header),
        payload,
    }
}

/// What the caller is told to do where a campaign's task is still open.
fn task_required(task: &str, campaign_name: &str) -> (e: ApiError)
    ensures
        e@ == (ApiErrorView::Http {
            status: STATUS_PRECONDITION_REQUIRED,
            code: "precondition_required"@,
            message: task_message(task@, campaign_name@),
        }),
{
    let message = String::from_str("complete sponsor task '").concat(task).concat(
        "' for campaign '",
    ).concat(campaign_name).concat("' before sponsored usage");
    ApiError::precondition(message.as_str())
}

/// The answer to a call for a service, from the outcome of the decision.
/// An accepted call gets the payload that reports the task; every other
/// outcome is the failure that stands for it.
pub fn access_response(service: String, request: ServiceRunRequest, decision: AccessDecision) -> (r:
    ApiResult<PaidToolResponse>)
    ensures
        match decision@ {
            AccessDecisionView::Accepted { mode, payer, reference, receipt } => r is Ok
                && r->Ok_0.status == STATUS_OK && text_pairs(r->Ok_0.headers@) == envelope(receipt)
                && r->Ok_0.payload@ == (ServiceRunResponseView {
                service: service@,
                output: task_output(service@, request.user_id, request.input@),
                payment_mode: mode_label(mode),
                sponsored_by: sponsor_of(mode, payer),
                tx_hash: reference,
            }),
            other => r is Err && r->Err_0@ == error_of_decision(other),
        },
{
    match decision {
        AccessDecision::Accepted { mode, payer, reference, receipt } => {
            let sponsored_by = match mode {
                PaymentMode::Sponsored => payer,
                PaymentMode::UserDirect => None,
            };
            Ok(
                build_paid_tool_response(
                    service,
                    request,
                    String::from_str(mode.label()),
                    sponsored_by,
                    reference,
                    opt_as_str(&receipt),
                ),
            )
        },
        AccessDecision::Required(challenge) => Err(ApiError::PaymentRequired(challenge)),
        AccessDecision::PreconditionRequired { task, campaign_name } => Err(
            task_required(task.as_str(), campaign_name.as_str()),
        ),
        AccessDecision::NotFound { message } => Err(ApiError::not_found(message.as_str())),
        AccessDecision::Failed(e) => Err(e),
    }
}

/// The failure that stands for an outcome of a call through a sponsored
/// API other than completion.
pub open spec fn error_of_run(decision: ApiRunDecisionView) -> ApiErrorView
    recommends
        !(decision is Completed),
{
    match decision {
        ApiRunDecisionView::Required(challenge) => ApiErrorView::PaymentRequired(challenge),
        ApiRunDecisionView::NotFound { message } => ApiErrorView::Http {
            status: STATUS_NOT_FOUND,
            code: "not_found"@,
            message,
        },
        ApiRunDecisionView::Failed(e) => e,
        ApiRunDecisionView::Completed { .. } => ApiErrorView::Internal { message: ""@ },
    }
}

/// The answer to a call through a sponsored API, from the outcome of the
/// call. A completed call gets what the upstream answered; every other
/// outcome is the failure that stands for it.
pub fn run_response(decision: ApiRunDecision) -> (r: ApiResult<ApiRunResponse>)
    ensures
        match decision@ {
            ApiRunDecisionView::Completed { response, receipt } => r is Ok && r->Ok_0.status
                == STATUS_OK && text_pairs(r->Ok_0.headers@) == envelope(receipt)
                && r->Ok_0.payload@ == response,
            other => r is Err && r->Err_0@ == error_of_run(other),
        },
{
    match decision {
        ApiRunDecision::Completed { response, receipt } => Ok(
            ApiRunResponse {
                status: STATUS_OK,
                headers: response_headers(opt_as_str(&receipt)),
                payload: response,
            },
        ),
        ApiRunDecision::Required(challenge) => Err(ApiError::PaymentRequired(challenge)),
        ApiRunDecision::NotFound { message } => Err(ApiError::not_found(message.as_str())),
        ApiRunDecision::Failed(e) => Err(e),
    }
}

/// Every answer to an accepted call names the protocol version first, and
/// carries the proof of settlement after it or not at all.
pub proof fn lemma_envelope_names_the_version(receipt: Option<Seq<char>>)
    ensures
        envelope(receipt).len() >= 1,
        envelope(receipt)[0] == (X402_VERSION_HEADER@, X402_VERSION@),
        envelope(receipt).len() <= 2,
        envelope(receipt).len() == 2 ==> receipt is Some && envelope(receipt)[1] == (
            PAYMENT_RESPONSE_HEADER@,
            receipt->Some_0,
        ),
{
}

/// The headers that go with a failure: a challenge names the protocol
/// version, and the other failures have no headers of their own.
pub fn error_headers(e: &ApiError) -> (headers: Vec<(String, String)>)
    ensures
        text_pairs(headers@) == if e@ is PaymentRequired {
            seq![(X402_VERSION_HEADER@, X402_VERSION@)]
        } else {
            Seq::<(Seq<char>, Seq<char>)>::empty()
        },
{
    let mut headers: Vec<(String, String)> = Vec::new();
    match e {
        ApiError::PaymentRequired(_) => {
            headers.push((String::from_str(X402_VERSION_HEADER), String::from_str(X402_VERSION)));
        },
        _ => {
            assert(text_pairs(headers@) =~= Seq::<(Seq<char>, Seq<char>)>::empty());
        },
    }
    headers
}

} // verus!
