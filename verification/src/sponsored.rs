//! A call through a sponsored API, step by step.
//!
//! The call is paid first, by the caller's proof or from the sponsor's
//! budget, and forwarded upstream after that. A budget that cannot pay
//! turns the call into a challenge. What the upstream answers is logged
//! and handed back; a charge that was made stays made if the upstream
//! fails.
//!
//! This module decides; the caller of `api_step` reads and writes the
//! store, runs the verifier and talks to the upstream.

use crate::error::{
    ApiError, ApiErrorView, ApiResult, STATUS_BAD_GATEWAY, STATUS_INTERNAL_SERVER_ERROR,
};
use crate::ledger::BudgetUpdate;
use crate::outside::{fresh_id, now_micros, uuid_hyphenated, uuid_text};
use crate::settlement::{mode_label, PaymentMode};
use crate::text::{clone_optional, joined, str_eq};
use crate::types::{
    clone_pairs, opt_text, text_pairs, AppConfig, AppConfigView, PaymentRequired,
    PaymentRequiredView, SponsoredApi, SponsoredApiCall, SponsoredApiCallView,
    SponsoredApiRunResponse, SponsoredApiRunResponseView, SponsoredApiView,
};
use crate::verification::{
    refusal_outcome, refuse, verification_result, ProofArtifact, ProofArtifactView, Refusal,
    RefusalView, VerifiedX402Payment, VerifiedX402PaymentView,
};
use vstd::prelude::*;
use vstd::string::*;

verus! {

/// The method of a request to the upstream.
#[derive(Clone, Copy, Debug, PartialEq, Eq, Structural)]
pub enum UpstreamMethod {
    Get,
    Post,
}

/// Where the input of the call goes in the request to the upstream.
#[derive(Clone, Copy, Debug, PartialEq, Eq, Structural)]
pub enum PayloadPlacement {
    /// The members of the input are the query parameters.
    Query,
    /// The input is the JSON body.
    JsonBody,
    /// The input is not sent.
    Omitted,
}

/// A request to the upstream of a sponsored API.
#[derive(Debug)]
pub struct UpstreamRequest {
    pub method: UpstreamMethod,
    pub url: String,
    pub headers: Vec<(String, String)>,
    pub timeout_secs: u64,
    pub payload: PayloadPlacement,
}

pub struct UpstreamRequestView {
    pub method: UpstreamMethod,
    pub url: Seq<char>,
    pub headers: Seq<(Seq<char>, Seq<char>)>,
    pub timeout_secs: u64,
    pub payload: PayloadPlacement,
}

impl View for UpstreamRequest {
    type V = UpstreamRequestView;

    open spec fn view(&self) -> UpstreamRequestView {
        UpstreamRequestView {
            method: self.method,
            url: self.url@,
            headers: text_pairs(self.headers@),
            timeout_secs: self.timeout_secs,
            payload: self.payload,
        }
    }
}

/// One call through a sponsored API.
#[derive(Debug)]
pub struct ApiCall {
    pub api_id: u128,
    pub caller: Option<String>,
    pub input_is_object: bool,
    pub artifact: ProofArtifact,
}

pub struct ApiCallView {
    pub api_id: u128,
    pub caller: Option<Seq<char>>,
    pub input_is_object: bool,
    pub artifact: ProofArtifactView,
}

impl View for ApiCall {
    type V = ApiCallView;

    open spec fn view(&self) -> ApiCallView {
        ApiCallView {
            api_id: self.api_id,
            caller: opt_text(self.caller),
            input_is_object: self.input_is_object,
            artifact: self.artifact@,
        }
    }
}

/// How a call was paid.
#[derive(Debug)]
pub struct Paid {
    pub mode: PaymentMode,
    pub sponsored_by: Option<String>,
    pub tx_hash: Option<String>,
    pub receipt: Option<String>,
}

pub struct PaidView {
    pub mode: PaymentMode,
    pub sponsored_by: Option<Seq<char>>,
    pub tx_hash: Option<Seq<char>>,
    pub receipt: Option<Seq<char>>,
}

impl View for Paid {
    type V = PaidView;

    open spec fn view(&self) -> PaidView {
        PaidView {
            mode: self.mode,
            sponsored_by: opt_text(self.sponsored_by),
            tx_hash: opt_text(self.tx_hash),
            receipt: opt_text(self.receipt),
        }
    }
}

/// The outcome of a call through a sponsored API.
#[derive(Debug)]
pub enum ApiRunDecision {
    /// The call was paid and forwarded: what the upstream answered, and
    /// the encoded proof of settlement where there is one.
    Completed { response: SponsoredApiRunResponse, receipt: Option<String> },
    /// The caller has to pay: here is the challenge.
    Required(PaymentRequired),
    /// The sponsored API does not exist.
    NotFound { message: String },
    /// The service could not serve the call.
    Failed(ApiError),
}

pub enum ApiRunDecisionView {
    Completed { response: SponsoredApiRunResponseView, receipt: Option<Seq<char>> },
    Required(PaymentRequiredView),
    NotFound { message: Seq<char> },
    Failed(ApiErrorView),
}

impl View for ApiRunDecision {
    type V = ApiRunDecisionView;

    open spec fn view(&self) -> ApiRunDecisionView {
        match self {
            ApiRunDecision::Completed { response, receipt } => ApiRunDecisionView::Completed {
                response: response@,
                receipt: opt_text(*receipt),
            },
            ApiRunDecision::Required(p) => ApiRunDecisionView::Required(p@),
            ApiRunDecision::NotFound { message } => ApiRunDecisionView::NotFound {
                message: message@,
            },
            ApiRunDecision::Failed(e) => ApiRunDecisionView::Failed(e@),
        }
    }
}

/// Where the call stands.
#[derive(Debug)]
pub enum ApiState {
    Start,
    LoadingApi,
    Verifying { api: SponsoredApi },
    Debiting { api: SponsoredApi },
    Calling { api: SponsoredApi, paid: Paid },
    Logging { response: SponsoredApiRunResponse, receipt: Option<String> },
    Finished,
}

pub enum ApiStateView {
    Start,
    LoadingApi,
    Verifying { api: SponsoredApiView },
    Debiting { api: SponsoredApiView },
    Calling { api: SponsoredApiView, paid: PaidView },
    Logging { response: SponsoredApiRunResponseView, receipt: Option<Seq<char>> },
    Finished,
}

impl View for ApiState {
    type V = ApiStateView;

    open spec fn view(&self) -> ApiStateView {
        match self {
            ApiState::Start => ApiStateView::Start,
            ApiState::LoadingApi => ApiStateView::LoadingApi,
            ApiState::Verifying { api } => ApiStateView::Verifying { api: api@ },
            ApiState::Debiting { api } => ApiStateView::Debiting { api: api@ },
            ApiState::Calling { api, paid } => ApiStateView::Calling { api: api@, paid: paid@ },
            ApiState::Logging { response, receipt } => ApiStateView::Logging {
                response: response@,
                receipt: opt_text(*receipt),
            },
            ApiState::Finished => ApiStateView::Finished,
        }
    }
}

/// What happened since the last step.
#[derive(Debug)]
pub enum ApiEvent {
    /// The call has arrived.
    Begin,
    /// The store has answered.
    Api(Option<SponsoredApi>),
    /// The verifier has decided on the proof.
    Verified(ApiResult<VerifiedX402Payment>),
    /// The store has applied the conditional update, or has not.
    DebitApplied(bool),
    /// The upstream has answered.
    UpstreamReplied { status: u16, body: String },
    /// The upstream could not be reached, or took too long.
    UpstreamFailed(String),
    /// The store has logged the call.
    Logged,
    /// The store has failed.
    StoreFailed(String),
}

pub enum ApiEventView {
    Begin,
    Api(Option<SponsoredApiView>),
    Verified(Result<VerifiedX402PaymentView, ApiErrorView>),
    DebitApplied(bool),
    UpstreamReplied { status: u16, body: Seq<char> },
    UpstreamFailed(Seq<char>),
    Logged,
    StoreFailed(Seq<char>),
}

impl View for ApiEvent {
    type V = ApiEventView;

    open spec fn view(&self) -> ApiEventView {
        match self {
            ApiEvent::Begin => ApiEventView::Begin,
            ApiEvent::Api(api) => ApiEventView::Api(
                match api {
                    Some(a) => Some(a@),
                    None => None,
                },
            ),
            ApiEvent::Verified(outcome) => ApiEventView::Verified(verification_result(*outcome)),
            ApiEvent::DebitApplied(applied) => ApiEventView::DebitApplied(*applied),
            ApiEvent::UpstreamReplied { status, body } => ApiEventView::UpstreamReplied {
                status: *status,
                body: body@,
            },
            ApiEvent::UpstreamFailed(detail) => ApiEventView::UpstreamFailed(detail@),
            ApiEvent::Logged => ApiEventView::Logged,
            ApiEvent::StoreFailed(detail) => ApiEventView::StoreFailed(detail@),
        }
    }
}

/// What is to be done next.
#[derive(Debug)]
pub enum ApiAction {
    /// Read the sponsored API.
    LoadApi { api_id: u128 },
    /// Run the verifier on the proof of the call, for this service, price
    /// and resource.
    VerifyPayment { service: String, price: u64, resource_path: String },
    /// Apply the conditional update to the store.
    ApplyDebit(BudgetUpdate),
    /// Send the request to the upstream.
    CallUpstream(UpstreamRequest),
    /// Log the call.
    LogCall(SponsoredApiCall),
    /// Answer the call.
    Finish(ApiRunDecision),
}

pub enum ApiActionView {
    LoadApi { api_id: u128 },
    VerifyPayment { service: Seq<char>, price: u64, resource_path: Seq<char> },
    ApplyDebit(BudgetUpdate),
    CallUpstream(UpstreamRequestView),
    LogCall(SponsoredApiCallView),
    Finish(ApiRunDecisionView),
}

impl View for ApiAction {
    type V = ApiActionView;

    open spec fn view(&self) -> ApiActionView {
        match self {
            ApiAction::LoadApi { api_id } => ApiActionView::LoadApi { api_id: *api_id },
            ApiAction::VerifyPayment { service, price, resource_path } =>
                ApiActionView::VerifyPayment {
                    service: service@,
                    price: *price,
                    resource_path: resource_path@,
                },
            ApiAction::ApplyDebit(update) => ApiActionView::ApplyDebit(*update),
            ApiAction::CallUpstream(request) => ApiActionView::CallUpstream(request@),
            ApiAction::LogCall(call) => ApiActionView::LogCall(call@),
            ApiAction::Finish(decision) => ApiActionView::Finish(decision@),
        }
    }
}

/// The path of the resource that a call through a sponsored API asks for.
pub open spec fn api_path(api_id: u128) -> Seq<char> {
    "/sponsored-apis/"@ + uuid_hyphenated(api_id) + "/run"@
}

/// The request to the upstream of `api`, or the failure where the method
/// of the API is neither `GET` nor `POST`. The input travels as query
/// parameters with `GET`, if it is an object, and as the body with `POST`.
pub open spec fn upstream_plan(
    api: SponsoredApiView,
    input_is_object: bool,
    timeout_secs: u64,
) -> Result<UpstreamRequestView, ApiErrorView> {
    if api.upstream_method == "GET"@ {
        Ok(
            UpstreamRequestView {
                method: UpstreamMethod::Get,
                url: api.upstream_url,
                headers: api.upstream_headers,
                timeout_secs,
                payload: if input_is_object {
                    PayloadPlacement::Query
                } else {
                    PayloadPlacement::Omitted
                },
            },
        )
    } else if api.upstream_method == "POST"@ {
        Ok(
            UpstreamRequestView {
                method: UpstreamMethod::Post,
                url: api.upstream_url,
                headers: api.upstream_headers,
                timeout_secs,
                payload: PayloadPlacement::JsonBody,
            },
        )
    } else {
        Err(
            ApiErrorView::Internal {
                message: "unsupported upstream method: "@ + api.upstream_method,
            },
        )
    }
}

/// The outcome that stands for a refusal of the verifier.
pub open spec fn run_decision_of_error(e: ApiErrorView) -> ApiRunDecisionView {
    match e {
        ApiErrorView::PaymentRequired(challenge) => ApiRunDecisionView::Required(challenge),
        _ => ApiRunDecisionView::Failed(e),
    }
}

/// The step that answers the call.
pub open spec fn api_finish(decision: ApiRunDecisionView) -> (ApiStateView, ApiActionView) {
    (ApiStateView::Finished, ApiActionView::Finish(decision))
}

/// The step that answers an event that the state does not expect.
pub open spec fn api_unexpected() -> (ApiStateView, ApiActionView) {
    api_finish(ApiRunDecisionView::Failed(ApiErrorView::Internal { message: "unexpected event"@ }))
}

/// How a call is paid that the verifier has accepted.
pub open spec fn paid_directly(payment: VerifiedX402PaymentView) -> PaidView {
    PaidView {
        mode: PaymentMode::UserDirect,
        sponsored_by: None,
        tx_hash: payment.tx_hash,
        receipt: payment.payment_response_header,
    }
}

/// How a call is paid that was charged to the sponsor's budget.
pub open spec fn paid_by_sponsor(api: SponsoredApiView) -> PaidView {
    PaidView {
        mode: PaymentMode::Sponsored,
        sponsored_by: Some(api.sponsor),
        tx_hash: None,
        receipt: None,
    }
}

/// The step after the call was paid: forward it upstream.
pub open spec fn step_forward(
    config: AppConfigView,
    call: ApiCallView,
    api: SponsoredApiView,
    paid: PaidView,
) -> (ApiStateView, ApiActionView) {
    match upstream_plan(api, call.input_is_object, config.sponsored_api_timeout_secs) {
        Ok(request) => (ApiStateView::Calling { api, paid }, ApiActionView::CallUpstream(request)),
        Err(e) => api_finish(ApiRunDecisionView::Failed(e)),
    }
}

/// The step after the sponsored API was read: verify the caller's proof
/// where there is one, and else charge the budget where it can pay, and
/// else challenge the caller to pay.
pub open spec fn step_on_api(
    config: AppConfigView,
    call: ApiCallView,
    api: SponsoredApiView,
) -> (ApiStateView, ApiActionView) {
    if !(call.artifact is Missing) {
        (
            ApiStateView::Verifying { api },
            ApiActionView::VerifyPayment {
                service: api.service_key,
                price: api.price_cents,
                resource_path: api_path(call.api_id),
            },
        )
    } else if api.budget().can_debit(api.price_cents) {
        (
            ApiStateView::Debiting { api },
            ApiActionView::ApplyDebit(api.budget().update_for(api.id, api.price_cents)),
        )
    } else {
        api_finish(
            run_decision_of_error(
                refusal_outcome(
                    config,
                    api.service_key,
                    api.price_cents,
                    api_path(call.api_id),
                    RefusalView::BudgetExhausted,
                ),
            ),
        )
    }
}

/// What is handed back for a call that was paid and forwarded.
pub open spec fn run_response(
    api: SponsoredApiView,
    paid: PaidView,
    status: u16,
    body: Seq<char>,
) -> SponsoredApiRunResponseView {
    SponsoredApiRunResponseView {
        api_id: api.id,
        payment_mode: mode_label(paid.mode),
        sponsored_by: paid.sponsored_by,
        tx_hash: paid.tx_hash,
        upstream_status: status,
        upstream_body: body,
    }
}

/// The log entry for a call that was paid and forwarded.
pub open spec fn call_log(
    call: ApiCallView,
    api: SponsoredApiView,
    paid: PaidView,
    fresh: u128,
    now: i64,
) -> SponsoredApiCallView {
    SponsoredApiCallView {
        id: fresh,
        sponsored_api_id: api.id,
        payment_mode: mode_label(paid.mode),
        amount_cents: api.price_cents,
        tx_hash: paid.tx_hash,
        caller: call.caller,
        created_at: now,
    }
}

/// The rule for a call through a sponsored API: the next state and the
/// action, given the state, what happened, and the identifier and the
/// instant that go into the log.
pub open spec fn api_transition(
    config: AppConfigView,
    call: ApiCallView,
    state: ApiStateView,
    event: ApiEventView,
    fresh: u128,
    now: i64,
) -> (ApiStateView, ApiActionView) {
    match (state, event) {
        (ApiStateView::Start, ApiEventView::Begin) => (
            ApiStateView::LoadingApi,
            ApiActionView::LoadApi { api_id: call.api_id },
        ),
        (ApiStateView::Start, _) => api_unexpected(),
        (ApiStateView::Finished, _) => api_unexpected(),
        (ApiStateView::LoadingApi, ApiEventView::Api(found)) => match found {
            None => api_finish(
                ApiRunDecisionView::NotFound { message: "sponsored api not found"@ },
            ),
            Some(api) => step_on_api(config, call, api),
        },
        (ApiStateView::Verifying { api }, ApiEventView::Verified(outcome)) => match outcome {
            Ok(payment) => step_forward(config, call, api, paid_directly(payment)),
            Err(e) => api_finish(run_decision_of_error(e)),
        },
        (ApiStateView::Debiting { api }, ApiEventView::DebitApplied(applied)) => if applied {
            step_forward(config, call, api, paid_by_sponsor(api))
        } else {
            (ApiStateView::LoadingApi, ApiActionView::LoadApi { api_id: call.api_id })
        },
        (ApiStateView::Calling { api, paid }, ApiEventView::UpstreamReplied { status, body }) => (
            ApiStateView::Logging {
                response: run_response(api, paid, status, body),
                receipt: paid.receipt,
            },
            ApiActionView::LogCall(call_log(call, api, paid, fresh, now)),
        ),
        (ApiStateView::Calling { .. }, ApiEventView::UpstreamFailed(detail)) => api_finish(
            ApiRunDecisionView::Failed(
                ApiErrorView::Upstream { status: STATUS_BAD_GATEWAY, message: detail },
            ),
        ),
        (ApiStateView::Logging { response, receipt }, ApiEventView::Logged) => api_finish(
            ApiRunDecisionView::Completed { response, receipt },
        ),
        (_, ApiEventView::StoreFailed(detail)) => api_finish(
            ApiRunDecisionView::Failed(
                ApiErrorView::Supabase { status: STATUS_INTERNAL_SERVER_ERROR, message: detail },
            ),
        ),
        _ => api_unexpected(),
    }
}

/// The request to the upstream of `api`, or the failure where the method
/// of the API is neither `GET` nor `POST`.
pub fn plan_upstream(api: &SponsoredApi, input_is_object: bool, timeout_secs: u64) -> (r: Result<
    UpstreamRequest,
    ApiError,
>)
    ensures
        match upstream_plan(api@, input_is_object, timeout_secs) {
            Ok(request) => r is Ok && r->Ok_0@ == request,
            Err(e) => r is Err && r->Err_0@ == e,
        },
{
    if str_eq(api.upstream_method.as_str(), "GET") {
        Ok(
            UpstreamRequest {
                method: UpstreamMethod::Get,
                url: api.upstream_url.clone(),
                headers: clone_pairs(&api.upstream_headers),
                timeout_secs,
                payload: if input_is_object {
                    PayloadPlacement::Query
                } else {
                    PayloadPlacement::Omitted
                },
            },
        )
    } else if str_eq(api.upstream_method.as_str(), "POST") {
        Ok(
            UpstreamRequest {
                method: UpstreamMethod::Post,
                url: api.upstream_url.clone(),
                headers: clone_pairs(&api.upstream_headers),
                timeout_secs,
                payload: PayloadPlacement::JsonBody,
            },
        )
    } else {
        Err(
            ApiError::Internal {
                message: joined("unsupported upstream method: ", api.upstream_method.as_str()),
            },
        )
    }
}

impl ApiCall {
    /// The path of the resource that the call asks for.
    pub fn resource_path(&self) -> (path: String)
        ensures
            path@ == api_path(self@.api_id),
    {
        let id = uuid_text(self.api_id);
        String::from_str("/sponsored-apis/").concat(id.as_str()).concat("/run")
    }
}

impl ApiRunDecision {
    /// The outcome that stands for a refusal of the verifier.
    pub fn of_error(e: ApiError) -> (d: ApiRunDecision)
        ensures
            d@ == run_decision_of_error(e@),
    {
        match e {
            ApiError::PaymentRequired(challenge) => ApiRunDecision::Required(challenge),
            other => ApiRunDecision::Failed(other),
        }
    }
}

fn unexpected() -> (r: (ApiState, ApiAction))
    ensures
        (r.0@, r.1@) == api_unexpected(),
{
    (
        ApiState::Finished,
        ApiAction::Finish(ApiRunDecision::Failed(ApiError::internal("unexpected event"))),
    )
}

fn store_failed(detail: String) -> (r: (ApiState, ApiAction))
    ensures
        (r.0@, r.1@) == api_finish(
            ApiRunDecisionView::Failed(
                ApiErrorView::Supabase { status: STATUS_INTERNAL_SERVER_ERROR, message: detail@ },
            ),
        ),
{
    (
        ApiState::Finished,
        ApiAction::Finish(
            ApiRunDecision::Failed(
                ApiError::Supabase { status: STATUS_INTERNAL_SERVER_ERROR, message: detail },
            ),
        ),
    )
}

fn forward(config: &AppConfig, call: &ApiCall, api: SponsoredApi, paid: Paid) -> (r: (
    ApiState,
    ApiAction,
))
    ensures
        (r.0@, r.1@) == step_forward(config@, call@, api@, paid@),
{
    match plan_upstream(&api, call.input_is_object, config.sponsored_api_timeout_secs) {
        Ok(request) => (ApiState::Calling { api, paid }, ApiAction::CallUpstream(request)),
        Err(e) => (ApiState::Finished, ApiAction::Finish(ApiRunDecision::Failed(e))),
    }
}

fn on_api(config: &AppConfig, call: &ApiCall, api: SponsoredApi) -> (r: (ApiState, ApiAction))
    ensures
        (r.0@, r.1@) == step_on_api(config@, call@, api@),
{
    let has_proof = match call.artifact {
        ProofArtifact::Missing => false,
        _ => true,
    };
    if has_proof {
        let service = api.service_key.clone();
        let price = api.price_cents;
        let resource_path = call.resource_path();
        (ApiState::Verifying { api }, ApiAction::VerifyPayment { service, price, resource_path })
    } else {
        match api.budget().plan_debit(api.id, api.price_cents) {
            Some(update) => (ApiState::Debiting { api }, ApiAction::ApplyDebit(update)),
            None => {
                let path = call.resource_path();
                let e = refuse(
                    config,
                    api.service_key.as_str(),
                    api.price_cents,
                    path.as_str(),
                    &Refusal::BudgetExhausted,
                );
                (ApiState::Finished, ApiAction::Finish(ApiRunDecision::of_error(e)))
            },
        }
    }
}

fn on_reply(
    call: &ApiCall,
    api: SponsoredApi,
    paid: Paid,
    status: u16,
    body: String,
    fresh: u128,
    now: i64,
) -> (r: (ApiState, ApiAction))
    ensures
        (r.0@, r.1@) == (
            ApiStateView::Logging {
                response: run_response(api@, paid@, status, body@),
                receipt: paid@.receipt,
            },
            ApiActionView::LogCall(call_log(call@, api@, paid@, fresh, now)),
        ),
{
    let log = SponsoredApiCall {
        id: fresh,
        sponsored_api_id: api.id,
        payment_mode: String::from_str(paid.mode.label()),
        amount_cents: api.price_cents,
        tx_hash: clone_optional(&paid.tx_hash),
        caller: clone_optional(&call.caller),
        created_at: now,
    };
    let response = SponsoredApiRunResponse {
        api_id: api.id,
        payment_mode: String::from_str(paid.mode.label()),
        sponsored_by: paid.sponsored_by,
        tx_hash: paid.tx_hash,
        upstream_status: status,
        upstream_body: body,
    };
    (ApiState::Logging { response, receipt: paid.receipt }, ApiAction::LogCall(log))
}

/// One step of a call through a sponsored API, with the identifier and
/// the instant that go into the log given by the caller.
pub fn api_step_with(
    config: &AppConfig,
    call: &ApiCall,
    state: ApiState,
    event: ApiEvent,
    fresh: u128,
    now: i64,
) -> (r: (ApiState, ApiAction))
    ensures
        (r.0@, r.1@) == api_transition(config@, call@, state@, event@, fresh, now),
{
    match state {
        ApiState::Start => match event {
            ApiEvent::Begin => (ApiState::LoadingApi, ApiAction::LoadApi { api_id: call.api_id }),
            _ => unexpected(),
        },
        ApiState::Finished => unexpected(),
        ApiState::LoadingApi => match event {
            ApiEvent::Api(found) => match found {
                None => (
                    ApiState::Finished,
                    ApiAction::Finish(
                        ApiRunDecision::NotFound {
                            message: String::from_str("sponsored api not found"),
                        },
                    ),
                ),
                Some(api) => on_api(config, call, api),
            },
            ApiEvent::StoreFailed(detail) => store_failed(detail),
            _ => unexpected(),
        },
        ApiState::Verifying { api } => match event {
            ApiEvent::Verified(outcome) => match outcome {
                Ok(payment) => {
                    let paid = Paid {
                        mode: PaymentMode::UserDirect,
                        sponsored_by: None,
                        tx_hash: payment.tx_hash,
                        receipt: payment.payment_response_header,
                    };
                    forward(config, call, api, paid)
                },
                Err(e) => (ApiState::Finished, ApiAction::Finish(ApiRunDecision::of_error(e))),
            },
            ApiEvent::StoreFailed(detail) => store_failed(detail),
            _ => unexpected(),
        },
        ApiState::Debiting { api } => match event {
            ApiEvent::DebitApplied(applied) => {
                if applied {
                    let paid = Paid {
                        mode: PaymentMode::Sponsored,
                        sponsored_by: Some(api.sponsor.clone()),
                        tx_hash: None,
                        receipt: None,
                    };
                    forward(config, call, api, paid)
                } else {
                    (ApiState::LoadingApi, ApiAction::LoadApi { api_id: call.api_id })
                }
            },
            ApiEvent::StoreFailed(detail) => store_failed(detail),
            _ => unexpected(),
        },
        ApiState::Calling { api, paid } => match event {
            ApiEvent::UpstreamReplied { status, body } => on_reply(
                call,
                api,
                paid,
                status,
                body,
                fresh,
                now,
            ),
            ApiEvent::UpstreamFailed(detail) => (
                ApiState::Finished,
                ApiAction::Finish(
                    ApiRunDecision::Failed(
                        ApiError::Upstream { status: STATUS_BAD_GATEWAY, message: detail },
                    ),
                ),
            ),
            ApiEvent::StoreFailed(detail) => store_failed(detail),
            _ => unexpected(),
        },
        ApiState::Logging { response, receipt } => match event {
            ApiEvent::Logged => (
                ApiState::Finished,
                ApiAction::Finish(ApiRunDecision::Completed { response, receipt }),
            ),
            ApiEvent::StoreFailed(detail) => store_failed(detail),
            _ => unexpected(),
        },
    }
}

/// One step of a call through a sponsored API. Takes the state and what
/// happened, and gives the next state and what is to be done. The log
/// entry gets a fresh random identifier and the time of the clock.
pub fn api_step(config: &AppConfig, call: &ApiCall, state: ApiState, event: ApiEvent) -> (r: (
    ApiState,
    ApiAction,
))
    ensures
        exists|fresh: u128, now: i64|
            (r.0@, r.1@) == #[trigger] api_transition(
                config@,
                call@,
                state@,
                event@,
                fresh,
                now,
            ),
{
    let logs = match (&state, &event) {
        (ApiState::Calling { .. }, ApiEvent::UpstreamReplied { .. }) => true,
        _ => false,
    };
    let fresh: u128 = if logs {
        fresh_id()
    } else {
        0
    };
    let now: i64 = if logs {
        now_micros()
    } else {
        0
    };
    api_step_with(config, call, state, event, fresh, now)
}

/// Paid before forwarded, and logged before answered. A request goes to
/// the upstream only after the verifier has accepted the caller's proof
/// or the store has applied the debit to the sponsor's budget; a debit is
/// asked for only of a budget that is active and covers the price, for a
/// call without a proof; a call is logged only when the upstream has
/// answered, and completed only when the store has logged it.
pub proof fn lemma_paid_before_forwarded(
    config: AppConfigView,
    call: ApiCallView,
    state: ApiStateView,
    event: ApiEventView,
    fresh: u128,
    now: i64,
)
    ensures
        api_transition(config, call, state, event, fresh, now).1 is CallUpstream ==> ((state
            is Verifying && (event matches ApiEventView::Verified(outcome) && outcome is Ok)) || (
        state is Debiting && event == ApiEventView::DebitApplied(true))),
        api_transition(config, call, state, event, fresh, now).1 is ApplyDebit ==> (call.artifact
            is Missing && state is LoadingApi && (event matches ApiEventView::Api(Some(api))
            && api.budget().can_debit(api.price_cents) && api_transition(
            config,
            call,
            state,
            event,
            fresh,
            now,
        ).1 == ApiActionView::ApplyDebit(api.budget().update_for(api.id, api.price_cents)))),
        api_transition(config, call, state, event, fresh, now).1 is LogCall ==> state is Calling
            && event is UpstreamReplied,
        (api_transition(config, call, state, event, fresh, now).1
            matches ApiActionView::Finish(decision) && decision is Completed) ==> state is Logging
            && event is Logged,
        api_transition(config, call, state, event, fresh, now).0 is Logging ==> api_transition(
            config,
            call,
            state,
            event,
            fresh,
            now,
        ).1 is LogCall,
{
}

} // verus!
