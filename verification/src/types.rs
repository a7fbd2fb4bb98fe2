//! The data model: configuration, profiles, campaigns, sponsored APIs,
//! payments and the payloads exchanged with callers.
//!
//! Identifiers are 128-bit integers and instants are microseconds since the
//! Unix epoch, so that the rules can compare and order them.

use crate::text::str_eq;
use vstd::prelude::*;

verus! {

pub const PAYMENT_SIGNATURE_HEADER: &'static str = "payment-signature";

pub const PAYMENT_REQUIRED_HEADER: &'static str = "payment-required";

pub const PAYMENT_RESPONSE_HEADER: &'static str = "payment-response";

pub const X402_VERSION_HEADER: &'static str = "x402-version";

pub const X402_VERSION: &'static str = "2";

pub const DEFAULT_PRICE_CENTS: u64 = 5;

pub const SPONSORED_API_CREATE_SERVICE: &'static str = "sponsored-api-create";

pub const SPONSORED_API_SERVICE_PREFIX: &'static str = "sponsored-api";

pub const DEFAULT_SPONSORED_API_CREATE_PRICE_CENTS: u64 = 25;

pub const DEFAULT_SPONSORED_API_TIMEOUT_SECS: u64 = 12;

pub const DEFAULT_X402_FACILITATOR_URL: &'static str = "https://x402.org/facilitator";

pub const DEFAULT_X402_VERIFY_PATH: &'static str = "/verify";

pub const DEFAULT_X402_SETTLE_PATH: &'static str = "/settle";

pub const DEFAULT_X402_NETWORK: &'static str = "base-sepolia";

pub const DEFAULT_PUBLIC_BASE_URL: &'static str = "http://localhost:3000";

/// The views of the strings of `v`, in order.
pub open spec fn texts(v: Seq<String>) -> Seq<Seq<char>> {
    v.map_values(|s: String| s@)
}

/// The view of an optional string.
pub open spec fn opt_text(o: Option<String>) -> Option<Seq<char>> {
    match o {
        Some(s) => Some(s@),
        None => None,
    }
}

/// The view of an optional string slice.
pub open spec fn opt_str(o: Option<&str>) -> Option<Seq<char>> {
    match o {
        Some(s) => Some(s@),
        None => None,
    }
}

/// An optional string as an optional slice.
pub fn opt_as_str(o: &Option<String>) -> (r: Option<&str>)
    ensures
        opt_str(r) == opt_text(*o),
{
    match o {
        Some(s) => Some(s.as_str()),
        None => None,
    }
}

/// The views of a list of name and value pairs, in order.
pub open spec fn text_pairs(v: Seq<(String, String)>) -> Seq<(Seq<char>, Seq<char>)> {
    v.map_values(|p: (String, String)| (p.0@, p.1@))
}

/// A copy of a list of name and value pairs.
pub fn clone_pairs(v: &Vec<(String, String)>) -> (r: Vec<(String, String)>)
    ensures
        text_pairs(r@) == text_pairs(v@),
{
    let mut r: Vec<(String, String)> = Vec::new();
    let mut i: usize = 0;
    while i < v.len()
        invariant
            i <= v.len(),
            r.len() == i,
            forall|k: int| 0 <= k < i ==> r[k].0@ == v[k].0@ && r[k].1@ == v[k].1@,
        decreases v.len() - i,
    {
        r.push((v[i].0.clone(), v[i].1.clone()));
        i += 1;
    }
    r
}

/// What the deployment configures.
#[derive(Clone, Debug)]
pub struct AppConfig {
    pub sponsored_api_create_price_cents: u64,
    pub sponsored_api_timeout_secs: u64,
    pub x402_facilitator_url: String,
    pub x402_verify_path: String,
    pub x402_settle_path: String,
    pub x402_facilitator_bearer_token: Option<String>,
    pub x402_network: String,
    pub x402_pay_to: Option<String>,
    pub x402_asset: Option<String>,
    pub public_base_url: String,
}

pub struct AppConfigView {
    pub sponsored_api_create_price_cents: u64,
    pub sponsored_api_timeout_secs: u64,
    pub x402_facilitator_url: Seq<char>,
    pub x402_verify_path: Seq<char>,
    pub x402_settle_path: Seq<char>,
    pub x402_facilitator_bearer_token: Option<Seq<char>>,
    pub x402_network: Seq<char>,
    pub x402_pay_to: Option<Seq<char>>,
    pub x402_asset: Option<Seq<char>>,
    pub public_base_url: Seq<char>,
}

impl View for AppConfig {
    type V = AppConfigView;

    open spec fn view(&self) -> AppConfigView {
        AppConfigView {
            sponsored_api_create_price_cents: self.sponsored_api_create_price_cents,
            sponsored_api_timeout_secs: self.sponsored_api_timeout_secs,
            x402_facilitator_url: self.x402_facilitator_url@,
            x402_verify_path: self.x402_verify_path@,
            x402_settle_path: self.x402_settle_path@,
            x402_facilitator_bearer_token: opt_text(self.x402_facilitator_bearer_token),
            x402_network: self.x402_network@,
            x402_pay_to: opt_text(self.x402_pay_to),
            x402_asset: opt_text(self.x402_asset),
            public_base_url: self.public_base_url@,
        }
    }
}

/// The price of `service` in cents: the catalog's entry, or the default
/// price for a service that the catalog does not list.
pub open spec fn price_of(service: Seq<char>) -> u64 {
    if service == "scraping"@ {
        5
    } else if service == "design"@ {
        8
    } else if service == "storage"@ {
        3
    } else if service == "data-tooling"@ {
        4
    } else {
        DEFAULT_PRICE_CENTS
    }
}

/// The part of the application's state that the rules read.
#[derive(Clone, Debug)]
pub struct AppState {
    pub config: AppConfig,
}

impl AppState {
    pub fn new(config: AppConfig) -> (state: Self)
        ensures
            state.config == config,
    {
        AppState { config }
    }

    /// Looks `service` up in the price catalog. Never fails: an unknown
    /// service has the default price.
    pub fn service_price(&self, service: &str) -> (price: u64)
        ensures
            price == price_of(service@),
    {
        if str_eq(service, "scraping") {
            5
        } else if str_eq(service, "design") {
            8
        } else if str_eq(service, "storage") {
            3
        } else if str_eq(service, "data-tooling") {
            4
        } else {
            DEFAULT_PRICE_CENTS
        }
    }
}

/// Who paid.
#[derive(Clone, Copy, Debug, PartialEq, Eq, Structural)]
pub enum PaymentSource {
    User,
    Sponsor,
}

/// How a payment ended.
#[derive(Clone, Copy, Debug, PartialEq, Eq, Structural)]
pub enum PaymentStatus {
    Settled,
    Failed,
}

/// A caller's profile.
#[derive(Clone, Debug)]
pub struct UserProfile {
    pub id: u128,
    pub email: String,
    pub region: String,
    pub roles: Vec<String>,
    pub tools_used: Vec<String>,
    pub attributes: Vec<(String, String)>,
    pub created_at: i64,
}

pub struct UserProfileView {
    pub id: u128,
    pub email: Seq<char>,
    pub region: Seq<char>,
    pub roles: Seq<Seq<char>>,
    pub tools_used: Seq<Seq<char>>,
    pub attributes: Seq<(Seq<char>, Seq<char>)>,
    pub created_at: i64,
}

impl View for UserProfile {
    type V = UserProfileView;

    open spec fn view(&self) -> UserProfileView {
        UserProfileView {
            id: self.id,
            email: self.email@,
            region: self.region@,
            roles: texts(self.roles@),
            tools_used: texts(self.tools_used@),
            attributes: text_pairs(self.attributes@),
            created_at: self.created_at,
        }
    }
}

#[derive(Debug)]
pub struct CreateUserRequest {
    pub email: String,
    pub region: String,
    pub roles: Vec<String>,
    pub tools_used: Vec<String>,
    pub attributes: Vec<(String, String)>,
}

/// A sponsor's campaign: a budget that pays for the calls of callers who
/// match its targets and have done its task.
#[derive(Clone, Debug)]
pub struct Campaign {
    pub id: u128,
    pub name: String,
    pub sponsor: String,
    pub target_roles: Vec<String>,
    pub target_tools: Vec<String>,
    pub required_task: String,
    pub subsidy_per_call_cents: u64,
    pub budget_total_cents: u64,
    pub budget_remaining_cents: u64,
    pub query_urls: Vec<String>,
    pub active: bool,
    pub created_at: i64,
}

pub struct CampaignView {
    pub id: u128,
    pub name: Seq<char>,
    pub sponsor: Seq<char>,
    pub target_roles: Seq<Seq<char>>,
    pub target_tools: Seq<Seq<char>>,
    pub required_task: Seq<char>,
    pub subsidy_per_call_cents: u64,
    pub budget_total_cents: u64,
    pub budget_remaining_cents: u64,
    pub query_urls: Seq<Seq<char>>,
    pub active: bool,
    pub created_at: i64,
}

impl View for Campaign {
    type V = CampaignView;

    open spec fn view(&self) -> CampaignView {
        CampaignView {
            id: self.id,
            name: self.name@,
            sponsor: self.sponsor@,
            target_roles: texts(self.target_roles@),
            target_tools: texts(self.target_tools@),
            required_task: self.required_task@,
            subsidy_per_call_cents: self.subsidy_per_call_cents,
            budget_total_cents: self.budget_total_cents,
            budget_remaining_cents: self.budget_remaining_cents,
            query_urls: texts(self.query_urls@),
            active: self.active,
            created_at: self.created_at,
        }
    }
}

impl CampaignView {
    /// The budget invariant: what remains never exceeds the total.
    pub open spec fn wf(self) -> bool {
        self.budget_remaining_cents <= self.budget_total_cents
    }
}

#[derive(Debug)]
pub struct CreateCampaignRequest {
    pub name: String,
    pub sponsor: String,
    pub target_roles: Vec<String>,
    pub target_tools: Vec<String>,
    pub required_task: String,
    pub subsidy_per_call_cents: u64,
    pub budget_cents: u64,
    pub query_urls: Vec<String>,
}

/// A campaign as the store holds it, with signed amounts.
#[derive(Clone, Debug)]
pub struct CampaignRow {
    pub id: u128,
    pub name: String,
    pub sponsor: String,
    pub target_roles: Vec<String>,
    pub target_tools: Vec<String>,
    pub required_task: String,
    pub subsidy_per_call_cents: i64,
    pub budget_total_cents: i64,
    pub budget_remaining_cents: i64,
    pub query_urls: Vec<String>,
    pub active: bool,
    pub created_at: i64,
}

/// Evidence that a caller has done a campaign's task.
#[derive(Clone, Debug)]
pub struct TaskCompletion {
    pub id: u128,
    pub campaign_id: u128,
    pub user_id: u128,
    pub task_name: String,
    pub details: Option<String>,
    pub created_at: i64,
}

pub struct TaskCompletionView {
    pub id: u128,
    pub campaign_id: u128,
    pub user_id: u128,
    pub task_name: Seq<char>,
    pub details: Option<Seq<char>>,
    pub created_at: i64,
}

impl View for TaskCompletion {
    type V = TaskCompletionView;

    open spec fn view(&self) -> TaskCompletionView {
        TaskCompletionView {
            id: self.id,
            campaign_id: self.campaign_id,
            user_id: self.user_id,
            task_name: self.task_name@,
            details: opt_text(self.details),
            created_at: self.created_at,
        }
    }
}

/// The views of a list of campaigns, in order.
pub open spec fn campaign_views(v: Seq<Campaign>) -> Seq<CampaignView> {
    v.map_values(|c: Campaign| c@)
}

/// The views of a list of task completions, in order.
pub open spec fn completion_views(v: Seq<TaskCompletion>) -> Seq<TaskCompletionView> {
    v.map_values(|t: TaskCompletion| t@)
}

#[derive(Debug)]
pub struct TaskCompletionRequest {
    pub campaign_id: u128,
    pub user_id: u128,
    pub task_name: String,
    pub details: Option<String>,
}

#[derive(Clone, Debug)]
pub struct ServiceRunRequest {
    pub user_id: u128,
    pub input: String,
}

#[derive(Clone, Debug)]
pub struct ServiceRunResponse {
    pub service: String,
    pub output: String,
    pub payment_mode: String,
    pub sponsored_by: Option<String>,
    pub tx_hash: Option<String>,
}

pub struct ServiceRunResponseView {
    pub service: Seq<char>,
    pub output: Seq<char>,
    pub payment_mode: Seq<char>,
    pub sponsored_by: Option<Seq<char>>,
    pub tx_hash: Option<Seq<char>>,
}

impl View for ServiceRunResponse {
    type V = ServiceRunResponseView;

    open spec fn view(&self) -> ServiceRunResponseView {
        ServiceRunResponseView {
            service: self.service@,
            output: self.output@,
            payment_mode: self.payment_mode@,
            sponsored_by: opt_text(self.sponsored_by),
            tx_hash: opt_text(self.tx_hash),
        }
    }
}

/// The challenge sent to a caller who has to pay.
#[derive(Clone, Debug)]
pub struct PaymentRequired {
    pub service: String,
    pub amount_cents: u64,
    pub accepted_header: String,
    pub payment_required: String,
    pub message: String,
    pub next_step: String,
}

pub struct PaymentRequiredView {
    pub service: Seq<char>,
    pub amount_cents: u64,
    pub accepted_header: Seq<char>,
    pub payment_required: Seq<char>,
    pub message: Seq<char>,
    pub next_step: Seq<char>,
}

impl View for PaymentRequired {
    type V = PaymentRequiredView;

    open spec fn view(&self) -> PaymentRequiredView {
        PaymentRequiredView {
            service: self.service@,
            amount_cents: self.amount_cents,
            accepted_header: self.accepted_header@,
            payment_required: self.payment_required@,
            message: self.message@,
            next_step: self.next_step@,
        }
    }
}

/// What a payer must pay, to whom and for which resource.
#[derive(Clone, Debug)]
pub struct X402PaymentRequirement {
    pub scheme: String,
    pub network: String,
    pub max_amount_required: String,
    pub resource: String,
    pub description: String,
    pub mime_type: String,
    pub pay_to: String,
    pub max_timeout_seconds: u64,
    pub asset: String,
}

pub struct X402PaymentRequirementView {
    pub scheme: Seq<char>,
    pub network: Seq<char>,
    pub max_amount_required: Seq<char>,
    pub resource: Seq<char>,
    pub description: Seq<char>,
    pub mime_type: Seq<char>,
    pub pay_to: Seq<char>,
    pub max_timeout_seconds: u64,
    pub asset: Seq<char>,
}

impl View for X402PaymentRequirement {
    type V = X402PaymentRequirementView;

    open spec fn view(&self) -> X402PaymentRequirementView {
        X402PaymentRequirementView {
            scheme: self.scheme@,
            network: self.network@,
            max_amount_required: self.max_amount_required@,
            resource: self.resource@,
            description: self.description@,
            mime_type: self.mime_type@,
            pay_to: self.pay_to@,
            max_timeout_seconds: self.max_timeout_seconds,
            asset: self.asset@,
        }
    }
}

/// A facilitator's answer to a request to verify a proof.
#[derive(Clone, Debug)]
pub struct X402VerifyResponse {
    pub is_valid: bool,
    pub invalid_reason: Option<String>,
    pub payer: Option<String>,
}

pub struct X402VerifyResponseView {
    pub is_valid: bool,
    pub invalid_reason: Option<Seq<char>>,
    pub payer: Option<Seq<char>>,
}

impl View for X402VerifyResponse {
    type V = X402VerifyResponseView;

    open spec fn view(&self) -> X402VerifyResponseView {
        X402VerifyResponseView {
            is_valid: self.is_valid,
            invalid_reason: opt_text(self.invalid_reason),
            payer: opt_text(self.payer),
        }
    }
}

/// A facilitator's answer to a request to settle a payment.
#[derive(Clone, Debug)]
pub struct X402SettleResponse {
    pub success: bool,
    pub transaction: Option<String>,
    pub payer: Option<String>,
    pub error_reason: Option<String>,
}

pub struct X402SettleResponseView {
    pub success: bool,
    pub transaction: Option<Seq<char>>,
    pub payer: Option<Seq<char>>,
    pub error_reason: Option<Seq<char>>,
}

impl View for X402SettleResponse {
    type V = X402SettleResponseView;

    open spec fn view(&self) -> X402SettleResponseView {
        X402SettleResponseView {
            success: self.success,
            transaction: opt_text(self.transaction),
            payer: opt_text(self.payer),
            error_reason: opt_text(self.error_reason),
        }
    }
}

/// A settlement reported from outside.
#[derive(Debug)]
pub struct X402ScanSettlementRequest {
    pub tx_hash: String,
    pub service: String,
    pub amount_cents: u64,
    pub payer: String,
    pub source: PaymentSource,
    pub status: PaymentStatus,
    pub campaign_id: Option<u128>,
}

#[derive(Clone, Debug)]
pub struct CreatorEvent {
    pub id: u128,
    pub skill_name: String,
    pub platform: String,
    pub event_type: String,
    pub duration_ms: Option<u64>,
    pub success: bool,
    pub created_at: i64,
}

#[derive(Debug)]
pub struct CreatorMetricEventRequest {
    pub skill_name: String,
    pub platform: String,
    pub event_type: String,
    pub duration_ms: Option<u64>,
    pub success: bool,
}

#[derive(Debug)]
pub struct MessageResponse {
    pub message: String,
}

/// A sponsor-funded proxy to an upstream endpoint, with its own price and
/// budget.
#[derive(Clone, Debug)]
pub struct SponsoredApi {
    pub id: u128,
    pub name: String,
    pub sponsor: String,
    pub description: Option<String>,
    pub upstream_url: String,
    pub upstream_method: String,
    pub upstream_headers: Vec<(String, String)>,
    pub price_cents: u64,
    pub budget_total_cents: u64,
    pub budget_remaining_cents: u64,
    pub active: bool,
    pub service_key: String,
    pub created_at: i64,
}

pub struct SponsoredApiView {
    pub id: u128,
    pub name: Seq<char>,
    pub sponsor: Seq<char>,
    pub description: Option<Seq<char>>,
    pub upstream_url: Seq<char>,
    pub upstream_method: Seq<char>,
    pub upstream_headers: Seq<(Seq<char>, Seq<char>)>,
    pub price_cents: u64,
    pub budget_total_cents: u64,
    pub budget_remaining_cents: u64,
    pub active: bool,
    pub service_key: Seq<char>,
    pub created_at: i64,
}

impl View for SponsoredApi {
    type V = SponsoredApiView;

    open spec fn view(&self) -> SponsoredApiView {
        SponsoredApiView {
            id: self.id,
            name: self.name@,
            sponsor: self.sponsor@,
            description: opt_text(self.description),
            upstream_url: self.upstream_url@,
            upstream_method: self.upstream_method@,
            upstream_headers: text_pairs(self.upstream_headers@),
            price_cents: self.price_cents,
            budget_total_cents: self.budget_total_cents,
            budget_remaining_cents: self.budget_remaining_cents,
            active: self.active,
            service_key: self.service_key@,
            created_at: self.created_at,
        }
    }
}

impl SponsoredApiView {
    /// The budget invariant: what remains never exceeds the total.
    pub open spec fn wf(self) -> bool {
        self.budget_remaining_cents <= self.budget_total_cents
    }
}

/// A sponsored API as the store holds it, with signed amounts.
#[derive(Clone, Debug)]
pub struct SponsoredApiRow {
    pub id: u128,
    pub name: String,
    pub sponsor: String,
    pub description: Option<String>,
    pub upstream_url: String,
    pub upstream_method: String,
    pub upstream_headers: Vec<(String, String)>,
    pub price_cents: i64,
    pub budget_total_cents: i64,
    pub budget_remaining_cents: i64,
    pub active: bool,
    pub service_key: String,
    pub created_at: i64,
}

#[derive(Debug)]
pub struct CreateSponsoredApiRequest {
    pub name: String,
    pub sponsor: String,
    pub description: Option<String>,
    pub upstream_url: String,
    pub upstream_method: Option<String>,
    pub upstream_headers: Vec<(String, String)>,
    pub price_cents: Option<u64>,
    pub budget_cents: u64,
}

/// A call through a sponsored API: who calls, and whether the input is a
/// JSON object, whose members can travel as query parameters.
#[derive(Debug)]
pub struct SponsoredApiRunRequest {
    pub caller: Option<String>,
    pub input_is_object: bool,
}

/// The answer to a call through a sponsored API.
#[derive(Debug)]
pub struct SponsoredApiRunResponse {
    pub api_id: u128,
    pub payment_mode: String,
    pub sponsored_by: Option<String>,
    pub tx_hash: Option<String>,
    pub upstream_status: u16,
    pub upstream_body: String,
}

pub struct SponsoredApiRunResponseView {
    pub api_id: u128,
    pub payment_mode: Seq<char>,
    pub sponsored_by: Option<Seq<char>>,
    pub tx_hash: Option<Seq<char>>,
    pub upstream_status: u16,
    pub upstream_body: Seq<char>,
}

impl View for SponsoredApiRunResponse {
    type V = SponsoredApiRunResponseView;

    open spec fn view(&self) -> SponsoredApiRunResponseView {
        SponsoredApiRunResponseView {
            api_id: self.api_id,
            payment_mode: self.payment_mode@,
            sponsored_by: opt_text(self.sponsored_by),
            tx_hash: opt_text(self.tx_hash),
            upstream_status: self.upstream_status,
            upstream_body: self.upstream_body@,
        }
    }
}

pub struct SponsoredApiCallView {
    pub id: u128,
    pub sponsored_api_id: u128,
    pub payment_mode: Seq<char>,
    pub amount_cents: u64,
    pub tx_hash: Option<Seq<char>>,
    pub caller: Option<Seq<char>>,
    pub created_at: i64,
}

impl View for SponsoredApiCall {
    type V = SponsoredApiCallView;

    open spec fn view(&self) -> SponsoredApiCallView {
        SponsoredApiCallView {
            id: self.id,
            sponsored_api_id: self.sponsored_api_id,
            payment_mode: self.payment_mode@,
            amount_cents: self.amount_cents,
            tx_hash: opt_text(self.tx_hash),
            caller: opt_text(self.caller),
            created_at: self.created_at,
        }
    }
}

/// The record of one call through a sponsored API.
#[derive(Clone, Debug)]
pub struct SponsoredApiCall {
    pub id: u128,
    pub sponsored_api_id: u128,
    pub payment_mode: String,
    pub amount_cents: u64,
    pub tx_hash: Option<String>,
    pub caller: Option<String>,
    pub created_at: i64,
}

} // verus!
