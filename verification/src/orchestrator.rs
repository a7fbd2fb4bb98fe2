//! The access decision for a priced service, step by step.
//!
//! A call that carries a proof of payment is paid by the caller: the proof
//! goes to the verifier, whether or not the caller has a profile and
//! whether or not a sponsor would pay. A call without a proof needs a
//! profile; the matcher then looks for a sponsor. A campaign that can be
//! charged is debited first, the payment is recorded next, and only then
//! is access granted. Where the only eligible campaigns still ask for
//! their task, the caller is told which task; where there is none, the
//! caller is challenged to pay.
//!
//! This module decides; the caller of `proxy_step` reads and writes the
//! store and runs the verifier, and reports back what happened.

use crate::error::{ApiError, ApiErrorView, ApiResult, STATUS_INTERNAL_SERVER_ERROR};
use crate::ledger::BudgetUpdate;
use crate::matcher::{
    chargeable, eligible, is_first_chargeable, select_sponsor, sponsor_choice, SponsorMatch,
};
use crate::outside::{fresh_id, uuid_hyphenated, uuid_text};
use crate::settlement::{Payment, PaymentMode, PaymentView};
use crate::text::joined;
use crate::types::{
    campaign_views, completion_views, opt_text, price_of, AppConfig, AppConfigView, AppState,
    Campaign, CampaignView, PaymentRequired, PaymentRequiredView, PaymentSource, PaymentStatus,
    TaskCompletion, TaskCompletionView, UserProfile, UserProfileView, X402SettleResponse,
};
use crate::verification::{
    encode_settlement, encoded_settlement, refusal_outcome, refuse, settlement_of,
    verification_result, ProofArtifact, ProofArtifactView, Refusal, RefusalView,
    VerifiedX402Payment, VerifiedX402PaymentView,
};
use vstd::prelude::*;
use vstd::string::*;

verus! {

/// The outcome of an attempt to get access.
#[derive(Debug)]
pub enum AccessDecision {
    /// Access is granted. `payer` paid, in `mode`; `reference` names the
    /// payment and `receipt` is the encoded proof of its settlement.
    Accepted {
        mode: PaymentMode,
        payer: Option<String>,
        reference: Option<String>,
        receipt: Option<String>,
    },
    /// The caller has to pay: here is the challenge.
    Required(PaymentRequired),
    /// The caller has to do the task of a campaign first.
    PreconditionRequired { task: String, campaign_name: String },
    /// Something that the call refers to does not exist.
    NotFound { message: String },
    /// The service could not decide.
    Failed(ApiError),
}

pub enum AccessDecisionView {
    Accepted {
        mode: PaymentMode,
        payer: Option<Seq<char>>,
        reference: Option<Seq<char>>,
        receipt: Option<Seq<char>>,
    },
    Required(PaymentRequiredView),
    PreconditionRequired { task: Seq<char>, campaign_name: Seq<char> },
    NotFound { message: Seq<char> },
    Failed(ApiErrorView),
}

impl View for AccessDecision {
    type V = AccessDecisionView;

    open spec fn view(&self) -> AccessDecisionView {
        match self {
            AccessDecision::Accepted { mode, payer, reference, receipt } =>
                AccessDecisionView::Accepted {
                    mode: *mode,
                    payer: opt_text(*payer),
                    reference: opt_text(*reference),
                    receipt: opt_text(*receipt),
                },
            AccessDecision::Required(p) => AccessDecisionView::Required(p@),
            AccessDecision::PreconditionRequired { task, campaign_name } =>
                AccessDecisionView::PreconditionRequired {
                    task: task@,
                    campaign_name: campaign_name@,
                },
            AccessDecision::NotFound { message } => AccessDecisionView::NotFound {
                message: message@,
            },
            AccessDecision::Failed(e) => AccessDecisionView::Failed(e@),
        }
    }
}

/// One call for access to a service through the proxy.
#[derive(Debug)]
pub struct ProxyCall {
    pub service: String,
    pub price: u64,
    pub user_id: u128,
    pub artifact: ProofArtifact,
}

pub struct ProxyCallView {
    pub service: Seq<char>,
    pub price: u64,
    pub user_id: u128,
    pub artifact: ProofArtifactView,
}

impl View for ProxyCall {
    type V = ProxyCallView;

    open spec fn view(&self) -> ProxyCallView {
        ProxyCallView {
            service: self.service@,
            price: self.price,
            user_id: self.user_id,
            artifact: self.artifact@,
        }
    }
}

/// Where the decision stands.
#[derive(Debug)]
pub enum ProxyState {
    Start,
    Verifying,
    LoadingProfile,
    LoadingCandidates { user: UserProfile },
    Debiting { user: UserProfile, campaign: Campaign },
    Recording { payment: Payment },
    Finished,
}

pub enum ProxyStateView {
    Start,
    Verifying,
    LoadingProfile,
    LoadingCandidates { user: UserProfileView },
    Debiting { user: UserProfileView, campaign: CampaignView },
    Recording { payment: PaymentView },
    Finished,
}

impl View for ProxyState {
    type V = ProxyStateView;

    open spec fn view(&self) -> ProxyStateView {
        match self {
            ProxyState::Start => ProxyStateView::Start,
            ProxyState::Verifying => ProxyStateView::Verifying,
            ProxyState::LoadingProfile => ProxyStateView::LoadingProfile,
            ProxyState::LoadingCandidates { user } => ProxyStateView::LoadingCandidates {
                user: user@,
            },
            ProxyState::Debiting { user, campaign } => ProxyStateView::Debiting {
                user: user@,
                campaign: campaign@,
            },
            ProxyState::Recording { payment } => ProxyStateView::Recording { payment: payment@ },
            ProxyState::Finished => ProxyStateView::Finished,
        }
    }
}

/// What happened since the last step.
#[derive(Debug)]
pub enum ProxyEvent {
    /// The call has arrived.
    Begin,
    /// The verifier has decided on the proof.
    Verified(ApiResult<VerifiedX402Payment>),
    /// The profile store has answered.
    Profile(Option<UserProfile>),
    /// The stores have answered: the campaigns, most recent first, and the
    /// tasks that the caller has done.
    Candidates { campaigns: Vec<Campaign>, completions: Vec<TaskCompletion> },
    /// The store has applied the conditional update, or has not.
    DebitApplied(bool),
    /// The store has recorded the payment.
    Recorded,
    /// The store has failed.
    StoreFailed(String),
}

pub enum ProxyEventView {
    Begin,
    Verified(Result<VerifiedX402PaymentView, ApiErrorView>),
    Profile(Option<UserProfileView>),
    Candidates { campaigns: Seq<CampaignView>, completions: Seq<TaskCompletionView> },
    DebitApplied(bool),
    Recorded,
    StoreFailed(Seq<char>),
}

impl View for ProxyEvent {
    type V = ProxyEventView;

    open spec fn view(&self) -> ProxyEventView {
        match self {
            ProxyEvent::Begin => ProxyEventView::Begin,
            ProxyEvent::Verified(outcome) => ProxyEventView::Verified(
                verification_result(*outcome),
            ),
            ProxyEvent::Profile(profile) => ProxyEventView::Profile(
                match profile {
                    Some(user) => Some(user@),
                    None => None,
                },
            ),
            ProxyEvent::Candidates { campaigns, completions } => ProxyEventView::Candidates {
                campaigns: campaign_views(campaigns@),
                completions: completion_views(completions@),
            },
            ProxyEvent::DebitApplied(applied) => ProxyEventView::DebitApplied(*applied),
            ProxyEvent::Recorded => ProxyEventView::Recorded,
            ProxyEvent::StoreFailed(detail) => ProxyEventView::StoreFailed(detail@),
        }
    }
}

/// What is to be done next.
#[derive(Debug)]
pub enum ProxyAction {
    /// Run the verifier on the proof of the call.
    VerifyPayment,
    /// Look the caller's profile up.
    LoadProfile { user_id: u128 },
    /// Read the campaigns that are active and whose remainder covers the
    /// price, most recent first, and the tasks that the caller has done.
    LoadCandidates { user_id: u128, price: u64 },
    /// Apply the conditional update to the store.
    ApplyDebit(BudgetUpdate),
    /// Record the payment.
    RecordPayment(Payment),
    /// Answer the call.
    Finish(AccessDecision),
}

pub enum ProxyActionView {
    VerifyPayment,
    LoadProfile { user_id: u128 },
    LoadCandidates { user_id: u128, price: u64 },
    ApplyDebit(BudgetUpdate),
    RecordPayment(PaymentView),
    Finish(AccessDecisionView),
}

impl View for ProxyAction {
    type V = ProxyActionView;

    open spec fn view(&self) -> ProxyActionView {
        match self {
            ProxyAction::VerifyPayment => ProxyActionView::VerifyPayment,
            ProxyAction::LoadProfile { user_id } => ProxyActionView::LoadProfile {
                user_id: *user_id,
            },
            ProxyAction::LoadCandidates { user_id, price } => ProxyActionView::LoadCandidates {
                user_id: *user_id,
                price: *price,
            },
            ProxyAction::ApplyDebit(update) => ProxyActionView::ApplyDebit(*update),
            ProxyAction::RecordPayment(payment) => ProxyActionView::RecordPayment(payment@),
            ProxyAction::Finish(decision) => ProxyActionView::Finish(decision@),
        }
    }
}

/// The path of the resource that a call through the proxy asks for.
pub open spec fn proxy_path(service: Seq<char>) -> Seq<char> {
    "/proxy/"@ + service + "/run"@
}

/// The path of the resource that a direct call for a service asks for.
pub open spec fn tool_resource(service: Seq<char>) -> Seq<char> {
    "/tool/"@ + service + "/run"@
}

/// The path of the resource that a direct call for a service asks for.
pub fn tool_path(service: &str) -> (path: String)
    ensures
        path@ == tool_resource(service@),
{
    String::from_str("/tool/").concat(service).concat("/run")
}

/// The outcome that stands for a refusal of the verifier: a challenge is
/// an expected outcome, everything else a failure.
pub open spec fn decision_of_error(e: ApiErrorView) -> AccessDecisionView {
    match e {
        ApiErrorView::PaymentRequired(challenge) => AccessDecisionView::Required(challenge),
        _ => AccessDecisionView::Failed(e),
    }
}

/// The outcome that stands for what the verifier decided.
pub open spec fn decision_of_verification(
    outcome: Result<VerifiedX402PaymentView, ApiErrorView>,
) -> AccessDecisionView {
    match outcome {
        Ok(payment) => AccessDecisionView::Accepted {
            mode: PaymentMode::UserDirect,
            payer: payment.payer,
            reference: payment.tx_hash,
            receipt: payment.payment_response_header,
        },
        Err(e) => decision_of_error(e),
    }
}

/// The reference of a sponsor's payment.
pub open spec fn sponsor_reference(fresh: u128) -> Seq<char> {
    "sponsor-"@ + uuid_hyphenated(fresh)
}

/// The record of a sponsor's payment for a call.
pub open spec fn sponsor_payment(
    call: ProxyCallView,
    campaign: CampaignView,
    fresh: u128,
) -> PaymentView {
    PaymentView {
        tx_hash: sponsor_reference(fresh),
        campaign_id: Some(campaign.id),
        service: call.service,
        amount_cents: call.price,
        payer: campaign.sponsor,
        source: PaymentSource::Sponsor,
        status: PaymentStatus::Settled,
    }
}

/// The outcome of a call that a sponsor has paid for.
pub open spec fn sponsored_decision(payment: PaymentView) -> AccessDecisionView {
    AccessDecisionView::Accepted {
        mode: PaymentMode::Sponsored,
        payer: Some(payment.payer),
        reference: Some(payment.tx_hash),
        receipt: encoded_settlement(settlement_of(payment)),
    }
}

/// The step that asks for the candidates.
pub open spec fn load_candidates(call: ProxyCallView, user: UserProfileView) -> (
    ProxyStateView,
    ProxyActionView,
) {
    (
        ProxyStateView::LoadingCandidates { user },
        ProxyActionView::LoadCandidates { user_id: call.user_id, price: call.price },
    )
}

/// The step that answers the call.
pub open spec fn finish(decision: AccessDecisionView) -> (ProxyStateView, ProxyActionView) {
    (ProxyStateView::Finished, ProxyActionView::Finish(decision))
}

/// The step after the candidates were read: debit the campaign that can
/// be charged, or name the task that is still to do, or challenge the
/// caller to pay.
pub open spec fn step_on_candidates(
    config: AppConfigView,
    call: ProxyCallView,
    user: UserProfileView,
    campaigns: Seq<CampaignView>,
    completions: Seq<TaskCompletionView>,
) -> (ProxyStateView, ProxyActionView) {
    match sponsor_choice(user, call.price, campaigns, completions) {
        SponsorMatch::Charge(i) => (
            ProxyStateView::Debiting { user, campaign: campaigns[i as int] },
            ProxyActionView::ApplyDebit(
                campaigns[i as int].budget().update_for(campaigns[i as int].id, call.price),
            ),
        ),
        SponsorMatch::TaskRequired(i) => finish(
            AccessDecisionView::PreconditionRequired {
                task: campaigns[i as int].required_task,
                campaign_name: campaigns[i as int].name,
            },
        ),
        SponsorMatch::NoSponsor => finish(
            decision_of_error(
                refusal_outcome(
                    config,
                    call.service,
                    call.price,
                    proxy_path(call.service),
                    RefusalView::NoSponsor,
                ),
            ),
        ),
    }
}

/// The rule of the orchestrator: the next state and the action, given the
/// state, what happened, and the fresh identifier that names a sponsor's
/// payment.
pub open spec fn proxy_transition(
    config: AppConfigView,
    call: ProxyCallView,
    state: ProxyStateView,
    event: ProxyEventView,
    fresh: u128,
) -> (ProxyStateView, ProxyActionView) {
    match (state, event) {
        (ProxyStateView::Start, ProxyEventView::Begin) => if call.artifact
            is Missing {
            (
                ProxyStateView::LoadingProfile,
                ProxyActionView::LoadProfile { user_id: call.user_id },
            )
        } else {
            (ProxyStateView::Verifying, ProxyActionView::VerifyPayment)
        },
        (ProxyStateView::Verifying, ProxyEventView::Verified(outcome)) => finish(
            decision_of_verification(outcome),
        ),
        (ProxyStateView::LoadingProfile, ProxyEventView::Profile(profile)) => match profile {
            None => finish(AccessDecisionView::NotFound { message: "profile required"@ }),
            Some(user) => load_candidates(call, user),
        },
        (
            ProxyStateView::LoadingCandidates { user },
            ProxyEventView::Candidates { campaigns, completions },
        ) => step_on_candidates(config, call, user, campaigns, completions),
        (ProxyStateView::Debiting { user, campaign }, ProxyEventView::DebitApplied(applied)) => {
            if applied {
                (
                    ProxyStateView::Recording { payment: sponsor_payment(call, campaign, fresh) },
                    ProxyActionView::RecordPayment(sponsor_payment(call, campaign, fresh)),
                )
            } else {
                load_candidates(call, user)
            }
        },
        (ProxyStateView::Recording { payment }, ProxyEventView::Recorded) => finish(
            sponsored_decision(payment),
        ),
        (ProxyStateView::Finished, _) => finish(
            AccessDecisionView::Failed(ApiErrorView::Internal { message: "unexpected event"@ }),
        ),
        (ProxyStateView::Start, _) => finish(
            AccessDecisionView::Failed(ApiErrorView::Internal { message: "unexpected event"@ }),
        ),
        (_, ProxyEventView::StoreFailed(detail)) => finish(
            AccessDecisionView::Failed(
                ApiErrorView::Supabase { status: STATUS_INTERNAL_SERVER_ERROR, message: detail },
            ),
        ),
        _ => finish(
            AccessDecisionView::Failed(ApiErrorView::Internal { message: "unexpected event"@ }),
        ),
    }
}

impl ProxyCall {
    /// A call for `service` at its price in the catalog.
    pub fn new(state: &AppState, service: String, user_id: u128, artifact: ProofArtifact) -> (call:
        ProxyCall)
        ensures
            call@ == (ProxyCallView {
                service: service@,
                price: price_of(service@),
                user_id,
                artifact: artifact@,
            }),
    {
        let price = state.service_price(service.as_str());
        ProxyCall { service, price, user_id, artifact }
    }

    /// The path of the resource that the call asks for.
    pub fn resource_path(&self) -> (path: String)
        ensures
            path@ == proxy_path(self@.service),
    {
        String::from_str("/proxy/").concat(self.service.as_str()).concat("/run")
    }
}

impl AccessDecision {
    /// The outcome that stands for a refusal of the verifier.
    pub fn of_error(e: ApiError) -> (d: AccessDecision)
        ensures
            d@ == decision_of_error(e@),
    {
        match e {
            ApiError::PaymentRequired(challenge) => AccessDecision::Required(challenge),
            other => AccessDecision::Failed(other),
        }
    }

    /// The outcome that stands for what the verifier decided.
    pub fn of_verification(outcome: ApiResult<VerifiedX402Payment>) -> (d: AccessDecision)
        ensures
            d@ == decision_of_verification(verification_result(outcome)),
    {
        match outcome {
            Ok(payment) => AccessDecision::Accepted {
                mode: PaymentMode::UserDirect,
                payer: payment.payer,
                reference: payment.tx_hash,
                receipt: payment.payment_response_header,
            },
            Err(e) => AccessDecision::of_error(e),
        }
    }

    /// The outcome of a call that a sponsor has paid for.
    pub fn sponsored(payment: Payment) -> (d: AccessDecision)
        ensures
            d@ == sponsored_decision(payment@),
    {
        let settlement = X402SettleResponse {
            success: true,
            transaction: Some(payment.tx_hash.clone()),
            payer: Some(payment.payer.clone()),
            error_reason: None,
        };
        let receipt = encode_settlement(&settlement);
        AccessDecision::Accepted {
            mode: PaymentMode::Sponsored,
            payer: Some(payment.payer),
            reference: Some(payment.tx_hash),
            receipt,
        }
    }
}

fn unexpected() -> (r: (ProxyState, ProxyAction))
    ensures
        (r.0@, r.1@) == finish(
            AccessDecisionView::Failed(ApiErrorView::Internal { message: "unexpected event"@ }),
        ),
{
    (
        ProxyState::Finished,
        ProxyAction::Finish(AccessDecision::Failed(ApiError::internal("unexpected event"))),
    )
}

fn store_failed(detail: String) -> (r: (ProxyState, ProxyAction))
    ensures
        (r.0@, r.1@) == finish(
            AccessDecisionView::Failed(
                ApiErrorView::Supabase { status: STATUS_INTERNAL_SERVER_ERROR, message: detail@ },
            ),
        ),
{
    (
        ProxyState::Finished,
        ProxyAction::Finish(
            AccessDecision::Failed(
                ApiError::Supabase { status: STATUS_INTERNAL_SERVER_ERROR, message: detail },
            ),
        ),
    )
}

fn ask_candidates(call: &ProxyCall, user: UserProfile) -> (r: (ProxyState, ProxyAction))
    ensures
        (r.0@, r.1@) == load_candidates(call@, user@),
{
    (
        ProxyState::LoadingCandidates { user },
        ProxyAction::LoadCandidates { user_id: call.user_id, price: call.price },
    )
}

/// The step after the candidates were read.
fn on_candidates(
    config: &AppConfig,
    call: &ProxyCall,
    user: UserProfile,
    campaigns: Vec<Campaign>,
    completions: Vec<TaskCompletion>,
) -> (r: (ProxyState, ProxyAction))
    ensures
        (r.0@, r.1@) == step_on_candidates(
            config@,
            call@,
            user@,
            campaign_views(campaigns@),
            completion_views(completions@),
        ),
{
    let found = select_sponsor(&user, call.price, &campaigns, &completions);
    let ghost before = campaign_views(campaigns@);
    let mut campaigns = campaigns;
    match found {
        SponsorMatch::Charge(i) => {
            let campaign = campaigns.remove(i);
            assert(campaign@ == before[i as int]);
            let update = campaign.budget().debit_update(campaign.id, call.price);
            (ProxyState::Debiting { user, campaign }, ProxyAction::ApplyDebit(update))
        },
        SponsorMatch::TaskRequired(i) => {
            let campaign = campaigns.remove(i);
            assert(campaign@ == before[i as int]);
            (
                ProxyState::Finished,
                ProxyAction::Finish(
                    AccessDecision::PreconditionRequired {
                        task: campaign.required_task,
                        campaign_name: campaign.name,
                    },
                ),
            )
        },
        SponsorMatch::NoSponsor => {
            let path = call.resource_path();
            let e = refuse(
                config,
                call.service.as_str(),
                call.price,
                path.as_str(),
                &Refusal::NoSponsor,
            );
            (ProxyState::Finished, ProxyAction::Finish(AccessDecision::of_error(e)))
        },
    }
}

/// The record of a sponsor's payment for a call.
fn new_sponsor_payment(call: &ProxyCall, campaign: Campaign, fresh: u128) -> (p: Payment)
    ensures
        p@ == sponsor_payment(call@, campaign@, fresh),
{
    let id = uuid_text(fresh);
    Payment {
        tx_hash: joined("sponsor-", id.as_str()),
        campaign_id: Some(campaign.id),
        service: call.service.clone(),
        amount_cents: call.price,
        payer: campaign.sponsor,
        source: PaymentSource::Sponsor,
        status: PaymentStatus::Settled,
    }
}

/// One step of the decision, with the identifier that names a sponsor's
/// payment given by the caller.
pub fn proxy_step_with(
    config: &AppConfig,
    call: &ProxyCall,
    state: ProxyState,
    event: ProxyEvent,
    fresh: u128,
) -> (r: (ProxyState, ProxyAction))
    ensures
        (r.0@, r.1@) == proxy_transition(config@, call@, state@, event@, fresh),
{
    match state {
        ProxyState::Start => match event {
            ProxyEvent::Begin => match call.artifact {
                ProofArtifact::Missing => (
                    ProxyState::LoadingProfile,
                    ProxyAction::LoadProfile { user_id: call.user_id },
                ),
                _ => (ProxyState::Verifying, ProxyAction::VerifyPayment),
            },
            _ => unexpected(),
        },
        ProxyState::Finished => unexpected(),
        ProxyState::Verifying => match event {
            ProxyEvent::Verified(outcome) => (
                ProxyState::Finished,
                ProxyAction::Finish(AccessDecision::of_verification(outcome)),
            ),
            ProxyEvent::StoreFailed(detail) => store_failed(detail),
            _ => unexpected(),
        },
        ProxyState::LoadingProfile => match event {
            ProxyEvent::Profile(profile) => match profile {
                None => (
                    ProxyState::Finished,
                    ProxyAction::Finish(
                        AccessDecision::NotFound { message: String::from_str("profile required") },
                    ),
                ),
                Some(user) => ask_candidates(call, user),
            },
            ProxyEvent::StoreFailed(detail) => store_failed(detail),
            _ => unexpected(),
        },
        ProxyState::LoadingCandidates { user } => match event {
            ProxyEvent::Candidates { campaigns, completions } => on_candidates(
                config,
                call,
                user,
                campaigns,
                completions,
            ),
            ProxyEvent::StoreFailed(detail) => store_failed(detail),
            _ => unexpected(),
        },
        ProxyState::Debiting { user, campaign } => match event {
            ProxyEvent::DebitApplied(applied) => {
                if applied {
                    let payment = new_sponsor_payment(call, campaign, fresh);
                    let record = payment.duplicate();
                    (ProxyState::Recording { payment }, ProxyAction::RecordPayment(record))
                } else {
                    ask_candidates(call, user)
                }
            },
            ProxyEvent::StoreFailed(detail) => store_failed(detail),
            _ => unexpected(),
        },
        ProxyState::Recording { payment } => match event {
            ProxyEvent::Recorded => (
                ProxyState::Finished,
                ProxyAction::Finish(AccessDecision::sponsored(payment)),
            ),
            ProxyEvent::StoreFailed(detail) => store_failed(detail),
            _ => unexpected(),
        },
    }
}

/// One step of the decision. Takes the state and what happened, and gives
/// the next state and what is to be done. The reference of a sponsor's
/// payment is made from a fresh random identifier.
pub fn proxy_step(config: &AppConfig, call: &ProxyCall, state: ProxyState, event: ProxyEvent) -> (r:
    (ProxyState, ProxyAction))
    ensures
        exists|fresh: u128|
            (r.0@, r.1@) == #[trigger] proxy_transition(config@, call@, state@, event@, fresh),
{
    let fresh: u128 = match (&state, &event) {
        (ProxyState::Debiting { .. }, ProxyEvent::DebitApplied(true)) => fresh_id(),
        _ => 0,
    };
    proxy_step_with(config, call, state, event, fresh)
}

/// Direct payment comes first. A call that carries a proof goes to the
/// verifier at once: no profile is asked for and no sponsor is looked for.
pub proof fn lemma_direct_payment_comes_first(
    config: AppConfigView,
    call: ProxyCallView,
    fresh: u128,
)
    requires
        !(call.artifact is Missing),
    ensures
        proxy_transition(config, call, ProxyStateView::Start, ProxyEventView::Begin, fresh) == (
            ProxyStateView::Verifying,
            ProxyActionView::VerifyPayment,
        ),
{
}

/// Priority. Where one candidate can be charged and another is eligible
/// with its task still to do, the step after the candidates were read
/// debits a candidate that can be charged, the first of them, and asks the
/// store for nothing else: the campaign whose task is open is not charged.
pub proof fn lemma_completed_task_is_charged(
    config: AppConfigView,
    call: ProxyCallView,
    user: UserProfileView,
    campaigns: Seq<CampaignView>,
    completions: Seq<TaskCompletionView>,
    done: int,
    open: int,
    fresh: u128,
)
    requires
        0 <= done < campaigns.len() <= usize::MAX,
        0 <= open < campaigns.len(),
        chargeable(user, call.price, campaigns[done], completions),
        eligible(user, call.price, campaigns[open]),
        !chargeable(user, call.price, campaigns[open], completions),
    ensures
        exists|i: int|
            0 <= i <= done && i != open && #[trigger] is_first_chargeable(
                user,
                call.price,
                campaigns,
                completions,
                i,
            ) && proxy_transition(
                config,
                call,
                ProxyStateView::LoadingCandidates { user },
                ProxyEventView::Candidates { campaigns, completions },
                fresh,
            ) == (
                ProxyStateView::Debiting { user, campaign: campaigns[i] },
                ProxyActionView::ApplyDebit(
                    campaigns[i].budget().update_for(campaigns[i].id, call.price),
                ),
            ),
{
    lemma_first_chargeable_exists(user, call.price, campaigns, completions, done);
    let i = choose|i: int| is_first_chargeable(user, call.price, campaigns, completions, i);
    if done < i {
        assert(!chargeable(user, call.price, campaigns[done], completions));
    }
}

/// Where some candidate can be charged, there is a first one.
pub proof fn lemma_first_chargeable_exists(
    user: UserProfileView,
    price: u64,
    campaigns: Seq<CampaignView>,
    completions: Seq<TaskCompletionView>,
    at: int,
)
    requires
        0 <= at < campaigns.len(),
        chargeable(user, price, campaigns[at], completions),
    ensures
        exists|i: int| is_first_chargeable(user, price, campaigns, completions, i),
    decreases at,
{
    if exists|k: int| 0 <= k < at && chargeable(user, price, #[trigger] campaigns[k], completions) {
        let k = choose|k: int|
            0 <= k < at && chargeable(user, price, #[trigger] campaigns[k], completions);
        lemma_first_chargeable_exists(user, price, campaigns, completions, k);
    } else {
        assert(is_first_chargeable(user, price, campaigns, completions, at));
    }
}

/// A budget is touched only for a charge. The orchestrator asks the store
/// to debit only after the candidates were read, and then only the
/// campaign that the matcher found to charge: a campaign that is eligible,
/// whose task the caller has done, and whose budget allows the charge.
/// Where the matcher names a task or finds nothing, no budget is touched.
pub proof fn lemma_debit_only_for_a_charge(
    config: AppConfigView,
    call: ProxyCallView,
    state: ProxyStateView,
    event: ProxyEventView,
    fresh: u128,
)
    requires
        proxy_transition(config, call, state, event, fresh).1 is ApplyDebit,
        event matches ProxyEventView::Candidates { campaigns, .. } ==> campaigns.len()
            <= usize::MAX,
    ensures
        state matches ProxyStateView::LoadingCandidates { user } && event
            matches ProxyEventView::Candidates { campaigns, completions } && sponsor_choice(
            user,
            call.price,
            campaigns,
            completions,
        ) matches SponsorMatch::Charge(i) && chargeable(
            user,
            call.price,
            campaigns[i as int],
            completions,
        ) && campaigns[i as int].budget().can_debit(call.price) && proxy_transition(
            config,
            call,
            state,
            event,
            fresh,
        ).1 == ProxyActionView::ApplyDebit(
            campaigns[i as int].budget().update_for(campaigns[i as int].id, call.price),
        ),
{
    match (state, event) {
        (
            ProxyStateView::LoadingCandidates { user },
            ProxyEventView::Candidates { campaigns, completions },
        ) => {
            let i = choose|i: int| is_first_chargeable(user, call.price, campaigns, completions, i);
            assert(i as usize as int == i);
        },
        _ => {},
    }
}

/// Access follows payment. Access is granted only when the verifier has
/// accepted the caller's proof, or when the store has recorded a
/// sponsor's payment; a payment is handed over to be recorded only when
/// the store has applied the debit; and the decision waits for the record
/// only after that.
pub proof fn lemma_access_follows_payment(
    config: AppConfigView,
    call: ProxyCallView,
    state: ProxyStateView,
    event: ProxyEventView,
    fresh: u128,
)
    ensures
        proxy_transition(config, call, state, event, fresh).1 is RecordPayment ==> state
            is Debiting && event == ProxyEventView::DebitApplied(true),
        proxy_transition(config, call, state, event, fresh).0 is Recording ==> proxy_transition(
            config,
            call,
            state,
            event,
            fresh,
        ).1 is RecordPayment,
        (proxy_transition(config, call, state, event, fresh).1
            matches ProxyActionView::Finish(decision) && decision
            matches AccessDecisionView::Accepted { mode, .. } && mode == PaymentMode::Sponsored)
            ==> state is Recording && event is Recorded,
        (proxy_transition(config, call, state, event, fresh).1
            matches ProxyActionView::Finish(decision) && decision
            matches AccessDecisionView::Accepted { mode, .. } && mode == PaymentMode::UserDirect)
            ==> state is Verifying && (event matches ProxyEventView::Verified(outcome)
            && outcome is Ok),
{
    lemma_refusal_is_no_acceptance(
        config,
        call.service,
        call.price,
        proxy_path(call.service),
        RefusalView::NoSponsor,
    );
}

/// A refusal is never an acceptance: it is answered with a challenge, or
/// with the failure that kept the challenge from being built.
pub proof fn lemma_refusal_is_no_acceptance(
    config: AppConfigView,
    service: Seq<char>,
    price: u64,
    resource_path: Seq<char>,
    refusal: RefusalView,
)
    ensures
        !(decision_of_error(refusal_outcome(config, service, price, resource_path, refusal))
            is Accepted),
{
}

} // verus!
