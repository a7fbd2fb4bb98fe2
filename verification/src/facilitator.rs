//! Verification through a facilitator, step by step.
//!
//! The facilitator is asked twice, first to verify the proof and then to
//! settle the payment. This module decides what to ask and what to make of
//! each answer; the caller carries the requests over the network. An
//! answer that is not a success, or no answer at all, turns into a fresh
//! challenge: a facilitator that cannot be reached or convinced denies
//! access and never grants it.

use crate::error::{ApiErrorView, ApiResult};
use crate::requirement::{build_payment_requirement, requirement_for};
use crate::text::{clone_optional, joined, strip_end_slashes, trim_end_slashes};
use crate::types::{
    opt_text, AppConfig, AppConfigView, X402PaymentRequirement, X402PaymentRequirementView,
    X402SettleResponse, X402SettleResponseView, X402VerifyResponse, X402VerifyResponseView,
};
use crate::settlement::{PaymentLedger, PaymentView};
use crate::verification::{
    accept_settlement, local_outcome, refusal_outcome, refuse, screen, screen_proof,
    verification_result, verified_from, verify_local, ProofArtifact, ProofArtifactView, Refusal,
    RefusalView, VerifiedX402Payment, VerifiedX402PaymentView, VerifierMode,
};
use vstd::prelude::*;
use vstd::string::*;

verus! {

/// How long the facilitator has to answer, in seconds.
pub const FACILITATOR_TIMEOUT_SECS: u64 = 20;

/// A request to the facilitator: where to send it, the bearer token to
/// send with it, the requirement that the proof is held against, and how
/// long to wait for the answer.
#[derive(Clone, Debug)]
pub struct FacilitatorRequest {
    pub url: String,
    pub bearer_token: Option<String>,
    pub requirement: X402PaymentRequirement,
    pub timeout_secs: u64,
}

pub struct FacilitatorRequestView {
    pub url: Seq<char>,
    pub bearer_token: Option<Seq<char>>,
    pub requirement: X402PaymentRequirementView,
    pub timeout_secs: u64,
}

impl View for FacilitatorRequest {
    type V = FacilitatorRequestView;

    open spec fn view(&self) -> FacilitatorRequestView {
        FacilitatorRequestView {
            url: self.url@,
            bearer_token: opt_text(self.bearer_token),
            requirement: self.requirement@,
            timeout_secs: self.timeout_secs,
        }
    }
}

/// What came back from the facilitator: no answer, with the reason; an
/// answer with a status other than success, with its body; or the answer
/// to a request to verify or to settle.
#[derive(Clone, Debug)]
pub enum FacilitatorReply {
    Unreachable(String),
    Refused(u16, String),
    Verified(X402VerifyResponse),
    Settled(X402SettleResponse),
}

pub enum FacilitatorReplyView {
    Unreachable(Seq<char>),
    Refused(u16, Seq<char>),
    Verified(X402VerifyResponseView),
    Settled(X402SettleResponseView),
}

impl View for FacilitatorReply {
    type V = FacilitatorReplyView;

    open spec fn view(&self) -> FacilitatorReplyView {
        match self {
            FacilitatorReply::Unreachable(d) => FacilitatorReplyView::Unreachable(d@),
            FacilitatorReply::Refused(status, body) => FacilitatorReplyView::Refused(
                *status,
                body@,
            ),
            FacilitatorReply::Verified(v) => FacilitatorReplyView::Verified(v@),
            FacilitatorReply::Settled(s) => FacilitatorReplyView::Settled(s@),
        }
    }
}

/// What to do next: ask the facilitator, or stop with the outcome.
#[derive(Debug)]
pub enum FacilitatorStep {
    Call(FacilitatorRequest),
    Done(ApiResult<VerifiedX402Payment>),
}

pub enum FacilitatorStepView {
    Call(FacilitatorRequestView),
    Done(Result<VerifiedX402PaymentView, ApiErrorView>),
}

impl View for FacilitatorStep {
    type V = FacilitatorStepView;

    open spec fn view(&self) -> FacilitatorStepView {
        match self {
            FacilitatorStep::Call(request) => FacilitatorStepView::Call(request@),
            FacilitatorStep::Done(outcome) => FacilitatorStepView::Done(
                verification_result(*outcome),
            ),
        }
    }
}

/// The address of an operation of the facilitator.
pub open spec fn endpoint(config: AppConfigView, path: Seq<char>) -> Seq<char> {
    strip_end_slashes(config.x402_facilitator_url) + path
}

/// The request for an operation of the facilitator, or the configuration
/// failure that keeps the requirement from being built.
pub open spec fn request_for(
    config: AppConfigView,
    service: Seq<char>,
    price: u64,
    resource_path: Seq<char>,
    path: Seq<char>,
) -> FacilitatorStepView {
    match requirement_for(config, service, price, resource_path) {
        Err(e) => FacilitatorStepView::Done(Err(e)),
        Ok(requirement) => FacilitatorStepView::Call(
            FacilitatorRequestView {
                url: endpoint(config, path),
                bearer_token: config.x402_facilitator_bearer_token,
                requirement,
                timeout_secs: FACILITATOR_TIMEOUT_SECS,
            },
        ),
    }
}

/// What speaks against a reply to a request to verify.
pub open spec fn verify_diagnostic(reply: FacilitatorReplyView) -> Seq<char> {
    match reply {
        FacilitatorReplyView::Unreachable(d) => "upstream error: "@ + d,
        FacilitatorReplyView::Refused(_, body) => "upstream error: "@ + body,
        FacilitatorReplyView::Verified(v) => match v.invalid_reason {
            Some(reason) => reason,
            None => "payment verification failed"@,
        },
        FacilitatorReplyView::Settled(_) => "unexpected facilitator response"@,
    }
}

/// What speaks against a reply to a request to settle.
pub open spec fn settle_diagnostic(reply: FacilitatorReplyView) -> Seq<char> {
    match reply {
        FacilitatorReplyView::Unreachable(d) => "upstream error: "@ + d,
        FacilitatorReplyView::Refused(_, body) => "upstream error: "@ + body,
        FacilitatorReplyView::Settled(s) => match s.error_reason {
            Some(reason) => reason,
            None => "payment settlement failed"@,
        },
        FacilitatorReplyView::Verified(_) => "unexpected facilitator response"@,
    }
}

/// Whether the reply says that the proof is valid.
pub open spec fn is_verified(reply: FacilitatorReplyView) -> bool {
    reply matches FacilitatorReplyView::Verified(v) && v.is_valid
}

/// Whether the reply says that the payment is settled.
pub open spec fn is_settled(reply: FacilitatorReplyView) -> bool {
    reply matches FacilitatorReplyView::Settled(s) && s.success
}

/// The first step: a proof that fails the screening is answered at once,
/// and one that passes is sent to be verified.
pub open spec fn first_step(
    config: AppConfigView,
    service: Seq<char>,
    price: u64,
    resource_path: Seq<char>,
    artifact: ProofArtifactView,
) -> FacilitatorStepView {
    match screen(artifact, service, price) {
        Err(refusal) => FacilitatorStepView::Done(
            Err(refusal_outcome(config, service, price, resource_path, refusal)),
        ),
        Ok(_) => request_for(config, service, price, resource_path, config.x402_verify_path),
    }
}

/// How a verification starts. The ledger of settled payments answers at
/// once; the facilitator has to be asked, unless the proof fails the
/// screening.
pub open spec fn verification_start(
    mode: VerifierMode,
    config: AppConfigView,
    ledger: Seq<PaymentView>,
    service: Seq<char>,
    price: u64,
    resource_path: Seq<char>,
    artifact: ProofArtifactView,
) -> FacilitatorStepView {
    match mode {
        VerifierMode::Local => FacilitatorStepView::Done(
            local_outcome(config, ledger, service, price, resource_path, artifact),
        ),
        VerifierMode::Facilitator => first_step(config, service, price, resource_path, artifact),
    }
}

/// The step after the facilitator was asked to verify: a valid proof is
/// sent to be settled, and everything else is answered with a challenge.
pub open spec fn step_after_verify(
    config: AppConfigView,
    service: Seq<char>,
    price: u64,
    resource_path: Seq<char>,
    reply: FacilitatorReplyView,
) -> FacilitatorStepView {
    if is_verified(reply) {
        request_for(config, service, price, resource_path, config.x402_settle_path)
    } else {
        FacilitatorStepView::Done(
            Err(
                refusal_outcome(
                    config,
                    service,
                    price,
                    resource_path,
                    RefusalView::Rejected(verify_diagnostic(reply)),
                ),
            ),
        )
    }
}

/// The outcome after the facilitator was asked to settle: a settled
/// payment is accepted, and everything else is answered with a challenge.
pub open spec fn outcome_after_settle(
    config: AppConfigView,
    service: Seq<char>,
    price: u64,
    resource_path: Seq<char>,
    reply: FacilitatorReplyView,
) -> Result<VerifiedX402PaymentView, ApiErrorView> {
    match reply {
        FacilitatorReplyView::Settled(s) => if s.success {
            Ok(verified_from(s))
        } else {
            Err(
                refusal_outcome(
                    config,
                    service,
                    price,
                    resource_path,
                    RefusalView::Rejected(settle_diagnostic(reply)),
                ),
            )
        },
        _ => Err(
            refusal_outcome(
                config,
                service,
                price,
                resource_path,
                RefusalView::Rejected(settle_diagnostic(reply)),
            ),
        ),
    }
}

/// The request for an operation of the facilitator.
fn request(config: &AppConfig, service: &str, price: u64, resource_path: &str, path: &str) -> (step:
    FacilitatorStep)
    ensures
        step@ == request_for(config@, service@, price, resource_path@, path@),
{
    match build_payment_requirement(config, service, price, resource_path) {
        Err(e) => FacilitatorStep::Done(Err(e)),
        Ok(requirement) => FacilitatorStep::Call(
            FacilitatorRequest {
                url: joined(trim_end_slashes(config.x402_facilitator_url.as_str()), path),
                bearer_token: clone_optional(&config.x402_facilitator_bearer_token),
                requirement,
                timeout_secs: FACILITATOR_TIMEOUT_SECS,
            },
        ),
    }
}

/// The text after a fixed beginning.
fn upstream_error(detail: &str) -> (s: String)
    ensures
        s@ == "upstream error: "@ + detail@,
{
    joined("upstream error: ", detail)
}

/// The text of an optional reason, or the text that stands in for it.
fn reason_or(reason: Option<String>, fallback: &str) -> (s: String)
    ensures
        s@ == match reason {
            Some(r) => r@,
            None => fallback@,
        },
{
    match reason {
        Some(r) => r,
        None => String::from_str(fallback),
    }
}

/// Starts a verification through the facilitator: screens the proof and,
/// where it passes, asks the facilitator to verify it.
pub fn begin_verification(
    config: &AppConfig,
    service: &str,
    price: u64,
    resource_path: &str,
    artifact: &ProofArtifact,
) -> (step: FacilitatorStep)
    ensures
        step@ == first_step(config@, service@, price, resource_path@, artifact@),
{
    match screen_proof(artifact, service, price) {
        Err(refusal) => FacilitatorStep::Done(
            Err(refuse(config, service, price, resource_path, &refusal)),
        ),
        Ok(_) => request(config, service, price, resource_path, config.x402_verify_path.as_str()),
    }
}

/// Verifies the proof of payment of a request for `service` at
/// `amount_cents`, with the verifier that was chosen. The ledger of
/// settled payments decides at once. The facilitator decides in steps:
/// where the result is a call, the caller sends it and hands the reply to
/// `after_verify`.
pub fn verify_x402_payment(
    mode: VerifierMode,
    config: &AppConfig,
    ledger: &PaymentLedger,
    service: &str,
    amount_cents: u64,
    resource_path: &str,
    artifact: &ProofArtifact,
) -> (step: FacilitatorStep)
    ensures
        step@ == verification_start(
            mode,
            config@,
            ledger@,
            service@,
            amount_cents,
            resource_path@,
            artifact@,
        ),
{
    match mode {
        VerifierMode::Local => FacilitatorStep::Done(
            verify_local(config, ledger, service, amount_cents, resource_path, artifact),
        ),
        VerifierMode::Facilitator => begin_verification(
            config,
            service,
            amount_cents,
            resource_path,
            artifact,
        ),
    }
}

/// Takes the reply to the request to verify. A valid proof is sent to be
/// settled; every other reply ends the verification with a challenge.
pub fn after_verify(
    config: &AppConfig,
    service: &str,
    price: u64,
    resource_path: &str,
    reply: FacilitatorReply,
) -> (step: FacilitatorStep)
    ensures
        step@ == step_after_verify(config@, service@, price, resource_path@, reply@),
{
    let diagnostic = match reply {
        FacilitatorReply::Verified(v) => {
            if v.is_valid {
                return request(
                    config,
                    service,
                    price,
                    resource_path,
                    config.x402_settle_path.as_str(),
                );
            }
            reason_or(v.invalid_reason, "payment verification failed")
        },
        FacilitatorReply::Unreachable(d) => upstream_error(d.as_str()),
        FacilitatorReply::Refused(_, body) => upstream_error(body.as_str()),
        FacilitatorReply::Settled(_) => String::from_str("unexpected facilitator response"),
    };
    FacilitatorStep::Done(
        Err(refuse(config, service, price, resource_path, &Refusal::Rejected(diagnostic))),
    )
}

/// Takes the reply to the request to settle. A settled payment is
/// accepted; every other reply ends the verification with a challenge.
pub fn after_settle(
    config: &AppConfig,
    service: &str,
    price: u64,
    resource_path: &str,
    reply: FacilitatorReply,
) -> (r: ApiResult<VerifiedX402Payment>)
    ensures
        verification_result(r) == outcome_after_settle(
            config@,
            service@,
            price,
            resource_path@,
            reply@,
        ),
{
    let diagnostic = match reply {
        FacilitatorReply::Settled(s) => {
            if s.success {
                return Ok(accept_settlement(s));
            }
            reason_or(s.error_reason, "payment settlement failed")
        },
        FacilitatorReply::Unreachable(d) => upstream_error(d.as_str()),
        FacilitatorReply::Refused(_, body) => upstream_error(body.as_str()),
        FacilitatorReply::Verified(_) => String::from_str("unexpected facilitator response"),
    };
    Err(refuse(config, service, price, resource_path, &Refusal::Rejected(diagnostic)))
}

/// The facilitator fails closed. A payment is accepted only on a reply
/// that says it is settled, and the facilitator is asked to settle only on
/// a reply that says the proof is valid. Every other reply, and no reply
/// at all, ends with an outcome that is not a success.
pub proof fn lemma_facilitator_fails_closed(
    config: AppConfigView,
    service: Seq<char>,
    price: u64,
    resource_path: Seq<char>,
    reply: FacilitatorReplyView,
)
    ensures
        outcome_after_settle(config, service, price, resource_path, reply) is Ok <==> is_settled(
            reply,
        ),
        !is_verified(reply) ==> (step_after_verify(config, service, price, resource_path, reply)
            matches FacilitatorStepView::Done(outcome) && outcome is Err),
        step_after_verify(config, service, price, resource_path, reply)
            matches FacilitatorStepView::Done(outcome) ==> outcome is Err,
{
}

} // verus!
