//! The payment proof verifier.
//!
//! A proof is screened first: it must be there, it must decode, it must be
//! for the service that was asked for, and it must cover the price. A proof
//! that passes is then checked against the ledger of settled payments, or
//! handed to a facilitator that verifies and settles it. Whatever speaks
//! against a proof turns into a fresh challenge, never into a failure of
//! the service; only a configuration that cannot state the challenge is a
//! failure.

use crate::error::{ApiError, ApiErrorView, ApiResult};
use crate::outside::{base64_encode, base64_standard, json_quote, json_string};
use crate::requirement::{fits_base64, payment_required_error, payment_required_outcome};
use crate::settlement::{lookup, PaymentLedger, PaymentView};
use crate::text::str_eq;
use crate::types::{
    opt_str, opt_text, AppConfig, AppConfigView, PaymentStatus, X402SettleResponse,
    X402SettleResponseView,
};
use vstd::prelude::*;
use vstd::string::*;
use vstd::utf8::encode_utf8;

verus! {

/// Which verifier checks proofs of payment: the ledger of settled
/// payments, or a facilitator. The choice is made once, from the
/// configuration.
#[derive(Clone, Copy, Debug, PartialEq, Eq, Structural)]
pub enum VerifierMode {
    Local,
    Facilitator,
}

/// The verifier that a setting stands for: the ledger where the setting
/// says `local`, and the facilitator in every other case.
pub open spec fn mode_of_setting(setting: Option<Seq<char>>) -> VerifierMode {
    match setting {
        Some(s) => if s == "local"@ {
            VerifierMode::Local
        } else {
            VerifierMode::Facilitator
        },
        None => VerifierMode::Facilitator,
    }
}

impl VerifierMode {
    /// The verifier that a setting stands for.
    pub fn from_setting(setting: Option<&str>) -> (mode: VerifierMode)
        ensures
            mode == mode_of_setting(opt_str(setting)),
    {
        match setting {
            Some(s) => {
                if str_eq(s, "local") {
                    VerifierMode::Local
                } else {
                    VerifierMode::Facilitator
                }
            },
            None => VerifierMode::Facilitator,
        }
    }
}

/// What a proof of payment says once it is decoded.
#[derive(Clone, Debug)]
pub struct PaymentProof {
    pub tx_hash: String,
    pub service: String,
    pub amount_cents: u64,
    pub payer: String,
}

pub struct PaymentProofView {
    pub tx_hash: Seq<char>,
    pub service: Seq<char>,
    pub amount_cents: u64,
    pub payer: Seq<char>,
}

impl View for PaymentProof {
    type V = PaymentProofView;

    open spec fn view(&self) -> PaymentProofView {
        PaymentProofView {
            tx_hash: self.tx_hash@,
            service: self.service@,
            amount_cents: self.amount_cents,
            payer: self.payer@,
        }
    }
}

/// What a request carries by way of proof: nothing, something that does
/// not decode, or a proof.
#[derive(Clone, Debug)]
pub enum ProofArtifact {
    Missing,
    Undecodable,
    Decoded(PaymentProof),
}

pub enum ProofArtifactView {
    Missing,
    Undecodable,
    Decoded(PaymentProofView),
}

impl View for ProofArtifact {
    type V = ProofArtifactView;

    open spec fn view(&self) -> ProofArtifactView {
        match self {
            ProofArtifact::Missing => ProofArtifactView::Missing,
            ProofArtifact::Undecodable => ProofArtifactView::Undecodable,
            ProofArtifact::Decoded(p) => ProofArtifactView::Decoded(p@),
        }
    }
}

/// Why a call is answered with a challenge: what speaks against its proof,
/// or why nobody else pays. `Rejected` carries what the facilitator said,
/// or what kept it from answering.
#[derive(Clone, Debug)]
pub enum Refusal {
    MissingProof,
    InvalidProof,
    ServiceMismatch,
    InsufficientAmount,
    NotFound,
    NotSettled,
    NoSponsor,
    BudgetExhausted,
    Rejected(String),
}

pub enum RefusalView {
    MissingProof,
    InvalidProof,
    ServiceMismatch,
    InsufficientAmount,
    NotFound,
    NotSettled,
    NoSponsor,
    BudgetExhausted,
    Rejected(Seq<char>),
}

impl View for Refusal {
    type V = RefusalView;

    open spec fn view(&self) -> RefusalView {
        match self {
            Refusal::MissingProof => RefusalView::MissingProof,
            Refusal::InvalidProof => RefusalView::InvalidProof,
            Refusal::ServiceMismatch => RefusalView::ServiceMismatch,
            Refusal::InsufficientAmount => RefusalView::InsufficientAmount,
            Refusal::NotFound => RefusalView::NotFound,
            Refusal::NotSettled => RefusalView::NotSettled,
            Refusal::NoSponsor => RefusalView::NoSponsor,
            Refusal::BudgetExhausted => RefusalView::BudgetExhausted,
            Refusal::Rejected(d) => RefusalView::Rejected(d@),
        }
    }
}

impl RefusalView {
    /// The message of the challenge that answers the refusal.
    pub open spec fn message(self) -> Seq<char> {
        match self {
            RefusalView::MissingProof => "missing proof"@,
            RefusalView::InvalidProof => "invalid proof"@,
            RefusalView::ServiceMismatch => "service mismatch"@,
            RefusalView::InsufficientAmount => "insufficient amount"@,
            RefusalView::NotFound => "not found"@,
            RefusalView::NotSettled => "not settled"@,
            RefusalView::NoSponsor => "no eligible sponsor campaign found"@,
            RefusalView::BudgetExhausted => "sponsored budget exhausted"@,
            RefusalView::Rejected(d) => "payment rejected: "@ + d,
        }
    }

    /// What the challenge tells the caller to do next.
    pub open spec fn next_step(self) -> Seq<char> {
        match self {
            RefusalView::MissingProof =>
                "create a payment from the PAYMENT-REQUIRED challenge and retry"@,
            RefusalView::NoSponsor =>
                "either complete a sponsor task or pay with PAYMENT-SIGNATURE"@,
            RefusalView::BudgetExhausted => "pay with PAYMENT-SIGNATURE and retry"@,
            _ => "regenerate PAYMENT-SIGNATURE from the latest challenge and retry"@,
        }
    }
}

/// A payment that was accepted: its reference, its payer, and the encoded
/// receipt of the settlement where one could be encoded.
#[derive(Clone, Debug)]
pub struct VerifiedX402Payment {
    pub tx_hash: Option<String>,
    pub payer: Option<String>,
    pub payment_response_header: Option<String>,
}

pub struct VerifiedX402PaymentView {
    pub tx_hash: Option<Seq<char>>,
    pub payer: Option<Seq<char>>,
    pub payment_response_header: Option<Seq<char>>,
}

impl View for VerifiedX402Payment {
    type V = VerifiedX402PaymentView;

    open spec fn view(&self) -> VerifiedX402PaymentView {
        VerifiedX402PaymentView {
            tx_hash: opt_text(self.tx_hash),
            payer: opt_text(self.payer),
            payment_response_header: opt_text(self.payment_response_header),
        }
    }
}

/// The view of an accepted payment or of the outcome in its place.
pub open spec fn verification_result(r: ApiResult<VerifiedX402Payment>) -> Result<
    VerifiedX402PaymentView,
    ApiErrorView,
> {
    match r {
        Ok(v) => Ok(v@),
        Err(e) => Err(e@),
    }
}

/// The screening of a proof: the proof where it is there, decodes, names
/// the service and covers the price, and else the first of these that it
/// fails.
pub open spec fn screen(artifact: ProofArtifactView, service: Seq<char>, price: u64) -> Result<
    PaymentProofView,
    RefusalView,
> {
    match artifact {
        ProofArtifactView::Missing => Err(RefusalView::MissingProof),
        ProofArtifactView::Undecodable => Err(RefusalView::InvalidProof),
        ProofArtifactView::Decoded(proof) => if proof.service != service {
            Err(RefusalView::ServiceMismatch)
        } else if proof.amount_cents < price {
            Err(RefusalView::InsufficientAmount)
        } else {
            Ok(proof)
        },
    }
}

/// The verdict of the local ledger on a proof: the settled payment that
/// the proof refers to, or the reason for which it is not accepted.
pub open spec fn local_verdict(
    ledger: Seq<PaymentView>,
    artifact: ProofArtifactView,
    service: Seq<char>,
    price: u64,
) -> Result<PaymentView, RefusalView> {
    match screen(artifact, service, price) {
        Err(refusal) => Err(refusal),
        Ok(proof) => match lookup(ledger, proof.tx_hash) {
            None => Err(RefusalView::NotFound),
            Some(payment) => if payment.status == PaymentStatus::Settled {
                Ok(payment)
            } else {
                Err(RefusalView::NotSettled)
            },
        },
    }
}

/// The JSON literal of an optional text: `null` where there is none.
pub open spec fn json_optional(o: Option<Seq<char>>) -> Seq<char> {
    match o {
        Some(s) => json_string(s),
        None => "null"@,
    }
}

/// The JSON text of a settlement: its members in the order of the fields,
/// under their camel-case names, without spaces.
pub open spec fn settlement_json(s: X402SettleResponseView) -> Seq<char> {
    (if s.success {
        "{\"success\":true"@
    } else {
        "{\"success\":false"@
    }) + ",\"transaction\":"@ + json_optional(s.transaction) + ",\"payer\":"@ + json_optional(
        s.payer,
    ) + ",\"errorReason\":"@ + json_optional(s.error_reason) + "}"@
}

/// The encoded receipt of a settlement: base64 of the UTF-8 bytes of its
/// JSON text, where the bytes are few enough to be encoded.
pub open spec fn encoded_settlement(s: X402SettleResponseView) -> Option<Seq<char>> {
    if fits_base64(encode_utf8(settlement_json(s)).len()) {
        Some(base64_standard(encode_utf8(settlement_json(s))))
    } else {
        None
    }
}

/// The settlement that a record of the local ledger stands for.
pub open spec fn settlement_of(payment: PaymentView) -> X402SettleResponseView {
    X402SettleResponseView {
        success: true,
        transaction: Some(payment.tx_hash),
        payer: Some(payment.payer),
        error_reason: None,
    }
}

/// The accepted payment that a successful settlement stands for.
pub open spec fn verified_from(s: X402SettleResponseView) -> VerifiedX402PaymentView {
    VerifiedX402PaymentView {
        tx_hash: s.transaction,
        payer: s.payer,
        payment_response_header: encoded_settlement(s),
    }
}

/// The challenge that answers a refusal, or the failure that kept the
/// challenge from being built.
pub open spec fn refusal_outcome(
    config: AppConfigView,
    service: Seq<char>,
    price: u64,
    resource_path: Seq<char>,
    refusal: RefusalView,
) -> ApiErrorView {
    payment_required_outcome(
        config,
        service,
        price,
        resource_path,
        refusal.message(),
        refusal.next_step(),
    )
}

/// What the local verifier returns for a proof.
pub open spec fn local_outcome(
    config: AppConfigView,
    ledger: Seq<PaymentView>,
    service: Seq<char>,
    price: u64,
    resource_path: Seq<char>,
    artifact: ProofArtifactView,
) -> Result<VerifiedX402PaymentView, ApiErrorView> {
    match local_verdict(ledger, artifact, service, price) {
        Ok(payment) => Ok(verified_from(settlement_of(payment))),
        Err(refusal) => Err(refusal_outcome(config, service, price, resource_path, refusal)),
    }
}

impl Refusal {
    /// The message of the challenge that answers the refusal.
    pub fn message(&self) -> (s: String)
        ensures
            s@ == self@.message(),
    {
        match self {
            Refusal::MissingProof => String::from_str("missing proof"),
            Refusal::InvalidProof => String::from_str("invalid proof"),
            Refusal::ServiceMismatch => String::from_str("service mismatch"),
            Refusal::InsufficientAmount => String::from_str("insufficient amount"),
            Refusal::NotFound => String::from_str("not found"),
            Refusal::NotSettled => String::from_str("not settled"),
            Refusal::NoSponsor => String::from_str("no eligible sponsor campaign found"),
            Refusal::BudgetExhausted => String::from_str("sponsored budget exhausted"),
            Refusal::Rejected(d) => String::from_str("payment rejected: ").concat(d.as_str()),
        }
    }

    /// What the challenge tells the caller to do next.
    pub fn next_step(&self) -> (s: &'static str)
        ensures
            s@ == self@.next_step(),
    {
        match self {
            Refusal::MissingProof =>
                "create a payment from the PAYMENT-REQUIRED challenge and retry",
            Refusal::NoSponsor => "either complete a sponsor task or pay with PAYMENT-SIGNATURE",
            Refusal::BudgetExhausted => "pay with PAYMENT-SIGNATURE and retry",
            _ => "regenerate PAYMENT-SIGNATURE from the latest challenge and retry",
        }
    }
}

/// The challenge that answers `refusal` for one access, or the failure
/// that kept the challenge from being built.
pub fn refuse(
    config: &AppConfig,
    service: &str,
    price: u64,
    resource_path: &str,
    refusal: &Refusal,
) -> (e: ApiError)
    ensures
        e@ == refusal_outcome(config@, service@, price, resource_path@, refusal@),
{
    let message = refusal.message();
    payment_required_error(
        config,
        service,
        price,
        resource_path,
        message.as_str(),
        refusal.next_step(),
    )
}

/// Screens a proof for one access to `service` at `price`.
pub fn screen_proof<'a>(artifact: &'a ProofArtifact, service: &str, price: u64) -> (r: Result<
    &'a PaymentProof,
    Refusal,
>)
    ensures
        match screen(artifact@, service@, price) {
            Ok(proof) => r is Ok && r->Ok_0@ == proof,
            Err(refusal) => r is Err && r->Err_0@ == refusal,
        },
{
    match artifact {
        ProofArtifact::Missing => Err(Refusal::MissingProof),
        ProofArtifact::Undecodable => Err(Refusal::InvalidProof),
        ProofArtifact::Decoded(proof) => {
            if !str_eq(proof.service.as_str(), service) {
                Err(Refusal::ServiceMismatch)
            } else if proof.amount_cents < price {
                Err(Refusal::InsufficientAmount)
            } else {
                Ok(proof)
            }
        },
    }
}

/// Appends a member's name and the JSON literal of its optional text to
/// `out`.
fn push_optional_member(out: &mut String, name: &str, text: &Option<String>)
    ensures
        final(out)@ == old(out)@ + name@ + json_optional(opt_text(*text)),
{
    out.append(name);
    match text {
        None => {
            out.append("null");
        },
        Some(s) => {
            let literal = json_quote(s.as_str());
            out.append(literal.as_str());
        },
    }
}

/// The encoded receipt of a settlement, where one can be encoded.
pub fn encode_settlement(settlement: &X402SettleResponse) -> (r: Option<String>)
    ensures
        opt_text(r) == encoded_settlement(settlement@),
{
    let mut out = if settlement.success {
        String::from_str("{\"success\":true")
    } else {
        String::from_str("{\"success\":false")
    };
    push_optional_member(&mut out, ",\"transaction\":", &settlement.transaction);
    push_optional_member(&mut out, ",\"payer\":", &settlement.payer);
    push_optional_member(&mut out, ",\"errorReason\":", &settlement.error_reason);
    out.append("}");
    let bytes = out.as_str().as_bytes();
    if bytes.len() / 3 > (usize::MAX - 4) / 4 {
        None
    } else {
        Some(base64_encode(bytes))
    }
}

/// The accepted payment that a successful settlement stands for.
pub fn accept_settlement(settlement: X402SettleResponse) -> (v: VerifiedX402Payment)
    ensures
        v@ == verified_from(settlement@),
{
    let payment_response_header = encode_settlement(&settlement);
    VerifiedX402Payment {
        tx_hash: settlement.transaction,
        payer: settlement.payer,
        payment_response_header,
    }
}

/// Verifies a proof against the ledger of settled payments. Accepts the
/// proof exactly if it passes the screening and refers to a payment that
/// the ledger holds as settled; answers every other proof with a fresh
/// challenge that says why.
pub fn verify_local(
    config: &AppConfig,
    ledger: &PaymentLedger,
    service: &str,
    price: u64,
    resource_path: &str,
    artifact: &ProofArtifact,
) -> (r: ApiResult<VerifiedX402Payment>)
    ensures
        verification_result(r) == local_outcome(
            config@,
            ledger@,
            service@,
            price,
            resource_path@,
            artifact@,
        ),
{
    let proof = match screen_proof(artifact, service, price) {
        Ok(proof) => proof,
        Err(refusal) => {
            return Err(refuse(config, service, price, resource_path, &refusal));
        },
    };
    match ledger.find(proof.tx_hash.as_str()) {
        None => Err(refuse(config, service, price, resource_path, &Refusal::NotFound)),
        Some(payment) => {
            match payment.status {
                PaymentStatus::Settled => {
                    let settlement = X402SettleResponse {
                        success: true,
                        transaction: Some(payment.tx_hash.clone()),
                        payer: Some(payment.payer.clone()),
                        error_reason: None,
                    };
                    Ok(accept_settlement(settlement))
                },
                PaymentStatus::Failed => Err(
                    refuse(config, service, price, resource_path, &Refusal::NotSettled),
                ),
            }
        },
    }
}

/// What a refusal turns into. With a configuration that names the payee
/// and the asset, and a requirement that can be encoded, a refusal is a
/// challenge that carries the refusal's message and next step. Without
/// the payee or the asset it is a configuration failure. It is never a
/// failure of the store or of an upstream.
pub proof fn lemma_refusal_is_a_challenge(
    config: AppConfigView,
    service: Seq<char>,
    price: u64,
    resource_path: Seq<char>,
    refusal: RefusalView,
)
    ensures
        match crate::requirement::requirement_for(config, service, price, resource_path) {
            Ok(requirement) => match crate::requirement::encoded_requirement(requirement) {
                Some(encoded) => refusal_outcome(config, service, price, resource_path, refusal)
                    == ApiErrorView::PaymentRequired(
                    crate::types::PaymentRequiredView {
                        service,
                        amount_cents: price,
                        accepted_header: crate::types::PAYMENT_SIGNATURE_HEADER@,
                        payment_required: encoded,
                        message: refusal.message(),
                        next_step: refusal.next_step(),
                    },
                ),
                None => refusal_outcome(config, service, price, resource_path, refusal)
                    is Internal,
            },
            Err(e) => refusal_outcome(config, service, price, resource_path, refusal) == e && e
                is Config,
        },
        !(refusal_outcome(config, service, price, resource_path, refusal) is Upstream),
        !(refusal_outcome(config, service, price, resource_path, refusal) is Supabase),
        !(refusal_outcome(config, service, price, resource_path, refusal) is Http),
{
}

/// A proof that does not cover the price is answered with "insufficient
/// amount", whatever the ledger holds: the ledger is not even asked.
pub proof fn lemma_short_proof_is_refused(
    ledger: Seq<PaymentView>,
    proof: PaymentProofView,
    service: Seq<char>,
    price: u64,
)
    requires
        proof.service == service,
        proof.amount_cents < price,
    ensures
        local_verdict(ledger, ProofArtifactView::Decoded(proof), service, price) == Err::<
            PaymentView,
            RefusalView,
        >(RefusalView::InsufficientAmount),
{
}

} // verus!
