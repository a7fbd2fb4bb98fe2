//! The settlement recorder: the payments that were made, one record per
//! transaction reference.

use crate::text::str_eq;
use crate::types::{PaymentSource, PaymentStatus, X402ScanSettlementRequest};
use vstd::prelude::*;
use vstd::string::*;

verus! {

/// The record of one payment. The transaction reference is its key.
#[derive(Clone, Debug)]
pub struct Payment {
    pub tx_hash: String,
    pub campaign_id: Option<u128>,
    pub service: String,
    pub amount_cents: u64,
    pub payer: String,
    pub source: PaymentSource,
    pub status: PaymentStatus,
}

pub struct PaymentView {
    pub tx_hash: Seq<char>,
    pub campaign_id: Option<u128>,
    pub service: Seq<char>,
    pub amount_cents: u64,
    pub payer: Seq<char>,
    pub source: PaymentSource,
    pub status: PaymentStatus,
}

impl View for Payment {
    type V = PaymentView;

    open spec fn view(&self) -> PaymentView {
        PaymentView {
            tx_hash: self.tx_hash@,
            campaign_id: self.campaign_id,
            service: self.service@,
            amount_cents: self.amount_cents,
            payer: self.payer@,
            source: self.source,
            status: self.status,
        }
    }
}

/// How a payment was made.
#[derive(Clone, Copy, Debug, PartialEq, Eq, Structural)]
pub enum PaymentMode {
    UserDirect,
    Sponsored,
}

/// The views of a list of payments, in order.
pub open spec fn payment_views(v: Seq<Payment>) -> Seq<PaymentView> {
    v.map_values(|p: Payment| p@)
}

/// Whether a record with this reference is among `records`.
pub open spec fn holds(records: Seq<PaymentView>, reference: Seq<char>) -> bool {
    exists|i: int| 0 <= i < records.len() && (#[trigger] records[i]).tx_hash == reference
}

/// Whether no two of `records` share a reference.
pub open spec fn unique_references(records: Seq<PaymentView>) -> bool {
    forall|i: int, j: int|
        0 <= i < j < records.len() ==> (#[trigger] records[i]).tx_hash != (
        #[trigger] records[j]).tx_hash
}

/// The record with this reference, if there is one.
pub open spec fn lookup(records: Seq<PaymentView>, reference: Seq<char>) -> Option<PaymentView> {
    if holds(records, reference) {
        Some(
            records[choose|i: int|
                0 <= i < records.len() && (#[trigger] records[i]).tx_hash == reference],
        )
    } else {
        None
    }
}

/// How many of `records` have this reference.
pub open spec fn count_reference(records: Seq<PaymentView>, reference: Seq<char>) -> nat
    decreases records.len(),
{
    if records.len() == 0 {
        0
    } else {
        let last: nat = if records.last().tx_hash == reference {
            1
        } else {
            0
        };
        count_reference(records.drop_last(), reference) + last
    }
}

/// The records after `payment` was handed in: a payment whose reference is
/// already recorded changes nothing.
pub open spec fn ingested(records: Seq<PaymentView>, payment: PaymentView) -> Seq<PaymentView> {
    if holds(records, payment.tx_hash) {
        records
    } else {
        records.push(payment)
    }
}

/// The name of a payment mode in metrics and responses.
pub open spec fn mode_label(mode: PaymentMode) -> Seq<char> {
    match mode {
        PaymentMode::UserDirect => "user_direct"@,
        PaymentMode::Sponsored => "sponsored"@,
    }
}

/// The name of a payment source in the store.
pub open spec fn source_label(source: PaymentSource) -> Seq<char> {
    match source {
        PaymentSource::User => "user"@,
        PaymentSource::Sponsor => "sponsor"@,
    }
}

/// The name of a payment status in the store and in metrics.
pub open spec fn status_label(status: PaymentStatus) -> Seq<char> {
    match status {
        PaymentStatus::Settled => "settled"@,
        PaymentStatus::Failed => "failed"@,
    }
}

/// The payment source that a name of the store stands for.
pub open spec fn source_of_label(label: Seq<char>) -> Option<PaymentSource> {
    if label == "user"@ {
        Some(PaymentSource::User)
    } else if label == "sponsor"@ {
        Some(PaymentSource::Sponsor)
    } else {
        None
    }
}

/// The payment status that a name of the store stands for.
pub open spec fn status_of_label(label: Seq<char>) -> Option<PaymentStatus> {
    if label == "settled"@ {
        Some(PaymentStatus::Settled)
    } else if label == "failed"@ {
        Some(PaymentStatus::Failed)
    } else {
        None
    }
}

/// The mode in which a payment from this source was made.
pub open spec fn mode_of(source: PaymentSource) -> PaymentMode {
    match source {
        PaymentSource::User => PaymentMode::UserDirect,
        PaymentSource::Sponsor => PaymentMode::Sponsored,
    }
}

impl PaymentMode {
    /// The mode in which a payment from `source` was made.
    pub fn of(source: PaymentSource) -> (mode: PaymentMode)
        ensures
            mode == mode_of(source),
    {
        match source {
            PaymentSource::User => PaymentMode::UserDirect,
            PaymentSource::Sponsor => PaymentMode::Sponsored,
        }
    }

    /// The name of the mode in metrics and responses.
    pub fn label(&self) -> (s: &'static str)
        ensures
            s@ == mode_label(*self),
    {
        match self {
            PaymentMode::UserDirect => "user_direct",
            PaymentMode::Sponsored => "sponsored",
        }
    }
}

impl PaymentSource {
    /// The source that a name of the store stands for, if it stands for
    /// one.
    pub fn from_label(label: &str) -> (source: Option<PaymentSource>)
        ensures
            source == source_of_label(label@),
    {
        if str_eq(label, "user") {
            Some(PaymentSource::User)
        } else if str_eq(label, "sponsor") {
            Some(PaymentSource::Sponsor)
        } else {
            None
        }
    }

    /// The name of the source in the store.
    pub fn label(&self) -> (s: &'static str)
        ensures
            s@ == source_label(*self),
    {
        match self {
            PaymentSource::User => "user",
            PaymentSource::Sponsor => "sponsor",
        }
    }
}

impl PaymentStatus {
    /// The status that a name of the store stands for, if it stands for
    /// one.
    pub fn from_label(label: &str) -> (status: Option<PaymentStatus>)
        ensures
            status == status_of_label(label@),
    {
        if str_eq(label, "settled") {
            Some(PaymentStatus::Settled)
        } else if str_eq(label, "failed") {
            Some(PaymentStatus::Failed)
        } else {
            None
        }
    }

    /// The name of the status in the store and in metrics.
    pub fn label(&self) -> (s: &'static str)
        ensures
            s@ == status_label(*self),
    {
        match self {
            PaymentStatus::Settled => "settled",
            PaymentStatus::Failed => "failed",
        }
    }
}

impl Payment {
    /// The record of a settlement that was reported from outside.
    pub fn from_settlement(request: X402ScanSettlementRequest) -> (p: Payment)
        ensures
            p@ == (PaymentView {
                tx_hash: request.tx_hash@,
                campaign_id: request.campaign_id,
                service: request.service@,
                amount_cents: request.amount_cents,
                payer: request.payer@,
                source: request.source,
                status: request.status,
            }),
    {
        Payment {
            tx_hash: request.tx_hash,
            campaign_id: request.campaign_id,
            service: request.service,
            amount_cents: request.amount_cents,
            payer: request.payer,
            source: request.source,
            status: request.status,
        }
    }

    /// A copy of the record.
    pub fn duplicate(&self) -> (p: Payment)
        ensures
            p@ == self@,
    {
        Payment {
            tx_hash: self.tx_hash.clone(),
            campaign_id: self.campaign_id,
            service: self.service.clone(),
            amount_cents: self.amount_cents,
            payer: self.payer.clone(),
            source: self.source,
            status: self.status,
        }
    }
}

/// The payments that are known to have been made. No two records share a
/// reference.
pub struct PaymentLedger {
    records: Vec<Payment>,
}

impl View for PaymentLedger {
    type V = Seq<PaymentView>;

    closed spec fn view(&self) -> Seq<PaymentView> {
        payment_views(self.records@)
    }
}

impl PaymentLedger {
    #[verifier::type_invariant]
    spec fn references_are_unique(self) -> bool {
        unique_references(payment_views(self.records@))
    }

    /// A ledger without records.
    pub fn new() -> (ledger: Self)
        ensures
            ledger@ == Seq::<PaymentView>::empty(),
    {
        let ledger = PaymentLedger { records: Vec::new() };
        assert(ledger@ =~= Seq::<PaymentView>::empty());
        ledger
    }

    /// The number of records. No two of them share a reference.
    pub fn len(&self) -> (n: usize)
        ensures
            n == self@.len(),
            unique_references(self@),
    {
        proof {
            use_type_invariant(self);
        }
        self.records.len()
    }

    /// The position of the record with this reference, if there is one.
    fn position(&self, reference: &str) -> (at: Option<usize>)
        ensures
            match at {
                Some(i) => i < self@.len() && self@[i as int].tx_hash == reference@ && lookup(
                    self@,
                    reference@,
                ) == Some(self@[i as int]),
                None => !holds(self@, reference@),
            },
    {
        proof {
            use_type_invariant(self);
        }
        let mut i: usize = 0;
        while i < self.records.len()
            invariant
                i <= self.records.len(),
                unique_references(self@),
                forall|k: int| 0 <= k < i ==> (#[trigger] self@[k]).tx_hash != reference@,
            decreases self.records.len() - i,
        {
            if str_eq(self.records[i].tx_hash.as_str(), reference) {
                proof {
                    let v = self@;
                    assert(v[i as int] == self.records[i as int]@);
                    let c = choose|k: int|
                        0 <= k < v.len() && (#[trigger] v[k]).tx_hash == reference@;
                    if c < i {
                        assert(v[c].tx_hash != v[i as int].tx_hash);
                    } else if i < c {
                        assert(v[i as int].tx_hash != v[c].tx_hash);
                    }
                }
                return Some(i);
            }
            i += 1;
        }
        None
    }

    /// The record with this reference, if there is one.
    pub fn find(&self, reference: &str) -> (found: Option<&Payment>)
        ensures
            match found {
                Some(p) => lookup(self@, reference@) == Some(p@) && p@.tx_hash == reference@,
                None => lookup(self@, reference@) is None,
            },
    {
        match self.position(reference) {
            Some(i) => {
                Some(&self.records[i])
            },
            None => None,
        }
    }

    /// Records `payment` unless a record with its reference is there
    /// already. Returns whether the payment was recorded.
    pub fn ingest(&mut self, payment: Payment) -> (recorded: bool)
        ensures
            recorded == !holds(old(self)@, payment@.tx_hash),
            final(self)@ == ingested(old(self)@, payment@),
            unique_references(final(self)@),
    {
        proof {
            use_type_invariant(&*self);
        }
        match self.position(payment.tx_hash.as_str()) {
            Some(_) => false,
            None => {
                let ghost before = self@;
                let ghost added = payment@;
                let mut records: Vec<Payment> = Vec::new();
                assert(payment_views(records@) =~= Seq::<PaymentView>::empty());
                std::mem::swap(&mut self.records, &mut records);
                proof {
                    lemma_ingest_keeps_references_unique(before, added);
                    assert(payment_views(records@.push(payment)) =~= before.push(added));
                }
                records.push(payment);
                std::mem::swap(&mut self.records, &mut records);
                true
            },
        }
    }
}

/// Among records with unique references, a reference occurs once if it is
/// held and not at all if it is not.
pub proof fn lemma_count_of_unique(records: Seq<PaymentView>, reference: Seq<char>)
    requires
        unique_references(records),
    ensures
        count_reference(records, reference) == if holds(records, reference) {
            1nat
        } else {
            0nat
        },
    decreases records.len(),
{
    if records.len() > 0 {
        let front = records.drop_last();
        let n = front.len() as int;
        assert forall|i: int, j: int| 0 <= i < j < front.len() implies (#[trigger] front[i]).tx_hash
            != (#[trigger] front[j]).tx_hash by {
            assert(front[i] == records[i] && front[j] == records[j]);
        }
        lemma_count_of_unique(front, reference);
        if holds(front, reference) {
            let i = choose|i: int|
                0 <= i < front.len() && (#[trigger] front[i]).tx_hash == reference;
        } else if records.last().tx_hash == reference {
            assert(records[n].tx_hash == reference);
        } else {
            if holds(records, reference) {
                let i = choose|i: int|
                    0 <= i < records.len() && (#[trigger] records[i]).tx_hash == reference;
                assert(front[i] == records[i]);
            }
        }
    }
}

/// Handing a payment in keeps the references unique.
pub proof fn lemma_ingest_keeps_references_unique(records: Seq<PaymentView>, payment: PaymentView)
    requires
        unique_references(records),
    ensures
        unique_references(ingested(records, payment)),
{
    if !holds(records, payment.tx_hash) {
        let after = records.push(payment);
        assert forall|i: int, j: int| 0 <= i < j < after.len() implies (#[trigger] after[i]).tx_hash
            != (#[trigger] after[j]).tx_hash by {
            if j < records.len() {
                assert(after[i] == records[i] && after[j] == records[j]);
            } else {
                assert(after[i] == records[i]);
            }
        }
    }
}

/// Idempotence. Handing in the same settlement reference twice leaves
/// exactly one record with that reference, and the second time changes
/// nothing, whatever else the second report says.
pub proof fn lemma_ingest_is_idempotent(
    records: Seq<PaymentView>,
    first: PaymentView,
    second: PaymentView,
)
    requires
        unique_references(records),
        first.tx_hash == second.tx_hash,
    ensures
        ingested(ingested(records, first), second) == ingested(records, first),
        count_reference(ingested(ingested(records, first), second), first.tx_hash) == 1,
{
    let once = ingested(records, first);
    lemma_ingest_keeps_references_unique(records, first);
    if !holds(records, first.tx_hash) {
        assert(once[records.len() as int].tx_hash == first.tx_hash);
    }
    lemma_count_of_unique(once, first.tx_hash);
}

} // verus!
