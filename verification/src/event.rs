//! Settlement events and the keysend classifier.
//!
//! A settlement event carries an invoice state and an ordered list of
//! HTLCs; each HTLC carries a mapping from small integer tags to raw byte
//! payloads (keys unique per HTLC) and a resolve timestamp in unix seconds.
//! The classifier keeps settled events and selects the first HTLC whose
//! records contain the chat-message tag.

use vstd::prelude::*;

verus! {

/// Tag of the chat-message payload slot in an HTLC's custom records.
pub const MESSAGE_TAG: u64 = 34349334;

/// Tag of the sender-pubkey payload slot in an HTLC's custom records.
pub const PUBKEY_TAG: u64 = 34349339;

/// Final state of the invoice a settlement event reports on.
#[derive(PartialEq, Eq, Structural, Clone, Copy, Debug)]
pub enum InvoiceState {
    Open,
    Settled,
    Canceled,
    Accepted,
}

/// One conditional payment unit: custom tag-to-bytes records plus the
/// unix-seconds timestamp at which it resolved.
pub struct Htlc {
    pub custom_records: Vec<(u64, Vec<u8>)>,
    pub resolve_time: i64,
}

/// A settlement notification: the invoice state and its HTLCs in source order.
pub struct SettlementEvent {
    pub state: InvoiceState,
    pub htlcs: Vec<Htlc>,
}

impl Htlc {
    /// Tag keys are unique within one HTLC's record mapping.
    pub open spec fn wf(self) -> bool {
        forall|i: int, j: int|
            0 <= i < j < self.custom_records@.len() ==> #[trigger] self.custom_records@[i].0
                != #[trigger] self.custom_records@[j].0
    }

    /// The records hold an entry for `tag`.
    pub open spec fn spec_has_tag(self, tag: u64) -> bool {
        exists|i: int|
            0 <= i < self.custom_records@.len() && (#[trigger] self.custom_records@[i]).0 == tag
    }

    /// Payload bytes of the entry for `tag` (the first such entry; under
    /// `wf` it is the only one).
    pub open spec fn spec_tag_payload(self, tag: u64) -> Seq<u8> {
        self.custom_records@[self.spec_tag_index(tag)].1@
    }

    /// Index of the first entry for `tag`, or the record count if absent.
    pub open spec fn spec_tag_index(self, tag: u64) -> int
        decreases self.custom_records@.len(),
    {
        spec_index_of_tag(self.custom_records@, tag)
    }

    /// Looks a tag up in the record mapping, returning its payload bytes.
    pub fn get_record(&self, tag: u64) -> (r: Option<&Vec<u8>>)
        ensures
            r is Some <==> self.spec_has_tag(tag),
            r is Some ==> r.unwrap()@ == self.spec_tag_payload(tag),
    {
        let n = self.custom_records.len();
        let mut i: usize = 0;
        while i < n
            invariant
                n == self.custom_records@.len(),
                0 <= i <= n,
                forall|k: int| 0 <= k < i ==> (#[trigger] self.custom_records@[k]).0 != tag,
            decreases n - i,
        {
            if self.custom_records[i].0 == tag {
                proof {
                    lemma_index_of_tag_found(self.custom_records@, tag, i as int);
                }
                return Some(&self.custom_records[i].1);
            }
            i = i + 1;
        }
        None
    }
}

/// Under the uniqueness invariant the record a lookup finds is the only
/// record for its tag: first-match and the tag mapping agree.
pub proof fn lemma_wf_tag_record_unique(h: Htlc, tag: u64, i: int)
    requires
        h.wf(),
        0 <= i < h.custom_records@.len(),
        h.custom_records@[i].0 == tag,
    ensures
        h.spec_tag_index(tag) == i,
        h.spec_tag_payload(tag) == h.custom_records@[i].1@,
{
    assert forall|k: int| 0 <= k < i implies (#[trigger] h.custom_records@[k]).0 != tag by {
        assert(h.custom_records@[k].0 != h.custom_records@[i].0);
    }
    lemma_index_of_tag_found(h.custom_records@, tag, i);
}

/// Index of the first pair in `recs` whose key is `tag`, or `recs.len()`
/// when no pair has that key.
pub open spec fn spec_index_of_tag(recs: Seq<(u64, Vec<u8>)>, tag: u64) -> int
    decreases recs.len(),
{
    if recs.len() == 0 {
        0
    } else if recs[0].0 == tag {
        0
    } else {
        1 + spec_index_of_tag(recs.skip(1), tag)
    }
}

proof fn lemma_index_of_tag_found(recs: Seq<(u64, Vec<u8>)>, tag: u64, i: int)
    requires
        0 <= i < recs.len(),
        recs[i].0 == tag,
        forall|k: int| 0 <= k < i ==> (#[trigger] recs[k]).0 != tag,
    ensures
        spec_index_of_tag(recs, tag) == i,
    decreases recs.len(),
{
    if i > 0 {
        lemma_index_of_tag_found(recs.skip(1), tag, i - 1);
    }
}

} // verus!
