//! Per-event pipeline decisions and the pipeline state machine.
//!
//! The classifier keeps settled events and selects the first HTLC (in
//! source order) whose records hold the chat-message tag; everything else
//! is dropped. A kept HTLC goes through extraction; an extraction failure
//! drops that event and nothing else. The surrounding process drives the
//! event loop and the state machine: consuming the settlement stream,
//! resolving the alias, dispatching the outbound text.

use vstd::prelude::*;

use crate::event::{Htlc, InvoiceState, SettlementEvent, MESSAGE_TAG};
use crate::extract::{extract_payload, spec_extract_ok, ExtractError, KeysendPayload};

verus! {

/// Index of the first HTLC holding a chat-message record, or the HTLC
/// count when none does.
pub open spec fn spec_first_message_index(hs: Seq<Htlc>) -> int
    decreases hs.len(),
{
    if hs.len() == 0 {
        0
    } else if hs[0].spec_has_tag(MESSAGE_TAG) {
        0
    } else {
        1 + spec_first_message_index(hs.skip(1))
    }
}

/// Some HTLC of the event holds a chat-message record.
pub open spec fn spec_has_message_htlc(ev: SettlementEvent) -> bool {
    exists|i: int| 0 <= i < ev.htlcs@.len() && (#[trigger] ev.htlcs@[i]).spec_has_tag(MESSAGE_TAG)
}

/// The classifier keeps the event: it settled and carries a keysend chat
/// message.
pub open spec fn spec_classified(ev: SettlementEvent) -> bool {
    ev.state is Settled && spec_has_message_htlc(ev)
}

/// The HTLC the classifier selects from a kept event.
pub open spec fn spec_selected_htlc(ev: SettlementEvent) -> Htlc {
    ev.htlcs@[spec_first_message_index(ev.htlcs@)]
}

/// The event yields an outbound notification: it is kept by the
/// classifier and its selected HTLC extracts cleanly.
pub open spec fn spec_produces_payload(ev: SettlementEvent) -> bool {
    spec_classified(ev) && spec_extract_ok(spec_selected_htlc(ev))
}

proof fn lemma_first_message_index_found(hs: Seq<Htlc>, i: int)
    requires
        0 <= i < hs.len(),
        hs[i].spec_has_tag(MESSAGE_TAG),
        forall|k: int| 0 <= k < i ==> !(#[trigger] hs[k]).spec_has_tag(MESSAGE_TAG),
    ensures
        spec_first_message_index(hs) == i,
    decreases hs.len(),
{
    if i > 0 {
        lemma_first_message_index_found(hs.skip(1), i - 1);
    }
}

/// Selects the first HTLC with a chat-message record from a settled
/// event; `None` drops the event (not settled, or no such HTLC).
pub fn select_keysend_htlc(ev: &SettlementEvent) -> (r: Option<usize>)
    ensures
        r is Some <==> spec_classified(*ev),
        r is Some ==> r.unwrap() == spec_first_message_index(ev.htlcs@),
        r is Some ==> r.unwrap() < ev.htlcs@.len() && ev.htlcs@[r.unwrap() as int].spec_has_tag(
            MESSAGE_TAG,
        ),
{
    if ev.state != InvoiceState::Settled {
        return None;
    }
    let n = ev.htlcs.len();
    let mut i: usize = 0;
    while i < n
        invariant
            ev.state is Settled,
            n == ev.htlcs@.len(),
            0 <= i <= n,
            forall|k: int| 0 <= k < i ==> !(#[trigger] ev.htlcs@[k]).spec_has_tag(MESSAGE_TAG),
        decreases n - i,
    {
        if ev.htlcs[i].get_record(MESSAGE_TAG).is_some() {
            proof {
                lemma_first_message_index_found(ev.htlcs@, i as int);
                assert(spec_has_message_htlc(*ev));
            }
            return Some(i);
        }
        i = i + 1;
    }
    None
}

/// What one settlement event came to.
pub enum EventOutcome {
    /// Dropped by the classifier: not settled, or no chat-message record.
    NotKeysend,
    /// Kept by the classifier but dropped by extraction.
    Undecodable(ExtractError),
    /// The payload to resolve, format and dispatch.
    Notify(KeysendPayload),
}

/// Classifies one settlement event and extracts its keysend payload.
///
/// Exactly the events that settled with a decodable chat-message HTLC
/// yield `Notify`; each failure names its stage, and the caller drops the
/// event and continues with the next one.
pub fn process_event(ev: &SettlementEvent) -> (r: EventOutcome)
    ensures
        r is Notify <==> spec_produces_payload(*ev),
        r is NotKeysend <==> !spec_classified(*ev),
        r matches EventOutcome::Notify(p) ==> {
            &&& p.message@ == spec_selected_htlc(*ev).spec_tag_payload(MESSAGE_TAG)
            &&& p.resolved_at@ == crate::timefmt::rfc3339_bytes(
                spec_selected_htlc(*ev).resolve_time as int,
            )
            &&& match (p.sender_pubkey, crate::extract::spec_sender_pubkey(spec_selected_htlc(*ev))) {
                (Some(a), Some(b)) => a@ == b && vstd::utf8::valid_utf8(a@),
                (None, None) => true,
                _ => false,
            }
            &&& vstd::utf8::valid_utf8(p.message@)
            &&& vstd::utf8::valid_utf8(p.resolved_at@)
        },
        r matches EventOutcome::Undecodable(e) ==> {
            &&& spec_classified(*ev)
            &&& !spec_extract_ok(spec_selected_htlc(*ev))
            &&& (e == ExtractError::Decode <==> !vstd::utf8::valid_utf8(
                spec_selected_htlc(*ev).spec_tag_payload(MESSAGE_TAG),
            ))
        },
{
    let i = match select_keysend_htlc(ev) {
        Some(i) => i,
        None => {
            return EventOutcome::NotKeysend;
        },
    };
    match extract_payload(&ev.htlcs[i]) {
        Ok(p) => EventOutcome::Notify(p),
        Err(e) => EventOutcome::Undecodable(e),
    }
}

/// Law: an event whose state is anything but settled yields no outbound
/// message.
pub proof fn lemma_unsettled_yields_nothing(ev: SettlementEvent)
    requires
        !(ev.state is Settled),
    ensures
        !spec_produces_payload(ev),
{
}

/// Law: a settled event none of whose HTLCs holds a chat-message record
/// yields no outbound message.
pub proof fn lemma_no_message_record_yields_nothing(ev: SettlementEvent)
    requires
        forall|i: int| 0 <= i < ev.htlcs@.len() ==> !(#[trigger] ev.htlcs@[i]).spec_has_tag(
            MESSAGE_TAG,
        ),
    ensures
        !spec_produces_payload(ev),
{
}

/// Lifecycle of the long-running pipeline.
#[derive(PartialEq, Eq, Structural, Clone, Copy, Debug)]
pub enum PipelineState {
    /// Subscribed, no event seen yet.
    Subscribing,
    /// At least one event has flowed through the stages.
    Processing,
    /// The settlement stream ended or failed; terminal.
    Terminated,
}

/// What the settlement-event source reports to the pipeline.
#[derive(PartialEq, Eq, Structural, Clone, Copy, Debug)]
pub enum SourceSignal {
    /// The next settlement event arrived.
    EventArrived,
    /// The stream ended.
    StreamEnded,
    /// The stream transport failed.
    StreamFailed,
}

/// The pipeline's next state: an arriving event starts or continues
/// processing; stream end or failure is fatal and terminal.
pub open spec fn spec_pipeline_step(s: PipelineState, sig: SourceSignal) -> PipelineState {
    match sig {
        SourceSignal::EventArrived => match s {
            PipelineState::Terminated => PipelineState::Terminated,
            _ => PipelineState::Processing,
        },
        _ => PipelineState::Terminated,
    }
}

/// Advances the pipeline lifecycle on one source signal.
pub fn pipeline_step(s: PipelineState, sig: SourceSignal) -> (t: PipelineState)
    ensures
        t == spec_pipeline_step(s, sig),
{
    match sig {
        SourceSignal::EventArrived => match s {
            PipelineState::Terminated => PipelineState::Terminated,
            _ => PipelineState::Processing,
        },
        _ => PipelineState::Terminated,
    }
}

/// Law: termination is terminal — no signal leaves the terminated state.
pub proof fn lemma_terminated_is_terminal(sig: SourceSignal)
    ensures
        spec_pipeline_step(PipelineState::Terminated, sig) == PipelineState::Terminated,
{
}

} // verus!
