//! Notification formatting.
//!
//! Builds the outbound text for one keysend payload. The message text is
//! inserted verbatim (markdown-significant characters are deliberately not
//! escaped). When a sender pubkey was recovered, an attribution line is
//! appended whose display name is the resolved alias, or the raw pubkey
//! hex when the alias lookup failed — the fallback lives here, not in the
//! resolver.

use vstd::prelude::*;
use vstd::string::StrSliceExecFns;
use vstd::string::StringSliceAdditionalSpecFns;
use vstd::utf8::{encode_utf8_valid_utf8, valid_utf8, valid_utf8_concat};

use crate::extract::KeysendPayload;

verus! {

/// The notification body common to every outbound message: greeting,
/// resolve time, and the message text in bold markers.
pub open spec fn spec_base_text(msg: Seq<u8>, at: Seq<u8>) -> Seq<u8> {
    "Keysend message received!\n\nAt ".spec_bytes() + at + ":\n\n**".spec_bytes() + msg
        + "**".spec_bytes()
}

/// The attribution line: a markdown link whose text is the display name
/// and whose target names the sender pubkey.
pub open spec fn spec_attribution(name: Seq<u8>, pk: Seq<u8>) -> Seq<u8> {
    "\n\nFrom node [".spec_bytes() + name + "](https://amboss.space/node/".spec_bytes() + pk
        + ")".spec_bytes()
}

/// The full outbound text for a payload and the alias-lookup outcome:
/// the base body, plus — when a sender pubkey is present — the
/// attribution line showing the alias, or the raw pubkey hex when the
/// lookup failed.
pub open spec fn spec_notification(p: KeysendPayload, alias: Option<Seq<u8>>) -> Seq<u8> {
    match p.sender_pubkey {
        None => spec_base_text(p.message@, p.resolved_at@),
        Some(pk) => {
            let name = match alias {
                Some(a) => a,
                None => pk@,
            };
            spec_base_text(p.message@, p.resolved_at@) + spec_attribution(name, pk@)
        },
    }
}

/// View of an optional borrowed byte string.
pub open spec fn opt_bytes(o: Option<&Vec<u8>>) -> Option<Seq<u8>> {
    match o {
        Some(v) => Some(v@),
        None => None,
    }
}

/// Appends `piece` to `out`.
pub fn append_bytes(out: &mut Vec<u8>, piece: &Vec<u8>)
    ensures
        final(out)@ == old(out)@ + piece@,
{
    let n = piece.len();
    let mut i: usize = 0;
    while i < n
        invariant
            n == piece@.len(),
            0 <= i <= n,
            out@ =~= old(out)@ + piece@.subrange(0, i as int),
        decreases n - i,
    {
        out.push(piece[i]);
        i = i + 1;
    }
    proof {
        assert(piece@.subrange(0, n as int) =~= piece@);
        assert(out@ =~= old(out)@ + piece@);
    }
}

/// Formats the outbound notification for one payload.
///
/// `alias` is the alias-directory outcome for the payload's sender
/// pubkey: the alias text on success, `None` when the lookup failed or no
/// pubkey was recovered. When every inserted part is well-formed UTF-8,
/// so is the whole.
pub fn format_notification(p: &KeysendPayload, alias: Option<&Vec<u8>>) -> (out: Vec<u8>)
    ensures
        out@ == spec_notification(*p, opt_bytes(alias)),
        (valid_utf8(p.message@) && valid_utf8(p.resolved_at@) && (match p.sender_pubkey {
            Some(pk) => valid_utf8(pk@),
            None => true,
        }) && (match alias {
            Some(a) => valid_utf8(a@),
            None => true,
        })) ==> valid_utf8(out@),
{
    let mut out = "Keysend message received!\n\nAt ".as_bytes_vec();
    append_bytes(&mut out, &p.resolved_at);
    let mid = ":\n\n**".as_bytes_vec();
    append_bytes(&mut out, &mid);
    append_bytes(&mut out, &p.message);
    let bold = "**".as_bytes_vec();
    append_bytes(&mut out, &bold);
    if let Some(pk) = &p.sender_pubkey {
        let from = "\n\nFrom node [".as_bytes_vec();
        append_bytes(&mut out, &from);
        match alias {
            Some(a) => append_bytes(&mut out, a),
            None => append_bytes(&mut out, pk),
        }
        let link = "](https://amboss.space/node/".as_bytes_vec();
        append_bytes(&mut out, &link);
        append_bytes(&mut out, pk);
        let close = ")".as_bytes_vec();
        append_bytes(&mut out, &close);
    }
    proof {
        assert(out@ =~= spec_notification(*p, opt_bytes(alias)));
        broadcast use encode_utf8_valid_utf8;

        if valid_utf8(p.message@) && valid_utf8(p.resolved_at@) && (match &p.sender_pubkey {
            Some(pk) => valid_utf8(pk@),
            None => true,
        }) && (match alias {
            Some(a) => valid_utf8(a@),
            None => true,
        }) {
            let l1 = "Keysend message received!\n\nAt ".spec_bytes();
            let l2 = ":\n\n**".spec_bytes();
            let l3 = "**".spec_bytes();
            valid_utf8_concat(l1, p.resolved_at@);
            valid_utf8_concat(l1 + p.resolved_at@, l2);
            valid_utf8_concat(l1 + p.resolved_at@ + l2, p.message@);
            valid_utf8_concat(l1 + p.resolved_at@ + l2 + p.message@, l3);
            let base = spec_base_text(p.message@, p.resolved_at@);
            if let Some(pk) = &p.sender_pubkey {
                let name = match opt_bytes(alias) {
                    Some(a) => a,
                    None => pk@,
                };
                let l4 = "\n\nFrom node [".spec_bytes();
                let l5 = "](https://amboss.space/node/".spec_bytes();
                let l6 = ")".spec_bytes();
                valid_utf8_concat(base, l4);
                valid_utf8_concat(base + l4, name);
                valid_utf8_concat(base + l4 + name, l5);
                valid_utf8_concat(base + l4 + name + l5, pk@);
                valid_utf8_concat(base + l4 + name + l5 + pk@, l6);
                assert(base + spec_attribution(name, pk@) =~= base + l4 + name + l5 + pk@ + l6);
            }
        }
    }
    out
}

/// Law: when the alias lookup for a recovered sender pubkey fails, the
/// attribution line shows the raw pubkey hex as the display name, and the
/// event is still formatted — a failed lookup never loses the message.
pub proof fn lemma_failed_lookup_shows_raw_pubkey(p: KeysendPayload, pk: Vec<u8>)
    requires
        p.sender_pubkey == Some(pk),
    ensures
        spec_notification(p, None) == spec_base_text(p.message@, p.resolved_at@)
            + spec_attribution(pk@, pk@),
{
}

} // verus!
