//! Keysend message extraction.
//!
//! Given the HTLC the classifier selected, this stage decodes the chat
//! message, renders the resolve timestamp, and determines the sender
//! pubkey: the pubkey record's bytes hex-encoded when that record is
//! present, else the last run of exactly 66 lowercase hex characters
//! bounded by whitespace inside the message text, else absent.

use vstd::prelude::*;
use vstd::utf8::{is_leading_byte_width_1, valid_utf8};

use crate::event::{Htlc, MESSAGE_TAG, PUBKEY_TAG};
use crate::hexenc::{hex_bytes, hex_encode_bytes, lemma_hex_bytes_ascii};
use crate::text::{lemma_ascii_valid_utf8, utf8_is_valid};
use crate::timefmt::{
    format_unix_rfc3339, rfc3339_bytes, RFC3339_MAX_TIMESTAMP, RFC3339_MIN_TIMESTAMP,
};

verus! {

/// Whitespace bytes recognized as run boundaries (the ASCII whitespace
/// class: space, tab, line feed, vertical tab, form feed, carriage return).
pub open spec fn is_space_byte(b: u8) -> bool {
    b == 0x20 || b == 0x09 || b == 0x0a || b == 0x0b || b == 0x0c || b == 0x0d
}

/// Bytes of the lowercase hex alphabet.
pub open spec fn is_lower_hex_byte(b: u8) -> bool {
    (0x30 <= b <= 0x39) || (0x61 <= b <= 0x66)
}

/// A candidate sender pubkey starts at index `j` of `s`: 66 lowercase hex
/// bytes preceded by a whitespace byte and followed by a whitespace byte or
/// the end of the text.
pub open spec fn hex_run_at(s: Seq<u8>, j: int) -> bool {
    &&& 1 <= j
    &&& j + 66 <= s.len()
    &&& is_space_byte(s[j - 1])
    &&& (forall|k: int| j <= k < j + 66 ==> is_lower_hex_byte(#[trigger] s[k]))
    &&& (j + 66 == s.len() || is_space_byte(s[j + 66]))
}

/// The text contains at least one candidate run.
pub open spec fn spec_has_hex_run(s: Seq<u8>) -> bool {
    exists|j: int| hex_run_at(s, j)
}

/// Start of the last candidate run in the text.
pub open spec fn spec_last_run_start(s: Seq<u8>) -> int {
    choose|j: int| hex_run_at(s, j) && (forall|k: int| k > j ==> !hex_run_at(s, k))
}

/// The pubkey the text scan recovers: the last candidate run.
pub open spec fn spec_scanned_pubkey(s: Seq<u8>) -> Seq<u8> {
    s.subrange(spec_last_run_start(s), spec_last_run_start(s) + 66)
}

fn is_space_at(s: &Vec<u8>, i: usize) -> (r: bool)
    requires
        i < s@.len(),
    ensures
        r == is_space_byte(s@[i as int]),
{
    let b = s[i];
    b == 0x20 || b == 0x09 || b == 0x0a || b == 0x0b || b == 0x0c || b == 0x0d
}

fn check_hex_run(s: &Vec<u8>, j: usize) -> (r: bool)
    requires
        1 <= j,
        j + 66 <= s@.len(),
    ensures
        r == hex_run_at(s@, j as int),
{
    let n = s.len();
    if !is_space_at(s, j - 1) {
        return false;
    }
    if j + 66 < n && !is_space_at(s, j + 66) {
        return false;
    }
    let mut k: usize = 0;
    while k < 66
        invariant
            1 <= j,
            n == s@.len(),
            j + 66 <= n,
            0 <= k <= 66,
            forall|m: int| j <= m < j + k ==> is_lower_hex_byte(#[trigger] s@[m]),
        decreases 66 - k,
    {
        let b = s[j + k];
        if !((0x30 <= b && b <= 0x39) || (0x61 <= b && b <= 0x66)) {
            return false;
        }
        k = k + 1;
    }
    true
}

/// Scans the message text for the last run of exactly 66 lowercase hex
/// bytes bounded by whitespace; `None` when the text holds no such run.
pub fn find_last_hex_run(s: &Vec<u8>) -> (r: Option<Vec<u8>>)
    ensures
        r is Some <==> spec_has_hex_run(s@),
        r is Some ==> r.unwrap()@ == spec_scanned_pubkey(s@),
        r is Some ==> hex_run_at(s@, spec_last_run_start(s@)),
{
    if s.len() < 67 {
        proof {
            assert(forall|j: int| hex_run_at(s@, j) ==> 1 <= j && j + 66 <= s@.len());
        }
        return None;
    }
    let mut j: usize = s.len() - 66;
    loop
        invariant
            s@.len() >= 67,
            s@.len() <= usize::MAX,
            1 <= j <= s@.len() - 66,
            forall|k: int| k > j ==> !hex_run_at(s@, k),
        decreases j,
    {
        if check_hex_run(s, j) {
            proof {
                lemma_last_run_is(s@, j as int);
            }
            let mut out: Vec<u8> = Vec::new();
            let mut k: usize = 0;
            while k < 66
                invariant
                    s@.len() <= usize::MAX,
                    j + 66 <= s@.len(),
                    0 <= k <= 66,
                    out@ =~= s@.subrange(j as int, j + k),
                decreases 66 - k,
            {
                out.push(s[j + k]);
                k = k + 1;
            }
            proof {
                assert(out@ =~= spec_scanned_pubkey(s@));
            }
            return Some(out);
        }
        if j == 1 {
            proof {
                assert(forall|k: int| hex_run_at(s@, k) ==> k >= 1);
            }
            return None;
        }
        j = j - 1;
    }
}

proof fn lemma_last_run_is(s: Seq<u8>, j: int)
    requires
        hex_run_at(s, j),
        forall|k: int| k > j ==> !hex_run_at(s, k),
    ensures
        spec_has_hex_run(s),
        spec_last_run_start(s) == j,
{
    assert(hex_run_at(s, j) && (forall|k: int| k > j ==> !hex_run_at(s, k)));
    let jc = spec_last_run_start(s);
    assert(hex_run_at(s, jc) && (forall|k: int| k > jc ==> !hex_run_at(s, k)));
    if jc < j {
        assert(!hex_run_at(s, j));
    }
    if jc > j {
        assert(!hex_run_at(s, jc));
    }
}

/// Why extraction dropped an event: the message bytes are not UTF-8, or
/// the resolve timestamp cannot be rendered as RFC3339.
#[derive(PartialEq, Eq, Clone, Copy, Debug)]
pub enum ExtractError {
    Decode,
    Timestamp,
}

/// The decoded content of a keysend HTLC: the message text (well-formed
/// UTF-8 bytes), the sender pubkey as lowercase hex bytes when one was
/// found, and the RFC3339 rendering of the resolve timestamp.
pub struct KeysendPayload {
    pub message: Vec<u8>,
    pub sender_pubkey: Option<Vec<u8>>,
    pub resolved_at: Vec<u8>,
}

/// The sender pubkey extraction recovers from `h`: the hex encoding of the
/// pubkey record when present, else the last whitespace-bounded 66-hex run
/// of the message text, else none.
pub open spec fn spec_sender_pubkey(h: Htlc) -> Option<Seq<u8>> {
    if h.spec_has_tag(PUBKEY_TAG) {
        Some(hex_bytes(h.spec_tag_payload(PUBKEY_TAG)))
    } else if spec_has_hex_run(h.spec_tag_payload(MESSAGE_TAG)) {
        Some(spec_scanned_pubkey(h.spec_tag_payload(MESSAGE_TAG)))
    } else {
        None
    }
}

/// Law: when the HTLC carries a pubkey record, the sender is the hex
/// encoding of that record's bytes — never a value recovered by scanning
/// the message text.
pub proof fn lemma_pubkey_record_wins(h: Htlc)
    requires
        h.spec_has_tag(PUBKEY_TAG),
    ensures
        spec_sender_pubkey(h) == Some(hex_bytes(h.spec_tag_payload(PUBKEY_TAG))),
{
}

proof fn lemma_scanned_pubkey_valid_utf8(s: Seq<u8>)
    requires
        hex_run_at(s, spec_last_run_start(s)),
    ensures
        valid_utf8(spec_scanned_pubkey(s)),
{
    let start = spec_last_run_start(s);
    assert forall|i: int|
        0 <= i < spec_scanned_pubkey(s).len() implies is_leading_byte_width_1(
        #[trigger] spec_scanned_pubkey(s)[i],
    ) by {
        assert(spec_scanned_pubkey(s)[i] == s[start + i]);
        assert(is_lower_hex_byte(s[start + i]));
    }
    lemma_ascii_valid_utf8(spec_scanned_pubkey(s));
}

/// Extraction succeeds exactly when the message bytes are UTF-8 and the
/// resolve timestamp falls in the RFC3339-renderable range.
pub open spec fn spec_extract_ok(h: Htlc) -> bool {
    &&& valid_utf8(h.spec_tag_payload(MESSAGE_TAG))
    &&& RFC3339_MIN_TIMESTAMP <= h.resolve_time <= RFC3339_MAX_TIMESTAMP
}

/// Decodes the keysend content of an HTLC that carries a message record.
///
/// Failures are per event: malformed UTF-8 reports `Decode`, an
/// unrenderable timestamp reports `Timestamp`, and the caller drops the
/// event either way.
pub fn extract_payload(h: &Htlc) -> (r: Result<KeysendPayload, ExtractError>)
    requires
        h.spec_has_tag(MESSAGE_TAG),
    ensures
        r is Ok <==> spec_extract_ok(*h),
        r is Ok ==> r.unwrap().message@ == h.spec_tag_payload(MESSAGE_TAG),
        r is Ok ==> r.unwrap().resolved_at@ == rfc3339_bytes(h.resolve_time as int),
        r is Ok ==> match (r.unwrap().sender_pubkey, spec_sender_pubkey(*h)) {
            (Some(p), Some(q)) => p@ == q,
            (None, None) => true,
            _ => false,
        },
        r is Ok ==> match r.unwrap().sender_pubkey {
            Some(p) => valid_utf8(p@),
            None => true,
        },
        r is Ok ==> valid_utf8(r.unwrap().resolved_at@),
        r is Err ==> (r->Err_0 == ExtractError::Decode <==> !valid_utf8(
            h.spec_tag_payload(MESSAGE_TAG),
        )),
{
    let data = match h.get_record(MESSAGE_TAG) {
        Some(d) => d,
        None => unreached(),
    };
    if !utf8_is_valid(data) {
        return Err(ExtractError::Decode);
    }
    let resolved_at = match format_unix_rfc3339(h.resolve_time) {
        Some(t) => t,
        None => {
            return Err(ExtractError::Timestamp);
        },
    };
    let sender_pubkey = match h.get_record(PUBKEY_TAG) {
        Some(pk) => {
            let enc = hex_encode_bytes(pk);
            proof {
                lemma_hex_bytes_ascii(pk@);
                lemma_ascii_valid_utf8(hex_bytes(pk@));
            }
            Some(enc)
        },
        None => {
            let found = find_last_hex_run(data);
            proof {
                if found is Some {
                    lemma_scanned_pubkey_valid_utf8(data@);
                }
            }
            found
        },
    };
    let mut message: Vec<u8> = Vec::new();
    message.extend_from_slice(data.as_slice());
    proof {
        assert(message@ =~= h.spec_tag_payload(MESSAGE_TAG));
    }
    Ok(KeysendPayload { message, sender_pubkey, resolved_at })
}

} // verus!
