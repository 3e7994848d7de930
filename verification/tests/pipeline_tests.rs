//! End-to-end tests of event classification, extraction and formatting.

use nostr_keysend_notifier::event::{Htlc, InvoiceState, SettlementEvent, MESSAGE_TAG, PUBKEY_TAG};
use nostr_keysend_notifier::extract::ExtractError;
use nostr_keysend_notifier::format::format_notification;
use nostr_keysend_notifier::pipeline::{
    pipeline_step, process_event, select_keysend_htlc, EventOutcome, PipelineState, SourceSignal,
};

fn htlc(records: Vec<(u64, Vec<u8>)>, resolve_time: i64) -> Htlc {
    Htlc { custom_records: records, resolve_time }
}

fn settled_event(htlcs: Vec<Htlc>) -> SettlementEvent {
    SettlementEvent { state: InvoiceState::Settled, htlcs }
}

#[test]
fn non_settled_event_yields_nothing() {
    for state in [InvoiceState::Open, InvoiceState::Canceled, InvoiceState::Accepted] {
        let ev = SettlementEvent {
            state,
            htlcs: vec![htlc(vec![(MESSAGE_TAG, b"hello".to_vec())], 1700000000)],
        };
        assert!(matches!(process_event(&ev), EventOutcome::NotKeysend));
        assert!(select_keysend_htlc(&ev).is_none());
    }
}

#[test]
fn settled_without_message_record_yields_nothing() {
    let ev = settled_event(vec![
        htlc(vec![(PUBKEY_TAG, vec![2u8; 33])], 1700000000),
        htlc(vec![(7, b"other".to_vec())], 1700000000),
    ]);
    assert!(matches!(process_event(&ev), EventOutcome::NotKeysend));
}

#[test]
fn first_message_htlc_is_selected() {
    let ev = settled_event(vec![
        htlc(vec![(7, b"noise".to_vec())], 1700000000),
        htlc(vec![(MESSAGE_TAG, b"first".to_vec())], 1700000000),
        htlc(vec![(MESSAGE_TAG, b"second".to_vec())], 1700000000),
    ]);
    assert_eq!(select_keysend_htlc(&ev), Some(1));
    match process_event(&ev) {
        EventOutcome::Notify(p) => assert_eq!(p.message, b"first".to_vec()),
        _ => panic!("expected a payload"),
    }
}

#[test]
fn pubkey_record_beats_text_scan() {
    // The message text itself holds a plausible hex run, but the pubkey
    // record is present, so the sender is that record's bytes hex-encoded.
    let in_text: String = "03".to_string() + &"cd".repeat(32);
    let message = format!("from {} cheers", in_text);
    let record_bytes: Vec<u8> = (0u8..32u8).collect();
    let expected_hex: String =
        record_bytes.iter().map(|b| format!("{:02x}", b)).collect::<Vec<_>>().join("");
    let ev = settled_event(vec![htlc(
        vec![
            (MESSAGE_TAG, message.clone().into_bytes()),
            (PUBKEY_TAG, record_bytes.clone()),
        ],
        1700000000,
    )]);
    match process_event(&ev) {
        EventOutcome::Notify(p) => {
            assert_eq!(p.sender_pubkey, Some(expected_hex.clone().into_bytes()));
            let text = String::from_utf8(format_notification(&p, None)).unwrap();
            assert!(text.contains(&format!(
                "From node [{}](https://amboss.space/node/{})",
                expected_hex, expected_hex
            )));
            assert!(!text.contains(&format!("node/{}", in_text)));
        }
        _ => panic!("expected a payload"),
    }
}

#[test]
fn text_scan_selects_hex_run() {
    let run: String = "02aa".to_string() + &"0".repeat(60) + "bb";
    assert_eq!(run.len(), 66);
    let message = format!("gm from {}", run);
    let ev = settled_event(vec![htlc(vec![(MESSAGE_TAG, message.into_bytes())], 1700000000)]);
    match process_event(&ev) {
        EventOutcome::Notify(p) => assert_eq!(p.sender_pubkey, Some(run.into_bytes())),
        _ => panic!("expected a payload"),
    }
}

#[test]
fn text_scan_takes_last_run() {
    let first: String = "02".to_string() + &"11".repeat(32);
    let second: String = "03".to_string() + &"22".repeat(32);
    let message = format!("{} then {} bye", first, second);
    let ev = settled_event(vec![htlc(vec![(MESSAGE_TAG, message.into_bytes())], 1700000000)]);
    match process_event(&ev) {
        EventOutcome::Notify(p) => assert_eq!(p.sender_pubkey, Some(second.into_bytes())),
        _ => panic!("expected a payload"),
    }
}

#[test]
fn text_scan_needs_whitespace_before_run() {
    // At the very start of the text there is no bounding whitespace.
    let run: String = "02".to_string() + &"ab".repeat(32);
    let ev = settled_event(vec![htlc(vec![(MESSAGE_TAG, run.into_bytes())], 1700000000)]);
    match process_event(&ev) {
        EventOutcome::Notify(p) => assert_eq!(p.sender_pubkey, None),
        _ => panic!("expected a payload"),
    }
}

#[test]
fn text_scan_rejects_longer_run() {
    // 68 hex characters in a row are not a 66-character run.
    let run: String = "02".to_string() + &"ab".repeat(33);
    let message = format!("gm {}", run);
    let ev = settled_event(vec![htlc(vec![(MESSAGE_TAG, message.into_bytes())], 1700000000)]);
    match process_event(&ev) {
        EventOutcome::Notify(p) => assert_eq!(p.sender_pubkey, None),
        _ => panic!("expected a payload"),
    }
}

#[test]
fn end_to_end_exact_text() {
    let ev = settled_event(vec![htlc(vec![(MESSAGE_TAG, b"test".to_vec())], 1700000000)]);
    match process_event(&ev) {
        EventOutcome::Notify(p) => {
            assert_eq!(p.resolved_at, b"2023-11-14T22:13:20Z".to_vec());
            assert_eq!(p.sender_pubkey, None);
            let out = format_notification(&p, None);
            assert_eq!(
                String::from_utf8(out).unwrap(),
                "Keysend message received!\n\nAt 2023-11-14T22:13:20Z:\n\n**test**"
            );
        }
        _ => panic!("expected a payload"),
    }
}

#[test]
fn epoch_timestamp_formats_exactly() {
    let ev = settled_event(vec![htlc(vec![(MESSAGE_TAG, b"x".to_vec())], 0)]);
    match process_event(&ev) {
        EventOutcome::Notify(p) => assert_eq!(p.resolved_at, b"1970-01-01T00:00:00Z".to_vec()),
        _ => panic!("expected a payload"),
    }
}

#[test]
fn hex_encoding_is_lowercase_two_digits() {
    let ev = settled_event(vec![htlc(
        vec![(MESSAGE_TAG, b"hi".to_vec()), (PUBKEY_TAG, vec![0x00, 0xff, 0x10])],
        1700000000,
    )]);
    match process_event(&ev) {
        EventOutcome::Notify(p) => assert_eq!(p.sender_pubkey, Some(b"00ff10".to_vec())),
        _ => panic!("expected a payload"),
    }
}

#[test]
fn malformed_utf8_is_a_decode_error() {
    let ev = settled_event(vec![htlc(vec![(MESSAGE_TAG, vec![0xff, 0xfe, 0x01])], 1700000000)]);
    match process_event(&ev) {
        EventOutcome::Undecodable(e) => assert_eq!(e, ExtractError::Decode),
        _ => panic!("expected a decode failure"),
    }
}

#[test]
fn multibyte_utf8_message_is_kept_verbatim() {
    let message = "héllo ∞".as_bytes().to_vec();
    let ev = settled_event(vec![htlc(vec![(MESSAGE_TAG, message.clone())], 1700000000)]);
    match process_event(&ev) {
        EventOutcome::Notify(p) => {
            assert_eq!(p.message, message);
            let text = String::from_utf8(format_notification(&p, None)).unwrap();
            assert!(text.contains("**héllo ∞**"));
        }
        _ => panic!("expected a payload"),
    }
}

#[test]
fn out_of_range_timestamp_is_a_timestamp_error() {
    for t in [253402300800i64, -62167219201i64, i64::MAX, i64::MIN] {
        let ev = settled_event(vec![htlc(vec![(MESSAGE_TAG, b"x".to_vec())], t)]);
        match process_event(&ev) {
            EventOutcome::Undecodable(e) => assert_eq!(e, ExtractError::Timestamp),
            _ => panic!("expected a timestamp failure"),
        }
    }
}

#[test]
fn boundary_timestamps_format() {
    let ev = settled_event(vec![htlc(vec![(MESSAGE_TAG, b"x".to_vec())], 253402300799)]);
    match process_event(&ev) {
        EventOutcome::Notify(p) => assert_eq!(p.resolved_at, b"9999-12-31T23:59:59Z".to_vec()),
        _ => panic!("expected a payload"),
    }
    let ev = settled_event(vec![htlc(vec![(MESSAGE_TAG, b"x".to_vec())], -62167219200)]);
    match process_event(&ev) {
        EventOutcome::Notify(p) => assert_eq!(p.resolved_at, b"0000-01-01T00:00:00Z".to_vec()),
        _ => panic!("expected a payload"),
    }
}

#[test]
fn failed_alias_lookup_shows_raw_pubkey() {
    let pk: String = "02".to_string() + &"ab".repeat(32);
    let message = format!("gm {}", pk);
    let ev = settled_event(vec![htlc(vec![(MESSAGE_TAG, message.into_bytes())], 1700000000)]);
    match process_event(&ev) {
        EventOutcome::Notify(p) => {
            let out = String::from_utf8(format_notification(&p, None)).unwrap();
            assert!(out.ends_with(&format!(
                "From node [{}](https://amboss.space/node/{})",
                pk, pk
            )));
        }
        _ => panic!("expected a payload"),
    }
}

#[test]
fn resolved_alias_is_shown_as_name() {
    let pk: String = "02".to_string() + &"ab".repeat(32);
    let message = format!("gm {}", pk);
    let ev = settled_event(vec![htlc(vec![(MESSAGE_TAG, message.into_bytes())], 1700000000)]);
    match process_event(&ev) {
        EventOutcome::Notify(p) => {
            let alias = b"carol".to_vec();
            let out = String::from_utf8(format_notification(&p, Some(&alias))).unwrap();
            assert!(out.ends_with(&format!(
                "From node [carol](https://amboss.space/node/{})",
                pk
            )));
        }
        _ => panic!("expected a payload"),
    }
}

#[test]
fn pipeline_lifecycle_transitions() {
    let s = PipelineState::Subscribing;
    let s = pipeline_step(s, SourceSignal::EventArrived);
    assert_eq!(s, PipelineState::Processing);
    let s = pipeline_step(s, SourceSignal::EventArrived);
    assert_eq!(s, PipelineState::Processing);
    let s = pipeline_step(s, SourceSignal::StreamEnded);
    assert_eq!(s, PipelineState::Terminated);
    for sig in [SourceSignal::EventArrived, SourceSignal::StreamEnded, SourceSignal::StreamFailed] {
        assert_eq!(pipeline_step(PipelineState::Terminated, sig), PipelineState::Terminated);
    }
    assert_eq!(
        pipeline_step(PipelineState::Subscribing, SourceSignal::StreamFailed),
        PipelineState::Terminated
    );
}
