use simplicityhl::dynlib::Error;
use simplicityhl::host::{
    cmr_from_status, disabled_from_status, encode_replay, ensure_external_backend_initialized, jet_from_parse_status,
    last_error_store, parse_milliweight, probe_failure_message, probe_report, probe_step, read_shim, web_only_reason, EncodeReplayError, ProbeAction, ProbeFailure,
    ProbeObservation, ProbeStep, ShimRead, PROBE_COST, READ_SHIM_INITIAL_CAP,
};
use simplicityhl::jet::{bool, unit, SourceJetClassification, TargetJetClassification};
use simplicityhl::plugin::{self, ExternalJet, HappyJet, JetParseError};
use simplicityhl::wire::serialize_source_jet_classification;

#[test]
fn last_error_set_and_clear() {
    let mut store = last_error_store();
    assert_eq!(store.message(), "");
    store.set_last_error("boom".to_string());
    assert_eq!(store.message(), "boom");
    store.clear_last_error();
    assert_eq!(store.message(), "");
}

#[test]
fn backend_already_initialized_counts_as_ready() {
    assert_eq!(ensure_external_backend_initialized(Ok(())), Ok(()));
    assert_eq!(
        ensure_external_backend_initialized(Err(
            "Failed to set external jet lib, it may have already been initialized".to_string()
        )),
        Ok(())
    );
    assert_eq!(
        ensure_external_backend_initialized(Err("external jet ABI version mismatch".to_string())),
        Err("external jet ABI version mismatch".to_string())
    );
    assert_eq!(
        ensure_external_backend_initialized(Err("already been initialise".to_string())),
        Err("already been initialise".to_string())
    );
}

#[test]
fn read_shim_takes_value_that_fits() {
    let mut buf = vec![0u8; READ_SHIM_INITIAL_CAP];
    let status = plugin::write_out(b"Either<bool, ()>", &mut buf);
    assert_eq!(read_shim(status, buf, None), ShimRead::Bytes(b"Either<bool, ()>".to_vec()));
}

#[test]
fn read_shim_asks_again_for_long_values() {
    let value = vec![b'x'; 300];
    let mut first = vec![0u8; READ_SHIM_INITIAL_CAP];
    let status = plugin::write_out(&value, &mut first);
    assert_eq!(read_shim(status, first, None), ShimRead::Retry(300));
    let mut second = vec![0u8; 300];
    let again = plugin::write_out(&value, &mut second);
    assert_eq!(read_shim(again, second, Some(300)), ShimRead::Bytes(value));
}

#[test]
fn read_shim_refuses_failures_and_changed_lengths() {
    assert_eq!(read_shim(-1, vec![0u8; 4], None), ShimRead::Failed);
    assert_eq!(read_shim(-1, vec![0u8; 4], Some(4)), ShimRead::Failed);
    assert_eq!(read_shim(3, vec![0u8; 4], Some(4)), ShimRead::Failed);
    assert_eq!(read_shim(0, vec![0u8; 4], None), ShimRead::Bytes(vec![]));
}

#[test]
fn read_shim_carries_a_classification() {
    let bytes = serialize_source_jet_classification(&SourceJetClassification::Custom(vec![bool(), unit()]));
    let mut buf = vec![0u8; READ_SHIM_INITIAL_CAP];
    let status = plugin::write_out(&bytes, &mut buf);
    assert_eq!(read_shim(status, buf, None), ShimRead::Bytes(bytes));
}

#[test]
fn encode_replay_plans_bytes_then_rest() {
    assert_eq!(encode_replay(1, &[0x00; 64]), Ok((vec![(0, 1)], 1)));
    assert_eq!(encode_replay(12, &[0xab, 0xcd, 0xef]), Ok((vec![(0xab, 8), (0xc, 4)], 12)));
    assert_eq!(encode_replay(16, &[0x12, 0x34]), Ok((vec![(0x12, 8), (0x34, 8)], 16)));
    assert_eq!(encode_replay(0, &[]), Ok((vec![], 0)));
}

#[test]
fn encode_replay_errors() {
    assert_eq!(encode_replay(-3, &[0; 64]), Err(EncodeReplayError::Failed));
    assert_eq!(encode_replay(9, &[0xff]), Err(EncodeReplayError::ExceedsBuffer));
    assert_eq!(encode_replay(513, &[0; 64]), Err(EncodeReplayError::ExceedsBuffer));
}

#[test]
fn cmr_needs_exactly_32_bytes() {
    let bytes = HappyJet::Verify.cmr_bytes();
    assert_eq!(cmr_from_status(32, bytes), Some(bytes));
    assert_eq!(cmr_from_status(31, bytes), None);
    assert_eq!(cmr_from_status(-1, bytes), None);
}

#[test]
fn milliweight_parses_like_u32() {
    assert_eq!(parse_milliweight("44"), Some(44));
    assert_eq!(parse_milliweight("+44"), Some(44));
    assert_eq!(parse_milliweight("0044"), Some(44));
    assert_eq!(parse_milliweight("4294967295"), Some(u32::MAX));
    assert_eq!(parse_milliweight("4294967296"), None);
    assert_eq!(parse_milliweight(""), None);
    assert_eq!(parse_milliweight("+"), None);
    assert_eq!(parse_milliweight("-1"), None);
    assert_eq!(parse_milliweight("4 4"), None);
    for s in ["7", "+0", "123456", "99999999999"] {
        assert_eq!(parse_milliweight(s), s.parse::<u32>().ok());
    }
}

#[test]
fn parse_and_disabled_statuses() {
    assert_eq!(jet_from_parse_status(0, 7, "x"), Ok(ExternalJet::new(7)));
    assert_eq!(jet_from_parse_status(1, 7, "x"), Err(JetParseError::InvalidJetName("x".to_string())));
    assert!(!disabled_from_status(0));
    assert!(disabled_from_status(1));
    assert!(disabled_from_status(-5));
}

#[test]
fn probe_accepts_the_example_library() {
    let jet = HappyJet::Verify;
    let observations = vec![
        ProbeObservation::Backend(Ok(())),
        ProbeObservation::ParseKnown(plugin::parse("verify").is_ok()),
        ProbeObservation::ParseUnknown(plugin::parse("no_such_jet").is_ok()),
        ProbeObservation::Cmr(jet.cmr_bytes()),
        ProbeObservation::SourceTy(jet.source_ty_name().as_bytes().to_vec()),
        ProbeObservation::TargetTy(jet.target_ty_name().as_bytes().to_vec()),
        ProbeObservation::CostMatches(jet.cost_milliweight() == PROBE_COST),
        ProbeObservation::Display(jet.display().into_bytes()),
        ProbeObservation::SourceClassification(jet.source_jet_classification()),
        ProbeObservation::TargetClassification(jet.target_jet_classification()),
        ProbeObservation::Disabled(jet.is_disabled()),
        ProbeObservation::Encoded(1, vec![0]),
    ];
    let steps = [
        ProbeStep::ParseKnown,
        ProbeStep::ParseUnknown,
        ProbeStep::Cmr,
        ProbeStep::SourceTy,
        ProbeStep::TargetTy,
        ProbeStep::Cost,
        ProbeStep::Display,
        ProbeStep::SourceClassification,
        ProbeStep::TargetClassification,
        ProbeStep::Disabled,
        ProbeStep::Encode,
    ];
    for (obs, next) in observations.iter().zip(steps.iter()) {
        assert_eq!(probe_step(obs), ProbeAction::Next(*next));
    }
    let last = probe_step(&observations[11]);
    assert_eq!(last, ProbeAction::Succeed);
    assert_eq!(last.code(), Some(0));
}

#[test]
fn probe_failure_codes() {
    let cases = vec![
        (ProbeObservation::Backend(Err("no".to_string())), 1, ProbeFailure::BackendInit),
        (ProbeObservation::ParseKnown(false), 1, ProbeFailure::ParseKnown),
        (ProbeObservation::ParseUnknown(true), 2, ProbeFailure::ParseUnknown),
        (ProbeObservation::Cmr([0; 32]), 3, ProbeFailure::Cmr),
        (ProbeObservation::SourceTy(b"1".to_vec()), 4, ProbeFailure::SourceTy),
        (ProbeObservation::TargetTy(b"2".to_vec()), 5, ProbeFailure::TargetTy),
        (ProbeObservation::CostMatches(false), 6, ProbeFailure::Cost),
        (ProbeObservation::Display(b"verify ".to_vec()), 7, ProbeFailure::Display),
        (ProbeObservation::SourceClassification(SourceJetClassification::Unary), 8, ProbeFailure::SourceClassification),
        (
            ProbeObservation::SourceClassification(SourceJetClassification::Custom(vec![bool(), bool()])),
            8,
            ProbeFailure::SourceClassification,
        ),
        (
            ProbeObservation::SourceClassification(SourceJetClassification::Custom(vec![unit()])),
            8,
            ProbeFailure::SourceClassification,
        ),
        (ProbeObservation::TargetClassification(TargetJetClassification::Custom(unit())), 9, ProbeFailure::TargetClassification),
        (ProbeObservation::Disabled(true), 10, ProbeFailure::Disabled),
        (ProbeObservation::EncodeFailed, 11, ProbeFailure::EncodeFailed),
        (ProbeObservation::FlushFailed, 11, ProbeFailure::FlushFailed),
        (ProbeObservation::Encoded(2, vec![0]), 12, ProbeFailure::EncodeMismatch),
        (ProbeObservation::Encoded(1, vec![0x80]), 12, ProbeFailure::EncodeMismatch),
    ];
    for (obs, code, why) in cases {
        let action = probe_step(&obs);
        assert_eq!(action, ProbeAction::Fail(code, why));
        assert_eq!(action.code(), Some(code));
    }
    assert_eq!(ProbeAction::Next(ProbeStep::Cmr).code(), None);
}

#[test]
fn dynlib_error_keeps_its_message() {
    let e = Error::new("symbol not found".to_string());
    assert_eq!(e.message(), "symbol not found");
}

#[test]
fn replay_puts_out_packed_bits() {
    let buf = [0b1011_0010u8, 0b0110_1101, 0b1110_0000];
    for n_bits in 0..=24 {
        let (writes, n) = encode_replay(n_bits, &buf).expect("fits the buffer");
        assert_eq!(n, n_bits as usize);
        let mut bits = Vec::new();
        for (value, width) in writes {
            for j in 0..width {
                bits.push(value & (1 << (width - j - 1)) != 0);
            }
        }
        let packed: Vec<bool> = (0..n).map(|i| buf[i / 8] & (1 << (7 - i % 8)) != 0).collect();
        assert_eq!(bits, packed);
    }
}

#[test]
fn probe_failure_messages_carry_their_detail() {
    assert_eq!(
        probe_failure_message(ProbeFailure::BackendInit, "boom"),
        "failed to initialize external jet backend: boom"
    );
    assert_eq!(probe_failure_message(ProbeFailure::Cmr, "ignored"), "cmr mismatch across module boundary");
    assert_eq!(probe_failure_message(ProbeFailure::Display, "\"nope\""), "display mismatch: got \"nope\"");
    assert_eq!(
        probe_failure_message(ProbeFailure::EncodeMismatch, "2 bits, bytes [1]"),
        "encode mismatch: 2 bits, bytes [1]"
    );
    assert_eq!(probe_failure_message(ProbeFailure::Disabled, ""), "is_disabled should be false");
}

#[test]
fn probe_report_ends_with_code_and_message() {
    assert_eq!(probe_report(ProbeAction::Next(ProbeStep::Cmr), "x"), None);
    assert_eq!(probe_report(ProbeAction::Succeed, "x"), Some((0, String::new())));
    assert_eq!(
        probe_report(ProbeAction::Fail(2, ProbeFailure::ParseUnknown), ""),
        Some((2, "parse_jet(\"no_such_jet\") unexpectedly returned Some".to_string()))
    );
}

#[test]
fn probe_off_the_web_fails_to_initialize_the_backend() {
    let reason = web_only_reason();
    assert_eq!(reason, "compiler-wasm backend initialization is only supported on wasm32");
    let action = probe_step(&ProbeObservation::Backend(Err(reason.clone())));
    assert_eq!(
        probe_report(action, &reason),
        Some((
            1,
            "failed to initialize external jet backend: compiler-wasm backend initialization is only supported on wasm32"
                .to_string()
        ))
    );
}
