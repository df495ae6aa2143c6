use evscript::events::{build_synthetic, tag_events, InputEvent, OutputRecord, RawEvent, SyntheticEvent};

#[test]
fn tagging_preserves_order_and_tags_index() {
    let raw = vec![
        RawEvent { kind: 1, code: 30, value: 1 },
        RawEvent { kind: 1, code: 30, value: 0 },
        RawEvent { kind: 0, code: 0, value: 0 },
    ];
    let batch = tag_events(&raw, 2);
    assert_eq!(batch.len(), 3);
    assert_eq!(batch[0], InputEvent { kind: 1, code: 30, value: 1, device_idx: 2 });
    assert_eq!(batch[1], InputEvent { kind: 1, code: 30, value: 0, device_idx: 2 });
    assert_eq!(batch[2], InputEvent { kind: 0, code: 0, value: 0, device_idx: 2 });
}

#[test]
fn tagging_widens_negative_values_as_the_kernel_record_does() {
    let raw = vec![RawEvent { kind: 2, code: 0, value: -1 }];
    let batch = tag_events(&raw, 0);
    assert_eq!(batch[0].value, u32::MAX);
    assert_eq!(batch[0].device_idx, 0);
}

#[test]
fn emit_complete_record_converts_to_one_synthetic_event() {
    let rec = OutputRecord { kind: Some(1), code: Some(30), value: Some(1) };
    let ev = build_synthetic(&rec);
    assert_eq!(ev, Some(SyntheticEvent { kind: 1, code: 30, value: 1 }));
}

#[test]
fn emit_missing_value_is_rejected_without_an_event() {
    let rec = OutputRecord { kind: Some(1), code: Some(30), value: None };
    assert_eq!(build_synthetic(&rec), None);
    // The rejection is an answer, not an abort: the next record still converts.
    let next = OutputRecord { kind: Some(1), code: Some(30), value: Some(0) };
    assert_eq!(build_synthetic(&next), Some(SyntheticEvent { kind: 1, code: 30, value: 0 }));
}

#[test]
fn emit_missing_kind_and_code_are_rejected() {
    assert_eq!(build_synthetic(&OutputRecord { kind: None, code: Some(30), value: Some(1) }), None);
    assert_eq!(build_synthetic(&OutputRecord { kind: Some(1), code: None, value: Some(1) }), None);
    assert_eq!(build_synthetic(&OutputRecord { kind: None, code: None, value: None }), None);
}

#[test]
fn emit_clamps_out_of_range_numbers() {
    let rec = OutputRecord { kind: Some(70000), code: Some(-5), value: Some(1 << 40) };
    let ev = build_synthetic(&rec).unwrap();
    assert_eq!(ev.kind, 0xffff);
    assert_eq!(ev.code, 0);
    assert_eq!(ev.value, i32::MAX);
}
