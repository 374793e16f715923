use std::cell::Cell;

use guest_runtime::coverage::{CoverageChannel, CoverageMap, SharedMemoryAttachError};
use guest_runtime::pipeline::{
    initialize, open_writer, tracing_disabled, Constraint, Pipeline, Stage, TraceEvent,
    NO_SYMBOLIC_ENV,
};
use guest_runtime::stream::{
    read_message, read_trace, write_message, TraceIoError, TraceStream, HEADER_LEN, RECORD_LEN,
};
use guest_runtime::trace::{CompareOp, Comparison, SiteId, TraceMessage};

fn branch(call_site: u64, branch: u64) -> SiteId {
    SiteId { call_site, branch }
}

fn symbolic(site: SiteId, offset: u64, op: CompareOp, operand: u8) -> TraceEvent {
    TraceEvent {
        site,
        float_derived: false,
        symbolic: Some(Constraint { offset, comparison: Comparison { op, operand } }),
    }
}

fn message(site: SiteId, offset: u64, op: CompareOp, operand: u8) -> TraceMessage {
    TraceMessage { site, offset, comparison: Comparison { op, operand } }
}

#[test]
fn comparison_evaluates_each_operator() {
    let cases = [
        (CompareOp::Equal, [false, true, false]),
        (CompareOp::NotEqual, [true, false, true]),
        (CompareOp::Less, [true, false, false]),
        (CompareOp::LessEqual, [true, true, false]),
        (CompareOp::Greater, [false, false, true]),
        (CompareOp::GreaterEqual, [false, true, true]),
    ];
    for (op, expected) in cases {
        let comparison = Comparison { op, operand: 0x40 };
        assert_eq!(
            [comparison.eval(0x3f), comparison.eval(0x40), comparison.eval(0x41)],
            expected
        );
    }
}

#[test]
fn record_has_its_layout() {
    let record = write_message(message(
        branch(0x0102_0304_0506_0708, 0x1112_1314_1516_1718),
        0x2122_2324_2526_2728,
        CompareOp::Greater,
        0x5a,
    ));
    assert_eq!(
        record,
        vec![
            0x08, 0x07, 0x06, 0x05, 0x04, 0x03, 0x02, 0x01, 0x18, 0x17, 0x16, 0x15, 0x14, 0x13,
            0x12, 0x11, 0x28, 0x27, 0x26, 0x25, 0x24, 0x23, 0x22, 0x21, 4, 0x5a
        ]
    );
    assert_eq!(record.len(), RECORD_LEN);
}

#[test]
fn record_names_each_operator_by_its_byte() {
    let ops = [
        CompareOp::Equal,
        CompareOp::NotEqual,
        CompareOp::Less,
        CompareOp::LessEqual,
        CompareOp::Greater,
        CompareOp::GreaterEqual,
    ];
    for (code, op) in ops.into_iter().enumerate() {
        let written = message(branch(1, 2), 3, op, 4);
        let record = write_message(written);
        assert_eq!(record[24], code as u8);
        assert_eq!(read_message(&record), Some(written));
    }
    let mut record = write_message(message(branch(1, 2), 3, CompareOp::Equal, 4));
    record[24] = 6;
    assert_eq!(read_message(&record), None);
    record[24] = 255;
    assert_eq!(read_message(&record), None);
}

#[test]
fn empty_stream_is_its_prefix() {
    let stream = TraceStream::new(64).unwrap();
    assert_eq!(stream.bytes(), &vec![0u8; 8]);
    assert_eq!(stream.len(), 0);
    assert_eq!(stream.capacity(), 64);
    assert_eq!(read_trace(stream.bytes()), Ok(Vec::new()));
    assert_eq!(HEADER_LEN, 8);
}

#[test]
fn stream_needs_room_for_its_prefix() {
    assert!(matches!(TraceStream::new(0), Err(SharedMemoryAttachError)));
    assert!(matches!(TraceStream::new(7), Err(SharedMemoryAttachError)));
    assert!(TraceStream::new(8).is_ok());
}

#[test]
fn append_keeps_the_prefix_up_to_date() {
    let mut stream = TraceStream::new(1024).unwrap();
    let first = message(branch(1, 1), 0, CompareOp::Equal, 0x31);
    let second = message(branch(1, 2), 3, CompareOp::Less, 0x80);
    assert_eq!(stream.append(first), Ok(()));
    assert_eq!(&stream.bytes()[..8], &[26, 0, 0, 0, 0, 0, 0, 0]);
    assert_eq!(stream.bytes().len(), 8 + 26);
    assert_eq!(stream.append(second), Ok(()));
    assert_eq!(&stream.bytes()[..8], &[52, 0, 0, 0, 0, 0, 0, 0]);
    assert_eq!(&stream.bytes()[8..34], write_message(first).as_slice());
    assert_eq!(&stream.bytes()[34..], write_message(second).as_slice());
    assert_eq!(stream.len(), 2);
}

#[test]
fn prefix_counts_past_one_byte() {
    let mut stream = TraceStream::new(8 + 26 * 10).unwrap();
    for branch_id in 0..10 {
        assert_eq!(stream.append(message(branch(0, branch_id), 0, CompareOp::Equal, 0)), Ok(()));
    }
    assert_eq!(&stream.bytes()[..8], &[4, 1, 0, 0, 0, 0, 0, 0]);
}

#[test]
fn full_stream_fails_and_stays_whole() {
    let mut stream = TraceStream::new(8 + 26 + 25).unwrap();
    let first = message(branch(1, 1), 0, CompareOp::Equal, 0x31);
    assert_eq!(stream.append(first), Ok(()));
    let image = stream.bytes().clone();
    assert_eq!(
        stream.append(message(branch(1, 2), 1, CompareOp::Equal, 0x32)),
        Err(TraceIoError::CapacityExhausted)
    );
    assert_eq!(stream.bytes(), &image);
    assert_eq!(stream.len(), 1);
    assert_eq!(
        stream.append(message(branch(1, 3), 2, CompareOp::Equal, 0x33)),
        Err(TraceIoError::CapacityExhausted)
    );
    assert_eq!(read_trace(stream.bytes()), Ok(vec![first]));
    let mut exact = TraceStream::new(8 + 26).unwrap();
    assert_eq!(exact.append(first), Ok(()));
    assert_eq!(exact.append(first), Err(TraceIoError::CapacityExhausted));
}

#[test]
fn written_trace_reads_back_from_a_longer_segment() {
    let mut stream = TraceStream::new(4096).unwrap();
    let messages = vec![
        message(branch(7, 1), 0, CompareOp::Equal, 0x31),
        message(branch(7, 2), 1, CompareOp::NotEqual, 0),
        message(branch(u64::MAX, u64::MAX), u64::MAX, CompareOp::GreaterEqual, 255),
    ];
    for m in &messages {
        assert_eq!(stream.append(*m), Ok(()));
    }
    let mut segment = stream.bytes().clone();
    assert_eq!(read_trace(&segment), Ok(messages.clone()));
    segment.extend_from_slice(&[0xaa; 100]);
    assert_eq!(read_trace(&segment), Ok(messages));
}

#[test]
fn reader_rejects_a_segment_that_ends_early() {
    assert_eq!(read_trace(&[]), Err(TraceIoError::Truncated));
    assert_eq!(read_trace(&[0; 7]), Err(TraceIoError::Truncated));
    let mut stream = TraceStream::new(4096).unwrap();
    stream.append(message(branch(1, 1), 0, CompareOp::Equal, 1)).unwrap();
    let segment = stream.bytes().clone();
    assert_eq!(read_trace(&segment[..33]), Err(TraceIoError::Truncated));
    assert_eq!(read_trace(&segment[..8]), Err(TraceIoError::Truncated));
    let mut huge = vec![0xff; 8];
    huge.extend_from_slice(&[0; 26]);
    assert_eq!(read_trace(&huge), Err(TraceIoError::Truncated));
}

#[test]
fn reader_rejects_records_that_are_not_whole_or_name_no_operator() {
    let mut odd = vec![25, 0, 0, 0, 0, 0, 0, 0];
    odd.extend_from_slice(&[0; 26]);
    assert_eq!(read_trace(&odd), Err(TraceIoError::Malformed));
    let mut stream = TraceStream::new(4096).unwrap();
    stream.append(message(branch(1, 1), 0, CompareOp::Equal, 1)).unwrap();
    stream.append(message(branch(1, 2), 0, CompareOp::Equal, 1)).unwrap();
    let mut segment = stream.bytes().clone();
    segment[8 + 24] = 9;
    assert_eq!(read_trace(&segment), Err(TraceIoError::Malformed));
    segment[8 + 24] = 0;
    segment[8 + 26 + 24] = 6;
    assert_eq!(read_trace(&segment), Err(TraceIoError::Malformed));
}

#[test]
fn flag_switches_tracing_off_only_when_it_is_one() {
    assert_eq!(NO_SYMBOLIC_ENV, "SYMCC_NO_SYMBOLIC_INPUT");
    assert!(tracing_disabled(Some("1")));
    assert!(!tracing_disabled(Some("0")));
    assert!(!tracing_disabled(Some("")));
    assert!(!tracing_disabled(Some("11")));
    assert!(!tracing_disabled(Some("true")));
    assert!(!tracing_disabled(Some(" 1")));
    assert!(!tracing_disabled(None));
}

#[test]
fn disabled_tracing_has_no_writer_and_touches_no_segment() {
    let touched = Cell::new(false);
    let writer = open_writer(Some("1"), || {
        touched.set(true);
        None
    });
    assert!(matches!(writer, Ok(None)));
    assert!(!touched.get());
}

#[test]
fn enabled_tracing_needs_its_segment() {
    for flag in [None, Some("0"), Some("2")] {
        assert!(matches!(open_writer(flag, || None), Err(SharedMemoryAttachError)));
        assert!(matches!(open_writer(flag, || Some(7)), Err(SharedMemoryAttachError)));
        let writer = open_writer(flag, || Some(1024)).unwrap().unwrap();
        assert_eq!(writer.capacity(), 1024);
        assert_eq!(writer.len(), 0);
    }
}

#[test]
fn disabled_tracing_emits_nothing_while_coverage_goes_on() {
    let writer = open_writer(Some("1"), || Some(4096)).unwrap();
    let mut pipeline = Pipeline::standard(writer);
    assert!(!pipeline.is_tracing());
    let mut coverage = CoverageChannel::Attached(CoverageMap::attach(vec![0; 64]));
    let mut emitted = 0;
    for step in 0..200u64 {
        assert!(coverage.record((step % 64) as usize));
        let event = symbolic(branch(step / 7, step), step % 4, CompareOp::Equal, step as u8);
        if pipeline.process(event).unwrap().is_some() {
            emitted += 1;
        }
    }
    assert_eq!(emitted, 0);
    assert!(pipeline.into_writer().is_none());
    match coverage {
        CoverageChannel::Attached(map) => {
            assert_eq!(map.hits(), (0..64).map(|edge| (edge, 1)).collect::<Vec<_>>())
        }
        CoverageChannel::Absent => panic!("no map"),
    }
}

#[test]
fn branch_in_a_loop_is_recorded_once() {
    let writer = open_writer(None, || Some(1 << 20)).unwrap();
    let mut pipeline = Pipeline::standard(writer);
    assert!(pipeline.is_tracing());
    let event = symbolic(branch(0x4000, 0x4010), 0, CompareOp::Equal, 0x31);
    let mut emitted = Vec::new();
    for _ in 0..100 {
        if let Some(m) = pipeline.process(event).unwrap() {
            emitted.push(m);
        }
    }
    assert_eq!(emitted, vec![message(branch(0x4000, 0x4010), 0, CompareOp::Equal, 0x31)]);
    let stream = pipeline.into_writer().unwrap();
    assert_eq!(stream.len(), 1);
    assert_eq!(read_trace(stream.bytes()), Ok(emitted));
}

#[test]
fn branch_in_a_loop_with_changing_operands_is_recorded_once() {
    let mut pipeline = Pipeline::standard(Some(TraceStream::new(1 << 20).unwrap()));
    let mut emitted = 0;
    for round in 0..100u8 {
        let event = symbolic(branch(1, 2), round as u64, CompareOp::Less, round);
        if pipeline.process(event).unwrap().is_some() {
            emitted += 1;
        }
    }
    assert!(emitted < 100);
    assert_eq!(emitted, 1);
}

#[test]
fn pruning_leaves_other_branches_alone() {
    let mut pipeline = Pipeline::standard(Some(TraceStream::new(1 << 20).unwrap()));
    let sites = [branch(1, 1), branch(1, 2), branch(2, 1), branch(1, 1), branch(2, 1), branch(3, 3)];
    let mut emitted = Vec::new();
    for (offset, site) in sites.into_iter().enumerate() {
        let event = symbolic(site, offset as u64, CompareOp::NotEqual, 0);
        if let Some(m) = pipeline.process(event).unwrap() {
            emitted.push((m.site, m.offset));
        }
    }
    assert_eq!(
        emitted,
        vec![(branch(1, 1), 0), (branch(1, 2), 1), (branch(2, 1), 2), (branch(3, 3), 5)]
    );
}

#[test]
fn float_events_are_made_concrete_and_never_written() {
    let mut pipeline = Pipeline::standard(Some(TraceStream::new(1 << 20).unwrap()));
    let mut float = symbolic(branch(5, 5), 0, CompareOp::Equal, 1);
    float.float_derived = true;
    assert_eq!(pipeline.process(float), Ok(None));
    assert_eq!(pipeline.process(float), Ok(None));
    // The branch has not been recorded yet: its first symbolic event passes.
    let exact = symbolic(branch(5, 5), 0, CompareOp::Equal, 1);
    assert_eq!(
        pipeline.process(exact),
        Ok(Some(message(branch(5, 5), 0, CompareOp::Equal, 1)))
    );
    assert_eq!(pipeline.process(exact), Ok(None));
}

#[test]
fn concrete_events_are_never_written() {
    let mut pipeline = Pipeline::standard(Some(TraceStream::new(1 << 20).unwrap()));
    let concrete = TraceEvent { site: branch(9, 9), float_derived: false, symbolic: None };
    assert_eq!(pipeline.process(concrete), Ok(None));
    assert_eq!(pipeline.into_writer().unwrap().len(), 0);
}

#[test]
fn stages_change_or_suppress_an_event() {
    let mut float = symbolic(branch(1, 1), 2, CompareOp::Equal, 3);
    float.float_derived = true;
    let mut no_float = Stage::NoFloat;
    assert_eq!(
        no_float.process(float),
        Some(TraceEvent { site: branch(1, 1), float_derived: true, symbolic: None })
    );
    let exact = symbolic(branch(1, 1), 2, CompareOp::Equal, 3);
    assert_eq!(no_float.process(exact), Some(exact));

    let mut pruning = Stage::CallStackCoverage(Vec::new());
    assert_eq!(pruning.process(exact), Some(exact));
    assert_eq!(pruning.process(exact), None);
    let concrete = TraceEvent { site: branch(1, 1), float_derived: false, symbolic: None };
    assert_eq!(pruning.process(concrete), Some(concrete));
    assert!(matches!(pruning, Stage::CallStackCoverage(ref seen) if seen == &vec![branch(1, 1)]));
}

#[test]
fn setup_runs_before_the_first_event_and_never_again() {
    initialize();
    let mut setup = Stage::Initialization(false);
    let event = symbolic(branch(1, 1), 0, CompareOp::Equal, 0);
    assert_eq!(setup.process(event), Some(event));
    assert!(matches!(setup, Stage::Initialization(true)));
    assert_eq!(setup.process(event), Some(event));
    assert!(matches!(setup, Stage::Initialization(true)));
}

#[test]
fn suppressed_event_does_not_reach_the_later_stages() {
    let stages = vec![Stage::CallStackCoverage(vec![branch(1, 1)]), Stage::Initialization(false)];
    let mut pipeline = Pipeline::new(stages, Some(TraceStream::new(64).unwrap()));
    let known = symbolic(branch(1, 1), 0, CompareOp::Equal, 0);
    assert_eq!(pipeline.process(known), Ok(None));
    let fresh = symbolic(branch(1, 2), 0, CompareOp::Equal, 0);
    assert_eq!(pipeline.process(fresh), Ok(Some(message(branch(1, 2), 0, CompareOp::Equal, 0))));
}

#[test]
fn pipeline_without_stages_writes_every_symbolic_event() {
    let mut pipeline = Pipeline::new(Vec::new(), Some(TraceStream::new(8 + 3 * 26).unwrap()));
    let event = symbolic(branch(1, 1), 4, CompareOp::Greater, 9);
    for _ in 0..3 {
        assert_eq!(
            pipeline.process(event),
            Ok(Some(message(branch(1, 1), 4, CompareOp::Greater, 9)))
        );
    }
    assert_eq!(pipeline.process(event), Err(TraceIoError::CapacityExhausted));
    assert_eq!(pipeline.into_writer().unwrap().len(), 3);
}

#[test]
fn exhausted_writer_fails_fast_in_the_pipeline() {
    let mut pipeline = Pipeline::standard(Some(TraceStream::new(8 + 26).unwrap()));
    assert!(pipeline.process(symbolic(branch(1, 1), 0, CompareOp::Equal, 0)).unwrap().is_some());
    assert_eq!(
        pipeline.process(symbolic(branch(1, 2), 0, CompareOp::Equal, 0)),
        Err(TraceIoError::CapacityExhausted)
    );
    // The branch counts as seen; the event for it is now suppressed.
    assert_eq!(pipeline.process(symbolic(branch(1, 2), 0, CompareOp::Equal, 0)), Ok(None));
    let stream = pipeline.into_writer().unwrap();
    assert_eq!(
        read_trace(stream.bytes()),
        Ok(vec![message(branch(1, 1), 0, CompareOp::Equal, 0)])
    );
}
