use guest_runtime::mutation::{
    apply, flip, generate, mutation_for, ConstraintMutation, MutationInputBoundsError,
};
use guest_runtime::trace::{CompareOp, Comparison, SiteId, TraceMessage};

fn message(offset: u64, op: CompareOp, operand: u8) -> TraceMessage {
    TraceMessage {
        site: SiteId { call_site: 0x10, branch: offset },
        offset,
        comparison: Comparison { op, operand },
    }
}

#[test]
fn seed_1234_with_one_message_at_offset_zero() {
    let seed = b"1234";
    assert_eq!(seed, &[0x31, 0x32, 0x33, 0x34]);
    let trace = [message(0, CompareOp::Equal, 0x31)];
    let mutations = generate(seed, &trace);
    assert_eq!(mutations.len(), 1);
    assert_eq!(mutations[0].edits.len(), 1);
    assert_eq!(mutations[0].edits[0].0, 0);
    let mutated = apply(seed, &mutations[0]).unwrap();
    assert_eq!(mutated.len(), 4);
    assert_ne!(mutated[0], seed[0]);
    assert_eq!(&mutated[1..], &seed[1..]);
    let before = i32::from_le_bytes(*seed);
    let changed = i32::from_le_bytes(mutated.as_slice().try_into().unwrap());
    assert_eq!(before, 0x3433_3231);
    assert_ne!(changed, before);
    assert_eq!(mutated, vec![0x00, 0x32, 0x33, 0x34]);
    assert_eq!(changed, 0x3433_3200);
}

#[test]
fn every_comparison_at_offset_zero_alters_byte_zero_only() {
    let seed = b"1234";
    let ops = [
        CompareOp::Equal,
        CompareOp::NotEqual,
        CompareOp::Less,
        CompareOp::LessEqual,
        CompareOp::Greater,
        CompareOp::GreaterEqual,
    ];
    for op in ops {
        for operand in [0x00u8, 0x30, 0x31, 0x32, 0xff] {
            let comparison = Comparison { op, operand };
            for mutation in generate(seed, &[message(0, op, operand)]) {
                let mutated = apply(seed, &mutation).unwrap();
                assert_eq!(mutated.len(), 4);
                assert_ne!(comparison.eval(mutated[0]), comparison.eval(seed[0]));
                assert_eq!(&mutated[1..], &seed[1..]);
                assert_ne!(
                    u32::from_le_bytes(mutated.as_slice().try_into().unwrap()),
                    u32::from_le_bytes(*seed)
                );
            }
        }
    }
}

#[test]
fn flip_finds_the_least_byte_that_changes_the_outcome() {
    let cases = [
        (CompareOp::Equal, 0x31, 0x31, Some(0x00)),
        (CompareOp::Equal, 0x00, 0x00, Some(0x01)),
        (CompareOp::Equal, 0x31, 0x40, Some(0x31)),
        (CompareOp::NotEqual, 0x31, 0x40, Some(0x31)),
        (CompareOp::NotEqual, 0x31, 0x31, Some(0x00)),
        (CompareOp::Less, 0x80, 0x10, Some(0x80)),
        (CompareOp::Less, 0x80, 0x90, Some(0x00)),
        (CompareOp::LessEqual, 0x80, 0x80, Some(0x81)),
        (CompareOp::LessEqual, 0x80, 0x81, Some(0x00)),
        (CompareOp::Greater, 0x80, 0x81, Some(0x00)),
        (CompareOp::Greater, 0x80, 0x80, Some(0x81)),
        (CompareOp::GreaterEqual, 0x80, 0x80, Some(0x00)),
        (CompareOp::GreaterEqual, 0x80, 0x7f, Some(0x80)),
    ];
    for (op, operand, present, expected) in cases {
        assert_eq!(flip(Comparison { op, operand }, present), expected);
    }
}

#[test]
fn flip_finds_nothing_where_every_byte_compares_alike() {
    for present in [0u8, 1, 0x7f, 0xff] {
        assert_eq!(flip(Comparison { op: CompareOp::Less, operand: 0 }, present), None);
        assert_eq!(flip(Comparison { op: CompareOp::GreaterEqual, operand: 0 }, present), None);
        assert_eq!(flip(Comparison { op: CompareOp::Greater, operand: 255 }, present), None);
        assert_eq!(flip(Comparison { op: CompareOp::LessEqual, operand: 255 }, present), None);
    }
}

#[test]
fn message_outside_the_seed_is_an_error_of_its_own() {
    let seed = b"1234";
    assert_eq!(
        mutation_for(seed, &message(4, CompareOp::Equal, 0x31)),
        Err(MutationInputBoundsError { offset: 4, len: 4 })
    );
    assert_eq!(
        mutation_for(seed, &message(u64::MAX, CompareOp::Equal, 0x31)),
        Err(MutationInputBoundsError { offset: u64::MAX, len: 4 })
    );
    assert_eq!(
        mutation_for(&[], &message(0, CompareOp::Equal, 0x31)),
        Err(MutationInputBoundsError { offset: 0, len: 0 })
    );
    assert_eq!(
        mutation_for(seed, &message(3, CompareOp::Equal, 0x34)),
        Ok(Some(ConstraintMutation { edits: vec![(3, 0)] }))
    );
    assert_eq!(mutation_for(seed, &message(3, CompareOp::LessEqual, 255)), Ok(None));
}

#[test]
fn generate_passes_over_messages_outside_the_seed() {
    let seed = b"1234";
    let trace = [
        message(9, CompareOp::Equal, 0x31),
        message(1, CompareOp::Equal, 0x32),
        message(4, CompareOp::NotEqual, 0x00),
        message(3, CompareOp::Less, 0x40),
        message(2, CompareOp::GreaterEqual, 0x00),
        message(0, CompareOp::Greater, 0x31),
    ];
    assert_eq!(
        generate(seed, &trace),
        vec![
            ConstraintMutation { edits: vec![(1, 0x00)] },
            ConstraintMutation { edits: vec![(3, 0x40)] },
            ConstraintMutation { edits: vec![(0, 0x32)] },
        ]
    );
}

#[test]
fn generate_is_a_function_of_its_inputs() {
    let seed = b"abcdefgh";
    let trace: Vec<TraceMessage> = (0..12)
        .map(|i| message(i, if i % 2 == 0 { CompareOp::Equal } else { CompareOp::Less }, 0x61 + i as u8))
        .collect();
    let first = generate(seed, &trace);
    let second = generate(seed, &trace);
    assert_eq!(first, second);
    assert_eq!(first.len(), 8);
    assert_eq!(generate(seed, &[]), Vec::new());
    assert_eq!(generate(&[], &trace), Vec::new());
}

#[test]
fn apply_puts_each_byte_at_its_offset_in_order() {
    let seed = b"1234";
    let mutation = ConstraintMutation { edits: vec![(3, 0xaa), (0, 0xbb), (3, 0xcc)] };
    assert_eq!(apply(seed, &mutation), Ok(vec![0xbb, 0x32, 0x33, 0xcc]));
    assert_eq!(apply(seed, &ConstraintMutation { edits: Vec::new() }), Ok(seed.to_vec()));
}

#[test]
fn apply_refuses_an_edit_outside_the_seed() {
    let seed = b"1234";
    let mutation = ConstraintMutation { edits: vec![(1, 0xaa), (4, 0xbb), (9, 0xcc)] };
    assert_eq!(apply(seed, &mutation), Err(MutationInputBoundsError { offset: 4, len: 4 }));
    let far = ConstraintMutation { edits: vec![(usize::MAX, 0)] };
    assert_eq!(
        apply(seed, &far),
        Err(MutationInputBoundsError { offset: usize::MAX as u64, len: 4 })
    );
}
