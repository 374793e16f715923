//! From a recorded trace to candidate inputs: for each message, the byte
//! that makes its branch go the other way.

use vstd::prelude::*;
use vstd::bytes::{lemma_auto_spec_u32_to_from_le_bytes, spec_u32_from_le_bytes, spec_u32_to_le_bytes};
use crate::trace::{Comparison, TraceMessage};

verus! {

/// An edit names a byte that the input does not have.
#[derive(Clone, Copy, Debug, PartialEq, Eq, Structural)]
pub struct MutationInputBoundsError {
    /// The offset that was named.
    pub offset: u64,
    /// The length of the input.
    pub len: usize,
}

/// One candidate input, given as the edits that make it from the seed: each
/// an offset and the byte to put there.
#[derive(Debug, PartialEq, Eq)]
pub struct ConstraintMutation {
    pub edits: Vec<(usize, u8)>,
}

impl View for ConstraintMutation {
    type V = Seq<(usize, u8)>;

    open spec fn view(&self) -> Seq<(usize, u8)> {
        self.edits@
    }
}

/// Whether `byte` in place of `present` makes the comparison come out the
/// other way.
pub open spec fn flips(comparison: Comparison, present: u8, byte: u8) -> bool {
    comparison.holds(byte) != comparison.holds(present)
}

/// Whether `byte` is the least byte that flips the comparison.
pub open spec fn is_least_flip(comparison: Comparison, present: u8, byte: u8) -> bool {
    &&& flips(comparison, present, byte)
    &&& forall|lower: u8| lower < byte ==> !flips(comparison, present, lower)
}

/// Whether any byte flips the comparison.
pub open spec fn can_flip(comparison: Comparison, present: u8) -> bool {
    exists|byte: u8| flips(comparison, present, byte)
}

/// The least byte that flips the comparison, where one does.
pub open spec fn least_flip(comparison: Comparison, present: u8) -> u8 {
    choose|byte: u8| is_least_flip(comparison, present, byte)
}

/// The edits that a message gives for a seed: its byte replaced by the least
/// that flips the comparison. None for a message whose offset lies outside
/// the seed, and none where no byte flips the comparison.
pub open spec fn mutation_of(seed: Seq<u8>, message: TraceMessage) -> Option<Seq<(usize, u8)>> {
    if message.offset < seed.len() && can_flip(
        message.comparison,
        seed[message.offset as int],
    ) {
        Some(
            seq![
                (
                    message.offset as usize,
                    least_flip(message.comparison, seed[message.offset as int]),
                ),
            ],
        )
    } else {
        None
    }
}

/// The mutations of a trace: those of its messages, in the trace's order.
pub open spec fn mutations_of(seed: Seq<u8>, trace: Seq<TraceMessage>) -> Seq<Seq<(usize, u8)>>
    decreases trace.len(),
{
    if trace.len() == 0 {
        Seq::empty()
    } else {
        match mutation_of(seed, trace.last()) {
            Some(edits) => mutations_of(seed, trace.drop_last()).push(edits),
            None => mutations_of(seed, trace.drop_last()),
        }
    }
}

/// The input that the edits make of `seed`, applied in their order.
pub open spec fn applied(seed: Seq<u8>, edits: Seq<(usize, u8)>) -> Seq<u8>
    decreases edits.len(),
{
    if edits.len() == 0 {
        seed
    } else {
        applied(seed, edits.drop_last()).update(edits.last().0 as int, edits.last().1)
    }
}

/// The edits of each mutation.
pub open spec fn edits_of(mutations: Seq<ConstraintMutation>) -> Seq<Seq<(usize, u8)>> {
    Seq::new(mutations.len(), |i: int| mutations[i]@)
}

/// At most one byte is the least that flips.
pub proof fn lemma_least_flip_is_unique(comparison: Comparison, present: u8, byte: u8)
    requires
        is_least_flip(comparison, present, byte),
    ensures
        can_flip(comparison, present),
        least_flip(comparison, present) == byte,
{
    // The chosen byte is a least one too, and neither of two least bytes can lie below the other.
    let chosen = least_flip(comparison, present);
    assert(is_least_flip(comparison, present, chosen));
}

/// The least byte that makes `comparison` come out otherwise than it does
/// for `present`; `None` where the comparison comes out the same for every
/// byte.
pub fn flip(comparison: Comparison, present: u8) -> (found: Option<u8>)
    ensures
        found == if can_flip(comparison, present) {
            Some(least_flip(comparison, present))
        } else {
            None
        },
{
    let outcome = comparison.eval(present);
    let mut byte: u8 = 0;
    loop
        invariant
            outcome == comparison.holds(present),
            forall|lower: u8| lower < byte ==> !flips(comparison, present, lower),
        decreases 255 - byte,
    {
        if comparison.eval(byte) != outcome {
            proof {
                lemma_least_flip_is_unique(comparison, present, byte);
            }
            return Some(byte);
        }
        if byte == 255 {
            return None;
        }
        byte += 1;
    }
}

/// The mutation that one message gives for `seed`.
///
/// A message whose offset lies outside the seed gives the error. A message
/// whose comparison no byte can flip gives no mutation.
pub fn mutation_for(seed: &[u8], message: &TraceMessage) -> (mutation: Result<
    Option<ConstraintMutation>,
    MutationInputBoundsError,
>)
    ensures
        message.offset >= seed@.len() ==> mutation == Err::<
            Option<ConstraintMutation>,
            MutationInputBoundsError,
        >(MutationInputBoundsError { offset: message.offset, len: seed@.len() as usize }),
        message.offset < seed@.len() ==> match mutation {
            Ok(Some(found)) => mutation_of(seed@, *message) == Some(found@),
            Ok(None) => mutation_of(seed@, *message) is None,
            Err(_) => false,
        },
{
    if message.offset >= seed.len() as u64 {
        return Err(MutationInputBoundsError { offset: message.offset, len: seed.len() });
    }
    let offset = message.offset as usize;
    match flip(message.comparison, seed[offset]) {
        Some(byte) => {
            let mut edits: Vec<(usize, u8)> = Vec::new();
            edits.push((offset, byte));
            Ok(Some(ConstraintMutation { edits }))
        },
        None => Ok(None),
    }
}

/// The candidate inputs that a trace gives for `seed`: one mutation for each
/// message that has one, in the trace's order. A message whose offset lies
/// outside the seed is passed over, and so is one that no byte can flip.
pub fn generate(seed: &[u8], trace: &[TraceMessage]) -> (mutations: Vec<ConstraintMutation>)
    ensures
        edits_of(mutations@) == mutations_of(seed@, trace@),
        mutations@.len() == mutations_of(seed@, trace@).len(),
        forall|i: int|
            0 <= i < mutations@.len() ==> (#[trigger] mutations@[i])@ == mutations_of(
                seed@,
                trace@,
            )[i],
{
    let mut mutations: Vec<ConstraintMutation> = Vec::new();
    let mut i: usize = 0;
    while i < trace.len()
        invariant
            i <= trace.len(),
            edits_of(mutations@) == mutations_of(seed@, trace@.take(i as int)),
        decreases trace.len() - i,
    {
        assert(trace@.take(i + 1).drop_last() == trace@.take(i as int));
        match mutation_for(seed, &trace[i]) {
            Ok(Some(mutation)) => {
                mutations.push(mutation);
            },
            Ok(None) => {},
            Err(_) => {},
        }
        i += 1;
    }
    assert(trace@.take(i as int) == trace@);
    mutations
}

/// The least index of an edit whose offset lies outside an input of `len`
/// bytes, if there is one.
pub open spec fn first_out_of_bounds(edits: Seq<(usize, u8)>, len: nat, index: int) -> bool {
    &&& 0 <= index < edits.len()
    &&& edits[index].0 >= len
    &&& forall|k: int| 0 <= k < index ==> edits[k].0 < len
}

/// Applies a mutation to `seed`: each edit's byte is put at its offset, in
/// the edits' order. Fails, with the first such edit's offset, where an edit
/// names a byte that the seed does not have.
pub fn apply(seed: &[u8], mutation: &ConstraintMutation) -> (input: Result<
    Vec<u8>,
    MutationInputBoundsError,
>)
    ensures
        match input {
            Ok(bytes) => {
                &&& forall|k: int| 0 <= k < mutation@.len() ==> mutation@[k].0 < seed@.len()
                &&& bytes@ == applied(seed@, mutation@)
            },
            Err(e) => {
                &&& e.len == seed@.len()
                &&& exists|index: int|
                    first_out_of_bounds(mutation@, seed@.len(), index)
                        && #[trigger] mutation@[index].0 == e.offset
            },
        },
{
    let mut bytes: Vec<u8> = Vec::new();
    let mut j: usize = 0;
    while j < seed.len()
        invariant
            j <= seed.len(),
            bytes@ == seed@.take(j as int),
        decreases seed.len() - j,
    {
        bytes.push(seed[j]);
        j += 1;
    }
    let mut i: usize = 0;
    while i < mutation.edits.len()
        invariant
            i <= mutation.edits.len(),
            bytes@.len() == seed@.len(),
            forall|k: int| 0 <= k < i ==> mutation@[k].0 < seed@.len(),
            bytes@ == applied(seed@, mutation@.take(i as int)),
        decreases mutation.edits.len() - i,
    {
        let (offset, byte) = mutation.edits[i];
        if offset >= bytes.len() {
            return Err(MutationInputBoundsError { offset: offset as u64, len: seed.len() });
        }
        assert(mutation@.take(i + 1).drop_last() == mutation@.take(i as int));
        bytes[offset] = byte;
        i += 1;
    }
    assert(mutation@.take(i as int) == mutation@);
    Ok(bytes)
}

/// The mutation of a message alters the byte at the message's offset and
/// nothing else: the new input is as long as the seed, differs from it at
/// that offset, and agrees with it everywhere else.
pub proof fn lemma_mutation_alters_its_byte_only(seed: Seq<u8>, message: TraceMessage)
    requires
        seed.len() <= usize::MAX,
        mutation_of(seed, message) is Some,
    ensures
        message.offset < seed.len(),
        applied(seed, mutation_of(seed, message)->Some_0).len() == seed.len(),
        applied(seed, mutation_of(seed, message)->Some_0)[message.offset as int]
            != seed[message.offset as int],
        forall|k: int|
            0 <= k < seed.len() && k != message.offset ==> applied(
                seed,
                mutation_of(seed, message)->Some_0,
            )[k] == seed[k],
{
    let present = seed[message.offset as int];
    let edits = mutation_of(seed, message)->Some_0;
    let witness = choose|byte: u8| flips(message.comparison, present, byte);
    lemma_least_exists(message.comparison, present, witness);
    assert(applied(seed, edits) == seed.update(
        message.offset as int,
        least_flip(message.comparison, present),
    )) by {
        reveal_with_fuel(applied, 2);
    }
}

/// Where some byte flips a comparison, a least one does.
pub proof fn lemma_least_exists(comparison: Comparison, present: u8, byte: u8)
    requires
        flips(comparison, present, byte),
    ensures
        is_least_flip(comparison, present, least_flip(comparison, present)),
        least_flip(comparison, present) <= byte,
    decreases byte,
{
    if exists|lower: u8| lower < byte && flips(comparison, present, lower) {
        let lower = choose|lower: u8| lower < byte && flips(comparison, present, lower);
        lemma_least_exists(comparison, present, lower);
    } else {
        lemma_least_flip_is_unique(comparison, present, byte);
    }
}

/// A mutation of a seed of four bytes changes the number that the seed spells
/// in little-endian order.
pub proof fn lemma_mutation_changes_the_value(seed: Seq<u8>, message: TraceMessage)
    requires
        seed.len() == 4,
        mutation_of(seed, message) is Some,
    ensures
        spec_u32_from_le_bytes(applied(seed, mutation_of(seed, message)->Some_0))
            != spec_u32_from_le_bytes(seed),
{
    lemma_mutation_alters_its_byte_only(seed, message);
    lemma_auto_spec_u32_to_from_le_bytes();
    let mutated = applied(seed, mutation_of(seed, message)->Some_0);
    assert(spec_u32_to_le_bytes(spec_u32_from_le_bytes(mutated)) == mutated);
}

} // verus!
