//! The unknown-field store that the options of every declaration carry.

use protobuf::UnknownFields;
use vstd::prelude::*;

verus! {

/// `protobuf::UnknownFields`, carried through as an opaque value.
#[verifier::external_type_specification]
#[verifier::external_body]
pub struct ExUnknownFields(UnknownFields);

/// The values that a store holds under one field number: one list for each
/// wire type, each in the order in which its values were added.
pub struct UnknownValues {
    pub fixed32: Seq<u32>,
    pub fixed64: Seq<u64>,
    pub varint: Seq<u64>,
    pub length_delimited: Seq<Seq<u8>>,
}

/// What a store holds, by field number.
pub type Stored = Map<u32, UnknownValues>;

/// What `store` holds. A number under which it holds no value is not in the
/// map.
pub uninterp spec fn stored(store: UnknownFields) -> Map<u32, UnknownValues>;

/// No value of any wire type.
pub open spec fn no_values() -> UnknownValues {
    UnknownValues {
        fixed32: Seq::empty(),
        fixed64: Seq::empty(),
        varint: Seq::empty(),
        length_delimited: Seq::empty(),
    }
}

/// The values held under `number`.
pub open spec fn values_under(held: Stored, number: u32) -> UnknownValues {
    if held.contains_key(number) {
        held[number]
    } else {
        no_values()
    }
}

/// What a store holds after one more length-delimited payload was added
/// under `number`: the payload comes after those already there, and nothing
/// else changes.
pub open spec fn appended(held: Stored, number: u32, payload: Seq<u8>) -> Stored {
    let before = values_under(held, number);
    held.insert(
        number,
        UnknownValues { length_delimited: before.length_delimited.push(payload), ..before },
    )
}

/// `UnknownFields::add_length_delimited`: the payload is appended to the
/// length-delimited values already held under `number`; the values of the
/// other wire types under that number, and everything under every other
/// number, stay as they were.
#[verifier::external_body]
pub(crate) fn add_length_delimited(store: &mut UnknownFields, number: u32, payload: Vec<u8>)
    ensures
        stored(*final(store)) == appended(stored(*old(store)), number, payload@),
{
    store.add_length_delimited(number, payload)
}

/// Two payloads added under one number are both kept, after those already
/// there and in the order in which they were added.
pub proof fn lemma_payloads_accumulate(held: Stored, number: u32, first: Seq<u8>, second: Seq<u8>)
    ensures
        values_under(appended(appended(held, number, first), number, second), number)
            .length_delimited == values_under(held, number).length_delimited.push(first).push(
            second,
        ),
{
}

/// Adding a payload under one number leaves what is held under every other
/// number as it was.
pub proof fn lemma_other_numbers_kept(held: Stored, number: u32, payload: Seq<u8>, other: u32)
    requires
        other != number,
    ensures
        values_under(appended(held, number, payload), other) == values_under(held, other),
        appended(held, number, payload).contains_key(other) == held.contains_key(other),
{
}

} // verus!
