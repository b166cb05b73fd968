//! Content digests: the 64-bit values by which the corpus finds an entry
//! again and by which a stored input is named.

use crate::action::FuzzerAction;
use std::collections::hash_map::DefaultHasher;
use std::hash::Hasher;
use vstd::bytes::{spec_u32_to_le_bytes, spec_u64_to_le_bytes, u32_to_le_bytes, u64_to_le_bytes};
use vstd::prelude::*;
use vstd::std_specs::hash::DefaultHasherAdditionalSpecFns;

verus! {

/// The digest of the runs of bytes `parts`, fed to the standard hasher one
/// run after the other.
pub open spec fn digest_of(parts: Seq<Seq<u8>>) -> u64 {
    DefaultHasher::spec_finish(parts)
}

/// The bytes that stand for one action: its kind as a 64-bit little-endian
/// word, then its payload in little-endian order, as wide as its field.
pub open spec fn action_bytes(action: FuzzerAction) -> Seq<u8> {
    match action {
        FuzzerAction::LeftClick { idx } => spec_u64_to_le_bytes(0) + spec_u64_to_le_bytes(
            idx as u64,
        ),
        FuzzerAction::Close => spec_u64_to_le_bytes(1),
        FuzzerAction::MenuAction { menu_id } => spec_u64_to_le_bytes(2) + spec_u32_to_le_bytes(
            menu_id,
        ),
        FuzzerAction::KeyPress { key } => spec_u64_to_le_bytes(3) + spec_u64_to_le_bytes(
            key as u64,
        ),
    }
}

/// The bytes of the actions of a sequence, one after the other.
pub open spec fn actions_bytes(actions: Seq<FuzzerAction>) -> Seq<u8>
    decreases actions.len(),
{
    if actions.len() == 0 {
        Seq::empty()
    } else {
        actions_bytes(actions.drop_last()) + action_bytes(actions.last())
    }
}

/// The bytes that stand for an input: the number of its actions as a 64-bit
/// little-endian word, then the bytes of each action. On a 64-bit
/// little-endian machine these are the bytes that hashing the sequence itself
/// feeds to a hasher.
pub open spec fn input_bytes(actions: Seq<FuzzerAction>) -> Seq<u8> {
    spec_u64_to_le_bytes(actions.len() as u64) + actions_bytes(actions)
}

/// The content hash of an input. It depends on nothing but the actions and
/// their order.
pub open spec fn content_hash_of(actions: Seq<FuzzerAction>) -> u64 {
    digest_of(seq![input_bytes(actions)])
}

/// Appends the bytes of one action to `out`.
fn write_action(out: &mut Vec<u8>, action: FuzzerAction)
    ensures
        final(out)@ == old(out)@ + action_bytes(action),
{
    match action {
        FuzzerAction::LeftClick { idx } => {
            let mut kind = u64_to_le_bytes(0);
            let mut payload = u64_to_le_bytes(idx as u64);
            out.append(&mut kind);
            out.append(&mut payload);
        },
        FuzzerAction::Close => {
            let mut kind = u64_to_le_bytes(1);
            out.append(&mut kind);
        },
        FuzzerAction::MenuAction { menu_id } => {
            let mut kind = u64_to_le_bytes(2);
            let mut payload = u32_to_le_bytes(menu_id);
            out.append(&mut kind);
            out.append(&mut payload);
        },
        FuzzerAction::KeyPress { key } => {
            let mut kind = u64_to_le_bytes(3);
            let mut payload = u64_to_le_bytes(key as u64);
            out.append(&mut kind);
            out.append(&mut payload);
        },
    }
}

/// The content hash of `input`.
pub fn content_hash(input: &Vec<FuzzerAction>) -> (hash: u64)
    ensures
        hash == content_hash_of(input@),
{
    let mut bytes = u64_to_le_bytes(input.len() as u64);
    let mut at: usize = 0;
    while at < input.len()
        invariant
            at <= input.len(),
            bytes@ == spec_u64_to_le_bytes(input.len() as u64) + actions_bytes(
                input@.subrange(0, at as int),
            ),
        decreases input.len() - at,
    {
        write_action(&mut bytes, input[at]);
        proof {
            let before = input@.subrange(0, at as int);
            let after = input@.subrange(0, at + 1);
            assert(after.drop_last() == before);
        }
        at += 1;
    }
    assert(input@.subrange(0, at as int) == input@);
    let mut hasher = DefaultHasher::new();
    hasher.write(bytes.as_slice());
    hasher.finish()
}

/// A value that the corpus can keep in a deduplicated table: it has a model,
/// a digest that depends on the model alone, and a test for equal models.
pub trait Keyed: View + Sized {
    /// The digest of a value with model `model`.
    spec fn digest_spec(model: Self::V) -> u64;

    /// The digest of this value.
    fn digest(&self) -> (digest: u64)
        ensures
            digest == Self::digest_spec(self@),
    ;

    /// Whether `other` has the same model as this value.
    fn same(&self, other: &Self) -> (same: bool)
        ensures
            same == (self@ == other@),
    ;
}

impl View for FuzzerAction {
    type V = FuzzerAction;

    open spec fn view(&self) -> FuzzerAction {
        *self
    }
}

impl Keyed for FuzzerAction {
    open spec fn digest_spec(model: FuzzerAction) -> u64 {
        digest_of(seq![action_bytes(model)])
    }

    fn digest(&self) -> (digest: u64) {
        let mut bytes: Vec<u8> = Vec::new();
        write_action(&mut bytes, *self);
        let mut hasher = DefaultHasher::new();
        hasher.write(bytes.as_slice());
        hasher.finish()
    }

    fn same(&self, other: &Self) -> (same: bool) {
        *self == *other
    }
}

impl Keyed for Vec<FuzzerAction> {
    open spec fn digest_spec(model: Seq<FuzzerAction>) -> u64 {
        content_hash_of(model)
    }

    fn digest(&self) -> (digest: u64) {
        content_hash(self)
    }

    fn same(&self, other: &Self) -> (same: bool) {
        crate::action::same_actions(self, other)
    }
}

impl Keyed for String {
    open spec fn digest_spec(model: Seq<char>) -> u64 {
        digest_of(seq![vstd::utf8::encode_utf8(model)])
    }

    fn digest(&self) -> (digest: u64) {
        let mut hasher = DefaultHasher::new();
        hasher.write(self.as_str().as_bytes());
        hasher.finish()
    }

    fn same(&self, other: &Self) -> (same: bool) {
        *self == *other
    }
}

} // verus!
