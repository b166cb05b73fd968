//! The actions a fuzz input is made of.

use vstd::prelude::*;

verus! {

/// One synthetic interaction with the target's user interface.
#[derive(Clone, Copy, Debug, PartialEq, Eq, PartialOrd, Ord, Hash, Structural)]
pub enum FuzzerAction {
    /// A left click on the control with this index in the target's control
    /// listing.
    LeftClick { idx: usize },
    /// A request to close the target's main window.
    Close,
    /// The menu command with this identifier.
    MenuAction { menu_id: u32 },
    /// A press and release of the key with this code.
    KeyPress { key: usize },
}

/// A fuzz input: the actions of one test case, in the order they are
/// performed.
pub type FuzzInput = Vec<FuzzerAction>;

/// Whether two inputs hold the same actions in the same order.
pub fn same_actions(left: &Vec<FuzzerAction>, right: &Vec<FuzzerAction>) -> (same: bool)
    ensures
        same == (left@ == right@),
{
    if left.len() != right.len() {
        return false;
    }
    let mut at: usize = 0;
    while at < left.len()
        invariant
            left.len() == right.len(),
            at <= left.len(),
            left@.subrange(0, at as int) == right@.subrange(0, at as int),
        decreases left.len() - at,
    {
        if left[at] != right[at] {
            return false;
        }
        at += 1;
    }
    assert(left@ == left@.subrange(0, at as int));
    assert(right@ == right@.subrange(0, at as int));
    true
}

/// Appends the actions of `source` from index `from` up to, not including,
/// index `to`.
pub fn append_range(out: &mut Vec<FuzzerAction>, source: &Vec<FuzzerAction>, from: usize, to: usize)
    requires
        from <= to <= source.len(),
    ensures
        final(out)@ == old(out)@ + source@.subrange(from as int, to as int),
{
    let mut at: usize = from;
    while at < to
        invariant
            from <= at <= to <= source.len(),
            out@ == old(out)@ + source@.subrange(from as int, at as int),
        decreases to - at,
    {
        out.push(source[at]);
        at += 1;
    }
}

/// A fresh copy of an input.
pub fn copy_actions(source: &Vec<FuzzerAction>) -> (copy: Vec<FuzzerAction>)
    ensures
        copy@ == source@,
{
    let mut copy: Vec<FuzzerAction> = Vec::new();
    append_range(&mut copy, source, 0, source.len());
    copy
}

} // verus!
