//! How an input is stored: one file for each input kept, named by the
//! input's content hash, with a dump of the actions in it.

use crate::action::FuzzerAction;
use crate::digest::{content_hash, content_hash_of};
use vstd::prelude::*;
use vstd::string::StringExecFns;

verus! {

/// The directory that holds the stored inputs.
pub const INPUT_DIRECTORY: &'static str = "inputs";

/// The sixteen hexadecimal digits, in lower case.
pub open spec fn hex_digits() -> Seq<char> {
    seq!['0', '1', '2', '3', '4', '5', '6', '7', '8', '9', 'a', 'b', 'c', 'd', 'e', 'f']
}

/// The value of the hexadecimal digit of `value` in place `place`, where
/// place 0 is the most significant of the sixteen.
pub open spec fn nibble(value: u64, place: int) -> int {
    ((value >> ((15 - place) * 4) as u64) & 0xf) as int
}

/// `value` in sixteen hexadecimal digits, padded with zeros at the front.
pub open spec fn hex16(value: u64) -> Seq<char> {
    Seq::new(16, |place: int| hex_digits()[nibble(value, place)])
}

/// The path of the file that holds the input with content hash `hash`.
pub open spec fn input_path_of(hash: u64) -> Seq<char> {
    seq!['i', 'n', 'p', 'u', 't', 's', '/'] + hex16(hash) + seq!['.', 'i', 'n', 'p', 'u', 't']
}

/// The text of one digit, hexadecimal or decimal.
fn digit_text(nibble: u64) -> (digit: &'static str)
    requires
        nibble < 16,
    ensures
        digit@ == seq![hex_digits()[nibble as int]],
{
    proof {
        reveal_strlit("0");
        reveal_strlit("1");
        reveal_strlit("2");
        reveal_strlit("3");
        reveal_strlit("4");
        reveal_strlit("5");
        reveal_strlit("6");
        reveal_strlit("7");
        reveal_strlit("8");
        reveal_strlit("9");
        reveal_strlit("a");
        reveal_strlit("b");
        reveal_strlit("c");
        reveal_strlit("d");
        reveal_strlit("e");
        reveal_strlit("f");
    }
    let digit = if nibble == 0 {
        "0"
    } else if nibble == 1 {
        "1"
    } else if nibble == 2 {
        "2"
    } else if nibble == 3 {
        "3"
    } else if nibble == 4 {
        "4"
    } else if nibble == 5 {
        "5"
    } else if nibble == 6 {
        "6"
    } else if nibble == 7 {
        "7"
    } else if nibble == 8 {
        "8"
    } else if nibble == 9 {
        "9"
    } else if nibble == 10 {
        "a"
    } else if nibble == 11 {
        "b"
    } else if nibble == 12 {
        "c"
    } else if nibble == 13 {
        "d"
    } else if nibble == 14 {
        "e"
    } else {
        "f"
    };
    digit
}

/// The path of the file for the content hash `hash`: the directory of the
/// inputs, the hash in sixteen hexadecimal digits, and the extension
/// `.input`.
pub fn input_file_name(hash: u64) -> (path: String)
    ensures
        path@ == input_path_of(hash),
{
    proof {
        reveal_strlit("inputs/");
        reveal_strlit(".input");
    }
    let mut path = String::from_str("inputs/");
    let mut place: u64 = 0;
    while place < 16
        invariant
            place <= 16,
            path@ == seq!['i', 'n', 'p', 'u', 't', 's', '/'] + hex16(hash).subrange(
                0,
                place as int,
            ),
        decreases 16 - place,
    {
        let shift: u64 = (15 - place) * 4;
        let value: u64 = (hash >> shift) & 0xf;
        assert((hash >> shift) & 0xf < 16) by (bit_vector);
        path.append(digit_text(value));
        place += 1;
    }
    path.append(".input");
    path
}

/// The path of the file that holds `input`. It depends on nothing but the
/// actions of the input and their order: storing the same input again goes
/// to the same file.
pub fn input_path(input: &Vec<FuzzerAction>) -> (path: String)
    ensures
        path@ == input_path_of(content_hash_of(input@)),
{
    input_file_name(content_hash(input))
}

/// The decimal digits.
pub open spec fn decimal_digits() -> Seq<char> {
    seq!['0', '1', '2', '3', '4', '5', '6', '7', '8', '9']
}

/// `value` in decimal digits, without leading zeros.
pub open spec fn decimal(value: nat) -> Seq<char>
    decreases value,
{
    if value < 10 {
        seq![decimal_digits()[value as int]]
    } else {
        decimal(value / 10).push(decimal_digits()[(value % 10) as int])
    }
}

/// The lines that show one action in a dump: its kind and, in braces on a
/// line of its own, its field. Every line of an action is indented by four
/// spaces, the field by four more.
pub open spec fn action_dump(action: FuzzerAction) -> Seq<char> {
    match action {
        FuzzerAction::LeftClick { idx } => "    LeftClick {\n        idx: "@ + decimal(
            idx as nat,
        ) + ",\n    },\n"@,
        FuzzerAction::Close => "    Close,\n"@,
        FuzzerAction::MenuAction { menu_id } => "    MenuAction {\n        menu_id: "@ + decimal(
            menu_id as nat,
        ) + ",\n    },\n"@,
        FuzzerAction::KeyPress { key } => "    KeyPress {\n        key: "@ + decimal(key as nat)
            + ",\n    },\n"@,
    }
}

/// The lines of the actions of a sequence, one action after the other.
pub open spec fn actions_dump(actions: Seq<FuzzerAction>) -> Seq<char>
    decreases actions.len(),
{
    if actions.len() == 0 {
        Seq::empty()
    } else {
        actions_dump(actions.drop_last()) + action_dump(actions.last())
    }
}

/// The text that a stored input holds: the actions in square brackets, each
/// on lines of its own; an empty input is a pair of brackets.
pub open spec fn dump_of(actions: Seq<FuzzerAction>) -> Seq<char> {
    if actions.len() == 0 {
        "[]"@
    } else {
        "[\n"@ + actions_dump(actions) + "]"@
    }
}

fn write_decimal(out: &mut String, value: u64)
    ensures
        final(out)@ == old(out)@ + decimal(value as nat),
    decreases value,
{
    if value >= 10 {
        write_decimal(out, value / 10);
    }
    let digit = digit_text(value % 10);
    out.append(digit);
}

fn write_action(out: &mut String, action: FuzzerAction)
    ensures
        final(out)@ == old(out)@ + action_dump(action),
{
    match action {
        FuzzerAction::LeftClick { idx } => {
            out.append("    LeftClick {\n        idx: ");
            write_decimal(out, idx as u64);
            out.append(",\n    },\n");
        },
        FuzzerAction::Close => {
            out.append("    Close,\n");
        },
        FuzzerAction::MenuAction { menu_id } => {
            out.append("    MenuAction {\n        menu_id: ");
            write_decimal(out, menu_id as u64);
            out.append(",\n    },\n");
        },
        FuzzerAction::KeyPress { key } => {
            out.append("    KeyPress {\n        key: ");
            write_decimal(out, key as u64);
            out.append(",\n    },\n");
        },
    }
}

/// The text to store for `input`: a dump of its actions that a person can
/// read.
pub fn dump(input: &Vec<FuzzerAction>) -> (text: String)
    ensures
        text@ == dump_of(input@),
{
    if input.len() == 0 {
        return String::from_str("[]");
    }
    let mut text = String::from_str("[\n");
    let mut at: usize = 0;
    while at < input.len()
        invariant
            at <= input.len(),
            text@ == "[\n"@ + actions_dump(input@.subrange(0, at as int)),
        decreases input.len() - at,
    {
        write_action(&mut text, input[at]);
        proof {
            let shown = input@.subrange(0, at + 1);
            assert(shown.drop_last() == input@.subrange(0, at as int));
        }
        at += 1;
    }
    assert(input@.subrange(0, at as int) == input@);
    text.append("]");
    text
}

} // verus!
