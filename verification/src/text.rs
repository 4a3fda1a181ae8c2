//! The tool's small text rules: one trailing newline is trimmed from piped
//! input before it reaches the clipboard, and a newline is appended to
//! clipboard text written to an interactive terminal that lacks one.

use vstd::prelude::*;

verus! {

/// `bytes` with one trailing line break removed: a final `\r\n` loses both
/// bytes, a final `\n` loses one, anything else is kept whole.
pub open spec fn trimmed(bytes: Seq<u8>) -> Seq<u8> {
    if bytes.len() >= 2 && bytes[bytes.len() - 2] == 13u8 && bytes[bytes.len() - 1] == 10u8 {
        bytes.subrange(0, bytes.len() - 2)
    } else if bytes.len() >= 1 && bytes[bytes.len() - 1] == 10u8 {
        bytes.subrange(0, bytes.len() - 1)
    } else {
        bytes
    }
}

/// Whether a byte sequence ends in a newline byte.
pub open spec fn ends_with_newline(bytes: Seq<u8>) -> bool {
    bytes.len() >= 1 && bytes[bytes.len() - 1] == 10u8
}

/// What the text output path writes: the text itself, with a newline
/// appended exactly when the sink is an interactive terminal and the text
/// does not already end in one.
pub open spec fn with_terminal_newline(text: Seq<u8>, terminal: bool) -> Seq<u8> {
    if terminal && !ends_with_newline(text) {
        text + seq![10u8]
    } else {
        text
    }
}

/// Removes one trailing line break (`\r\n` or `\n`) from piped input, as the
/// set path does before storing text in the clipboard.
pub fn trim_trailing_newline(bytes: &Vec<u8>) -> (r: Vec<u8>)
    ensures
        r@ == trimmed(bytes@),
{
    let n = bytes.len();
    let keep: usize = if n >= 2 && bytes[n - 2] == 13 && bytes[n - 1] == 10 {
        n - 2
    } else if n >= 1 && bytes[n - 1] == 10 {
        n - 1
    } else {
        n
    };
    let mut r: Vec<u8> = Vec::new();
    let mut i: usize = 0;
    while i < keep
        invariant
            i <= keep <= bytes@.len(),
            r@ == bytes@.subrange(0, i as int),
        decreases keep - i,
    {
        r.push(bytes[i]);
        i = i + 1;
        proof {
            assert(r@ =~= bytes@.subrange(0, i as int));
        }
    }
    proof {
        assert(bytes@.subrange(0, bytes@.len() as int) =~= bytes@);
        assert(r@ =~= trimmed(bytes@));
    }
    r
}

/// Builds the bytes the text output path writes: the clipboard text, with a
/// newline appended exactly when writing to an interactive terminal whose
/// text does not already end in one.
pub fn text_output_bytes(text: &Vec<u8>, terminal: bool) -> (r: Vec<u8>)
    ensures
        r@ == with_terminal_newline(text@, terminal),
{
    let n = text.len();
    let needs_newline = terminal && (n == 0 || text[n - 1] != 10);
    let mut r: Vec<u8> = Vec::new();
    crate::bytes::push_bytes(&mut r, text);
    if needs_newline {
        r.push(10);
    }
    proof {
        assert(r@ =~= with_terminal_newline(text@, terminal));
    }
    r
}

/// Whether the tool takes the set path (stdin into the clipboard) rather
/// than the get path (clipboard to stdout): forcing output wins, otherwise
/// forcing input or a piped (non-terminal) stdin selects the set path.
pub fn use_set_path(force_in: bool, force_out: bool, stdin_is_terminal: bool) -> (r: bool)
    ensures
        r == (!force_out && (force_in || !stdin_is_terminal)),
{
    !force_out && (force_in || !stdin_is_terminal)
}

} // verus!
