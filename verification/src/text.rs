use vstd::prelude::*;
use vstd::slice::*;
use vstd::string::*;
use vstd::utf8::*;

verus! {

/// The byte that ends a text on the engine's side.
pub const TERMINATOR: u8 = 0;

/// The character whose encoding is the terminator byte.
pub const TERMINATOR_CHAR: char = '\0';

/// Whether a byte sequence holds the terminator byte anywhere.
pub open spec fn has_terminator(bytes: Seq<u8>) -> bool {
    exists|i: int| 0 <= i < bytes.len() && bytes[i] == TERMINATOR
}

/// The crossing form of a byte sequence: the bytes, then one terminator.
pub open spec fn terminated(bytes: Seq<u8>) -> Seq<u8> {
    bytes.push(TERMINATOR)
}

/// Tells whether `bytes` holds a terminator.
pub fn holds_terminator(bytes: &[u8]) -> (found: bool)
    ensures
        found == has_terminator(bytes@),
{
    let mut i: usize = 0;
    while i < bytes.len()
        invariant
            i <= bytes@.len(),
            forall|j: int| 0 <= j < i ==> bytes@[j] != TERMINATOR,
        decreases bytes@.len() - i,
    {
        if bytes[i] == TERMINATOR {
            return true;
        }
        i += 1;
    }
    false
}

/// An owned, terminated copy of a text, made for one call into the engine.
///
/// A value of this type always ends in the terminator and holds none before
/// it, so the engine reads exactly the text that it was made from.
pub struct ForeignText {
    bytes: Vec<u8>,
}

impl ForeignText {
    #[verifier::type_invariant]
    spec fn well_formed(&self) -> bool {
        &&& self.bytes@.len() >= 1
        &&& self.bytes@.last() == TERMINATOR
        &&& !has_terminator(self.bytes@.drop_last())
    }

    /// The bytes of the text that this copy was made from, without the
    /// closing terminator.
    pub closed spec fn view(&self) -> Seq<u8> {
        self.bytes@.drop_last()
    }

    /// Copies `text` into its crossing form. There is none for a text that
    /// holds a terminator: the engine would read it short.
    pub fn new(text: &str) -> (made: Option<ForeignText>)
        ensures
            made is None <==> has_terminator(text.spec_bytes()),
            made is None <==> text@.contains(TERMINATOR_CHAR),
            made matches Some(copy) ==> copy@ == text.spec_bytes(),
    {
        proof {
            lemma_terminator_in_text(text@);
        }
        let bytes = text.as_bytes();
        if holds_terminator(bytes) {
            None
        } else {
            let mut owned = slice_to_vec(bytes);
            owned.push(TERMINATOR);
            assert(owned@.drop_last() =~= text.spec_bytes());
            Some(ForeignText { bytes: owned })
        }
    }

    /// The copy as the engine reads it: the text's bytes and the terminator
    /// that ends them, which is the only one.
    pub fn as_bytes_with_nul(&self) -> (bytes: &[u8])
        ensures
            bytes@ == terminated(self@),
            !has_terminator(self@),
    {
        proof {
            use_type_invariant(self);
            assert(self.bytes@ =~= terminated(self@));
        }
        self.bytes.as_slice()
    }
}

proof fn lemma_single_byte(scalar: u32)
    by (bit_vector)
    requires
        scalar <= 0x7F,
    ensures
        ((scalar & 0x7F) as u8 == 0u8) <==> scalar == 0,
{
}

proof fn lemma_leading_bytes(scalar: u32)
    by (bit_vector)
    ensures
        0xC0u8 | ((scalar >> 6) & 0x1F) as u8 != 0u8,
        0xE0u8 | ((scalar >> 12) & 0x0F) as u8 != 0u8,
        0xF0u8 | ((scalar >> 18) & 0x7) as u8 != 0u8,
{
}

proof fn lemma_continuation_bytes(scalar: u32)
    by (bit_vector)
    ensures
        0x80u8 | (scalar & 0x3F) as u8 != 0u8,
        0x80u8 | ((scalar >> 6) & 0x3F) as u8 != 0u8,
        0x80u8 | ((scalar >> 12) & 0x3F) as u8 != 0u8,
{
}

/// The encoding of one character holds a terminator only where the
/// character is the terminator itself.
proof fn lemma_char_terminator(c: char)
    ensures
        has_terminator(encode_scalar(c as u32)) <==> c == TERMINATOR_CHAR,
{
    let scalar = c as u32;
    let bytes = encode_scalar(scalar);
    lemma_leading_bytes(scalar);
    lemma_continuation_bytes(scalar);
    if has_width_1_encoding(scalar) {
        lemma_single_byte(scalar);
        if c == TERMINATOR_CHAR {
            assert(bytes[0] == TERMINATOR);
        }
    }
    assert(forall|i: int| 0 <= i < bytes.len() && bytes[i] == TERMINATOR ==> i == 0 && scalar == 0);
}

/// A terminator in two pieces joined is a terminator in one of them.
proof fn lemma_terminator_in_parts(first: Seq<u8>, second: Seq<u8>)
    ensures
        has_terminator(first + second) <==> has_terminator(first) || has_terminator(second),
{
    let whole = first + second;
    if has_terminator(first) {
        let i = choose|i: int| 0 <= i < first.len() && first[i] == TERMINATOR;
        assert(whole[i] == TERMINATOR);
    }
    if has_terminator(second) {
        let i = choose|i: int| 0 <= i < second.len() && second[i] == TERMINATOR;
        assert(whole[first.len() + i] == TERMINATOR);
    }
    if has_terminator(whole) {
        let i = choose|i: int| 0 <= i < whole.len() && whole[i] == TERMINATOR;
        if i < first.len() {
            assert(first[i] == TERMINATOR);
        } else {
            assert(second[i - first.len()] == TERMINATOR);
        }
    }
}

/// A text's bytes hold a terminator exactly where the text holds the
/// terminator character: no other character's encoding has a zero byte.
pub proof fn lemma_terminator_in_text(chars: Seq<char>)
    ensures
        has_terminator(encode_utf8(chars)) <==> chars.contains(TERMINATOR_CHAR),
    decreases chars.len(),
{
    if chars.len() == 0 {
    } else {
        let rest = chars.drop_first();
        lemma_terminator_in_text(rest);
        lemma_char_terminator(chars[0]);
        lemma_terminator_in_parts(encode_scalar(chars[0] as u32), encode_utf8(rest));
        if chars.contains(TERMINATOR_CHAR) {
            let i = choose|i: int| 0 <= i < chars.len() && chars[i] == TERMINATOR_CHAR;
            if i > 0 {
                assert(rest[i - 1] == TERMINATOR_CHAR);
            }
        }
        if rest.contains(TERMINATOR_CHAR) {
            let i = choose|i: int| 0 <= i < rest.len() && rest[i] == TERMINATOR_CHAR;
            assert(chars[i + 1] == TERMINATOR_CHAR);
        }
        if chars[0] == TERMINATOR_CHAR {
            assert(chars.contains(TERMINATOR_CHAR));
        }
    }
}

} // verus!
