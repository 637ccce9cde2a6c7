use vstd::prelude::*;

verus! {

/// The UTF-16 code units of one character: the character itself below
/// U+10000, otherwise its surrogate pair.
pub open spec fn utf16_of_char(c: char) -> Seq<u16> {
    let v = c as int;
    if v < 0x1_0000 {
        seq![v as u16]
    } else {
        let u = v - 0x1_0000;
        seq![(0xD800 + u / 0x400) as u16, (0xDC00 + u % 0x400) as u16]
    }
}

/// The UTF-16 encoding of a character sequence.
pub open spec fn utf16(s: Seq<char>) -> Seq<u16>
    decreases s.len(),
{
    if s.len() == 0 {
        Seq::empty()
    } else {
        utf16_of_char(s[0]) + utf16(s.drop_first())
    }
}

/// `str::encode_utf16`, collected: the string encoded as UTF-16 code units,
/// as std documents it.
#[verifier::external_body]
fn encode_utf16(s: &str) -> (units: Vec<u16>)
    ensures
        units@ == utf16(s@),
{
    s.encode_utf16().collect()
}

/// A NUL-terminated wide string for Win32 `W` functions: the UTF-16 encoding
/// of `s` followed by one 0 unit.
pub fn to_wide_null(s: &str) -> (w: Vec<u16>)
    ensures
        w@ == utf16(s@).push(0u16),
{
    let mut w = encode_utf16(s);
    w.push(0u16);
    w
}

/// Law: every character's UTF-16 units decode back to it: a character
/// below U+10000 is its single unit; any other is a high surrogate
/// (0xD800..0xDBFF) followed by a low surrogate (0xDC00..0xDFFF) whose
/// payloads, offset by 0x10000, give the character.
pub proof fn lemma_utf16_of_char_decodes(c: char)
    ensures
        (c as int) < 0x1_0000 ==> utf16_of_char(c).len() == 1 && utf16_of_char(c)[0] as int
            == c as int,
        (c as int) >= 0x1_0000 ==> utf16_of_char(c).len() == 2 && 0xD800 <= utf16_of_char(c)[0]
            < 0xDC00 && 0xDC00 <= utf16_of_char(c)[1] < 0xE000 && (utf16_of_char(c)[0] - 0xD800)
            * 0x400 + (utf16_of_char(c)[1] - 0xDC00) + 0x1_0000 == c as int,
{
    let v = c as int;
    if v >= 0x1_0000 {
        let u = v - 0x1_0000;
        assert(u <= 0xF_FFFF);
        assert(0 <= u / 0x400 < 0x400 && 0 <= u % 0x400 < 0x400 && (u / 0x400) * 0x400 + u % 0x400
            == u) by (nonlinear_arith)
            requires
                0 <= u <= 0xF_FFFF,
        ;
    }
}

/// Only the NUL character encodes to a 0 code unit.
pub proof fn lemma_utf16_of_char_nonzero(c: char)
    requires
        c != '\0',
    ensures
        forall|i: int| 0 <= i < utf16_of_char(c).len() ==> utf16_of_char(c)[i] != 0u16,
{
    let v = c as int;
    assert(0 < v <= 0x10FFFF);
    if v >= 0x1_0000 {
        let u = v - 0x1_0000;
        assert(0 <= u / 0x400 < 0x400) by (nonlinear_arith)
            requires
                0 <= u < 0x10_0000,
        ;
        assert(0 <= u % 0x400 < 0x400) by (nonlinear_arith)
            requires
                0 <= u,
        ;
    }
}

/// A string without NUL characters encodes to UTF-16 without 0 units.
pub proof fn lemma_utf16_nonzero(s: Seq<char>)
    requires
        !s.contains('\0'),
    ensures
        !utf16(s).contains(0u16),
    decreases s.len(),
{
    if s.len() > 0 {
        lemma_utf16_of_char_nonzero(s[0]);
        assert(!s.drop_first().contains('\0')) by {
            if s.drop_first().contains('\0') {
                let k = choose|k: int| 0 <= k < s.drop_first().len() && s.drop_first()[k] == '\0';
                assert(s[k + 1] == '\0');
            }
        }
        lemma_utf16_nonzero(s.drop_first());
        let head = utf16_of_char(s[0]);
        let tail = utf16(s.drop_first());
        assert(utf16(s) == head + tail);
        if (head + tail).contains(0u16) {
            let k = choose|k: int| 0 <= k < (head + tail).len() && (head + tail)[k] == 0u16;
            if k < head.len() {
                assert(head[k] == 0u16);
            } else {
                assert(tail[k - head.len()] == 0u16);
            }
        }
    }
}

/// Law: the wide string of a string without NUL characters holds exactly one
/// 0 unit, its last one, so Win32 reads back the whole string.
pub proof fn lemma_wide_null_terminated_once(s: Seq<char>)
    requires
        !s.contains('\0'),
    ensures
        ({
            let w = utf16(s).push(0u16);
            &&& w.len() >= 1
            &&& w.last() == 0u16
            &&& forall|i: int| 0 <= i < w.len() - 1 ==> w[i] != 0u16
        }),
{
    lemma_utf16_nonzero(s);
    let w = utf16(s).push(0u16);
    assert forall|i: int| 0 <= i < w.len() - 1 implies w[i] != 0u16 by {
        assert(w[i] == utf16(s)[i]);
    }
}

} // verus!
