//! Fresh identifiers.

use crate::text;
use vstd::prelude::*;

verus! {

/// A digit of hexadecimal notation in small letters.
pub open spec fn hex_digit(c: char) -> bool {
    ('0' <= c && c <= '9') || ('a' <= c && c <= 'f')
}

/// Hexadecimal notation in small letters.
pub open spec fn hex_text(s: Seq<char>) -> bool {
    forall|i: int| 0 <= i < s.len() ==> hex_digit(#[trigger] s[i])
}

/// The hyphenated notation of a UUID: 36 characters, with hyphens in four places and hexadecimal
/// digits in small letters in the others.
pub open spec fn uuid_text(s: Seq<char>) -> bool {
    &&& s.len() == 36
    &&& forall|i: int|
        0 <= i < 36 ==> if i == 8 || i == 13 || i == 18 || i == 23 {
            #[trigger] s[i] == '-'
        } else {
            hex_digit(s[i])
        }
}

/// `uuid::Uuid::new_v4`, in the hyphenated notation of its `Display`. The value is random.
#[verifier::external_body]
pub(crate) fn fresh_uuid() -> (id: String)
    ensures
        uuid_text(id@),
{
    uuid::Uuid::new_v4().to_string()
}

/// `uuid::Uuid::new_v4` in the notation of `simple`: 32 hexadecimal digits in small letters. The
/// value is random.
#[verifier::external_body]
fn fresh_simple_uuid() -> (id: String)
    ensures
        id@.len() == 32,
        hex_text(id@),
{
    uuid::Uuid::new_v4().simple().to_string()
}

/// A fresh span id: 16 hexadecimal digits.
pub fn fresh_span_id() -> (id: String)
    ensures
        id@.len() == 16,
        hex_text(id@),
{
    let whole = fresh_simple_uuid();
    let id = whole.as_str().substring_char(0, 16).to_string();
    assert forall|i: int| 0 <= i < id@.len() implies hex_digit(#[trigger] id@[i]) by {
        assert(id@[i] == whole@[i]);
    }
    id
}

/// Whether `s` is hexadecimal notation in small letters.
pub fn is_hex(s: &str) -> (r: bool)
    ensures
        r == hex_text(s@),
{
    let chars = text::characters(s);
    let mut i: usize = 0;
    while i < chars.len()
        invariant
            i <= chars.len(),
            chars@ == s@,
            forall|j: int| 0 <= j < i ==> hex_digit(#[trigger] s@[j]),
        decreases chars.len() - i,
    {
        let c = chars[i];
        if !(('0' <= c && c <= '9') || ('a' <= c && c <= 'f')) {
            assert(!hex_digit(s@[i as int]));
            return false;
        }
        i = i + 1;
    }
    true
}

/// Hexadecimal notation in small letters is told from everything else, character by character.
pub proof fn law_hexadecimal_notation(s: &str, hex: bool, span: String)
    requires
        call_ensures(is_hex, (s,), hex),
        call_ensures(fresh_span_id, (), span),
    ensures
        hex <==> forall|i: int|
            0 <= i < s@.len() ==> ('0' <= #[trigger] s@[i] && s@[i] <= '9') || ('a' <= s@[i]
                && s@[i] <= 'f'),
        span@.len() == 16,
        forall|i: int|
            0 <= i < 16 ==> ('0' <= #[trigger] span@[i] && span@[i] <= '9') || ('a' <= span@[i]
                && span@[i] <= 'f'),
{
    if hex {
        assert forall|i: int| 0 <= i < s@.len() implies ('0' <= #[trigger] s@[i] && s@[i] <= '9')
            || ('a' <= s@[i] && s@[i] <= 'f') by {
            assert(hex_digit(s@[i]));
        }
    }
    assert forall|i: int| 0 <= i < 16 implies ('0' <= #[trigger] span@[i] && span@[i] <= '9') || (
    'a' <= span@[i] && span@[i] <= 'f') by {
        assert(hex_digit(span@[i]));
    }
}

/// A UUID has 36 characters: hyphens after the eighth, twelfth, sixteenth and twentieth digit, and
/// digits everywhere else.
pub proof fn law_uuid_notation(s: Seq<char>, i: int)
    requires
        uuid_text(s),
    ensures
        s.len() == 36,
        s[8] == '-' && s[13] == '-' && s[18] == '-' && s[23] == '-',
        0 <= i < 36 && i != 8 && i != 13 && i != 18 && i != 23 ==> ('0' <= s[i] && s[i] <= '9') || (
        'a' <= s[i] && s[i] <= 'f'),
{
    assert(s[8] == '-' && s[13] == '-' && s[18] == '-' && s[23] == '-');
    if 0 <= i < 36 && i != 8 && i != 13 && i != 18 && i != 23 {
        assert(s[i] == s[i]);
        assert(hex_digit(s[i]));
    }
}

} // verus!
