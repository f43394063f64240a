//! Operations on text, stated over the sequence of characters.

use vstd::prelude::*;

verus! {

/// `String::push`: the character is added at the end.
pub assume_specification[ std::string::String::push ](s: &mut std::string::String, c: char)
    ensures
        final(s)@ == old(s)@.push(c),
;

/// Whether two string slices hold the same characters.
pub(crate) fn same(a: &str, b: &str) -> (r: bool)
    ensures
        r == (a@ == b@),
{
    a.to_string() == b.to_string()
}

/// What an optional string holds.
pub open spec fn opt_view(s: Option<String>) -> Option<Seq<char>> {
    match s {
        Some(string) => Some(string@),
        None => None,
    }
}

/// What an optional string slice holds.
pub open spec fn ref_view(s: Option<&str>) -> Option<Seq<char>> {
    match s {
        Some(string) => Some(string@),
        None => None,
    }
}

/// The characters of `s`.
pub fn characters(s: &str) -> (chars: Vec<char>)
    ensures
        chars@ == s@,
{
    let mut chars: Vec<char> = Vec::new();
    for c in it: s.chars()
        invariant
            chars@ == s@.take(it.index() as int),
            it.seq() == s@,
    {
        chars.push(c);
        assert(chars@ =~= s@.take(it.index() as int + 1));
    }
    assert(s@.take(s@.len() as int) =~= s@);
    chars
}

/// The character that writes the digit `d`.
pub open spec fn digit(d: int) -> char
    recommends
        0 <= d < 10,
{
    ('0' as int + d) as char
}

/// The decimal notation of `n`, without leading zeros.
pub open spec fn decimal_text(n: nat) -> Seq<char>
    decreases n,
{
    if n < 10 {
        seq![digit(n as int)]
    } else {
        decimal_text(n / 10).push(digit((n % 10) as int))
    }
}

/// The decimal notation of an integer, with a minus sign where it is negative.
pub open spec fn integer_text(n: int) -> Seq<char> {
    if n < 0 {
        seq!['-'] + decimal_text((-n) as nat)
    } else {
        decimal_text(n as nat)
    }
}

/// Writes `n` in decimal.
pub fn decimal(n: u64) -> (s: String)
    ensures
        s@ == decimal_text(n as nat),
    decreases n,
{
    let last: u8 = (n % 10) as u8;
    let c = (48u8 + last) as char;
    assert(c == digit((n % 10) as int));
    if n < 10 {
        let mut s = String::new();
        s.push(c);
        assert(s@ =~= seq![digit(n as int)]);
        s
    } else {
        let mut s = decimal(n / 10);
        s.push(c);
        s
    }
}

/// Writes `n` in decimal, with its sign.
pub fn integer(n: i64) -> (s: String)
    ensures
        s@ == integer_text(n as int),
{
    if n < 0 {
        let magnitude: u64 = (-(n as i128)) as u64;
        let mut s = String::new();
        s.push('-');
        s.append(decimal(magnitude).as_str());
        assert(s@ =~= seq!['-'] + decimal_text((-(n as int)) as nat));
        s
    } else {
        decimal(n as u64)
    }
}

/// Whether `s` begins with `prefix`.
pub open spec fn has_prefix(s: Seq<char>, prefix: Seq<char>) -> bool {
    prefix.len() <= s.len() && s.take(prefix.len() as int) == prefix
}

/// Tells whether `s` begins with `prefix`.
pub fn starts_with(s: &str, prefix: &str) -> (r: bool)
    ensures
        r == has_prefix(s@, prefix@),
{
    let n: usize = prefix.unicode_len();
    n <= s.unicode_len() && same(s.substring_char(0, n), prefix)
}

/// What follows `prefix` in `s`; nothing where `s` does not begin with it.
pub fn strip_prefix<'a>(s: &'a str, prefix: &str) -> (r: Option<&'a str>)
    ensures
        r is Some <==> has_prefix(s@, prefix@),
        r matches Some(rest) ==> rest@ == s@.skip(prefix@.len() as int),
{
    if starts_with(s, prefix) {
        let rest = s.substring_char(prefix.unicode_len(), s.unicode_len());
        assert(rest@ =~= s@.skip(prefix@.len() as int));
        Some(rest)
    } else {
        None
    }
}

/// Whether `a` comes before `b` in the order of strings: at the first place where they differ `a` has
/// the smaller character, or `a` ends there.
pub open spec fn precedes(a: Seq<char>, b: Seq<char>) -> bool {
    exists|k: int| parts_at(a, b, k)
}

/// `a` and `b` agree in the first `k` characters, and there `a` ends or has the smaller character.
pub open spec fn parts_at(a: Seq<char>, b: Seq<char>, k: int) -> bool {
    &&& 0 <= k <= a.len()
    &&& k < b.len()
    &&& a.take(k) == b.take(k)
    &&& k < a.len() ==> (a[k] as int) < (b[k] as int)
}

/// The small letter for a capital ASCII letter; any other character itself.
pub open spec fn lower_char(c: char) -> char {
    if 'A' <= c && c <= 'Z' {
        (c as int + 32) as char
    } else {
        c
    }
}

/// `s` with its capital ASCII letters made small.
pub open spec fn lower(s: Seq<char>) -> Seq<char> {
    s.map_values(|c: char| lower_char(c))
}

/// Makes the capital ASCII letters of `s` small.
pub fn lowercase(s: &str) -> (r: String)
    ensures
        r@ == lower(s@),
{
    let mut r = String::new();
    for c in it: s.chars()
        invariant
            r@ == lower(s@.take(it.index() as int)),
            it.seq() == s@,
    {
        let small = if 'A' <= c && c <= 'Z' {
            (c as u8 + 32) as char
        } else {
            c
        };
        assert(small == lower_char(c));
        r.push(small);
        assert(r@ =~= lower(s@.take(it.index() as int + 1)));
    }
    assert(s@.take(s@.len() as int) =~= s@);
    r
}

/// The characters that Unicode counts as white space.
pub open spec fn white_space(c: char) -> bool {
    let n = c as int;
    ||| 0x9 <= n <= 0xd
    ||| n == 0x20
    ||| n == 0x85
    ||| n == 0xa0
    ||| n == 0x1680
    ||| 0x2000 <= n <= 0x200a
    ||| n == 0x2028
    ||| n == 0x2029
    ||| n == 0x202f
    ||| n == 0x205f
    ||| n == 0x3000
}

/// `s` without the white space at its beginning.
pub open spec fn trimmed_start(s: Seq<char>) -> Seq<char>
    decreases s.len(),
{
    if s.len() > 0 && white_space(s[0]) {
        trimmed_start(s.skip(1))
    } else {
        s
    }
}

/// `s` without the white space at its end.
pub open spec fn trimmed_end(s: Seq<char>) -> Seq<char>
    decreases s.len(),
{
    if s.len() > 0 && white_space(s.last()) {
        trimmed_end(s.drop_last())
    } else {
        s
    }
}

/// `s` without the white space around it.
pub open spec fn trimmed(s: Seq<char>) -> Seq<char> {
    trimmed_end(trimmed_start(s))
}

fn is_white_space(c: char) -> (r: bool)
    ensures
        r == white_space(c),
{
    let n: u32 = c as u32;
    (0x9 <= n && n <= 0xd) || n == 0x20 || n == 0x85 || n == 0xa0 || n == 0x1680 || (0x2000 <= n
        && n <= 0x200a) || n == 0x2028 || n == 0x2029 || n == 0x202f || n == 0x205f || n == 0x3000
}

/// Takes the white space around `s` away.
pub fn trim(s: &str) -> (r: &str)
    ensures
        r@ == trimmed(s@),
{
    let chars = characters(s);
    let mut end: usize = chars.len();
    let mut start: usize = 0;
    assert(s@.skip(0) =~= s@);
    while start < end && is_white_space(chars[start])
        invariant
            start <= end,
            end == chars.len(),
            chars@ == s@,
            trimmed_start(s@.skip(start as int)) == trimmed_start(s@),
        decreases end - start,
    {
        assert(s@.skip(start as int).skip(1) =~= s@.skip(start + 1));
        start = start + 1;
    }
    let ghost rest = s@.skip(start as int);
    assert(trimmed_start(s@) == rest);
    assert(rest =~= s@.subrange(start as int, end as int));
    while start < end && is_white_space(chars[end - 1])
        invariant
            start <= end <= chars.len(),
            chars@ == s@,
            trimmed_end(s@.subrange(start as int, end as int)) == trimmed_end(rest),
        decreases end,
    {
        assert(s@.subrange(start as int, end as int).drop_last() =~= s@.subrange(
            start as int,
            end - 1,
        ));
        end = end - 1;
    }
    s.substring_char(start, end)
}

/// Whether `s` stays in one line.
pub open spec fn one_line(s: Seq<char>) -> bool {
    forall|i: int| 0 <= i < s.len() ==> #[trigger] s[i] != '\n'
}

/// `s` without its hyphens.
pub open spec fn unhyphenated(s: Seq<char>) -> Seq<char>
    decreases s.len(),
{
    if s.len() == 0 {
        s
    } else if s.last() == '-' {
        unhyphenated(s.drop_last())
    } else {
        unhyphenated(s.drop_last()).push(s.last())
    }
}

/// Takes the hyphens out of `s`.
pub fn remove_hyphens(s: &str) -> (r: String)
    ensures
        r@ == unhyphenated(s@),
{
    let chars = characters(s);
    let mut r = String::new();
    let mut i: usize = 0;
    assert(r@ =~= unhyphenated(s@.take(0)));
    while i < chars.len()
        invariant
            i <= chars.len(),
            chars@ == s@,
            r@ == unhyphenated(s@.take(i as int)),
        decreases chars.len() - i,
    {
        let c = chars[i];
        assert(s@.take(i + 1).drop_last() =~= s@.take(i as int));
        if c != '-' {
            r.push(c);
        }
        i = i + 1;
    }
    assert(s@.take(s@.len() as int) =~= s@);
    r
}

/// The parts one after another, with `separator` between neighbours.
pub open spec fn joined(parts: Seq<Seq<char>>, separator: Seq<char>) -> Seq<char>
    decreases parts.len(),
{
    if parts.len() == 0 {
        Seq::empty()
    } else if parts.len() == 1 {
        parts[0]
    } else {
        joined(parts.drop_last(), separator) + separator + parts.last()
    }
}

/// What the strings of a list hold.
pub open spec fn texts(parts: Seq<String>) -> Seq<Seq<char>> {
    parts.map_values(|s: String| s@)
}

/// Joins `parts` with `separator`.
pub fn join(parts: &Vec<String>, separator: &str) -> (r: String)
    ensures
        r@ == joined(texts(parts@), separator@),
{
    let mut r = String::new();
    let ghost all = texts(parts@);
    let mut i: usize = 0;
    while i < parts.len()
        invariant
            i <= parts.len(),
            all == texts(parts@),
            r@ == joined(all.take(i as int), separator@),
        decreases parts.len() - i,
    {
        if i > 0 {
            r.append(separator);
        }
        r.append(parts[i].as_str());
        i = i + 1;
        proof {
            let now = all.take(i as int);
            assert(now.drop_last() =~= all.take(i - 1));
            if i == 1 {
                assert(r@ =~= now[0]);
            }
        }
    }
    assert(all.take(all.len() as int) =~= all);
    r
}

/// Capital ASCII letters become the small ones, and every other character stays where it is.
pub proof fn law_lowercase(s: &str, small: String, chars: Vec<char>)
    requires
        call_ensures(lowercase, (s,), small),
        call_ensures(characters, (s,), chars),
    ensures
        chars@ == s@,
        small@.len() == s@.len(),
        forall|i: int|
            0 <= i < s@.len() ==> #[trigger] small@[i] == (if 'A' <= s@[i] && s@[i] <= 'Z' {
                (s@[i] as int + 32) as char
            } else {
                s@[i]
            }),
{
}

/// A digit is written as itself, a longer number as what is before its last digit and that digit,
/// and a negative number as its magnitude after a minus sign.
pub proof fn law_numbers_are_written(
    n: u64,
    written: String,
    shorter: String,
    last: String,
    m: i64,
    signed: String,
    magnitude: String,
)
    requires
        call_ensures(decimal, (n,), written),
        call_ensures(decimal, (n / 10,), shorter),
        call_ensures(decimal, (n % 10,), last),
        call_ensures(integer, (m,), signed),
        call_ensures(
            decimal,
            ((if m < 0 {
                -(m as int)
            } else {
                m as int
            }) as u64,),
            magnitude,
        ),
    ensures
        last@.len() == 1,
        last@[0] as int == '0' as int + (n % 10) as int,
        n < 10 ==> written@ == last@,
        n >= 10 ==> written@ == shorter@ + last@,
        m >= 0 ==> signed@ == magnitude@,
        m < 0 ==> signed@ == seq!['-'] + magnitude@,
{
    if n >= 10 {
        assert(written@ =~= shorter@ + last@);
    }
}

/// A text begins with a prefix exactly where it is the prefix and what follows it.
pub proof fn law_prefixes(
    s: &str,
    prefix: &str,
    rest: Seq<char>,
    begins: bool,
    stripped: Option<&str>,
)
    requires
        call_ensures(starts_with, (s, prefix), begins),
        call_ensures(strip_prefix, (s, prefix), stripped),
    ensures
        begins == stripped is Some,
        stripped matches Some(tail) ==> s@ == prefix@ + tail@,
        s@ == prefix@ + rest ==> (stripped matches Some(tail) && tail@ == rest),
{
    if begins {
        assert(s@ =~= s@.take(prefix@.len() as int) + s@.skip(prefix@.len() as int));
    }
    if s@ == prefix@ + rest {
        assert(s@.take(prefix@.len() as int) =~= prefix@);
        assert(s@.skip(prefix@.len() as int) =~= rest);
    }
}

proof fn lemma_trimmed_start(s: Seq<char>)
    ensures
        trimmed_start(s).len() <= s.len(),
        trimmed_start(s) == s.skip(s.len() - trimmed_start(s).len()),
        forall|i: int|
            0 <= i < s.len() - trimmed_start(s).len() ==> white_space(#[trigger] s[i]),
        trimmed_start(s).len() > 0 ==> !white_space(trimmed_start(s)[0]),
    decreases s.len(),
{
    let rest = trimmed_start(s);
    if s.len() > 0 && white_space(s[0]) {
        let tail = s.skip(1);
        lemma_trimmed_start(tail);
        assert(rest =~= s.skip(s.len() - rest.len()));
        assert forall|i: int| 0 <= i < s.len() - rest.len() implies white_space(#[trigger] s[i]) by {
            if i > 0 {
                assert(tail[i - 1] == s[i]);
            }
        }
    } else {
        assert(s.skip(0) =~= s);
    }
}

proof fn lemma_trimmed_end(s: Seq<char>)
    ensures
        trimmed_end(s).len() <= s.len(),
        trimmed_end(s) == s.take(trimmed_end(s).len() as int),
        forall|i: int| trimmed_end(s).len() <= i < s.len() ==> white_space(#[trigger] s[i]),
        trimmed_end(s).len() > 0 ==> !white_space(trimmed_end(s).last()),
    decreases s.len(),
{
    let rest = trimmed_end(s);
    if s.len() > 0 && white_space(s.last()) {
        let head = s.drop_last();
        lemma_trimmed_end(head);
        assert(rest =~= s.take(rest.len() as int));
        assert forall|i: int| rest.len() <= i < s.len() implies white_space(#[trigger] s[i]) by {
            if i < head.len() {
                assert(head[i] == s[i]);
            }
        }
    } else {
        assert(s.take(s.len() as int) =~= s);
    }
}

/// What is trimmed off a text is white space at its beginning and its end, and all of it; spaces,
/// tabs and line breaks are white space, and no printable character of ASCII is.
pub proof fn law_trimming(s: &str, core: &str)
    requires
        call_ensures(trim, (s,), core),
    ensures
        exists|a: int, b: int|
            0 <= a <= b <= s@.len() && core@ == #[trigger] s@.subrange(a, b) && (forall|i: int|
                0 <= i < a || b <= i < s@.len() ==> white_space(#[trigger] s@[i])),
        core@.len() > 0 ==> !white_space(core@[0]) && !white_space(core@.last()),
        white_space(' ') && white_space('\t') && white_space('\n') && white_space('\r'),
        forall|c: char| 0x21 <= c as int <= 0x7e ==> !#[trigger] white_space(c),
{
    let start = trimmed_start(s@);
    lemma_trimmed_start(s@);
    lemma_trimmed_end(start);
    let a = s@.len() - start.len();
    let b = a + core@.len();
    assert(core@ =~= s@.subrange(a, b));
    assert forall|i: int| 0 <= i < a || b <= i < s@.len() implies white_space(#[trigger] s@[i]) by {
        if b <= i {
            assert(start[i - a] == s@[i]);
        }
    }
    if core@.len() > 0 {
        assert(core@[0] == start[0]);
    }
}

proof fn lemma_unhyphenated_parts(a: Seq<char>, b: Seq<char>)
    ensures
        unhyphenated(a + b) == unhyphenated(a) + unhyphenated(b),
    decreases b.len(),
{
    if b.len() == 0 {
        assert(a + b =~= a);
        assert(unhyphenated(a) + unhyphenated(b) =~= unhyphenated(a));
    } else {
        assert((a + b).drop_last() =~= a + b.drop_last());
        lemma_unhyphenated_parts(a, b.drop_last());
        assert(unhyphenated(a + b) =~= unhyphenated(a) + unhyphenated(b));
    }
}

/// The hyphens of a text are taken out wherever they stand, and nothing else is: what was around
/// them stands together.
pub proof fn law_hyphens_are_taken_out(
    whole: &str,
    first: &str,
    second: &str,
    r: String,
    a: String,
    b: String,
)
    requires
        whole@ == first@ + seq!['-'] + second@,
        call_ensures(remove_hyphens, (whole,), r),
        call_ensures(remove_hyphens, (first,), a),
        call_ensures(remove_hyphens, (second,), b),
    ensures
        r@ == a@ + b@,
        (forall|i: int| 0 <= i < first@.len() ==> #[trigger] first@[i] != '-') ==> a@ == first@,
{
    lemma_unhyphenated_parts(first@ + seq!['-'], second@);
    assert((first@ + seq!['-']).drop_last() =~= first@);
    if forall|i: int| 0 <= i < first@.len() ==> #[trigger] first@[i] != '-' {
        lemma_unhyphenated_already(first@);
    }
}

proof fn lemma_unhyphenated_already(s: Seq<char>)
    requires
        forall|i: int| 0 <= i < s.len() ==> #[trigger] s[i] != '-',
    ensures
        unhyphenated(s) == s,
    decreases s.len(),
{
    if s.len() > 0 {
        let rest = s.drop_last();
        assert forall|i: int| 0 <= i < rest.len() implies #[trigger] rest[i] != '-' by {
            assert(rest[i] == s[i]);
        }
        lemma_unhyphenated_already(rest);
        assert(s[s.len() - 1] != '-');
        assert(rest.push(s.last()) =~= s);
    }
}

/// Parts are joined in their order, with the separator between neighbours and nowhere else.
pub proof fn law_joining(
    parts: &Vec<String>,
    more: &Vec<String>,
    last: String,
    separator: &str,
    joined_parts: String,
    joined_more: String,
)
    requires
        more@ == parts@.push(last),
        call_ensures(join, (parts, separator), joined_parts),
        call_ensures(join, (more, separator), joined_more),
    ensures
        parts@.len() == 0 ==> joined_parts@.len() == 0 && joined_more@ == last@,
        parts@.len() > 0 ==> joined_more@ == joined_parts@ + separator@ + last@,
{
    let all = texts(more@);
    assert(all.drop_last() =~= texts(parts@));
    assert(all.last() == last@);
    if parts@.len() == 0 {
        assert(all[0] == last@);
    }
}

/// An optional text holds what the text holds, and a list what its texts hold, one by one.
pub proof fn law_texts_are_those_of_the_parts(s: String, slice: &str, parts: Seq<String>, i: int)
    ensures
        opt_view(Some(s)) == Some(s@),
        opt_view(None) is None,
        ref_view(Some(slice)) == Some(slice@),
        ref_view(None) is None,
        texts(parts).len() == parts.len(),
        0 <= i < parts.len() ==> texts(parts)[i] == parts[i]@,
{
}

/// Joining two lists of parts puts the separator between what each of them comes to.
pub(crate) proof fn lemma_joined_parts(a: Seq<Seq<char>>, b: Seq<Seq<char>>, separator: Seq<char>)
    requires
        a.len() > 0,
        b.len() > 0,
    ensures
        joined(a + b, separator) == joined(a, separator) + separator + joined(
            b,
            separator,
        ),
    decreases b.len(),
{
    assert((a + b).drop_last() =~= a + b.drop_last());
    assert((a + b).last() == b.last());
    if b.len() == 1 {
        assert(a + b.drop_last() =~= a);
        assert(b[0] == b.last());
    } else {
        lemma_joined_parts(a, b.drop_last(), separator);
        assert(joined(a + b, separator) =~= joined(a, separator) + separator
            + joined(b, separator));
    }
}

} // verus!
