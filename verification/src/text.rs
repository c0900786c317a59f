//! Building and comparing text.
use vstd::prelude::*;

verus! {

/// One decimal digit as a character.
pub open spec fn digit_char(d: nat) -> char
    recommends
        d < 10,
{
    ('0' as nat + d) as char
}

/// The decimal numeral of `n`, without leading zeros.
pub open spec fn decimal(n: nat) -> Seq<char>
    decreases n,
{
    if n < 10 {
        seq![digit_char(n)]
    } else {
        decimal(n / 10).push(digit_char(n % 10))
    }
}

fn digit_text(d: u64) -> (r: &'static str)
    requires
        d < 10,
    ensures
        r@ == seq![digit_char(d as nat)],
{
    proof {
        reveal_strlit("0");
        reveal_strlit("1");
        reveal_strlit("2");
        reveal_strlit("3");
        reveal_strlit("4");
        reveal_strlit("5");
        reveal_strlit("6");
        reveal_strlit("7");
        reveal_strlit("8");
        reveal_strlit("9");
    }
    let r = match d {
        0 => "0",
        1 => "1",
        2 => "2",
        3 => "3",
        4 => "4",
        5 => "5",
        6 => "6",
        7 => "7",
        8 => "8",
        _ => "9",
    };
    assert(r@ =~= seq![digit_char(d as nat)]);
    r
}

/// Appends the decimal numeral of `n`.
pub fn push_decimal(out: &mut String, n: u64)
    ensures
        final(out)@ == old(out)@ + decimal(n as nat),
    decreases n,
{
    if n < 10 {
        out.append(digit_text(n));
    } else {
        push_decimal(out, n / 10);
        out.append(digit_text(n % 10));
        proof {
            assert(final(out)@ =~= old(out)@ + decimal(n as nat));
        }
    }
}

/// The ASCII lower-case form of a character; other characters are unchanged.
pub open spec fn ascii_lower(c: char) -> char {
    if 'A' <= c && c <= 'Z' {
        (c as nat + 32) as char
    } else {
        c
    }
}

/// Equality of texts up to ASCII case.
pub open spec fn equal_ignoring_ascii_case(a: Seq<char>, b: Seq<char>) -> bool {
    a.len() == b.len() && forall|i: int|
        #![trigger a[i]]
        #![trigger b[i]]
        0 <= i < a.len() ==> ascii_lower(a[i]) == ascii_lower(b[i])
}

fn to_ascii_lower(c: char) -> (r: u32)
    ensures
        r == ascii_lower(c) as u32,
{
    let code: u32 = c as u32;
    if 65 <= code && code <= 90 {
        code + 32
    } else {
        code
    }
}

/// Whether two texts are equal up to ASCII case.
pub fn eq_ignore_ascii_case(a: &str, b: &str) -> (r: bool)
    ensures
        r == equal_ignoring_ascii_case(a@, b@),
{
    let len: usize = a.unicode_len();
    if len != b.unicode_len() {
        return false;
    }
    let mut i: usize = 0;
    while i < len
        invariant
            len == a@.len(),
            len == b@.len(),
            i <= len,
            forall|j: int|
                #![trigger a@[j]]
                #![trigger b@[j]]
                0 <= j < i ==> ascii_lower(a@[j]) == ascii_lower(b@[j]),
        decreases len - i,
    {
        let x: char = a.get_char(i);
        let y: char = b.get_char(i);
        if to_ascii_lower(x) != to_ascii_lower(y) {
            assert(ascii_lower(a@[i as int]) != ascii_lower(b@[i as int]));
            return false;
        }
        i += 1;
    }
    true
}

/// Whether `prefix` opens `text`.
pub open spec fn opens_with(text: Seq<char>, prefix: Seq<char>) -> bool {
    prefix.len() <= text.len() && text.subrange(0, prefix.len() as int) == prefix
}

/// Whether `suffix` closes `text`.
pub open spec fn closes_with(text: Seq<char>, suffix: Seq<char>) -> bool {
    suffix.len() <= text.len() && text.subrange(text.len() - suffix.len(), text.len() as int)
        == suffix
}

/// Whether two texts hold the same characters.
pub fn same_text(a: &str, b: &str) -> (r: bool)
    ensures
        r == (a@ == b@),
{
    let left = a.to_owned();
    let right = b.to_owned();
    left == right
}

pub fn starts_with(text: &str, prefix: &str) -> (r: bool)
    ensures
        r == opens_with(text@, prefix@),
{
    let n: usize = prefix.unicode_len();
    if n > text.unicode_len() {
        return false;
    }
    same_text(text.substring_char(0, n), prefix)
}

pub fn ends_with(text: &str, suffix: &str) -> (r: bool)
    ensures
        r == closes_with(text@, suffix@),
{
    let n: usize = suffix.unicode_len();
    let len: usize = text.unicode_len();
    if n > len {
        return false;
    }
    same_text(text.substring_char(len - n, len), suffix)
}

/// The text with every line break replaced by `separator`.
pub open spec fn on_one_line(text: Seq<char>, separator: Seq<char>) -> Seq<char>
    decreases text.len(),
{
    if text.len() == 0 {
        seq![]
    } else {
        on_one_line(text.drop_last(), separator) + (if text.last() == '\n' {
            separator
        } else {
            seq![text.last()]
        })
    }
}

/// Puts a text on one line.
pub fn join_lines(text: &str, separator: &str) -> (r: String)
    ensures
        r@ == on_one_line(text@, separator@),
{
    let len: usize = text.unicode_len();
    let mut out = "".to_owned();
    proof {
        reveal_strlit("");
        assert(out@ =~= on_one_line(text@.take(0), separator@));
    }
    let mut i: usize = 0;
    while i < len
        invariant
            i <= len,
            len == text@.len(),
            out@ == on_one_line(text@.take(i as int), separator@),
        decreases len - i,
    {
        let c: char = text.get_char(i);
        proof {
            assert(text@.take(i + 1).drop_last() =~= text@.take(i as int));
            assert(text@.take(i + 1).last() == c);
        }
        if c == '\n' {
            out.append(separator);
        } else {
            let piece = text.substring_char(i, i + 1);
            assert(piece@ =~= seq![c]);
            out.append(piece);
        }
        i += 1;
    }
    assert(text@.take(i as int) =~= text@);
    out
}

/// The number that a decimal numeral stands for.
pub open spec fn numeral_value(text: Seq<char>) -> nat
    decreases text.len(),
{
    if text.len() == 0 {
        0
    } else {
        10 * numeral_value(text.drop_last()) + (text.last() as nat - '0' as nat) as nat
    }
}

/// A numeral reads as the number that it was made of, so two numbers never share
/// one; it has only digits, and leads with a zero for zero alone.
pub proof fn numerals_read_as_their_number(n: nat)
    ensures
        numeral_value(decimal(n)) == n,
        decimal(n).len() > 0,
        forall|i: int| 0 <= i < decimal(n).len() ==> '0' <= #[trigger] decimal(n)[i] <= '9',
        decimal(n)[0] == '0' ==> n == 0,
    decreases n,
{
    if n < 10 {
        assert(decimal(n).drop_last() =~= Seq::<char>::empty());
        reveal_with_fuel(numeral_value, 2);
    } else {
        numerals_read_as_their_number(n / 10);
        assert(decimal(n).drop_last() =~= decimal(n / 10));
        assert(decimal(n).last() == digit_char(n % 10));
        assert(decimal(n)[0] == decimal(n / 10)[0]);
        assert forall|i: int| 0 <= i < decimal(n).len() implies '0' <= #[trigger] decimal(n)[i]
            <= '9' by {
            if i < decimal(n / 10).len() {
                assert(decimal(n)[i] == decimal(n / 10)[i]);
            }
        }
    }
}

/// Only the Latin capitals have another lower-case form, 32 places on.
pub proof fn only_capitals_are_lowered(c: char)
    ensures
        'A' <= c <= 'Z' ==> ascii_lower(c) as nat == c as nat + 32,
        c < 'A' || 'Z' < c ==> ascii_lower(c) == c,
        ascii_lower(ascii_lower(c)) == ascii_lower(c),
{
}

/// Texts that differ at most in the case of their letters are equal, and texts of
/// different length never are.
pub proof fn case_does_not_matter(a: Seq<char>, b: Seq<char>)
    ensures
        equal_ignoring_ascii_case(a, a),
        equal_ignoring_ascii_case(a, a.map_values(|c: char| ascii_lower(c))),
        equal_ignoring_ascii_case(a, b) <==> equal_ignoring_ascii_case(b, a),
        a.len() != b.len() ==> !equal_ignoring_ascii_case(a, b),
        equal_ignoring_ascii_case(a, b) ==> a.map_values(|c: char| ascii_lower(c)) == b.map_values(
            |c: char| ascii_lower(c),
        ),
{
    if equal_ignoring_ascii_case(a, b) {
        assert(a.map_values(|c: char| ascii_lower(c)) =~= b.map_values(|c: char| ascii_lower(c)));
        assert forall|i: int| #![trigger b[i]] #![trigger a[i]]
            0 <= i < b.len() implies ascii_lower(b[i]) == ascii_lower(a[i]) by {}
    }
    if equal_ignoring_ascii_case(b, a) {
        assert forall|i: int| #![trigger a[i]] #![trigger b[i]]
            0 <= i < a.len() implies ascii_lower(a[i]) == ascii_lower(b[i]) by {}
    }
}

/// A text opens with what was put before the rest, and closes with what was put
/// behind it.
pub proof fn texts_open_and_close(head: Seq<char>, rest: Seq<char>, other: Seq<char>)
    ensures
        opens_with(head + rest, head),
        closes_with(head + rest, rest),
        opens_with(head + rest, other) && other.len() == head.len() ==> other == head,
        closes_with(head + rest, other) && other.len() == rest.len() ==> other == rest,
        other.len() > (head + rest).len() ==> !opens_with(head + rest, other) && !closes_with(
            head + rest,
            other,
        ),
{
    assert((head + rest).subrange(0, head.len() as int) =~= head);
    assert((head + rest).subrange(head.len() as int, (head + rest).len() as int) =~= rest);
}

/// A text is put on one line piece by piece: a line break becomes the separator, and
/// everything else stays.
pub proof fn line_breaks_become_separators(
    text: Seq<char>,
    separator: Seq<char>,
    next: char,
)
    ensures
        on_one_line(Seq::empty(), separator).len() == 0,
        next == '\n' ==> on_one_line(text.push(next), separator) == on_one_line(text, separator)
            + separator,
        next != '\n' ==> on_one_line(text.push(next), separator) == on_one_line(
            text,
            separator,
        ).push(next),
{
    assert(text.push(next).drop_last() =~= text);
    assert(on_one_line(text, separator) + seq![next] =~= on_one_line(text, separator).push(next));
}

} // verus!
