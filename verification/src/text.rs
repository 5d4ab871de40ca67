//! Small text helpers shared by the emitters and the report renderers.

use vstd::prelude::*;
use vstd::string::*;

verus! {

/// `String::push` of the standard library: the character is appended to the
/// end of the string, and nothing else changes.
#[verifier::external_body]
pub(crate) fn push_char(s: &mut String, c: char)
    ensures
        final(s)@ == old(s)@.push(c),
{
    s.push(c)
}

/// The texts of a sequence of strings.
pub open spec fn texts_of(strings: Seq<String>) -> Seq<Seq<char>> {
    Seq::new(strings.len(), |i: int| strings[i]@)
}

/// The character that writes the decimal digit `d`.
pub open spec fn digit_char(d: nat) -> char {
    if d == 0 {
        '0'
    } else if d == 1 {
        '1'
    } else if d == 2 {
        '2'
    } else if d == 3 {
        '3'
    } else if d == 4 {
        '4'
    } else if d == 5 {
        '5'
    } else if d == 6 {
        '6'
    } else if d == 7 {
        '7'
    } else if d == 8 {
        '8'
    } else {
        '9'
    }
}

/// The decimal numeral of `n`, without sign or leading zeros.
pub open spec fn decimal(n: nat) -> Seq<char>
    decreases n,
{
    if n < 10 {
        seq![digit_char(n)]
    } else {
        decimal(n / 10).push(digit_char(n % 10))
    }
}

/// `count` copies of `unit`, one after the other.
pub open spec fn repeat(unit: Seq<char>, count: nat) -> Seq<char>
    decreases count,
{
    if count == 0 {
        Seq::empty()
    } else {
        repeat(unit, (count - 1) as nat) + unit
    }
}

/// `text` followed by as many spaces as it takes to reach `width` characters.
pub open spec fn pad_right(text: Seq<char>, width: nat) -> Seq<char> {
    if text.len() >= width {
        text
    } else {
        text + repeat(seq![' '], (width - text.len()) as nat)
    }
}

/// `text` preceded by as many spaces as it takes to reach `width` characters.
pub open spec fn pad_left(text: Seq<char>, width: nat) -> Seq<char> {
    if text.len() >= width {
        text
    } else {
        repeat(seq![' '], (width - text.len()) as nat) + text
    }
}

/// Two texts that end alike and are equal begin alike.
pub proof fn lemma_cancel_suffix(first: Seq<char>, second: Seq<char>, tail: Seq<char>)
    requires
        first + tail == second + tail,
    ensures
        first == second,
{
    assert((first + tail).len() == first.len() + tail.len());
    assert((second + tail).len() == second.len() + tail.len());
    assert(first =~= (first + tail).subrange(0, first.len() as int));
    assert(second =~= (second + tail).subrange(0, second.len() as int));
}

/// A text has one last separator: two texts that are equal, each split at a
/// separator that does not come again behind it, are split alike.
pub proof fn lemma_split_at_last(
    first_head: Seq<char>,
    first_tail: Seq<char>,
    second_head: Seq<char>,
    second_tail: Seq<char>,
    separator: char,
)
    requires
        first_head.push(separator) + first_tail == second_head.push(separator) + second_tail,
        !first_tail.contains(separator),
        !second_tail.contains(separator),
    ensures
        first_head == second_head,
        first_tail == second_tail,
{
    let first = first_head.push(separator) + first_tail;
    let second = second_head.push(separator) + second_tail;
    assert(first.len() == first_head.len() + 1 + first_tail.len());
    assert(second.len() == second_head.len() + 1 + second_tail.len());
    if first_head.len() < second_head.len() {
        // the separator of the second text lies in the tail of the first
        let at = second_head.len() as int;
        assert(second[at] == separator);
        assert(first[at] == first_tail[at - first_head.len() - 1]);
        assert(first_tail.contains(separator));
    } else if second_head.len() < first_head.len() {
        let at = first_head.len() as int;
        assert(first[at] == separator);
        assert(second[at] == second_tail[at - second_head.len() - 1]);
        assert(second_tail.contains(separator));
    } else {
        let cut = first_head.len() as int;
        assert(first_head =~= first.subrange(0, cut));
        assert(second_head =~= second.subrange(0, cut));
        assert(first_tail =~= first.subrange(cut + 1, first.len() as int));
        assert(second_tail =~= second.subrange(cut + 1, second.len() as int));
    }
}

/// A numeral has a digit at least, and nothing but digits.
pub proof fn lemma_decimal_digits(n: nat)
    ensures
        decimal(n).len() >= 1,
        forall|i: int|
            0 <= i < decimal(n).len() ==> exists|d: nat|
                d < 10 && #[trigger] decimal(n)[i] == digit_char(d),
        !decimal(n).contains('_'),
    decreases n,
{
    if n < 10 {
        assert(decimal(n)[0] == digit_char(n));
    } else {
        lemma_decimal_digits(n / 10);
        assert forall|i: int| 0 <= i < decimal(n).len() implies exists|d: nat|
            d < 10 && #[trigger] decimal(n)[i] == digit_char(d) by {
            if i == decimal(n).len() - 1 {
                assert(decimal(n)[i] == digit_char(n % 10));
            } else {
                assert(decimal(n)[i] == decimal(n / 10)[i]);
            }
        }
    }
    assert forall|i: int| 0 <= i < decimal(n).len() implies decimal(n)[i] != '_' by {
        let d = choose|d: nat| d < 10 && #[trigger] decimal(n)[i] == digit_char(d);
    }
}

/// Numbers that are written alike are equal.
pub proof fn lemma_decimal_injective(first: nat, second: nat)
    requires
        decimal(first) == decimal(second),
    ensures
        first == second,
    decreases first,
{
    lemma_decimal_digits(first / 10);
    lemma_decimal_digits(second / 10);
    if first < 10 && second < 10 {
        assert(decimal(first)[0] == digit_char(first));
        assert(decimal(second)[0] == digit_char(second));
    } else if first >= 10 && second >= 10 {
        let head = decimal(first / 10);
        let other = decimal(second / 10);
        assert(decimal(first).last() == digit_char(first % 10));
        assert(decimal(second).last() == digit_char(second % 10));
        assert(head =~= decimal(first).drop_last());
        assert(other =~= decimal(second).drop_last());
        lemma_decimal_injective(first / 10, second / 10);
    } else if first < 10 {
        assert(decimal(first).len() == 1);
        assert(decimal(second).len() == decimal(second / 10).len() + 1);
    } else {
        assert(decimal(second).len() == 1);
        assert(decimal(first).len() == decimal(first / 10).len() + 1);
    }
}

fn digit(d: u64) -> (c: char)
    requires
        d < 10,
    ensures
        c == digit_char(d as nat),
{
    if d == 0 {
        '0'
    } else if d == 1 {
        '1'
    } else if d == 2 {
        '2'
    } else if d == 3 {
        '3'
    } else if d == 4 {
        '4'
    } else if d == 5 {
        '5'
    } else if d == 6 {
        '6'
    } else if d == 7 {
        '7'
    } else if d == 8 {
        '8'
    } else {
        '9'
    }
}

/// Appends the decimal numeral of `n` to `out`.
pub fn push_decimal(out: &mut String, n: u64)
    ensures
        final(out)@ == old(out)@ + decimal(n as nat),
    decreases n,
{
    if n >= 10 {
        push_decimal(out, n / 10);
    }
    push_char(out, digit(n % 10));
    proof {
        if n >= 10 {
            assert(old(out)@ + decimal(n as nat) =~= (old(out)@ + decimal((n / 10) as nat)).push(
                digit_char((n % 10) as nat),
            ));
        } else {
            assert(old(out)@ + decimal(n as nat) =~= old(out)@.push(digit_char(n as nat)));
        }
    }
}

/// Appends `count` copies of `unit` to `out`.
pub fn push_repeated(out: &mut String, unit: &str, count: usize)
    ensures
        final(out)@ == old(out)@ + repeat(unit@, count as nat),
{
    let mut done: usize = 0;
    while done < count
        invariant
            done <= count,
            out@ == old(out)@ + repeat(unit@, done as nat),
        decreases count - done,
    {
        out.append(unit);
        done = done + 1;
        assert(out@ =~= old(out)@ + repeat(unit@, done as nat));
    }
}

/// Appends `text`, padded with spaces on the right to `width` characters.
pub fn push_padded_right(out: &mut String, text: &str, width: usize)
    ensures
        final(out)@ == old(out)@ + pad_right(text@, width as nat),
{
    let len: usize = text.unicode_len();
    out.append(text);
    if len < width {
        push_repeated(out, " ", width - len);
        proof {
            reveal_strlit(" ");
            assert(" "@ =~= seq![' ']);
            assert(out@ =~= old(out)@ + pad_right(text@, width as nat));
        }
    }
}

/// Appends `text`, padded with spaces on the left to `width` characters.
pub fn push_padded_left(out: &mut String, text: &str, width: usize)
    ensures
        final(out)@ == old(out)@ + pad_left(text@, width as nat),
{
    let len: usize = text.unicode_len();
    if len < width {
        push_repeated(out, " ", width - len);
        proof {
            reveal_strlit(" ");
            assert(" "@ =~= seq![' ']);
        }
    }
    out.append(text);
    assert(out@ =~= old(out)@ + pad_left(text@, width as nat));
}

/// Whether two string slices hold the same characters.
pub fn str_eq(a: &str, b: &str) -> (same: bool)
    ensures
        same == (a@ == b@),
{
    String::from_str(a) == String::from_str(b)
}

} // verus!
