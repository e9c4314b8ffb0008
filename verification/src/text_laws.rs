//! What the text helpers keep of a text, and how numbers and bytes are read back from theirs.
use vstd::prelude::*;

use crate::text::{
    ascii_lowered, decimal, first_chars, hex, joined, occurs_in, signed_decimal, text_or_empty,
    trimmed, trimmed_end, trimmed_start, white_space,
};

verus! {

/// Whether every character of a text is white space.
pub open spec fn is_blank(text: Seq<char>) -> bool {
    forall|i: int| 0 <= i < text.len() ==> white_space(#[trigger] text[i])
}

proof fn start_is_cut(text: Seq<char>) -> (from: int)
    ensures
        0 <= from <= text.len(),
        trimmed_start(text) == text.skip(from),
        is_blank(text.take(from)),
        from < text.len() ==> !white_space(text[from]),
    decreases text.len(),
{
    if text.len() > 0 && white_space(text.first()) {
        let rest = text.drop_first();
        let from = start_is_cut(rest);
        assert(rest.skip(from) =~= text.skip(from + 1));
        assert forall|i: int| 0 <= i < from + 1 implies white_space(
            #[trigger] text.take(from + 1)[i],
        ) by {
            if i > 0 {
                assert(rest.take(from)[i - 1] == text[i]);
            }
        }
        from + 1
    } else {
        assert(text.skip(0) =~= text);
        0
    }
}

proof fn end_is_cut(text: Seq<char>) -> (to: int)
    ensures
        0 <= to <= text.len(),
        trimmed_end(text) == text.take(to),
        is_blank(text.skip(to)),
        to > 0 ==> !white_space(text[to - 1]),
    decreases text.len(),
{
    if text.len() > 0 && white_space(text.last()) {
        let rest = text.drop_last();
        let to = end_is_cut(rest);
        assert(rest.take(to) =~= text.take(to));
        assert forall|i: int| 0 <= i < text.len() - to implies white_space(
            #[trigger] text.skip(to)[i],
        ) by {
            if i + to < rest.len() {
                assert(rest.skip(to)[i] == text[i + to]);
            }
        }
        to
    } else {
        assert(text.take(text.len() as int) =~= text);
        text.len() as int
    }
}

/// What is left of a trimmed text stands in it in one piece, neither begins nor ends with white
/// space, and has nothing but white space around it.
pub proof fn trimming_removes_white_space_only(text: Seq<char>) -> (ends: (int, int))
    ensures
        ({
            let (from, to) = ends;
            &&& 0 <= from <= to <= text.len()
            &&& trimmed(text) == text.subrange(from, to)
            &&& is_blank(text.take(from))
            &&& is_blank(text.skip(to))
            &&& from < to ==> !white_space(text[from]) && !white_space(text[to - 1])
        }),
{
    let from = start_is_cut(text);
    let rest = text.skip(from);
    let to = end_is_cut(rest);
    assert(rest.take(to) =~= text.subrange(from, from + to));
    assert(rest.skip(to) =~= text.skip(from + to));
    if to > 0 {
        assert(rest[to - 1] == text[from + to - 1]);
    }
    (from, from + to)
}

/// A text is empty once it is trimmed if and only if it is blank.
pub proof fn only_blank_texts_are_trimmed_away(text: Seq<char>)
    ensures
        trimmed(text).len() == 0 <==> is_blank(text),
{
    let (from, to) = trimming_removes_white_space_only(text);
    if from < to {
        assert(!white_space(text[from]));
    } else {
        assert forall|i: int| 0 <= i < text.len() implies white_space(#[trigger] text[i]) by {
            if i < from {
                assert(text.take(from)[i] == text[i]);
            } else {
                assert(text.skip(to)[i - to] == text[i]);
            }
        }
    }
}

/// A text without white space at its ends is left alone, so trimming twice is trimming once.
pub proof fn trimming_twice_is_trimming_once(text: Seq<char>)
    ensures
        trimmed(trimmed(text)) == trimmed(text),
{
    let (from, to) = trimming_removes_white_space_only(text);
    let once = trimmed(text);
    let (a, b) = trimming_removes_white_space_only(once);
    if from < to {
        assert(once[0] == text[from]);
        assert(once[once.len() - 1] == text[to - 1]);
        if a > 0 {
            assert(once.take(a)[0] == once[0]);
        }
        if b < once.len() {
            assert(once.skip(b)[once.len() - b - 1] == once[once.len() - 1]);
        }
    }
    assert(trimmed(once) =~= once);
}

/// A text cut to some characters begins as it did, and has as many of them as there are.
pub proof fn a_cut_text_is_a_prefix(text: Seq<char>, count: nat)
    ensures
        first_chars(text, count).is_prefix_of(text),
        first_chars(text, count).len() == if text.len() < count {
            text.len()
        } else {
            count
        },
{
    assert(first_chars(text, count) =~= text.subrange(
        0,
        first_chars(text, count).len() as int,
    ));
}

/// A text that is there is kept, a missing one is empty.
pub proof fn a_missing_text_is_empty(text: Seq<char>)
    ensures
        text_or_empty(Some(text)) == text,
        text_or_empty(None).len() == 0,
{
}

/// The number that decimal digits stand for.
pub open spec fn number_read(digits: Seq<char>) -> int
    decreases digits.len(),
{
    if digits.len() == 0 {
        0
    } else {
        number_read(digits.drop_last()) * 10 + (digits.last() as int - '0' as int)
    }
}

/// A number is read back from its decimal text, which has digits only and no zero in front
/// unless it is the only digit.
pub proof fn numbers_are_read_back(n: nat)
    ensures
        number_read(decimal(n)) == n,
        decimal(n).len() > 0,
        forall|i: int| 0 <= i < decimal(n).len() ==> '0' <= #[trigger] decimal(n)[i] <= '9',
        decimal(n).len() > 1 ==> decimal(n)[0] != '0',
        decimal(n)[0] == '0' ==> n == 0,
    decreases n,
{
    if n < 10 {
        assert(decimal(n).drop_last() =~= Seq::empty());
        assert(number_read(decimal(n).drop_last()) == 0);
    } else {
        numbers_are_read_back(n / 10);
        assert(decimal(n).drop_last() =~= decimal(n / 10));
        assert(decimal(n)[0] == decimal(n / 10)[0]);
    }
}

/// A negative number has a minus sign in front of its digits, another one has none.
pub proof fn signs_are_read_back(n: int)
    ensures
        n < 0 ==> signed_decimal(n)[0] == '-' && number_read(signed_decimal(n).skip(1)) == -n,
        n >= 0 ==> number_read(signed_decimal(n)) == n && signed_decimal(n)[0] != '-',
{
    if n < 0 {
        numbers_are_read_back((-n) as nat);
        assert(signed_decimal(n).skip(1) =~= decimal((-n) as nat));
    } else {
        numbers_are_read_back(n as nat);
        assert('0' <= decimal(n as nat)[0]);
    }
}

/// One text joined is that text, and two joined lists of texts stand side by side with one
/// separator between them.
pub proof fn joined_texts_stand_side_by_side(
    one: Seq<char>,
    first: Seq<Seq<char>>,
    second: Seq<Seq<char>>,
    separator: Seq<char>,
)
    ensures
        joined(Seq::empty(), separator).len() == 0,
        joined(seq![one], separator) == one,
        first.len() > 0 && second.len() > 0 ==> joined(first + second, separator) == joined(
            first,
            separator,
        ) + separator + joined(second, separator),
    decreases second.len(),
{
    if first.len() > 0 && second.len() > 0 {
        let all = first + second;
        assert(all.drop_last() =~= first + second.drop_last());
        if second.len() == 1 {
            assert(all.drop_last() =~= first);
        } else {
            joined_texts_stand_side_by_side(one, first, second.drop_last(), separator);
        }
        assert(joined(all, separator) =~= joined(first, separator) + separator + joined(
            second,
            separator,
        ));
    }
}

/// The value of a hexadecimal digit in lower case.
pub open spec fn hex_read(c: char) -> int {
    if '0' <= c <= '9' {
        c as int - '0' as int
    } else {
        c as int - 'a' as int + 10
    }
}

/// Every byte is read back from its two hexadecimal digits, the higher one first.
pub proof fn bytes_are_read_back(bytes: Seq<u8>, at: int)
    requires
        0 <= at < bytes.len(),
    ensures
        hex(bytes).len() == 2 * bytes.len(),
        hex_read(hex(bytes)[2 * at]) * 16 + hex_read(hex(bytes)[2 * at + 1]) == bytes[at],
        forall|i: int|
            0 <= i < hex(bytes).len() ==> ('0' <= #[trigger] hex(bytes)[i] <= '9' || 'a' <= hex(
                bytes,
            )[i] <= 'f'),
{
    assert(2 * at / 2 == at);
    assert((2 * at + 1) / 2 == at);
    assert((2 * at) % 2 == 0);
    assert((2 * at + 1) % 2 == 1);
}

/// Capital ASCII letters become the small letter of the same place in the alphabet, and every
/// other character stays.
pub proof fn only_capital_letters_are_lowered(text: Seq<char>, at: int)
    requires
        0 <= at < text.len(),
    ensures
        ascii_lowered(text).len() == text.len(),
        if 'A' <= text[at] <= 'Z' {
            ascii_lowered(text)[at] as int - 'a' as int == text[at] as int - 'A' as int
        } else {
            ascii_lowered(text)[at] == text[at]
        },
{
}

/// A part occurs in a text if and only if the text consists of something before it, the part,
/// and something behind it.
pub proof fn a_part_stands_between_its_surroundings(
    before: Seq<char>,
    part: Seq<char>,
    after: Seq<char>,
    text: Seq<char>,
)
    ensures
        occurs_in(part, before + part + after),
        occurs_in(part, text) ==> exists|a: Seq<char>, b: Seq<char>| #[trigger] (a + part + b)
            == text,
{
    let whole = before + part + after;
    let at = before.len() as int;
    assert(whole.subrange(at, at + part.len()) =~= part);
    if occurs_in(part, text) {
        let at = choose|at: int|
            0 <= at <= text.len() - part.len() && #[trigger] text.subrange(at, at + part.len())
                == part;
        let a = text.take(at);
        let b = text.skip(at + part.len());
        assert(a + part + b =~= text);
    }
}

} // verus!
