//! Texts: what the operations on them keep.
use vstd::prelude::*;

use crate::json::{extended, field, member, signed_in, unsigned_in, JsonView, Members};
use crate::text::{
    cut, decimal_of, first_place, hex_digit, hex_of, joined_with, lower_text, occurs, stands_at,
    trimmed, white_space,
};
use crate::text_map::text_le;

verus! {

/// What stands in a part of a text stands in the text.
pub broadcast proof fn lemma_part_occurs(a: Seq<char>, b: Seq<char>, part: Seq<char>)
    ensures
        a == part || b == part || occurs(a, part) || occurs(b, part) ==> #[trigger] occurs(
            a + b,
            part,
        ),
{
    let text = a + b;
    if a == part {
        assert(text.subrange(0, part.len() as int) =~= part);
        assert(stands_at(text, part, 0));
    } else if b == part {
        assert(text.subrange(a.len() as int, a.len() as int + part.len()) =~= part);
        assert(stands_at(text, part, a.len() as int));
    } else if occurs(a, part) {
        let i = choose|i: int| 0 <= i && #[trigger] stands_at(a, part, i);
        assert(text.subrange(i, i + part.len()) =~= a.subrange(i, i + part.len()));
        assert(stands_at(text, part, i));
    } else if occurs(b, part) {
        let i = choose|i: int| 0 <= i && #[trigger] stands_at(b, part, i);
        let at = a.len() + i;
        assert(text.subrange(at, at + part.len()) =~= b.subrange(i, i + part.len()));
        assert(stands_at(text, part, at));
    }
}

/// A label and what follows it stand together in a text.
pub broadcast proof fn lemma_labelled_occurs(start: Seq<char>, label: Seq<char>, value: Seq<char>)
    ensures
        #[trigger] occurs((start + label) + value, label + value),
{
    let text = (start + label) + value;
    let part = label + value;
    let at = start.len() as int;
    assert(text.subrange(at, at + part.len()) =~= part);
    assert(stands_at(text, part, at));
}

/// What follows one part at a distance stands with both in a text.
pub broadcast proof fn lemma_linked_occurs(
    start: Seq<char>,
    a: Seq<char>,
    link: Seq<char>,
    b: Seq<char>,
)
    ensures
        #[trigger] occurs(((start + a) + link) + b, (a + link) + b),
{
    let text = ((start + a) + link) + b;
    let part = (a + link) + b;
    let at = start.len() as int;
    assert(text.subrange(at, at + part.len()) =~= part);
    assert(stands_at(text, part, at));
}

/// A text stands in itself.
pub broadcast proof fn lemma_whole_occurs(text: Seq<char>)
    ensures
        #[trigger] occurs(text, text),
{
    assert(text.subrange(0, text.len() as int) =~= text);
    assert(stands_at(text, text, 0));
}

pub broadcast group group_occurs {
    lemma_part_occurs,
    lemma_labelled_occurs,
    lemma_linked_occurs,
    lemma_whole_occurs,
}

/// Lower case changes the letters from A to Z to those from a to z and nothing
/// else.
pub proof fn law_lower_case(text: Seq<char>)
    ensures
        lower_text(text).len() == text.len(),
        forall|i: int|
            0 <= i < text.len() ==> if 'A' <= text[i] <= 'Z' {
                #[trigger] lower_text(text)[i] as u32 == text[i] as u32 + 32
            } else {
                lower_text(text)[i] == text[i]
            },
        lower_text(lower_text(text)) == lower_text(text),
{
    assert(lower_text(lower_text(text)) =~= lower_text(text));
}

/// The number that a digit stands for.
pub open spec fn digit_value(c: char) -> int {
    if '0' <= c <= '9' {
        c as u32 - '0' as u32
    } else {
        c as u32 - 'a' as u32 + 10
    }
}

/// Each byte is written as two digits, the high half first, so that bytes are
/// read back from their digits.
pub proof fn law_hex_is_read_back(bytes: Seq<u8>)
    ensures
        hex_of(bytes).len() == 2 * bytes.len(),
        forall|i: int|
            0 <= i < bytes.len() ==> 16 * digit_value(hex_of(bytes)[2 * i]) + digit_value(
                hex_of(bytes)[2 * i + 1],
            ) == #[trigger] bytes[i],
        crate::text::hex_text(hex_of(bytes)),
{
    assert forall|i: int| 0 <= i < bytes.len() implies 16 * digit_value(hex_of(bytes)[2 * i])
        + digit_value(hex_of(bytes)[2 * i + 1]) == #[trigger] bytes[i] by {
        let high = bytes[i] as int / 16;
        let low = bytes[i] as int % 16;
        assert((2 * i) / 2 == i && (2 * i + 1) / 2 == i);
        assert(hex_of(bytes)[2 * i] == hex_digit(high));
        assert(hex_of(bytes)[2 * i + 1] == hex_digit(low));
        assert(digit_value(hex_digit(high)) == high);
        assert(digit_value(hex_digit(low)) == low);
    }
}

/// Different bytes are written differently.
pub proof fn law_hex_is_distinct(a: Seq<u8>, b: Seq<u8>)
    requires
        hex_of(a) == hex_of(b),
    ensures
        a == b,
{
    law_hex_is_read_back(a);
    law_hex_is_read_back(b);
    assert forall|i: int| 0 <= i < a.len() implies a[i] == b[i] by {
        assert(a[i] == 16 * digit_value(hex_of(a)[2 * i]) + digit_value(hex_of(a)[2 * i + 1]));
        assert(b[i] == 16 * digit_value(hex_of(b)[2 * i]) + digit_value(hex_of(b)[2 * i + 1]));
    }
    assert(a =~= b);
}

/// The number that a row of digits stands for.
pub open spec fn number_of(digits: Seq<char>) -> int
    decreases digits.len(),
{
    if digits.len() == 0 {
        0
    } else {
        10 * number_of(digits.drop_last()) + digit_value(digits.last())
    }
}

/// A number is written in digits that stand for it, without a needless zero.
pub proof fn law_decimal_is_read_back(n: nat)
    ensures
        number_of(decimal_of(n)) == n,
        decimal_of(n).len() > 0,
        forall|i: int|
            0 <= i < decimal_of(n).len() ==> '0' <= #[trigger] decimal_of(n)[i] <= '9',
        decimal_of(n).len() > 1 ==> decimal_of(n)[0] != '0',
        n > 0 ==> decimal_of(n)[0] != '0',
    decreases n,
{
    if n < 10 {
        let digits = decimal_of(n);
        assert(digits.len() == 1);
        assert(digits.drop_last().len() == 0);
        assert(number_of(digits.drop_last()) == 0);
        assert(digits.last() == hex_digit(n as int));
        assert(digit_value(hex_digit(n as int)) == n);
    } else {
        law_decimal_is_read_back(n / 10);
        let before = decimal_of(n / 10);
        let digits = decimal_of(n);
        assert(digits == before.push(hex_digit((n % 10) as int)));
        assert(digits.drop_last() =~= before);
        assert(digit_value(digits.last()) == n % 10);
        assert(before.len() > 0);
        assert(digits[0] == before[0]);
    }
}

/// Whether a text is what stands between two places of another, with nothing but
/// white space around it.
pub open spec fn is_middle(text: Seq<char>, from: int, to: int, middle: Seq<char>) -> bool {
    &&& 0 <= from <= to <= text.len()
    &&& text.subrange(from, to) == middle
    &&& forall|i: int| 0 <= i < from ==> white_space(#[trigger] text[i])
    &&& forall|i: int| to <= i < text.len() ==> white_space(#[trigger] text[i])
}

proof fn lemma_middle_after(text: Seq<char>, from: int, to: int, middle: Seq<char>)
    requires
        text.len() > 0,
        white_space(text[0]),
        is_middle(text.skip(1), from, to, middle),
    ensures
        is_middle(text, from + 1, to + 1, middle),
{
    let rest = text.skip(1);
    assert(text.subrange(from + 1, to + 1) =~= rest.subrange(from, to));
    assert forall|i: int| 0 <= i < from + 1 implies white_space(#[trigger] text[i]) by {
        if i > 0 {
            assert(text[i] == rest[i - 1]);
        }
    }
    assert forall|i: int| to + 1 <= i < text.len() implies white_space(#[trigger] text[i]) by {
        assert(text[i] == rest[i - 1]);
    }
}

proof fn lemma_middle_before(text: Seq<char>, from: int, to: int, middle: Seq<char>)
    requires
        text.len() > 0,
        white_space(text.last()),
        is_middle(text.drop_last(), from, to, middle),
    ensures
        is_middle(text, from, to, middle),
{
    let rest = text.drop_last();
    assert(text.subrange(from, to) =~= rest.subrange(from, to));
    assert forall|i: int| 0 <= i < from implies white_space(#[trigger] text[i]) by {
        assert(text[i] == rest[i]);
    }
    assert forall|i: int| to <= i < text.len() implies white_space(#[trigger] text[i]) by {
        if i < rest.len() {
            assert(text[i] == rest[i]);
        }
    }
}

/// Trimming takes the white space off both ends, and nothing else.
pub proof fn law_trimming_keeps_the_middle(text: Seq<char>)
    ensures
        exists|from: int, to: int| is_middle(text, from, to, trimmed(text)),
        trimmed(text).len() > 0 ==> !white_space(trimmed(text)[0]) && !white_space(
            trimmed(text).last(),
        ),
    decreases text.len(),
{
    if text.len() > 0 && white_space(text[0]) {
        let rest = text.skip(1);
        law_trimming_keeps_the_middle(rest);
        let (from, to) = choose|from: int, to: int| is_middle(rest, from, to, trimmed(rest));
        lemma_middle_after(text, from, to, trimmed(rest));
        assert(trimmed(text) == trimmed(rest));
        assert(is_middle(text, from + 1, to + 1, trimmed(text)));
    } else if text.len() > 0 && white_space(text.last()) {
        let rest = text.drop_last();
        law_trimming_keeps_the_middle(rest);
        let (from, to) = choose|from: int, to: int| is_middle(rest, from, to, trimmed(rest));
        lemma_middle_before(text, from, to, trimmed(rest));
        assert(trimmed(text) == trimmed(rest));
        assert(is_middle(text, from, to, trimmed(text)));
    } else {
        assert(text.subrange(0, text.len() as int) =~= trimmed(text));
        assert(is_middle(text, 0, text.len() as int, trimmed(text)));
    }
}

proof fn lemma_first_place(text: Seq<char>, c: char)
    ensures
        first_place(text, c) <= text.len(),
        forall|i: int| 0 <= i < first_place(text, c) ==> #[trigger] text[i] != c,
        first_place(text, c) < text.len() ==> text[first_place(text, c) as int] == c,
    decreases text.len(),
{
    if text.len() > 0 && text[0] != c {
        let rest = text.skip(1);
        lemma_first_place(rest, c);
        assert forall|i: int| 0 <= i < first_place(text, c) implies #[trigger] text[i] != c by {
            if i > 0 {
                assert(rest[i - 1] == text[i]);
            }
        }
        let at = first_place(rest, c) as int;
        if at < rest.len() {
            assert(text[at + 1] == rest[at]);
        }
    }
}

/// Joining the parts of a text gives the text again; only the last part may hold
/// the character at which it was cut, and only where no more parts were wanted.
pub proof fn law_parts_are_joined_again(text: Seq<char>, c: char, parts: nat)
    ensures
        1 <= cut(text, c, parts).len(),
        parts > 0 ==> cut(text, c, parts).len() <= parts,
        rejoined(cut(text, c, parts), c) == text,
        forall|i: int|
            0 <= i < cut(text, c, parts).len() - 1 ==> !(#[trigger] cut(text, c, parts)[i]).contains(
                c,
            ),
        cut(text, c, parts).len() < parts ==> !cut(text, c, parts).last().contains(c),
    decreases parts,
{
    lemma_first_place(text, c);
    let at = first_place(text, c) as int;
    let all = cut(text, c, parts);
    if parts <= 1 || at >= text.len() {
        assert(all.len() == 1 && all[0] == text);
        assert(rejoined(all, c) == text);
    } else {
        let rest = cut(text.skip(at + 1), c, (parts - 1) as nat);
        law_parts_are_joined_again(text.skip(at + 1), c, (parts - 1) as nat);
        assert(all == seq![text.take(at)] + rest);
        assert(all.skip(1) =~= rest);
        assert(rejoined(all, c) == text.take(at) + seq![c] + rejoined(rest, c));
        assert(text.take(at) + seq![c] + text.skip(at + 1) =~= text);
        assert forall|i: int| 0 <= i < all.len() - 1 implies !(#[trigger] all[i]).contains(c) by {
            if i > 0 {
                assert(all[i] == rest[i - 1]);
            } else {
                assert(all[0] == text.take(at));
            }
        }
        assert(all.last() == rest.last());
    }
}

/// Parts put together again, with a character between any two.
pub open spec fn rejoined(parts: Seq<Seq<char>>, c: char) -> Seq<char>
    decreases parts.len(),
{
    if parts.len() == 0 {
        seq![]
    } else if parts.len() == 1 {
        parts[0]
    } else {
        parts[0] + seq![c] + rejoined(parts.skip(1), c)
    }
}

/// Joined texts hold each of the texts, and with every text but the first its
/// separator.
pub proof fn law_joined_texts_hold_each(list: Seq<Seq<char>>, separator: Seq<char>, i: int)
    requires
        0 <= i < list.len(),
    ensures
        occurs(joined_with(list, separator), list[i]),
        i > 0 ==> occurs(joined_with(list, separator), separator + list[i]),
        joined_with(list, separator).len() == total_length(list) + (list.len() - 1)
            * separator.len(),
    decreases list.len(),
{
    broadcast use group_occurs;

    if list.len() == 1 {
        assert(list.drop_last().len() == 0);
        assert(total_length(list.drop_last()) == 0);
        assert(0 * separator.len() == 0);
    } else {
        let before = joined_with(list.drop_last(), separator);
        assert(joined_with(list, separator) == before + separator + list.last());
        if i < list.len() - 1 {
            law_joined_texts_hold_each(list.drop_last(), separator, i);
            assert(list.drop_last()[i] == list[i]);
            assert(occurs(before, list[i]));
            assert(occurs(before + separator, list[i]));
            if i > 0 {
                assert(occurs(before, separator + list[i]));
                assert(occurs(before + separator, separator + list[i]));
            }
        } else {
            law_joined_texts_hold_each(list.drop_last(), separator, 0);
            assert(list[i] == list.last());
        }
        let n = list.len() as int;
        let s = separator.len() as int;
        assert((n - 2) * s + s == (n - 1) * s) by (nonlinear_arith);
    }
}

/// The lengths of texts together.
pub open spec fn total_length(list: Seq<Seq<char>>) -> nat
    decreases list.len(),
{
    if list.len() == 0 {
        0
    } else {
        total_length(list.drop_last()) + list.last().len()
    }
}

/// Texts are ordered by the first character in which they differ; a text comes
/// before what continues it; any two texts can be compared, and only equal ones
/// both ways.
pub proof fn law_texts_are_ordered(
    start: Seq<char>,
    a: Seq<char>,
    b: Seq<char>,
    c: char,
    d: char,
)
    requires
        (c as u32) < (d as u32),
    ensures
        text_le(start, start + a),
        text_le(start + seq![c] + a, start + seq![d] + b),
        !text_le(start + seq![d] + b, start + seq![c] + a),
        text_le(a, b) || text_le(b, a),
        text_le(a, b) && text_le(b, a) ==> a == b,
    decreases start.len(),
{
    crate::text_map::lemma_text_le_total(a, b);
    if text_le(a, b) && text_le(b, a) {
        crate::text_map::lemma_text_le_antisymmetric(a, b);
    }
    if start.len() > 0 {
        law_texts_are_ordered(start.skip(1), a, b, c, d);
        assert((start + a).skip(1) =~= start.skip(1) + a);
        assert((start + seq![c] + a).skip(1) =~= start.skip(1) + seq![c] + a);
        assert((start + seq![d] + b).skip(1) =~= start.skip(1) + seq![d] + b);
    } else {
        assert((start + seq![c] + a)[0] == c);
        assert((start + seq![d] + b)[0] == d);
    }
}

/// The member of an object under a key is the first one that has it.
pub proof fn law_members_are_found(members: Members, key: Seq<char>)
    ensures
        match member(members, key) {
            Some(value) => exists|i: int|
                0 <= i < members.len() && #[trigger] members[i] == (key, value) && forall|j: int|
                    0 <= j < i ==> (#[trigger] members[j]).0 != key,
            None => forall|j: int| 0 <= j < members.len() ==> (#[trigger] members[j]).0 != key,
        },
        field(JsonView::Object(members), key) == member(members, key),
    decreases members.len(),
{
    if members.len() > 0 {
        let rest = members.skip(1);
        law_members_are_found(rest, key);
        if members[0].0 == key {
            assert(members[0] == (key, members[0].1));
        } else {
            match member(rest, key) {
                Some(value) => {
                    let i = choose|i: int|
                        0 <= i < rest.len() && #[trigger] rest[i] == (key, value) && forall|j: int|
                            0 <= j < i ==> (#[trigger] rest[j]).0 != key;
                    assert(members[i + 1] == rest[i]);
                    assert forall|j: int| 0 <= j < i + 1 implies (#[trigger] members[j]).0
                        != key by {
                        if j > 0 {
                            assert(rest[j - 1] == members[j]);
                        }
                    }
                },
                None => {
                    assert forall|j: int| 0 <= j < members.len() implies (#[trigger] members[j]).0
                        != key by {
                        if j > 0 {
                            assert(rest[j - 1] == members[j]);
                        }
                    }
                },
            }
        }
    }
}

/// A member that is put into an object is found there, and every other one as
/// before.
pub proof fn law_members_are_put(
    members: Members,
    key: Seq<char>,
    item: JsonView,
    other: Seq<char>,
)
    requires
        member(members, key) is None,
        other != key,
    ensures
        field(extended(JsonView::Object(members), key, item), key) == Some(item),
        field(extended(JsonView::Object(members), key, item), other) == member(members, other),
    decreases members.len(),
{
    let longer = members.push((key, item));
    if members.len() > 0 {
        law_members_are_put(members.skip(1), key, item, other);
        assert(longer.skip(1) =~= members.skip(1).push((key, item)));
    } else {
        assert(longer.skip(1).len() == 0);
        assert(member(longer.skip(1), other) is None);
    }
}

/// A number is read as it stands, where it fits.
pub proof fn law_numbers_are_read(n: u64, m: i64)
    ensures
        unsigned_in(Some(JsonView::Unsigned(n))) == Some(n),
        unsigned_in(Some(JsonView::Negative(m))) is None,
        n <= i64::MAX ==> signed_in(Some(JsonView::Unsigned(n))) is Some && signed_in(
            Some(JsonView::Unsigned(n)),
        )->0 == n,
        n > i64::MAX ==> signed_in(Some(JsonView::Unsigned(n))) is None,
        signed_in(Some(JsonView::Negative(m))) == Some(m),
{
}

} // verus!
