//! Text and byte helpers shared by every module: exact views of characters,
//! UTF-8 lengths, digits, and the few string operations the rest builds on.
use vstd::prelude::*;
use vstd::utf8::*;

verus! {

/// What a caller sees of a fallible operation: its value or its error text.
pub open spec fn outcome<T: View>(r: Result<T, String>) -> Result<T::V, Seq<char>> {
    match r {
        Ok(value) => Ok(value@),
        Err(error) => Err(error@),
    }
}

/// The view of an optional value.
pub open spec fn optional<T: View>(o: Option<T>) -> Option<T::V> {
    match o {
        Some(value) => Some(value@),
        None => None,
    }
}

/// The number of bytes that a text takes in UTF-8.
pub open spec fn utf8_len(s: Seq<char>) -> nat {
    encode_utf8(s).len()
}

/// The control characters of Unicode (general category Cc).
pub open spec fn control_char(c: char) -> bool {
    c as u32 <= 0x1f || 0x7f <= c as u32 <= 0x9f
}

/// A text without control characters.
pub open spec fn control_free(s: Seq<char>) -> bool {
    forall|i: int| 0 <= i < s.len() ==> !control_char(#[trigger] s[i])
}

/// The ASCII control bytes.
pub open spec fn control_byte(b: u8) -> bool {
    b < 0x20 || b == 0x7f
}

/// A byte sequence without ASCII control bytes.
pub open spec fn control_byte_free(s: Seq<u8>) -> bool {
    forall|i: int| 0 <= i < s.len() ==> !control_byte(#[trigger] s[i])
}

/// The characters with the Unicode property White_Space.
pub open spec fn white_space(c: char) -> bool {
    let n = c as u32;
    ||| 0x09 <= n <= 0x0d
    ||| n == 0x20
    ||| n == 0x85
    ||| n == 0xa0
    ||| n == 0x1680
    ||| 0x2000 <= n <= 0x200a
    ||| n == 0x2028
    ||| n == 0x2029
    ||| n == 0x202f
    ||| n == 0x205f
    ||| n == 0x3000
}

/// A text that holds nothing but white space (so also the empty text).
pub open spec fn blank(s: Seq<char>) -> bool {
    forall|i: int| 0 <= i < s.len() ==> white_space(#[trigger] s[i])
}

/// The ASCII lower case of one character.
pub open spec fn lower_char(c: char) -> char {
    if 'A' <= c <= 'Z' {
        ((c as u32 + 32) as u32) as char
    } else {
        c
    }
}

/// The ASCII lower case of a text.
pub open spec fn lower_text(s: Seq<char>) -> Seq<char> {
    Seq::new(s.len(), |i: int| lower_char(s[i]))
}

/// The hexadecimal digits, in either case.
pub open spec fn hex_char(c: char) -> bool {
    '0' <= c <= '9' || 'a' <= c <= 'f' || 'A' <= c <= 'F'
}

/// A text made of hexadecimal digits alone.
pub open spec fn hex_text(s: Seq<char>) -> bool {
    forall|i: int| 0 <= i < s.len() ==> hex_char(#[trigger] s[i])
}

/// The letters and digits of ASCII.
pub open spec fn alphanumeric_char(c: char) -> bool {
    '0' <= c <= '9' || 'a' <= c <= 'z' || 'A' <= c <= 'Z'
}

/// The lower-case hexadecimal digit of a value below sixteen.
pub open spec fn hex_digit(n: int) -> char {
    if n < 10 {
        ((0x30 + n) as u32) as char
    } else {
        ((0x57 + n) as u32) as char
    }
}

/// Each byte as two lower-case hexadecimal digits.
pub open spec fn hex_of(bytes: Seq<u8>) -> Seq<char> {
    Seq::new(
        2 * bytes.len(),
        |i: int| if i % 2 == 0 {
            hex_digit(bytes[i / 2] as int / 16)
        } else {
            hex_digit(bytes[i / 2] as int % 16)
        },
    )
}

/// The decimal digits of a number, without leading zeros.
pub open spec fn decimal_of(n: nat) -> Seq<char>
    decreases n,
{
    if n < 10 {
        seq![hex_digit(n as int)]
    } else {
        decimal_of(n / 10).push(hex_digit((n % 10) as int))
    }
}

/// `String::push`: the text gains the character at its end.
pub assume_specification[ String::push ](string: &mut String, c: char)
    ensures
        final(string)@ == old(string)@.push(c),
;

/// `String::push_str`: the text gains the characters of the other at its end.
pub assume_specification[ String::push_str ](string: &mut String, other: &str)
    ensures
        final(string)@ == old(string)@ + other@,
;

/// `String::from_utf8`: a text exactly when the bytes are valid UTF-8, and then
/// the text that they encode.
#[verifier::external_body]
pub(crate) fn decode_text(bytes: Vec<u8>) -> (r: Option<String>)
    ensures
        r is Some == valid_utf8(bytes@),
        r is Some ==> r->0@ == decode_utf8(bytes@),
{
    String::from_utf8(bytes).ok()
}

/// Two texts with the same UTF-8 bytes are the same text.
pub proof fn utf8_is_injective(a: Seq<char>, b: Seq<char>)
    requires
        encode_utf8(a) == encode_utf8(b),
    ensures
        a == b,
{
    encode_utf8_decode_utf8(a);
    encode_utf8_decode_utf8(b);
}

/// The length of a text in UTF-8 bytes.
pub fn byte_len(text: &str) -> (n: usize)
    ensures
        n == utf8_len(text@),
{
    text.as_bytes().len()
}

/// Whether two byte sequences are equal.
pub fn same_bytes(a: &[u8], b: &[u8]) -> (r: bool)
    ensures
        r == (a@ == b@),
{
    if a.len() != b.len() {
        return false;
    }
    let mut i: usize = 0;
    while i < a.len()
        invariant
            i <= a.len(),
            a@.len() == b@.len(),
            forall|j: int| 0 <= j < i ==> a@[j] == b@[j],
        decreases a.len() - i,
    {
        if a[i] != b[i] {
            return false;
        }
        i = i + 1;
    }
    assert(a@ =~= b@);
    true
}

/// Whether two texts are equal.
pub fn same_text(a: &str, b: &str) -> (r: bool)
    ensures
        r == (a@ == b@),
{
    let r = same_bytes(a.as_bytes(), b.as_bytes());
    proof {
        if r {
            utf8_is_injective(a@, b@);
        }
    }
    r
}

/// The characters of a text.
pub fn chars_of(text: &str) -> (out: Vec<char>)
    ensures
        out@ == text@,
{
    let mut out: Vec<char> = Vec::new();
    for c in iter: text.chars()
        invariant
            iter.seq() == text@,
            out@ == text@.take(iter.index()),
    {
        out.push(c);
    }
    out
}

/// The text made of the given characters.
pub fn text_of(chars: &[char]) -> (out: String)
    ensures
        out@ == chars@,
{
    let mut out = String::new();
    let mut i: usize = 0;
    while i < chars.len()
        invariant
            i <= chars.len(),
            out@ == chars@.take(i as int),
        decreases chars.len() - i,
    {
        out.push(chars[i]);
        i = i + 1;
    }
    out
}

pub fn is_control(c: char) -> (r: bool)
    ensures
        r == control_char(c),
{
    let n: u32 = c as u32;
    n <= 0x1f || (0x7f <= n && n <= 0x9f)
}

/// Whether no character of the text is a control character.
pub fn is_control_free(text: &str) -> (r: bool)
    ensures
        r == control_free(text@),
{
    let chars = chars_of(text);
    let mut i: usize = 0;
    while i < chars.len()
        invariant
            i <= chars.len(),
            chars@ == text@,
            forall|j: int| 0 <= j < i ==> !control_char(text@[j]),
        decreases chars.len() - i,
    {
        if is_control(chars[i]) {
            assert(control_char(text@[i as int]));
            return false;
        }
        i = i + 1;
    }
    true
}

/// Whether no byte is an ASCII control byte.
pub fn is_control_byte_free(bytes: &[u8]) -> (r: bool)
    ensures
        r == control_byte_free(bytes@),
{
    let mut i: usize = 0;
    while i < bytes.len()
        invariant
            i <= bytes.len(),
            forall|j: int| 0 <= j < i ==> !control_byte(bytes@[j]),
        decreases bytes.len() - i,
    {
        if bytes[i] < 0x20 || bytes[i] == 0x7f {
            assert(control_byte(bytes@[i as int]));
            return false;
        }
        i = i + 1;
    }
    true
}

fn is_white_space(c: char) -> (r: bool)
    ensures
        r == white_space(c),
{
    let n: u32 = c as u32;
    (0x09 <= n && n <= 0x0d) || n == 0x20 || n == 0x85 || n == 0xa0 || n == 0x1680 || (0x2000 <= n
        && n <= 0x200a) || n == 0x2028 || n == 0x2029 || n == 0x202f || n == 0x205f || n == 0x3000
}

/// Whether the text is empty once surrounding white space is removed.
pub fn is_blank(text: &str) -> (r: bool)
    ensures
        r == blank(text@),
{
    let chars = chars_of(text);
    let mut i: usize = 0;
    while i < chars.len()
        invariant
            i <= chars.len(),
            chars@ == text@,
            forall|j: int| 0 <= j < i ==> white_space(text@[j]),
        decreases chars.len() - i,
    {
        if !is_white_space(chars[i]) {
            assert(!white_space(text@[i as int]));
            return false;
        }
        i = i + 1;
    }
    true
}

fn to_lower(c: char) -> (r: char)
    ensures
        r == lower_char(c),
{
    match c {
        'A' => 'a', 'B' => 'b', 'C' => 'c', 'D' => 'd', 'E' => 'e', 'F' => 'f', 'G' => 'g',
        'H' => 'h', 'I' => 'i', 'J' => 'j', 'K' => 'k', 'L' => 'l', 'M' => 'm', 'N' => 'n',
        'O' => 'o', 'P' => 'p', 'Q' => 'q', 'R' => 'r', 'S' => 's', 'T' => 't', 'U' => 'u',
        'V' => 'v', 'W' => 'w', 'X' => 'x', 'Y' => 'y', 'Z' => 'z',
        _ => c,
    }
}

/// The text in ASCII lower case.
pub fn to_lower_text(text: &str) -> (out: String)
    ensures
        out@ == lower_text(text@),
{
    let chars = chars_of(text);
    let mut out = String::new();
    let mut i: usize = 0;
    while i < chars.len()
        invariant
            i <= chars.len(),
            chars@ == text@,
            out@ == lower_text(text@).take(i as int),
        decreases chars.len() - i,
    {
        out.push(to_lower(chars[i]));
        i = i + 1;
        assert(out@ =~= lower_text(text@).take(i as int));
    }
    assert(lower_text(text@).take(text@.len() as int) =~= lower_text(text@));
    out
}

/// Whether the text is made of hexadecimal digits alone.
pub fn is_hex_text(text: &str) -> (r: bool)
    ensures
        r == hex_text(text@),
{
    let chars = chars_of(text);
    let mut i: usize = 0;
    while i < chars.len()
        invariant
            i <= chars.len(),
            chars@ == text@,
            forall|j: int| 0 <= j < i ==> hex_char(text@[j]),
        decreases chars.len() - i,
    {
        let c = chars[i];
        if !(('0' <= c && c <= '9') || ('a' <= c && c <= 'f') || ('A' <= c && c <= 'F')) {
            assert(!hex_char(text@[i as int]));
            return false;
        }
        i = i + 1;
    }
    true
}

/// Whether every character is an ASCII letter, an ASCII digit, or one of the
/// given marks.
pub fn is_plain_name(text: &str, marks: &[char]) -> (r: bool)
    ensures
        r == (forall|i: int|
            0 <= i < text@.len() ==> alphanumeric_char(#[trigger] text@[i]) || marks@.contains(
                text@[i],
            )),
{
    let chars = chars_of(text);
    let mut i: usize = 0;
    while i < chars.len()
        invariant
            i <= chars.len(),
            chars@ == text@,
            forall|j: int|
                0 <= j < i ==> alphanumeric_char(#[trigger] text@[j]) || marks@.contains(text@[j]),
        decreases chars.len() - i,
    {
        let c = chars[i];
        let plain = ('0' <= c && c <= '9') || ('a' <= c && c <= 'z') || ('A' <= c && c <= 'Z');
        if !plain && !has_char(marks, c) {
            assert(!alphanumeric_char(text@[i as int]));
            return false;
        }
        i = i + 1;
    }
    true
}

fn has_char(chars: &[char], c: char) -> (r: bool)
    ensures
        r == chars@.contains(c),
{
    let mut i: usize = 0;
    while i < chars.len()
        invariant
            i <= chars.len(),
            forall|j: int| 0 <= j < i ==> chars@[j] != c,
        decreases chars.len() - i,
    {
        if chars[i] == c {
            return true;
        }
        i = i + 1;
    }
    false
}

fn hex_digit_of(n: u8) -> (c: char)
    requires
        n < 16,
    ensures
        c == hex_digit(n as int),
{
    match n {
        0 => '0', 1 => '1', 2 => '2', 3 => '3', 4 => '4', 5 => '5', 6 => '6', 7 => '7',
        8 => '8', 9 => '9', 10 => 'a', 11 => 'b', 12 => 'c', 13 => 'd', 14 => 'e',
        _ => 'f',
    }
}

/// The bytes in lower-case hexadecimal.
pub fn to_hex(bytes: &[u8]) -> (out: String)
    ensures
        out@ == hex_of(bytes@),
{
    let mut out = String::new();
    let mut i: usize = 0;
    while i < bytes.len()
        invariant
            i <= bytes.len(),
            out@ == hex_of(bytes@.take(i as int)),
        decreases bytes.len() - i,
    {
        let high: u8 = bytes[i] / 16;
        let low: u8 = bytes[i] % 16;
        out.push(hex_digit_of(high));
        out.push(hex_digit_of(low));
        i = i + 1;
        assert(out@ =~= hex_of(bytes@.take(i as int))) by {
            assert forall|j: int| 0 <= j < 2 * i implies out@[j] == hex_of(
                bytes@.take(i as int),
            )[j] by {
                assert(0 <= j / 2 < i);
                if j < 2 * (i - 1) {
                    assert(j / 2 < i - 1);
                    assert(bytes@.take(i - 1)[j / 2] == bytes@.take(i as int)[j / 2]);
                }
            }
        }
    }
    assert(bytes@.take(bytes@.len() as int) =~= bytes@);
    out
}

/// The number in decimal.
pub fn to_decimal(n: u64) -> (out: String)
    ensures
        out@ == decimal_of(n as nat),
    decreases n,
{
    let last = hex_digit_of((n % 10) as u8);
    if n < 10 {
        let mut out = String::new();
        out.push(last);
        assert(out@ =~= seq![hex_digit(n as int)]);
        out
    } else {
        let mut out = to_decimal(n / 10);
        out.push(last);
        out
    }
}

/// The two texts in a row.
pub fn joined(a: &str, b: &str) -> (out: String)
    ensures
        out@ == a@ + b@,
{
    let mut out = a.to_owned();
    out.push_str(b);
    out
}

/// Whether a text stands somewhere in another.
pub open spec fn occurs(text: Seq<char>, part: Seq<char>) -> bool {
    exists|i: int| 0 <= i && #[trigger] stands_at(text, part, i)
}

/// Whether a text stands at a place of another.
pub open spec fn stands_at(text: Seq<char>, part: Seq<char>, i: int) -> bool {
    i + part.len() <= text.len() && text.subrange(i, i + part.len()) == part
}

fn is_at(text: &Vec<char>, part: &Vec<char>, at: usize) -> (r: bool)
    requires
        at <= text@.len(),
    ensures
        r == stands_at(text@, part@, at as int),
{
    let count: usize = text.len();
    if part.len() > count - at {
        return false;
    }
    let mut i: usize = 0;
    while i < part.len()
        invariant
            i <= part@.len(),
            at + part@.len() <= text@.len(),
            text@.len() == count,
            forall|j: int| 0 <= j < i ==> text@[at + j] == #[trigger] part@[j],
        decreases part@.len() - i,
    {
        if text[at + i] != part[i] {
            assert(text@.subrange(at as int, at + part@.len())[i as int] != part@[i as int]);
            return false;
        }
        i = i + 1;
    }
    assert(text@.subrange(at as int, at + part@.len()) =~= part@);
    true
}

/// Whether a text stands somewhere in another.
pub fn contains_text(text: &str, part: &str) -> (r: bool)
    ensures
        r == occurs(text@, part@),
{
    let chars = chars_of(text);
    let wanted = chars_of(part);
    let mut i: usize = 0;
    while i < chars.len()
        invariant
            i <= chars.len(),
            chars@ == text@,
            wanted@ == part@,
            forall|j: int| 0 <= j < i ==> !#[trigger] stands_at(text@, part@, j),
        decreases chars.len() - i,
    {
        if is_at(&chars, &wanted, i) {
            return true;
        }
        i = i + 1;
    }
    is_at(&chars, &wanted, i)
}

/// Whether a text begins with another.
pub fn begins_with(text: &str, start: &str) -> (r: bool)
    ensures
        r == stands_at(text@, start@, 0),
{
    let chars = chars_of(text);
    let wanted = chars_of(start);
    is_at(&chars, &wanted, 0)
}

/// The characters of a text from one place to another.
pub fn part_of(text: &str, from: usize, to: usize) -> (out: String)
    requires
        from <= to <= text@.len(),
    ensures
        out@ == text@.subrange(from as int, to as int),
{
    let chars = chars_of(text);
    let mut out = String::new();
    let mut i: usize = from;
    while i < to
        invariant
            from <= i <= to <= chars@.len(),
            chars@ == text@,
            out@ == text@.subrange(from as int, i as int),
        decreases to - i,
    {
        out.push(chars[i]);
        i = i + 1;
        assert(out@ =~= text@.subrange(from as int, i as int));
    }
    out
}

/// A text without the white space at its ends.
pub open spec fn trimmed(text: Seq<char>) -> Seq<char>
    decreases text.len(),
{
    if text.len() == 0 {
        text
    } else if white_space(text[0]) {
        trimmed(text.skip(1))
    } else if white_space(text.last()) {
        trimmed(text.drop_last())
    } else {
        text
    }
}

/// A text without the white space at its ends.
pub fn trim_text(text: &str) -> (out: String)
    ensures
        out@ == trimmed(text@),
{
    let chars = chars_of(text);
    let mut from: usize = 0;
    let mut to: usize = chars.len();
    assert(text@.subrange(0, to as int) =~= text@);
    while from < to && is_white_space(chars[from])
        invariant
            from <= to == chars@.len(),
            chars@ == text@,
            trimmed(text@) == trimmed(text@.subrange(from as int, to as int)),
        decreases to - from,
    {
        assert(text@.subrange(from as int, to as int).skip(1) =~= text@.subrange(
            from + 1,
            to as int,
        ));
        from = from + 1;
    }
    while from < to && is_white_space(chars[to - 1])
        invariant
            from <= to <= chars@.len(),
            chars@ == text@,
            from < to ==> !white_space(text@[from as int]),
            trimmed(text@) == trimmed(text@.subrange(from as int, to as int)),
        decreases to - from,
    {
        assert(text@.subrange(from as int, to as int).drop_last() =~= text@.subrange(
            from as int,
            to - 1,
        ));
        to = to - 1;
    }
    part_of(text, from, to)
}

/// The place of the first such character, or the length of the text.
pub open spec fn first_place(text: Seq<char>, c: char) -> nat
    decreases text.len(),
{
    if text.len() == 0 || text[0] == c {
        0
    } else {
        1 + first_place(text.skip(1), c)
    }
}

/// A text cut at the first few such characters, into at most this many parts.
pub open spec fn cut(text: Seq<char>, c: char, parts: nat) -> Seq<Seq<char>>
    decreases parts,
{
    let at = first_place(text, c) as int;
    if parts <= 1 || at >= text.len() {
        seq![text]
    } else {
        seq![text.take(at)] + cut(text.skip(at + 1), c, (parts - 1) as nat)
    }
}

/// The views of a list of texts.
pub open spec fn string_views(list: Seq<String>) -> Seq<Seq<char>> {
    Seq::new(list.len(), |i: int| list[i]@)
}

/// A text cut at the first few such characters, into at most this many parts.
pub fn cut_text(text: &str, c: char, parts: usize) -> (out: Vec<String>)
    ensures
        string_views(out@) == cut(text@, c, parts as nat),
    decreases parts,
{
    let chars = chars_of(text);
    let mut at: usize = 0;
    assert(text@.skip(0) =~= text@);
    while at < chars.len() && chars[at] != c
        invariant
            at <= chars@.len(),
            chars@ == text@,
            first_place(text@, c) == at + first_place(text@.skip(at as int), c),
        decreases chars@.len() - at,
    {
        assert(text@.skip(at as int).skip(1) =~= text@.skip(at + 1));
        at = at + 1;
    }
    let mut out: Vec<String> = Vec::new();
    if parts <= 1 || at >= chars.len() {
        out.push(text.to_owned());
        assert(string_views(out@) =~= cut(text@, c, parts as nat));
        return out;
    }
    let head = part_of(text, 0, at);
    let tail = part_of(text, at + 1, chars.len());
    proof {
        assert(text@.subrange(0, at as int) =~= text@.take(at as int));
        assert(text@.subrange(at + 1, text@.len() as int) =~= text@.skip(at + 1));
    }
    out.push(head);
    let mut rest = cut_text(tail.as_str(), c, parts - 1);
    let ghost rest_views = string_views(rest@);
    let ghost head_views = string_views(out@);
    out.append(&mut rest);
    proof {
        assert(string_views(out@) =~= head_views + rest_views);
        assert(head_views =~= seq![text@.take(at as int)]);
    }
    out
}

/// The word for a truth value.
pub open spec fn bool_word(value: bool) -> Seq<char> {
    if value {
        "true"@
    } else {
        "false"@
    }
}

/// The word for a truth value.
pub fn bool_text(value: bool) -> (word: &'static str)
    ensures
        word@ == bool_word(value),
{
    if value {
        "true"
    } else {
        "false"
    }
}

/// Texts one behind the other, with a separator between each two.
pub open spec fn joined_with(list: Seq<Seq<char>>, separator: Seq<char>) -> Seq<char>
    decreases list.len(),
{
    if list.len() == 0 {
        seq![]
    } else if list.len() == 1 {
        list[0]
    } else {
        joined_with(list.drop_last(), separator) + separator + list.last()
    }
}

/// Joins texts with a separator.
pub fn join_texts(list: &Vec<String>, separator: &str) -> (out: String)
    ensures
        out@ == joined_with(string_views(list@), separator@),
{
    let ghost views = string_views(list@);
    let mut out = String::new();
    let mut i: usize = 0;
    assert(views.take(0) =~= seq![]);
    assert(out@ =~= seq![]);
    while i < list.len()
        invariant
            i <= list@.len(),
            views == string_views(list@),
            out@ == joined_with(views.take(i as int), separator@),
        decreases list@.len() - i,
    {
        assert(views.take(i + 1).drop_last() =~= views.take(i as int));
        if i > 0 {
            out.push_str(separator);
        }
        out.push_str(list[i].as_str());
        assert(out@ =~= joined_with(views.take(i + 1), separator@));
        i = i + 1;
    }
    assert(views.take(i as int) =~= views);
    out
}

/// Two numbers with the same decimal digits are the same number.
pub proof fn decimal_is_injective(a: nat, b: nat)
    requires
        decimal_of(a) == decimal_of(b),
    ensures
        a == b,
    decreases a,
{
    let left = decimal_of(a);
    let right = decimal_of(b);
    assert(left.last() == hex_digit((a % 10) as int));
    assert(right.last() == hex_digit((b % 10) as int));
    assert(a % 10 == b % 10);
    if a >= 10 && b >= 10 {
        assert(left.drop_last() =~= decimal_of(a / 10));
        assert(right.drop_last() =~= decimal_of(b / 10));
        decimal_is_injective(a / 10, b / 10);
    } else if a >= 10 {
        lemma_decimal_is_not_empty(a / 10);
        assert(left.len() >= 2);
    } else if b >= 10 {
        lemma_decimal_is_not_empty(b / 10);
        assert(right.len() >= 2);
    }
}

proof fn lemma_decimal_is_not_empty(n: nat)
    ensures
        decimal_of(n).len() > 0,
    decreases n,
{
}

} // verus!
