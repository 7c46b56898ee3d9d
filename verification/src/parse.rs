//! Reading what people write on a command line: lists, numbers and bytes.

use crate::text;
use vstd::prelude::*;

verus! {

/// The characters that Unicode counts as white space.
pub open spec fn is_white(c: char) -> bool {
    ||| '\u{9}' <= c <= '\u{d}'
    ||| c == '\u{20}'
    ||| c == '\u{85}'
    ||| c == '\u{a0}'
    ||| c == '\u{1680}'
    ||| '\u{2000}' <= c <= '\u{200a}'
    ||| c == '\u{2028}'
    ||| c == '\u{2029}'
    ||| c == '\u{202f}'
    ||| c == '\u{205f}'
    ||| c == '\u{3000}'
}

/// `text` without white space at its end.
pub open spec fn trimmed_end(text: Seq<char>) -> Seq<char>
    decreases text.len(),
{
    if text.len() > 0 && is_white(text.last()) {
        trimmed_end(text.drop_last())
    } else {
        text
    }
}

/// `text` without white space at its start.
pub open spec fn trimmed_start(text: Seq<char>) -> Seq<char>
    decreases text.len(),
{
    if text.len() > 0 && is_white(text[0]) {
        trimmed_start(text.skip(1))
    } else {
        text
    }
}

/// `text` without white space around it.
pub open spec fn trimmed(text: Seq<char>) -> Seq<char> {
    trimmed_end(trimmed_start(text))
}

/// What stands between one `separator` and the next: one piece more than there are
/// separators.
pub open spec fn pieces(text: Seq<char>, separator: char) -> Seq<Seq<char>>
    decreases text.len(),
{
    if text.len() == 0 {
        seq![Seq::empty()]
    } else {
        let before = pieces(text.drop_last(), separator);
        if text.last() == separator {
            before.push(Seq::empty())
        } else {
            before.drop_last().push(before.last().push(text.last()))
        }
    }
}

/// The words of `text`: what stands between white space, as far as anything does.
pub open spec fn words(text: Seq<char>) -> Seq<Seq<char>>
    decreases text.len(),
{
    if text.len() == 0 {
        Seq::empty()
    } else {
        let before = words(text.drop_last());
        if is_white(text.last()) {
            before
        } else if text.len() == 1 || is_white(text[text.len() - 2]) {
            before.push(seq![text.last()])
        } else {
            before.drop_last().push(before.last().push(text.last()))
        }
    }
}

/// The place where `c` stands last in `text`, or -1.
pub open spec fn last_place(text: Seq<char>, c: char) -> int
    decreases text.len(),
{
    if text.len() == 0 {
        -1
    } else if text.last() == c {
        text.len() - 1
    } else {
        last_place(text.drop_last(), c)
    }
}

pub open spec fn is_digit(c: char) -> bool {
    '0' <= c <= '9'
}

/// The number that decimal digits stand for.
pub open spec fn digits_value(digits: Seq<char>) -> nat
    decreases digits.len(),
{
    if digits.len() == 0 {
        0
    } else {
        digits_value(digits.drop_last()) * 10 + (digits.last() as nat - '0' as nat) as nat
    }
}

/// `text` without the plus sign that it may begin with.
pub open spec fn unsigned_part(text: Seq<char>) -> Seq<char> {
    if text.len() > 0 && text[0] == '+' {
        text.skip(1)
    } else {
        text
    }
}

/// The number that `text` stands for: digits, with or without a plus sign, and no
/// more than `max`.
pub open spec fn number_value(text: Seq<char>, max: nat) -> Option<nat> {
    let digits = unsigned_part(text);
    if digits.len() > 0 && (forall|i: int| 0 <= i < digits.len() ==> is_digit(#[trigger] digits[i]))
        && digits_value(digits) <= max {
        Some(digits_value(digits))
    } else {
        None
    }
}

/// The number that a hexadecimal digit stands for.
pub open spec fn hex_value(c: char) -> Option<int> {
    if '0' <= c <= '9' {
        Some(c as int - '0' as int)
    } else if 'a' <= c <= 'f' {
        Some(c as int - 'a' as int + 10)
    } else if 'A' <= c <= 'F' {
        Some(c as int - 'A' as int + 10)
    } else {
        None
    }
}

/// The byte that two characters stand for: two hexadecimal digits, or one after a
/// plus sign.
pub open spec fn byte_value(a: char, b: char) -> Option<u8> {
    match hex_value(b) {
        Some(low) => if a == '+' {
            Some(low as u8)
        } else {
            match hex_value(a) {
                Some(high) => Some((high * 16 + low) as u8),
                None => None,
            }
        },
        None => None,
    }
}

/// The text is made of pairs of characters that each stand for a byte.
pub open spec fn is_hex(text: Seq<char>) -> bool {
    &&& text.len() % 2 == 0
    &&& forall|i: int|
        0 <= i < text.len() as int / 2 ==> #[trigger] byte_at(text, i) is Some
}

/// The byte that pair `i` stands for.
pub open spec fn byte_at(text: Seq<char>, i: int) -> Option<u8> {
    byte_value(text[2 * i], text[2 * i + 1])
}

/// How many bytes a text takes in UTF-8.
pub open spec fn utf8_len(text: Seq<char>) -> nat
    decreases text.len(),
{
    if text.len() == 0 {
        0
    } else {
        let c = text.last() as int;
        utf8_len(text.drop_last()) + if c < 0x80 {
            1nat
        } else if c < 0x800 {
            2nat
        } else if c < 0x1_0000 {
            3nat
        } else {
            4nat
        }
    }
}

fn white(c: char) -> (found: bool)
    ensures
        found == is_white(c),
{
    ('\u{9}' <= c && c <= '\u{d}') || c == '\u{20}' || c == '\u{85}' || c == '\u{a0}' || c
        == '\u{1680}' || ('\u{2000}' <= c && c <= '\u{200a}') || c == '\u{2028}' || c == '\u{2029}'
        || c == '\u{202f}' || c == '\u{205f}' || c == '\u{3000}'
}

/// `text` without white space around it.
pub fn trim(text: &str) -> (out: String)
    ensures
        out@ == trimmed(text@),
{
    let chars: Vec<char> = text::chars_of(text);
    let total: usize = chars.len();
    let mut from: usize = 0;
    assert(text@.skip(0) == text@);
    while from < total && white(chars[from])
        invariant
            from <= total == chars@.len(),
            chars@ == text@,
            trimmed_start(text@) == trimmed_start(text@.skip(from as int)),
        decreases total - from,
    {
        assert(text@.skip(from as int).skip(1) == text@.skip(from + 1));
        from = from + 1;
    }
    let ghost rest = text@.skip(from as int);
    assert(trimmed_start(text@) == rest);
    let mut to: usize = total;
    assert(rest.take(rest.len() as int) == rest);
    while to > from && white(chars[to - 1])
        invariant
            from <= to <= total == chars@.len(),
            chars@ == text@,
            rest == text@.skip(from as int),
            trimmed_end(rest) == trimmed_end(rest.take(to - from)),
        decreases to,
    {
        assert(rest.take(to - from).drop_last() == rest.take(to - 1 - from));
        to = to - 1;
    }
    assert(rest.take(to - from) == text@.subrange(from as int, to as int));
    text::text_of(chars.as_slice(), from, to)
}

/// The texts as sequences.
pub open spec fn views(parts: Seq<String>) -> Seq<Seq<char>> {
    Seq::new(parts.len(), |i: int| parts[i]@)
}

/// The pieces of `text` between separators.
pub fn split(text: &str, separator: char) -> (parts: Vec<String>)
    ensures
        views(parts@) == pieces(text@, separator),
{
    let chars: Vec<char> = text::chars_of(text);
    let total: usize = chars.len();
    let mut parts: Vec<String> = Vec::new();
    let mut start: usize = 0;
    let mut i: usize = 0;
    assert(text@.take(0) == Seq::<char>::empty());
    assert(text@.subrange(0, 0) == Seq::<char>::empty());
    assert(views(parts@).push(Seq::<char>::empty()) == pieces(text@.take(0), separator));
    while i < total
        invariant
            start <= i <= total == chars@.len(),
            chars@ == text@,
            views(parts@).push(text@.subrange(start as int, i as int)) == pieces(
                text@.take(i as int),
                separator,
            ),
        decreases total - i,
    {
        assert(text@.take(i + 1).drop_last() == text@.take(i as int));
        let ghost before = views(parts@);
        if chars[i] == separator {
            let part: String = text::text_of(chars.as_slice(), start, i);
            let ghost earlier = parts@;
            parts.push(part);
            assert(views(parts@) == views(earlier).push(part@));
            start = i + 1;
            assert(text@.subrange(start as int, i + 1) == Seq::<char>::empty());
        } else {
            let ghost p = before.push(text@.subrange(start as int, i as int));
            assert(p.drop_last() == before);
            assert(text@.subrange(start as int, i as int).push(text@[i as int]) == text@.subrange(
                start as int,
                i + 1,
            ));
        }
        i = i + 1;
    }
    assert(text@.take(total as int) == text@);
    let part: String = text::text_of(chars.as_slice(), start, total);
    let ghost earlier = parts@;
    parts.push(part);
    assert(views(parts@) == views(earlier).push(part@));
    parts
}

/// The words of `text`.
pub fn split_words(text: &str) -> (parts: Vec<String>)
    ensures
        views(parts@) == words(text@),
{
    let chars: Vec<char> = text::chars_of(text);
    let total: usize = chars.len();
    let mut parts: Vec<String> = Vec::new();
    let mut start: usize = 0;
    let mut i: usize = 0;
    assert(text@.take(0) == Seq::<char>::empty());
    assert(views(parts@) == words(text@.take(0)));
    while i < total
        invariant
            start <= i <= total == chars@.len(),
            chars@ == text@,
            start < i ==> !is_white(text@[i - 1]),
            start == i && i > 0 ==> is_white(text@[i - 1]),
            words(text@.take(i as int)) == if start < i {
                views(parts@).push(text@.subrange(start as int, i as int))
            } else {
                views(parts@)
            },
        decreases total - i,
    {
        assert(text@.take(i + 1).drop_last() == text@.take(i as int));
        let ghost earlier = parts@;
        if white(chars[i]) {
            if start < i {
                let part: String = text::text_of(chars.as_slice(), start, i);
                parts.push(part);
                assert(views(parts@) == views(earlier).push(part@));
            }
            start = i + 1;
        } else {
            let ghost word = text@.subrange(start as int, i as int);
            assert(word.push(text@[i as int]) == text@.subrange(start as int, i + 1));
            if start < i {
                assert(views(earlier).push(word).drop_last() == views(earlier));
            } else {
                assert(seq![text@[i as int]] == text@.subrange(start as int, i + 1));
            }
        }
        i = i + 1;
    }
    assert(text@.take(total as int) == text@);
    if start < total {
        let ghost earlier = parts@;
        let part: String = text::text_of(chars.as_slice(), start, total);
        parts.push(part);
        assert(views(parts@) == views(earlier).push(part@));
    }
    parts
}

/// Where `c` stands last in `chars`.
pub fn find_last(chars: &[char], c: char) -> (place: Option<usize>)
    ensures
        place matches Some(p) ==> p == last_place(chars@, c) && p < chars@.len(),
        place is None <==> last_place(chars@, c) == -1,
{
    let total: usize = chars.len();
    let mut at: usize = total;
    assert(chars@.take(total as int) == chars@);
    while at > 0
        invariant
            at <= total == chars@.len(),
            last_place(chars@, c) == last_place(chars@.take(at as int), c),
        decreases at,
    {
        if chars[at - 1] == c {
            return Some(at - 1);
        }
        assert(chars@.take(at as int).drop_last() == chars@.take(at - 1));
        at = at - 1;
    }
    None
}

/// Reads a number that is no more than `max`.
pub fn parse_number(chars: &[char], max: u32) -> (value: Option<u32>)
    ensures
        value matches Some(n) ==> number_value(chars@, max as nat) == Some(n as nat),
        value is None <==> number_value(chars@, max as nat) is None,
{
    let total: usize = chars.len();
    let start: usize = if total > 0 && chars[0] == '+' {
        1
    } else {
        0
    };
    let ghost digits = unsigned_part(chars@);
    assert(chars@.skip(0) == chars@);
    if start >= total {
        return None;
    }
    let limit: u64 = max as u64 + 1;
    let mut n: u64 = 0;
    let mut i: usize = start;
    assert(digits.take(0) == Seq::<char>::empty());
    while i < total
        invariant
            start <= i <= total == chars@.len(),
            digits == chars@.skip(start as int),
            digits == unsigned_part(chars@),
            forall|j: int| 0 <= j < i - start ==> is_digit(#[trigger] digits[j]),
            limit == max + 1,
            n <= limit,
            n < limit ==> digits_value(digits.take(i - start)) == n,
            n == limit ==> digits_value(digits.take(i - start)) >= n,
        decreases total - i,
    {
        let c: char = chars[i];
        assert(digits[i - start] == c);
        if !('0' <= c && c <= '9') {
            assert(!is_digit(digits[i - start]));
            return None;
        }
        let d: u64 = (c as u32 - '0' as u32) as u64;
        assert(digits.take(i - start + 1).drop_last() == digits.take(i - start));
        if n < limit {
            n = n * 10 + d;
            if n > limit {
                n = limit;
            }
        }
        i = i + 1;
    }
    assert(digits.take(digits.len() as int) == digits);
    if n < limit {
        Some(n as u32)
    } else {
        None
    }
}

fn hex_digit(c: char) -> (value: Option<u8>)
    ensures
        value matches Some(v) ==> hex_value(c) == Some(v as int) && v < 16,
        value is None <==> hex_value(c) is None,
{
    if '0' <= c && c <= '9' {
        Some(c as u8 - '0' as u8)
    } else if 'a' <= c && c <= 'f' {
        Some(c as u8 - 'a' as u8 + 10)
    } else if 'A' <= c && c <= 'F' {
        Some(c as u8 - 'A' as u8 + 10)
    } else {
        None
    }
}

fn hex_byte(a: char, b: char) -> (value: Option<u8>)
    ensures
        value == byte_value(a, b),
{
    match hex_digit(b) {
        Some(low) => {
            if a == '+' {
                return Some(low);
            }
            match hex_digit(a) {
                Some(high) => Some(high * 16 + low),
                None => None,
            }
        },
        None => None,
    }
}

/// The bytes that pairs of hexadecimal digits stand for.
pub fn parse_hex(text: &str) -> (bytes: Option<Vec<u8>>)
    ensures
        bytes is Some <==> is_hex(text@),
        bytes matches Some(b) ==> b@ == Seq::new(
            (text@.len() / 2) as nat,
            |i: int| byte_at(text@, i)->0,
        ),
{
    let chars: Vec<char> = text::chars_of(text);
    if chars.len() % 2 != 0 {
        return None;
    }
    let total: usize = chars.len() / 2;
    let mut bytes: Vec<u8> = Vec::new();
    let mut i: usize = 0;
    while i < total
        invariant
            i <= total,
            chars@ == text@,
            total == chars@.len() / 2,
            chars@.len() <= usize::MAX,
            forall|j: int| 0 <= j < i ==> #[trigger] byte_at(text@, j) is Some,
            bytes@ == Seq::new(i as nat, |i: int| byte_at(text@, i)->0),
        decreases total - i,
    {
        match hex_byte(chars[2 * i], chars[2 * i + 1]) {
            Some(b) => {
                assert(byte_at(text@, i as int) == Some(b));
                bytes.push(b);
            },
            None => {
                assert(byte_at(text@, i as int) is None);
                return None;
            },
        }
        i = i + 1;
    }
    Some(bytes)
}

fn char_bytes(c: char) -> (n: u64)
    ensures
        n == (if (c as int) < 0x80 {
            1int
        } else if (c as int) < 0x800 {
            2
        } else if (c as int) < 0x1_0000 {
            3
        } else {
            4
        }),
{
    let code: u32 = c as u32;
    if code < 0x80 {
        1
    } else if code < 0x800 {
        2
    } else if code < 0x1_0000 {
        3
    } else {
        4
    }
}

/// How many bytes `chars` take in UTF-8.
pub fn count_bytes(chars: &[char]) -> (n: u64)
    requires
        chars@.len() * 4 <= u64::MAX,
    ensures
        n == utf8_len(chars@),
{
    let total: usize = chars.len();
    let mut n: u64 = 0;
    let mut i: usize = 0;
    assert(chars@.take(0) == Seq::<char>::empty());
    while i < total
        invariant
            i <= total == chars@.len(),
            chars@.len() * 4 <= u64::MAX,
            n == utf8_len(chars@.take(i as int)),
            n <= i * 4,
        decreases total - i,
    {
        assert(chars@.take(i + 1).drop_last() == chars@.take(i as int));
        n = n + char_bytes(chars[i]);
        i = i + 1;
    }
    assert(chars@.take(total as int) == chars@);
    n
}

/// No character takes more than four bytes.
pub proof fn lemma_utf8_len(text: Seq<char>)
    ensures
        utf8_len(text) <= text.len() * 4,
    decreases text.len(),
{
    if text.len() > 0 {
        lemma_utf8_len(text.drop_last());
    }
}

/// The last place of a character is a place, or -1.
pub proof fn lemma_last_place(text: Seq<char>, c: char)
    ensures
        -1 <= last_place(text, c) < text.len() as int,
    decreases text.len(),
{
    if text.len() > 0 {
        lemma_last_place(text.drop_last(), c);
    }
}

/// A list that is taken apart and put together again is the list.
pub proof fn law_pieces_make_the_text(text: Seq<char>, separator: char)
    ensures
        pieces(text, separator).len() > 0,
        text::joined(pieces(text, separator), seq![separator]) == text,
    decreases text.len(),
{
    let parts = pieces(text, separator);
    if text.len() > 0 {
        law_pieces_make_the_text(text.drop_last(), separator);
        let before = pieces(text.drop_last(), separator);
        if text.last() == separator {
            assert(parts.drop_last() == before);
            assert(text.drop_last() + seq![separator] + Seq::<char>::empty() == text);
        } else {
            assert(parts.drop_last() == before.drop_last());
            assert(text.drop_last().push(text.last()) == text);
            if before.len() > 1 {
                let head = text::joined(before.drop_last(), seq![separator]) + seq![separator];
                assert(head + before.last().push(text.last()) == (head + before.last()).push(
                    text.last(),
                ));
            }
        }
    }
}

/// A number that is written out is read back as the same number.
pub proof fn law_number_round_trip(n: nat, max: nat)
    requires
        n <= max,
    ensures
        number_value(text::decimal(n), max) == Some(n),
{
    lemma_decimal_value(n);
    text::lemma_decimal_is_digits(n);
    let digits = text::decimal(n);
    assert(digits[0] != '+');
}

proof fn lemma_decimal_value(n: nat)
    ensures
        digits_value(text::decimal(n)) == n,
    decreases n,
{
    if n >= 10 {
        lemma_decimal_value(n / 10);
        assert(text::decimal(n).drop_last() == text::decimal(n / 10));
    } else {
        assert(text::decimal(n).drop_last() == Seq::<char>::empty());
        assert(digits_value(Seq::<char>::empty()) == 0);
    }
    assert(text::decimal(n).last() == text::digit((n % 10) as int));
}

/// Among the characters of ASCII the blank and those from the tab to the carriage return
/// are white space.
pub proof fn law_white_space(c: char)
    requires
        (c as int) < 0x80,
    ensures
        is_white(c) <==> c as int == 32 || 9 <= c as int <= 13,
{
}

proof fn lemma_trimmed_start(blank: Seq<char>, core: Seq<char>)
    requires
        forall|i: int| 0 <= i < blank.len() ==> is_white(#[trigger] blank[i]),
        core.len() > 0,
        !is_white(core[0]),
    ensures
        trimmed_start(blank + core) == core,
    decreases blank.len(),
{
    if blank.len() == 0 {
        assert(blank + core =~= core);
    } else {
        let rest = blank.skip(1);
        assert((blank + core)[0] == blank[0]);
        assert((blank + core).skip(1) =~= rest + core);
        assert forall|i: int| 0 <= i < rest.len() implies is_white(#[trigger] rest[i]) by {
            assert(rest[i] == blank[i + 1]);
        }
        lemma_trimmed_start(rest, core);
    }
}

proof fn lemma_trimmed_end(core: Seq<char>, blank: Seq<char>)
    requires
        forall|i: int| 0 <= i < blank.len() ==> is_white(#[trigger] blank[i]),
        core.len() > 0,
        !is_white(core.last()),
    ensures
        trimmed_end(core + blank) == core,
    decreases blank.len(),
{
    if blank.len() == 0 {
        assert(core + blank =~= core);
    } else {
        let rest = blank.drop_last();
        assert((core + blank).last() == blank.last());
        assert((core + blank).drop_last() =~= core + rest);
        assert forall|i: int| 0 <= i < rest.len() implies is_white(#[trigger] rest[i]) by {
            assert(rest[i] == blank[i]);
        }
        lemma_trimmed_end(core, rest);
    }
}

/// White space around a text is dropped, all of it and nothing else.
pub proof fn law_white_space_around_is_dropped(
    front: Seq<char>,
    core: Seq<char>,
    back: Seq<char>,
    text: &str,
    out: String,
)
    requires
        call_ensures(trim, (text,), out),
        text@ == front + core + back,
        forall|i: int| 0 <= i < front.len() ==> is_white(#[trigger] front[i]),
        forall|i: int| 0 <= i < back.len() ==> is_white(#[trigger] back[i]),
        core.len() > 0,
        !is_white(core[0]),
        !is_white(core.last()),
    ensures
        out@ == core,
{
    assert(text@ =~= front + (core + back));
    lemma_trimmed_start(front, core + back);
    lemma_trimmed_end(core, back);
}

proof fn lemma_pieces_hold_no_separator(text: Seq<char>, separator: char, i: int)
    requires
        0 <= i < pieces(text, separator).len(),
    ensures
        pieces(text, separator).len() > 0,
        !pieces(text, separator)[i].contains(separator),
    decreases text.len(),
{
    if text.len() > 0 {
        let before = pieces(text.drop_last(), separator);
        law_pieces_make_the_text(text.drop_last(), separator);
        if i < before.len() {
            lemma_pieces_hold_no_separator(text.drop_last(), separator, i);
        }
        if text.last() != separator && i == before.len() - 1 {
            let piece = before.last().push(text.last());
            assert(pieces(text, separator)[i] == piece);
            assert forall|k: int| 0 <= k < piece.len() implies piece[k] != separator by {
                if k < before.last().len() {
                    assert(piece[k] == before.last()[k]);
                    if before.last()[k] == separator {
                        assert(before.last().contains(separator));
                    }
                }
            }
        }
    }
}

/// A list comes apart at every separator: no part holds one, and put together again the
/// parts are the list.
pub proof fn law_parts_hold_no_separator(text: &str, separator: char, parts: Vec<String>, i: int)
    requires
        call_ensures(split, (text, separator), parts),
        0 <= i < parts@.len(),
    ensures
        !parts@[i]@.contains(separator),
        text::joined(views(parts@), seq![separator]) == text@,
{
    assert(views(parts@)[i] == parts@[i]@);
    lemma_pieces_hold_no_separator(text@, separator, i);
    law_pieces_make_the_text(text@, separator);
}

/// The words one after the other.
pub open spec fn run_together(parts: Seq<Seq<char>>) -> Seq<char>
    decreases parts.len(),
{
    if parts.len() == 0 {
        Seq::empty()
    } else {
        run_together(parts.drop_last()) + parts.last()
    }
}

/// The words of a text are not empty, hold no white space, and are together all that is
/// not white space.
pub proof fn law_words_are_what_is_not_white(text: Seq<char>)
    ensures
        forall|i: int| 0 <= i < words(text).len() ==> (#[trigger] words(text)[i]).len() > 0,
        forall|i: int, k: int|
            0 <= i < words(text).len() && 0 <= k < words(text)[i].len() ==> !is_white(
                #[trigger] words(text)[i][k],
            ),
        run_together(words(text)) == text.filter(|c: char| !is_white(c)),
        text.len() > 0 && !is_white(text.last()) ==> words(text).len() > 0,
    decreases text.len(),
{
    reveal(Seq::filter);
    if text.len() > 0 {
        let init = text.drop_last();
        let c = text.last();
        let before = words(init);
        law_words_are_what_is_not_white(init);
        if is_white(c) {
        } else if text.len() == 1 || is_white(text[text.len() - 2]) {
            let all = before.push(seq![c]);
            assert(all.drop_last() =~= before);
            assert(run_together(all) =~= run_together(before).push(c));
        } else {
            assert(init.last() == text[text.len() - 2]);
            let longer = before.last().push(c);
            let all = before.drop_last().push(longer);
            assert(all.drop_last() =~= before.drop_last());
            assert(run_together(before) == run_together(before.drop_last()) + before.last());
            assert(run_together(all) =~= run_together(before).push(c));
            assert forall|i: int, k: int|
                0 <= i < all.len() && 0 <= k < all[i].len() implies !is_white(
                #[trigger] all[i][k],
            ) by {
                if i < before.len() - 1 {
                    assert(all[i] == before[i]);
                    assert(!is_white(before[i][k]));
                } else if k < before.last().len() {
                    assert(all[i][k] == before[before.len() - 1][k]);
                }
            }
        }
    }
}

/// The last place of a character holds it, and no later place does.
pub proof fn law_last_place_is_the_last(chars: &[char], c: char, place: Option<usize>, i: int)
    requires
        call_ensures(find_last, (chars, c), place),
    ensures
        place matches Some(p) ==> chars@[p as int] == c,
        place matches Some(p) ==> (p < i < chars@.len() ==> chars@[i] != c),
        place is None ==> (0 <= i < chars@.len() ==> chars@[i] != c),
{
    lemma_last_of(chars@, c, i);
}

proof fn lemma_last_of(text: Seq<char>, c: char, i: int)
    ensures
        -1 <= last_place(text, c) < text.len() as int,
        last_place(text, c) >= 0 ==> text[last_place(text, c)] == c,
        last_place(text, c) < i < text.len() ==> text[i] != c,
    decreases text.len(),
{
    if text.len() > 0 && text.last() != c {
        let init = text.drop_last();
        lemma_last_of(init, c, i);
        if i < init.len() && 0 <= i {
            assert(init[i] == text[i]);
        }
    }
}

/// A plus sign in front of a number changes nothing, a number above the bound is none, and
/// neither is anything with a character that is no digit.
pub proof fn law_numbers_are_digits(chars: &[char], max: u32, value: Option<u32>, i: int)
    requires
        call_ensures(parse_number, (chars, max), value),
    ensures
        value matches Some(n) ==> n <= max && chars@.len() > 0,
        value is Some && 0 < i < chars@.len() ==> '0' <= chars@[i] <= '9',
        value is Some ==> chars@[0] == '+' && chars@.len() > 1 || '0' <= chars@[0] <= '9',
        value matches Some(n) ==> (chars@.len() == 1 ==> n == chars@[0] as int - '0' as int),
        value matches Some(n) ==> n % 10 == chars@.last() as int - '0' as int,
{
    let digits = unsigned_part(chars@);
    if value is Some {
        assert(is_digit(digits[0]));
        assert(is_digit(digits[digits.len() - 1]));
        assert(digits.last() == chars@.last());
        if 0 < i < chars@.len() {
            if chars@[0] == '+' {
                assert(digits[i - 1] == chars@[i]);
            } else {
                assert(digits[i] == chars@[i]);
            }
        }
        if chars@.len() == 1 {
            assert(digits == chars@);
            assert(digits_value(digits.drop_last()) == 0);
        }
    }
}

/// Two hexadecimal digits stand for a byte, the first for sixteen times as much; capitals
/// count like small letters, and a text of odd length stands for nothing.
pub proof fn law_hex_pairs_are_bytes(text: &str, bytes: Option<Vec<u8>>, i: int)
    requires
        call_ensures(parse_hex, (text,), bytes),
    ensures
        text@.len() % 2 == 1 ==> bytes is None,
        bytes matches Some(b) ==> 2 * b@.len() == text@.len(),
        bytes matches Some(b) ==> (0 <= i < b@.len() && '0' <= text@[2 * i] <= '9' && '0' <= text@[2
            * i + 1] <= '9' ==> b@[i] == 16 * (text@[2 * i] as int - 48) + (text@[2 * i + 1] as int
            - 48)),
        bytes matches Some(b) ==> (0 <= i < b@.len() && 'a' <= text@[2 * i] <= 'f' && 'a' <= text@[2
            * i + 1] <= 'f' ==> b@[i] == 16 * (text@[2 * i] as int - 87) + (text@[2 * i + 1] as int
            - 87)),
        bytes matches Some(b) ==> (0 <= i < b@.len() && 'A' <= text@[2 * i] <= 'F' && 'A' <= text@[2
            * i + 1] <= 'F' ==> b@[i] == 16 * (text@[2 * i] as int - 55) + (text@[2 * i + 1] as int
            - 55)),
{
    if let Some(b) = bytes {
        if 0 <= i < b@.len() {
            assert(byte_at(text@, i) is Some);
            assert(b@[i] == byte_at(text@, i)->0);
        }
    }
}

/// A character of ASCII takes a byte, one below 0x800 two, one of the first plane three
/// and any other four.
pub proof fn law_bytes_of_a_character(text: Seq<char>, c: char)
    ensures
        utf8_len(Seq::<char>::empty()) == 0,
        (c as int) < 0x80 ==> utf8_len(text.push(c)) == utf8_len(text) + 1,
        0x80 <= (c as int) < 0x800 ==> utf8_len(text.push(c)) == utf8_len(text) + 2,
        0x800 <= (c as int) < 0x1_0000 ==> utf8_len(text.push(c)) == utf8_len(text) + 3,
        0x1_0000 <= c as int ==> utf8_len(text.push(c)) == utf8_len(text) + 4,
{
    assert(text.push(c).drop_last() =~= text);
}

} // verus!
