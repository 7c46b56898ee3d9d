//! Text: comparison, search and decimal numbers.

use vstd::prelude::*;
use vstd::string::StringExecFns;

verus! {

/// `String::push` appends one character.
pub assume_specification[ std::string::String::push ](s: &mut std::string::String, c: char)
    ensures
        final(s)@ == old(s)@.push(c),
;

/// `c`, in lower case if it is an ASCII letter.
pub open spec fn lower(c: char) -> char {
    if 'A' <= c <= 'Z' {
        (c as u8 + 32) as u8 as char
    } else {
        c
    }
}

/// The text with its ASCII letters in lower case.
pub open spec fn lowered(text: Seq<char>) -> Seq<char> {
    text.map_values(|c: char| lower(c))
}

/// The two texts differ in the case of ASCII letters at most.
pub open spec fn same_ignoring_case(a: Seq<char>, b: Seq<char>) -> bool {
    lowered(a) == lowered(b)
}

/// `part` stands in `text` at `at`.
pub open spec fn occurs_at(text: Seq<char>, part: Seq<char>, at: int) -> bool {
    0 <= at && at + part.len() <= text.len() && text.subrange(at, at + part.len()) == part
}

/// `part` stands somewhere in `text`.
pub open spec fn occurs(text: Seq<char>, part: Seq<char>) -> bool {
    exists|at: int| occurs_at(text, part, at)
}

/// The decimal digit `d`.
pub open spec fn digit(d: int) -> char {
    ('0' as u8 + d) as u8 as char
}

/// `n` in decimal, without leading zeros.
pub open spec fn decimal(n: nat) -> Seq<char>
    decreases n,
{
    if n < 10 {
        seq![digit(n as int)]
    } else {
        decimal(n / 10).push(digit((n % 10) as int))
    }
}

/// The hexadecimal digit `d`, in upper case.
pub open spec fn hex_digit(d: int) -> char {
    if d < 10 {
        digit(d)
    } else {
        ('A' as u8 + (d - 10)) as u8 as char
    }
}

/// `n` in hexadecimal, in upper case and without leading zeros.
pub open spec fn hex(n: nat) -> Seq<char>
    decreases n,
{
    if n < 16 {
        seq![hex_digit(n as int)]
    } else {
        hex(n / 16).push(hex_digit((n % 16) as int))
    }
}

/// The signed number `n` in decimal.
pub open spec fn signed_decimal(n: int) -> Seq<char> {
    if n < 0 {
        seq!['-'] + decimal((-n) as nat)
    } else {
        decimal(n as nat)
    }
}

/// The texts one after the other, with `separator` between them.
pub open spec fn joined(parts: Seq<Seq<char>>, separator: Seq<char>) -> Seq<char>
    decreases parts.len(),
{
    if parts.len() == 0 {
        Seq::empty()
    } else if parts.len() == 1 {
        parts[0]
    } else {
        joined(parts.drop_last(), separator) + separator + parts.last()
    }
}

/// What std's `str::to_lowercase` makes of a text: the lower case of every character
/// that has one, by the tables of Unicode.
pub uninterp spec fn lowercase_of(text: Seq<char>) -> Seq<char>;

/// The text in lower case, by `str::to_lowercase`. The result is named; of a text in
/// ASCII it is claimed that letters alone change, as [`lowered`] has it.
#[verifier::external_body]
pub(crate) fn lowercase(text: &str) -> (low: String)
    ensures
        low@ == lowercase_of(text@),
        (forall|i: int| 0 <= i < text@.len() ==> (#[trigger] text@[i] as int) < 0x80) ==> low@
            == lowered(text@),
{
    text.to_lowercase()
}

/// The characters of `text`.
pub fn chars_of(text: &str) -> (chars: Vec<char>)
    ensures
        chars@ == text@,
{
    let mut chars: Vec<char> = Vec::new();
    for c in it: text.chars()
        invariant
            chars@ == it.seq().take(it.index()),
            it.seq() == text@,
    {
        chars.push(c);
        assert(chars@ =~= it.seq().take(it.index() + 1));
    }
    assert(chars@ =~= text@);
    chars
}

/// `chars[from..to]` as text.
pub fn text_of(chars: &[char], from: usize, to: usize) -> (text: String)
    requires
        from <= to <= chars@.len(),
    ensures
        text@ == chars@.subrange(from as int, to as int),
{
    let mut text = String::new();
    let mut i: usize = from;
    while i < to
        invariant
            from <= i <= to <= chars@.len(),
            text@ == chars@.subrange(from as int, i as int),
        decreases to - i,
    {
        text.push(chars[i]);
        i += 1;
        assert(text@ =~= chars@.subrange(from as int, i as int));
    }
    text
}

/// `c`, in lower case if it is an ASCII letter.
pub fn to_lower(c: char) -> (low: char)
    ensures
        low == lower(c),
{
    if 'A' <= c && c <= 'Z' {
        let code: u8 = c as u8;
        (code + 32) as char
    } else {
        c
    }
}

/// Whether the two texts are the same.
pub fn same(a: &str, b: &str) -> (equal: bool)
    ensures
        equal == (a@ == b@),
{
    let left = chars_of(a);
    let right = chars_of(b);
    if left.len() != right.len() {
        return false;
    }
    let mut i: usize = 0;
    while i < left.len()
        invariant
            left@ == a@,
            right@ == b@,
            i <= left@.len() == right@.len(),
            forall|j: int| 0 <= j < i ==> left@[j] == right@[j],
        decreases left@.len() - i,
    {
        if left[i] != right[i] {
            return false;
        }
        i += 1;
    }
    assert(left@ =~= right@);
    true
}

/// Whether the two texts differ in the case of ASCII letters at most.
pub fn eq_ignore_case(a: &str, b: &str) -> (equal: bool)
    ensures
        equal == same_ignoring_case(a@, b@),
{
    let left = chars_of(a);
    let right = chars_of(b);
    if left.len() != right.len() {
        assert(lowered(a@).len() != lowered(b@).len());
        return false;
    }
    let mut i: usize = 0;
    while i < left.len()
        invariant
            left@ == a@,
            right@ == b@,
            i <= left@.len() == right@.len(),
            forall|j: int| 0 <= j < i ==> lower(left@[j]) == lower(right@[j]),
        decreases left@.len() - i,
    {
        if to_lower(left[i]) != to_lower(right[i]) {
            assert(lowered(a@)[i as int] != lowered(b@)[i as int]);
            return false;
        }
        i += 1;
    }
    assert(lowered(a@) =~= lowered(b@));
    true
}

/// The text with its ASCII letters in lower case.
pub fn to_lowercase(text: &str) -> (low: String)
    ensures
        low@ == lowered(text@),
{
    let chars = chars_of(text);
    let mut low = String::new();
    let mut i: usize = 0;
    while i < chars.len()
        invariant
            i <= chars@.len(),
            low@ == lowered(chars@.take(i as int)),
        decreases chars@.len() - i,
    {
        low.push(to_lower(chars[i]));
        i += 1;
        assert(low@ =~= lowered(chars@.take(i as int)));
    }
    assert(chars@.take(chars@.len() as int) =~= chars@);
    low
}

/// Whether `part` stands in `text` at `at`.
pub fn stands_at(text: &[char], part: &[char], at: usize) -> (found: bool)
    ensures
        found == occurs_at(text@, part@, at as int),
{
    if at > text.len() || part.len() > text.len() - at {
        return false;
    }
    let mut i: usize = 0;
    while i < part.len()
        invariant
            i <= part@.len(),
            at + part@.len() <= text@.len(),
            text@.len() <= usize::MAX,
            forall|j: int| 0 <= j < i ==> text@[at + j] == part@[j],
        decreases part@.len() - i,
    {
        if text[at + i] != part[i] {
            assert(text@.subrange(at as int, at + part@.len())[i as int] != part@[i as int]);
            return false;
        }
        i += 1;
    }
    assert(text@.subrange(at as int, at + part@.len()) =~= part@);
    true
}

/// Where `part` first stands in `text`, at or after `from`.
pub fn find(text: &[char], part: &[char], from: usize) -> (found: Option<usize>)
    ensures
        match found {
            Some(at) => {
                &&& from <= at
                &&& occurs_at(text@, part@, at as int)
                &&& forall|i: int| from <= i < at ==> !occurs_at(text@, part@, i)
            },
            None => forall|i: int| from <= i ==> !occurs_at(text@, part@, i),
        },
        occurs_at(text@, part@, from as int) ==> found == Some(from),
{
    let mut at: usize = from;
    while at <= text.len()
        invariant
            from <= at,
            forall|i: int| from <= i < at ==> !occurs_at(text@, part@, i),
        decreases text@.len() + 1 - at,
    {
        if stands_at(text, part, at) {
            return Some(at);
        }
        if at == text.len() {
            assert forall|i: int| from <= i implies !occurs_at(text@, part@, i) by {}
            return None;
        }
        at += 1;
    }
    None
}

/// Whether `part` stands somewhere in `text`.
pub fn contains(text: &str, part: &str) -> (found: bool)
    ensures
        found == occurs(text@, part@),
{
    let text = chars_of(text);
    let part = chars_of(part);
    find(text.as_slice(), part.as_slice(), 0).is_some()
}

/// Append the character for the digit `d`.
fn push_digit(text: &mut String, d: u8)
    requires
        d < 10,
    ensures
        final(text)@ == old(text)@.push(digit(d as int)),
{
    text.push((48 + d) as char);
}

/// Append `n` in decimal.
pub fn push_decimal(text: &mut String, n: u64)
    ensures
        final(text)@ == old(text)@ + decimal(n as nat),
    decreases n,
{
    if n < 10 {
        push_digit(text, n as u8);
        assert(text@ =~= old(text)@ + decimal(n as nat));
    } else {
        push_decimal(text, n / 10);
        push_digit(text, (n % 10) as u8);
        assert(text@ =~= old(text)@ + decimal(n as nat));
    }
}

/// Append `n` in hexadecimal, in upper case.
pub fn push_hex(text: &mut String, n: u32)
    ensures
        final(text)@ == old(text)@ + hex(n as nat),
    decreases n,
{
    let low: u8 = (n % 16) as u8;
    if n >= 16 {
        push_hex(text, n / 16);
    }
    if low < 10 {
        push_digit(text, low);
    } else {
        text.push((55 + low) as char);
    }
    assert(text@ =~= old(text)@ + hex(n as nat));
}

/// Append the signed number `n` in decimal.
pub fn push_signed(text: &mut String, n: i64)
    requires
        n > i64::MIN,
    ensures
        final(text)@ == old(text)@ + signed_decimal(n as int),
{
    if n < 0 {
        text.push('-');
        push_decimal(text, (-n) as u64);
        assert(text@ =~= old(text)@ + signed_decimal(n as int));
    } else {
        push_decimal(text, n as u64);
    }
}

/// A copy of `text`.
pub fn copy(text: &str) -> (out: String)
    ensures
        out@ == text@,
{
    let mut out = String::new();
    out.append(text);
    assert(out@ =~= text@);
    out
}

/// The characters of an optional text.
pub open spec fn option_view(text: Option<String>) -> Option<Seq<char>> {
    match text {
        Some(t) => Some(t@),
        None => None,
    }
}

/// Whether two optional texts are the same.
pub fn same_option(a: &Option<String>, b: &Option<String>) -> (equal: bool)
    ensures
        equal == (option_view(*a) == option_view(*b)),
{
    match (a, b) {
        (Some(x), Some(y)) => same(x.as_str(), y.as_str()),
        (None, None) => true,
        _ => false,
    }
}

/// A copy of an optional text.
pub fn copy_option(text: &Option<String>) -> (out: Option<String>)
    ensures
        option_view(out) == option_view(*text),
{
    match text {
        Some(t) => Some(copy(t.as_str())),
        None => None,
    }
}

/// A decimal number is made of digits.
pub proof fn lemma_decimal_is_digits(n: nat)
    ensures
        decimal(n).len() > 0,
        forall|i: int| 0 <= i < decimal(n).len() ==> '0' <= #[trigger] decimal(n)[i] <= '9',
    decreases n,
{
    if n >= 10 {
        lemma_decimal_is_digits(n / 10);
    }
}

/// Two numbers with the same decimal digits are the same.
pub proof fn lemma_decimal_injective(a: nat, b: nat)
    requires
        decimal(a) == decimal(b),
    ensures
        a == b,
    decreases a,
{
    lemma_decimal_is_digits(a / 10);
    lemma_decimal_is_digits(b / 10);
    assert(decimal(a).last() == digit((a % 10) as int));
    assert(decimal(b).last() == digit((b % 10) as int));
    assert(a % 10 == b % 10);
    if a >= 10 && b >= 10 {
        assert(decimal(a).drop_last() =~= decimal(a / 10));
        assert(decimal(b).drop_last() =~= decimal(b / 10));
        lemma_decimal_injective(a / 10, b / 10);
    }
}

/// Letters of ASCII lose their capitals, by 32 places, and everything else stays as it is;
/// what is in lower case stays there.
pub proof fn law_lower_case_of_letters(c: char, low: char, again: char)
    requires
        call_ensures(to_lower, (c,), low),
        call_ensures(to_lower, (low,), again),
    ensures
        'A' <= c <= 'Z' ==> low as int == c as int + 32,
        c < 'A' || 'Z' < c ==> low == c,
        again == low,
{
}

/// Two texts that differ in case alone are as long as each other, and differ at most where
/// one has the capital of the other's letter.
pub proof fn law_case_is_all_that_differs(a: &str, b: &str, equal: bool, i: int)
    requires
        call_ensures(eq_ignore_case, (a, b), equal),
        equal,
        0 <= i < a@.len(),
    ensures
        a@.len() == b@.len(),
        a@[i] == b@[i] || a@[i] as int == b@[i] as int + 32 && 'A' <= b@[i] <= 'Z' || a@[i] as int
            + 32 == b@[i] as int && 'A' <= a@[i] <= 'Z',
{
    assert(lowered(a@).len() == a@.len());
    assert(lowered(b@).len() == b@.len());
    assert(lowered(a@)[i] == lower(a@[i]));
    assert(lowered(b@)[i] == lower(b@[i]));
}

/// What is put into a text is found there, and what is longer than a text is not.
pub proof fn law_part_is_found(
    head: Seq<char>,
    part: &str,
    tail: Seq<char>,
    text: &str,
    found: bool,
)
    requires
        call_ensures(contains, (text, part), found),
    ensures
        text@ == head + part@ + tail ==> found,
        part@.len() > text@.len() ==> !found,
        found ==> exists|at: int|
            0 <= at <= text@.len() - part@.len() && #[trigger] text@.subrange(
                at,
                at + part@.len(),
            ) == part@,
{
    if text@ == head + part@ + tail {
        let at = head.len() as int;
        assert(text@.subrange(at, at + part@.len()) =~= part@);
        assert(occurs_at(text@, part@, at));
    }
    if found {
        let at = choose|at: int| occurs_at(text@, part@, at);
        assert(text@.subrange(at, at + part@.len()) == part@);
    }
}

/// Numbers are written with the most significant digit first and no zero in front; a
/// negative one has a minus sign in front of its digits.
pub proof fn law_no_zero_in_front(n: nat)
    ensures
        decimal(n).len() > 0,
        n > 0 ==> decimal(n)[0] != '0',
        n < 10 ==> decimal(n).len() == 1,
        n >= 10 ==> decimal(n).len() == decimal(n / 10).len() + 1,
        decimal(n).last() as int == '0' as int + n % 10,
        n > 0 ==> signed_decimal(-(n as int)) == seq!['-'] + decimal(n),
        hex(n).len() > 0,
        n > 0 ==> hex(n)[0] != '0',
        n % 16 < 10 ==> hex(n).last() as int == '0' as int + n % 16,
        n % 16 >= 10 ==> hex(n).last() as int == 'A' as int + n % 16 - 10,
        n >= 16 ==> hex(n).drop_last() == hex(n / 16),
    decreases n,
{
    if n >= 10 {
        law_no_zero_in_front(n / 10);
    }
    lemma_hex_front(n);
    if n >= 16 {
        assert(hex(n).drop_last() =~= hex(n / 16));
    }
}

proof fn lemma_hex_front(n: nat)
    ensures
        hex(n).len() > 0,
        n > 0 ==> hex(n)[0] != '0',
    decreases n,
{
    if n >= 16 {
        lemma_hex_front(n / 16);
    }
}

/// What is appended follows what is there, and what is there stays: a number with its
/// digits, a negative one after a minus sign, and zero as a single digit.
pub proof fn law_numbers_are_appended(n: u64, m: u32, z: i64)
    requires
        z > i64::MIN,
    ensures
        forall|t: &mut String, out: ()| #[trigger] call_ensures(push_decimal, (t, n), out) ==> {
            &&& (*final(t))@.len() > (*t)@.len()
            &&& (*final(t))@.take((*t)@.len() as int) == (*t)@
            &&& (*final(t))@.last() as int == '0' as int + n % 10
            &&& n < 10 ==> (*final(t))@.len() == (*t)@.len() + 1
        },
        forall|t: &mut String, out: ()| #[trigger] call_ensures(push_hex, (t, m), out) ==> {
            &&& (*final(t))@.len() > (*t)@.len()
            &&& (*final(t))@.take((*t)@.len() as int) == (*t)@
            &&& m % 16 < 10 ==> (*final(t))@.last() as int == '0' as int + m % 16
            &&& m % 16 >= 10 ==> (*final(t))@.last() as int == 'A' as int + m % 16 - 10
        },
        forall|t: &mut String, out: ()| #[trigger] call_ensures(push_signed, (t, z), out) ==> {
            &&& z >= 0 ==> (*final(t))@ == (*t)@ + decimal(z as nat)
            &&& z < 0 ==> (*final(t))@ == (*t)@ + seq!['-'] + decimal((-z) as nat)
        },
{
    law_no_zero_in_front(n as nat);
    law_no_zero_in_front(m as nat);
    assert forall|t: &mut String, out: ()| #[trigger]
        call_ensures(push_decimal, (t, n), out) implies (*final(t))@.take((*t)@.len() as int)
        == (*t)@ by {
        assert((*final(t))@.take((*t)@.len() as int) =~= (*t)@);
    }
    assert forall|t: &mut String, out: ()| #[trigger]
        call_ensures(push_hex, (t, m), out) implies (*final(t))@.take((*t)@.len() as int)
        == (*t)@ by {
        assert((*final(t))@.take((*t)@.len() as int) =~= (*t)@);
    }
    assert forall|t: &mut String, out: ()| #[trigger]
        call_ensures(push_signed, (t, z), out) implies z < 0 ==> (*final(t))@ == (*t)@ + seq!['-']
        + decimal((-z) as nat) by {
        if z < 0 {
            assert((*final(t))@ =~= (*t)@ + seq!['-'] + decimal((-z) as nat));
        }
    }
}

/// A part that stands where the search begins is found there, and nothing is found before
/// that place; texts are the same where they hold the same characters, and a copy does.
pub proof fn law_search_begins_at_its_place(
    text: &[char],
    part: &[char],
    from: usize,
    found: Option<usize>,
    a: Option<String>,
    b: Option<String>,
    equal: bool,
    again: Option<String>,
)
    requires
        call_ensures(find, (text, part, from), found),
        call_ensures(same_option, (&a, &b), equal),
        call_ensures(copy_option, (&a,), again),
    ensures
        found matches Some(at) ==> from <= at && at + part@.len() <= text@.len()
            && text@.subrange(at as int, at + part@.len()) == part@,
        from + part@.len() <= text@.len() && text@.subrange(from as int, from + part@.len())
            == part@ ==> found == Some(from),
        a is None && b is None ==> equal,
        a is Some != b is Some ==> !equal,
        a is Some && b is Some ==> (equal <==> a->0@ == b->0@),
        again is Some <==> a is Some,
        again is Some ==> again->0@ == a->0@,
{
    if from + part@.len() <= text@.len() && text@.subrange(from as int, from + part@.len())
        == part@ {
        assert(occurs_at(text@, part@, from as int));
    }
}

} // verus!
