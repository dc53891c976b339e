//! Text helpers shared by the rest of the crate, specified over `Seq<char>`.

use vstd::prelude::*;
use vstd::string::StringExecFns;

verus! {

/// `str`'s `==` from the standard library: two string slices are equal exactly
/// when they hold the same characters.
pub assume_specification[ <str as PartialEq>::eq ](a: &str, b: &str) -> (same: bool)
    ensures
        same == (a@ == b@),
;

/// `String::push` from the standard library appends one character.
pub assume_specification[ String::push ](text: &mut String, ch: char)
    ensures
        final(text)@ == old(text)@.push(ch),
;

/// `String::pop` from the standard library removes the last character and
/// returns it; an empty string stays empty and gives `None`.
pub assume_specification[ String::pop ](text: &mut String) -> (last: Option<char>)
    ensures
        match last {
            Some(ch) => old(text)@.len() > 0 && ch == old(text)@.last() && final(text)@ == old(
                text,
            )@.drop_last(),
            None => old(text)@.len() == 0 && final(text)@ == old(text)@,
        },
;

/// The characters of `s`, in order.
pub fn chars_of(s: &str) -> (chars: Vec<char>)
    ensures
        chars@ == s@,
{
    broadcast use vstd::string::group_string_axioms;

    let mut chars: Vec<char> = Vec::new();
    for c in it: s.chars()
        invariant
            it.seq() == s@,
            chars@ == it.seq().take(it.index()),
    {
        chars.push(c);
    }
    chars
}

/// Appends `chars[from..to]` to `out`.
pub fn push_range(out: &mut String, chars: &Vec<char>, from: usize, to: usize)
    requires
        from <= to <= chars@.len(),
    ensures
        final(out)@ == old(out)@ + chars@.subrange(from as int, to as int),
{
    let mut i: usize = from;
    while i < to
        invariant
            from <= i <= to <= chars@.len(),
            out@ == old(out)@ + chars@.subrange(from as int, i as int),
        decreases to - i,
    {
        out.push(chars[i]);
        i += 1;
    }
}

/// The character that stands for the decimal digit `d`.
pub open spec fn digit_char(d: int) -> char {
    ((48 + d) as u8) as char
}

/// The decimal numeral of `n`, without sign or leading zeros.
pub open spec fn decimal(n: nat) -> Seq<char>
    decreases n,
{
    if n < 10 {
        seq![digit_char(n as int)]
    } else {
        decimal(n / 10).push(digit_char((n % 10) as int))
    }
}

/// The decimal numeral of a signed number: a minus sign before negative ones.
pub open spec fn signed_decimal(n: int) -> Seq<char> {
    if n < 0 {
        seq!['-'] + decimal((-n) as nat)
    } else {
        decimal(n as nat)
    }
}

/// Appends the decimal numeral of `n` to `out`.
pub fn push_decimal(out: &mut String, n: u128)
    ensures
        final(out)@ == old(out)@ + decimal(n as nat),
    decreases n,
{
    if n >= 10 {
        push_decimal(out, n / 10);
    }
    let d: u8 = (n % 10) as u8;
    out.push((48u8 + d) as char);
}

/// Appends the decimal numeral of `n`, with its sign, to `out`.
pub fn push_signed_decimal(out: &mut String, n: i64)
    ensures
        final(out)@ == old(out)@ + signed_decimal(n as int),
{
    if n < 0 {
        out.push('-');
        let magnitude: u128 = if n == i64::MIN {
            9223372036854775808u128
        } else {
            (-n) as u128
        };
        push_decimal(out, magnitude);
    } else {
        push_decimal(out, n as u128);
    }
}

/// The views of a list of strings.
pub open spec fn texts(items: Seq<String>) -> Seq<Seq<char>> {
    items.map_values(|item: String| item@)
}

/// `parts` one after the other, with `separator` between each two.
pub open spec fn joined(parts: Seq<Seq<char>>, separator: Seq<char>) -> Seq<char>
    decreases parts.len(),
{
    if parts.len() == 0 {
        Seq::empty()
    } else if parts.len() == 1 {
        parts[0]
    } else {
        joined(parts.drop_last(), separator) + separator + parts.last()
    }
}

/// Computes [`joined`].
pub fn join(parts: &Vec<String>, separator: &str) -> (text: String)
    ensures
        text@ == joined(texts(parts@), separator@),
{
    let mut text = String::new();
    let mut i: usize = 0;
    while i < parts.len()
        invariant
            i <= parts@.len(),
            text@ == joined(texts(parts@).take(i as int), separator@),
        decreases parts@.len() - i,
    {
        let ghost before = texts(parts@).take(i as int);
        let ghost after = texts(parts@).take(i + 1);
        assert(after.drop_last() == before);
        assert(after.last() == parts@[i as int]@);
        if i > 0 {
            text.append(separator);
        }
        text.append(parts[i].as_str());
        i += 1;
    }
    assert(texts(parts@).take(parts@.len() as int) == texts(parts@));
    text
}

/// Whether `c` is one of the ten decimal digits.
pub open spec fn is_digit(c: char) -> bool {
    48 <= c as u32 <= 57
}

/// What the decimal digit `c` stands for.
pub open spec fn digit_value(c: char) -> int {
    c as u32 - 48
}

/// Whether `text` holds decimal digits and nothing else.
pub open spec fn all_digits(text: Seq<char>) -> bool {
    forall|i: int| 0 <= i < text.len() ==> is_digit(#[trigger] text[i])
}

/// The number that a run of decimal digits writes down.
pub open spec fn digits_value(digits: Seq<char>) -> int
    decreases digits.len(),
{
    if digits.len() == 0 {
        0
    } else {
        digits_value(digits.drop_last()) * 10 + digit_value(digits.last())
    }
}

/// The whole number that `text` writes down: an optional sign and then at
/// least one decimal digit, with nothing before, between or after.
pub open spec fn parsed_integer(text: Seq<char>) -> Option<int> {
    if text.len() > 0 && (text[0] == '-' || text[0] == '+') {
        let digits = text.drop_first();
        if digits.len() > 0 && all_digits(digits) {
            Some(
                if text[0] == '-' {
                    -digits_value(digits)
                } else {
                    digits_value(digits)
                },
            )
        } else {
            None
        }
    } else if text.len() > 0 && all_digits(text) {
        Some(digits_value(text))
    } else {
        None
    }
}

/// The number that `text` writes down, where it fits in 32 bits.
pub open spec fn parsed_i32(text: Seq<char>) -> Option<i32> {
    match parsed_integer(text) {
        Some(value) => if i32::MIN <= value <= i32::MAX {
            Some(value as i32)
        } else {
            None
        },
        None => None,
    }
}

/// A run of digits is worth at least as much as any of its beginnings.
pub proof fn lemma_digits_value_grows(digits: Seq<char>, k: int)
    requires
        all_digits(digits),
        0 <= k <= digits.len(),
    ensures
        0 <= digits_value(digits.take(k)) <= digits_value(digits),
    decreases digits.len() - k,
{
    if k == digits.len() {
        assert(digits.take(k) =~= digits);
        lemma_digits_value_nonnegative(digits);
    } else {
        lemma_digits_value_grows(digits, k + 1);
        assert(digits.take(k + 1).drop_last() =~= digits.take(k));
        assert(is_digit(digits[k]));
        lemma_digits_value_nonnegative(digits.take(k));
    }
}

/// A run of digits never stands for a negative number.
pub proof fn lemma_digits_value_nonnegative(digits: Seq<char>)
    requires
        all_digits(digits),
    ensures
        0 <= digits_value(digits),
    decreases digits.len(),
{
    if digits.len() > 0 {
        assert(is_digit(digits.last()));
        assert forall|i: int| 0 <= i < digits.drop_last().len() implies is_digit(
            #[trigger] digits.drop_last()[i],
        ) by {
            assert(digits.drop_last()[i] == digits[i]);
        }
        lemma_digits_value_nonnegative(digits.drop_last());
    }
}

/// Reads the digits `chars[from..]`. `None` where there is none, where one of
/// them is no digit, or where their value is above `limit`.
fn parse_digits(chars: &Vec<char>, from: usize, limit: u64) -> (value: Option<u64>)
    requires
        from <= chars@.len(),
        limit <= 0xFFFF_FFFF_FFFF,
    ensures
        ({
            let digits = chars@.subrange(from as int, chars@.len() as int);
            match value {
                Some(v) => digits.len() > 0 && all_digits(digits) && v == digits_value(digits)
                    && v <= limit,
                None => digits.len() == 0 || !all_digits(digits) || digits_value(digits) > limit,
            }
        }),
{
    let ghost digits = chars@.subrange(from as int, chars@.len() as int);
    if from == chars.len() {
        return None;
    }
    let mut value: u64 = 0;
    let mut i: usize = from;
    while i < chars.len()
        invariant
            from <= i <= chars@.len(),
            digits == chars@.subrange(from as int, chars@.len() as int),
            all_digits(digits.take(i - from)),
            value == digits_value(digits.take(i - from)),
            value <= limit,
            limit <= 0xFFFF_FFFF_FFFF,
        decreases chars@.len() - i,
    {
        let c = chars[i];
        let code: u32 = c as u32;
        assert(c == digits[i - from]);
        if code < 48 || code > 57 {
            assert(!is_digit(digits[i - from]));
            return None;
        }
        let ghost seen = digits.take(i - from + 1);
        assert(seen.drop_last() =~= digits.take(i - from));
        assert(seen.last() == c);
        assert forall|k: int| 0 <= k < seen.len() implies is_digit(#[trigger] seen[k]) by {
            if k < i - from {
                assert(seen[k] == digits.take(i - from)[k]);
            }
        }
        value = value * 10 + (code - 48) as u64;
        i += 1;
        if value > limit {
            proof {
                if all_digits(digits) {
                    lemma_digits_value_grows(digits, i - from);
                }
            }
            return None;
        }
    }
    assert(digits.take(i - from) =~= digits);
    Some(value)
}

/// Computes [`parsed_i32`]: reads a whole number as `str::parse::<i32>` does.
pub fn parse_i32(text: &str) -> (value: Option<i32>)
    ensures
        value == parsed_i32(text@),
{
    let chars = chars_of(text);
    if chars.len() == 0 {
        return None;
    }
    let first = chars[0];
    if first == '-' {
        assert(chars@.drop_first() =~= chars@.subrange(1, chars@.len() as int));
        match parse_digits(&chars, 1, 0x8000_0000) {
            Some(magnitude) => Some((-(magnitude as i64)) as i32),
            None => None,
        }
    } else if first == '+' {
        assert(chars@.drop_first() =~= chars@.subrange(1, chars@.len() as int));
        match parse_digits(&chars, 1, 0x7FFF_FFFF) {
            Some(magnitude) => Some(magnitude as i32),
            None => None,
        }
    } else {
        assert(chars@ =~= chars@.subrange(0, chars@.len() as int));
        match parse_digits(&chars, 0, 0x7FFF_FFFF) {
            Some(magnitude) => Some(magnitude as i32),
            None => None,
        }
    }
}

/// Whether `pattern` stands in `text` at position `at`.
pub open spec fn occurs_at(text: Seq<char>, pattern: Seq<char>, at: int) -> bool {
    &&& 0 <= at
    &&& at + pattern.len() <= text.len()
    &&& text.subrange(at, at + pattern.len()) == pattern
}

/// Whether `text` begins with `prefix`.
pub open spec fn starts_with(text: Seq<char>, prefix: Seq<char>) -> bool {
    occurs_at(text, prefix, 0)
}

/// Whether `pattern` stands somewhere in `text`.
pub open spec fn contains_text(text: Seq<char>, pattern: Seq<char>) -> bool {
    exists|at: int| occurs_at(text, pattern, at)
}

/// `with` after every character of `text`.
pub open spec fn followed_each(text: Seq<char>, with: Seq<char>) -> Seq<char>
    decreases text.len(),
{
    if text.len() == 0 {
        Seq::empty()
    } else {
        followed_each(text.drop_last(), with).push(text.last()) + with
    }
}

/// `text` with every occurrence of `pattern` replaced by `with`, going from
/// left to right and not looking again at what was replaced. An empty
/// pattern occurs before every character and at the end.
pub open spec fn replaced(text: Seq<char>, pattern: Seq<char>, with: Seq<char>) -> Seq<char>
    decreases text.len(),
{
    if pattern.len() == 0 {
        with + followed_each(text, with)
    } else if text.len() < pattern.len() {
        text
    } else if occurs_at(text, pattern, 0) {
        with + replaced(text.skip(pattern.len() as int), pattern, with)
    } else {
        seq![text[0]] + replaced(text.skip(1), pattern, with)
    }
}

/// Computes [`occurs_at`].
pub fn matches_at(text: &Vec<char>, at: usize, pattern: &Vec<char>) -> (found: bool)
    ensures
        found == occurs_at(text@, pattern@, at as int),
{
    if at > text.len() || pattern.len() > text.len() - at {
        return false;
    }
    let mut k: usize = 0;
    while k < pattern.len()
        invariant
            k <= pattern@.len(),
            at + pattern@.len() <= text@.len() <= usize::MAX,
            forall|j: int| 0 <= j < k ==> text@[at + j] == pattern@[j],
        decreases pattern@.len() - k,
    {
        if text[at + k] != pattern[k] {
            assert(text@.subrange(at as int, at + pattern@.len())[k as int] != pattern@[k as int]);
            return false;
        }
        k += 1;
    }
    assert(text@.subrange(at as int, at + pattern@.len()) =~= pattern@);
    true
}

/// Computes [`contains_text`].
pub fn contains(text: &str, pattern: &str) -> (found: bool)
    ensures
        found == contains_text(text@, pattern@),
{
    let chars = chars_of(text);
    let wanted = chars_of(pattern);
    let mut at: usize = 0;
    while at < chars.len()
        invariant
            at <= chars@.len(),
            chars@ == text@,
            wanted@ == pattern@,
            forall|j: int| 0 <= j < at ==> !occurs_at(text@, pattern@, j),
        decreases chars@.len() - at,
    {
        if matches_at(&chars, at, &wanted) {
            return true;
        }
        at += 1;
    }
    if matches_at(&chars, at, &wanted) {
        return true;
    }
    assert forall|j: int| !occurs_at(text@, pattern@, j) by {
        if 0 <= j && j + pattern@.len() <= text@.len() {
            assert(j <= at);
        }
    }
    false
}

/// Computes [`replaced`], as `str::replace` does.
pub fn replace(text: &str, pattern: &str, with: &str) -> (result: String)
    ensures
        result@ == replaced(text@, pattern@, with@),
{
    let chars = chars_of(text);
    let wanted = chars_of(pattern);
    if wanted.len() == 0 {
        let mut result = with.to_owned();
        let mut i: usize = 0;
        assert(chars@.take(0) =~= Seq::<char>::empty());
        assert(result@ =~= with@ + followed_each(chars@.take(0), with@));
        while i < chars.len()
            invariant
                i <= chars@.len(),
                result@ == with@ + followed_each(chars@.take(i as int), with@),
            decreases chars@.len() - i,
        {
            assert(chars@.take(i + 1).drop_last() =~= chars@.take(i as int));
            assert(chars@.take(i + 1).last() == chars@[i as int]);
            let ghost before = followed_each(chars@.take(i as int), with@);
            result.push(chars[i]);
            result.append(with);
            i += 1;
            assert(result@ =~= with@ + (before.push(chars@[i - 1]) + with@));
        }
        assert(chars@.take(chars@.len() as int) =~= chars@);
        return result;
    }
    let mut result = String::new();
    let mut at: usize = 0;
    assert(text@.skip(0) =~= text@);
    assert(result@ + replaced(text@, pattern@, with@) =~= replaced(text@, pattern@, with@));
    while at < chars.len()
        invariant
            at <= chars@.len(),
            chars@ == text@,
            wanted@ == pattern@,
            pattern@.len() > 0,
            result@ + replaced(text@.skip(at as int), pattern@, with@) == replaced(
                text@,
                pattern@,
                with@,
            ),
        decreases chars@.len() - at,
    {
        let ghost rest = text@.skip(at as int);
        if matches_at(&chars, at, &wanted) {
            assert(rest.subrange(0, pattern@.len() as int) =~= text@.subrange(
                at as int,
                at + pattern@.len(),
            ));
            assert(rest.skip(pattern@.len() as int) =~= text@.skip(at + pattern@.len()));
            let ghost before = result@;
            result.append(with);
            at += wanted.len();
            assert(result@ + replaced(text@.skip(at as int), pattern@, with@) =~= before + (with@
                + replaced(text@.skip(at as int), pattern@, with@)));
        } else {
            proof {
                if rest.len() >= pattern@.len() {
                    assert(rest.subrange(0, pattern@.len() as int) =~= text@.subrange(
                        at as int,
                        at + pattern@.len(),
                    ));
                } else {
                    lemma_replaced_short(rest.skip(1), pattern@, with@);
                    assert(rest =~= seq![rest[0]] + rest.skip(1));
                }
                assert(rest.skip(1) =~= text@.skip(at + 1));
                assert(rest[0] == chars@[at as int]);
            }
            let ghost before = result@;
            result.push(chars[at]);
            at += 1;
            assert(result@ + replaced(text@.skip(at as int), pattern@, with@) =~= before + (
            seq![chars@[at - 1]] + replaced(text@.skip(at as int), pattern@, with@)));
        }
    }
    assert(text@.skip(at as int) =~= Seq::<char>::empty());
    assert(result@ + Seq::<char>::empty() =~= result@);
    result
}

/// A text shorter than the pattern holds no occurrence of it.
pub proof fn lemma_replaced_short(text: Seq<char>, pattern: Seq<char>, with: Seq<char>)
    requires
        text.len() < pattern.len(),
    ensures
        replaced(text, pattern, with) == text,
{
}

/// Whether `label` is among `labels`.
pub open spec fn offers(labels: Seq<Seq<char>>, label: Seq<char>) -> bool {
    exists|i: int| 0 <= i < labels.len() && #[trigger] labels[i] == label
}

/// Whether `i` is the first place in the list that holds `label`.
pub open spec fn is_first_offer(labels: Seq<Seq<char>>, label: Seq<char>, i: int) -> bool {
    &&& 0 <= i < labels.len()
    &&& labels[i] == label
    &&& forall|j: int| 0 <= j < i ==> #[trigger] labels[j] != label
}

/// The first place in the list that holds `label`, where there is one.
pub open spec fn first_offer(labels: Seq<Seq<char>>, label: Seq<char>) -> Option<int> {
    if offers(labels, label) {
        Some(choose|i: int| is_first_offer(labels, label, i))
    } else {
        None
    }
}

/// There is at most one first place for a label.
pub proof fn lemma_first_offer_is_unique(labels: Seq<Seq<char>>, label: Seq<char>, i: int)
    requires
        is_first_offer(labels, label, i),
    ensures
        first_offer(labels, label) == Some(i),
{
    assert(offers(labels, label));
    let chosen = choose|k: int| is_first_offer(labels, label, k);
    assert(is_first_offer(labels, label, chosen));
    if chosen < i {
        assert(labels[chosen] != label);
    } else if i < chosen {
        assert(labels[i] != label);
    }
}

/// What an optional string holds.
pub open spec fn optional_text(item: Option<String>) -> Option<Seq<char>> {
    match item {
        Some(text) => Some(text@),
        None => None,
    }
}

/// A copy of an optional string.
pub fn copy_optional_text(item: &Option<String>) -> (copy: Option<String>)
    ensures
        optional_text(copy) == optional_text(*item),
{
    match item {
        Some(text) => Some(text.clone()),
        None => None,
    }
}

/// A copy of a list of strings.
pub fn copy_texts(items: &Vec<String>) -> (copy: Vec<String>)
    ensures
        texts(copy@) == texts(items@),
{
    let mut copy: Vec<String> = Vec::new();
    let mut i: usize = 0;
    while i < items.len()
        invariant
            i <= items@.len(),
            copy@.len() == i,
            forall|k: int| 0 <= k < i ==> (#[trigger] copy@[k])@ == items@[k]@,
        decreases items@.len() - i,
    {
        copy.push(items[i].clone());
        i += 1;
    }
    assert(texts(copy@) =~= texts(items@));
    copy
}

/// `c` with an upper-case letter of the basic alphabet turned into lower case.
pub open spec fn ascii_lower(c: char) -> char {
    if 65 <= c as u32 <= 90 {
        ((c as u32 + 32) as u8) as char
    } else {
        c
    }
}

/// Whether two texts are the same but for the case of basic letters.
pub open spec fn same_ignoring_ascii_case(a: Seq<char>, b: Seq<char>) -> bool {
    &&& a.len() == b.len()
    &&& forall|i: int| 0 <= i < a.len() ==> ascii_lower(#[trigger] a[i]) == ascii_lower(b[i])
}

/// Computes [`ascii_lower`].
fn to_ascii_lower(c: char) -> (lower: char)
    ensures
        lower == ascii_lower(c),
{
    let code: u32 = c as u32;
    if 65 <= code && code <= 90 {
        ((code + 32) as u8) as char
    } else {
        c
    }
}

/// Computes [`same_ignoring_ascii_case`].
pub fn eq_ignore_ascii_case(a: &str, b: &str) -> (same: bool)
    ensures
        same == same_ignoring_ascii_case(a@, b@),
{
    let left = chars_of(a);
    let right = chars_of(b);
    if left.len() != right.len() {
        return false;
    }
    let mut i: usize = 0;
    while i < left.len()
        invariant
            i <= left@.len(),
            left@ == a@,
            right@ == b@,
            left@.len() == right@.len(),
            forall|k: int| 0 <= k < i ==> ascii_lower(#[trigger] left@[k]) == ascii_lower(right@[k]),
        decreases left@.len() - i,
    {
        if to_ascii_lower(left[i]) != to_ascii_lower(right[i]) {
            assert(ascii_lower(a@[i as int]) != ascii_lower(b@[i as int]));
            return false;
        }
        i += 1;
    }
    true
}

/// The number that `text` writes down, as `str::parse::<u16>` reads it: an
/// optional plus sign and then at least one decimal digit, worth at most
/// 65535.
pub open spec fn parsed_u16(text: Seq<char>) -> Option<u16> {
    let digits = if text.len() > 0 && text[0] == '+' {
        text.drop_first()
    } else {
        text
    };
    if digits.len() > 0 && all_digits(digits) && digits_value(digits) <= u16::MAX {
        Some(digits_value(digits) as u16)
    } else {
        None
    }
}

/// Reads the number that `chars[from..to]` writes down.
pub fn parse_u16_range(chars: &Vec<char>, from: usize, to: usize) -> (value: Option<u16>)
    requires
        from <= to <= chars@.len(),
    ensures
        value == parsed_u16(chars@.subrange(from as int, to as int)),
{
    let mut part: Vec<char> = Vec::new();
    let mut i: usize = from;
    while i < to
        invariant
            from <= i <= to <= chars@.len(),
            part@ == chars@.subrange(from as int, i as int),
        decreases to - i,
    {
        part.push(chars[i]);
        i += 1;
        assert(part@ =~= chars@.subrange(from as int, i as int));
    }
    if part.len() > 0 && part[0] == '+' {
        assert(part@.drop_first() =~= part@.subrange(1, part@.len() as int));
        match parse_digits(&part, 1, 0xFFFF) {
            Some(value) => Some(value as u16),
            None => None,
        }
    } else {
        assert(part@ =~= part@.subrange(0, part@.len() as int));
        match parse_digits(&part, 0, 0xFFFF) {
            Some(value) => Some(value as u16),
            None => None,
        }
    }
}

/// Whether `at` is the first place from `from` on where `pattern` stands in
/// `text`.
pub open spec fn is_first_occurrence(
    text: Seq<char>,
    pattern: Seq<char>,
    from: int,
    at: int,
) -> bool {
    &&& from <= at
    &&& occurs_at(text, pattern, at)
    &&& forall|j: int| from <= j < at ==> !occurs_at(text, pattern, j)
}

/// The first place from `from` on where `pattern` stands in `text`, where
/// there is one.
pub open spec fn first_occurrence(text: Seq<char>, pattern: Seq<char>, from: int) -> Option<int> {
    if exists|at: int| is_first_occurrence(text, pattern, from, at) {
        Some(choose|at: int| is_first_occurrence(text, pattern, from, at))
    } else {
        None
    }
}

/// There is at most one first place.
pub proof fn lemma_first_occurrence_is_unique(
    text: Seq<char>,
    pattern: Seq<char>,
    from: int,
    at: int,
)
    requires
        is_first_occurrence(text, pattern, from, at),
    ensures
        first_occurrence(text, pattern, from) == Some(at),
{
    let chosen = choose|k: int| is_first_occurrence(text, pattern, from, k);
    assert(is_first_occurrence(text, pattern, from, chosen));
    if chosen < at {
        assert(!occurs_at(text, pattern, chosen));
    } else if at < chosen {
        assert(!occurs_at(text, pattern, at));
    }
}

/// Computes [`first_occurrence`].
pub fn find(text: &Vec<char>, pattern: &Vec<char>, from: usize) -> (found: Option<usize>)
    ensures
        match found {
            Some(at) => first_occurrence(text@, pattern@, from as int) == Some(at as int)
                && is_first_occurrence(text@, pattern@, from as int, at as int),
            None => first_occurrence(text@, pattern@, from as int) is None,
        },
{
    let mut at: usize = from;
    while at < text.len()
        invariant
            from <= at,
            forall|j: int| from <= j < at ==> !occurs_at(text@, pattern@, j),
        decreases text@.len() - at,
    {
        if matches_at(text, at, pattern) {
            proof {
                lemma_first_occurrence_is_unique(text@, pattern@, from as int, at as int);
            }
            return Some(at);
        }
        at += 1;
    }
    if matches_at(text, at, pattern) {
        proof {
            lemma_first_occurrence_is_unique(text@, pattern@, from as int, at as int);
        }
        return Some(at);
    }
    assert forall|k: int| !is_first_occurrence(text@, pattern@, from as int, k) by {
        if from <= k && occurs_at(text@, pattern@, k) {
            assert(k <= text@.len());
            assert(k <= at);
        }
    }
    None
}

} // verus!
