//! Text operations over `str`, each specified on the sequence of characters.
use vstd::prelude::*;

verus! {

/// A character with the Unicode property `White_Space`.
pub open spec fn is_white_space(c: char) -> bool {
    ||| '\u{9}' <= c <= '\u{d}'
    ||| c == ' '
    ||| c == '\u{85}'
    ||| c == '\u{a0}'
    ||| c == '\u{1680}'
    ||| '\u{2000}' <= c <= '\u{200a}'
    ||| '\u{2028}' <= c <= '\u{2029}'
    ||| c == '\u{202f}'
    ||| c == '\u{205f}'
    ||| c == '\u{3000}'
}

/// `s` without the white space at its front.
pub open spec fn trimmed_front(s: Seq<char>) -> Seq<char>
    decreases s.len(),
{
    if s.len() > 0 && is_white_space(s[0]) {
        trimmed_front(s.drop_first())
    } else {
        s
    }
}

/// `s` without the white space at its end.
pub open spec fn trimmed_end(s: Seq<char>) -> Seq<char>
    decreases s.len(),
{
    if s.len() > 0 && is_white_space(s.last()) {
        trimmed_end(s.drop_last())
    } else {
        s
    }
}

/// `s` without the white space at both ends.
pub open spec fn trimmed(s: Seq<char>) -> Seq<char> {
    trimmed_end(trimmed_front(s))
}

/// `s` after `suffix` has been taken off its end as often as it stands there.
pub open spec fn without_suffixes(s: Seq<char>, suffix: Seq<char>) -> Seq<char>
    decreases s.len(),
{
    if 0 < suffix.len() && suffix.is_suffix_of(s) {
        without_suffixes(s.take(s.len() - suffix.len()), suffix)
    } else {
        s
    }
}

/// Whether `c` is white space.
pub fn white_space(c: char) -> (found: bool)
    ensures
        found == is_white_space(c),
{
    ('\u{9}' <= c && c <= '\u{d}') || c == ' ' || c == '\u{85}' || c == '\u{a0}' || c == '\u{1680}'
        || ('\u{2000}' <= c && c <= '\u{200a}') || ('\u{2028}' <= c && c <= '\u{2029}')
        || c == '\u{202f}' || c == '\u{205f}' || c == '\u{3000}'
}

/// Whether two texts hold the same characters.
pub fn same_text(left: &str, right: &str) -> (same: bool)
    ensures
        same == (left@ == right@),
{
    left.to_string() == right.to_string()
}

/// The text without the white space at its ends.
pub fn trim(text: &str) -> (rest: &str)
    ensures
        rest@ == trimmed(text@),
{
    let len: usize = text.unicode_len();
    let mut from: usize = 0;
    assert(text@.skip(0) =~= text@);
    while from < len && white_space(text.get_char(from))
        invariant
            from <= len == text@.len(),
            trimmed_front(text@) == trimmed_front(text@.skip(from as int)),
        decreases len - from,
    {
        assert(text@.skip(from as int).drop_first() =~= text@.skip(from + 1));
        from = from + 1;
    }
    let mut to: usize = len;
    assert(text@.skip(from as int) =~= text@.subrange(from as int, to as int));
    while from < to && white_space(text.get_char(to - 1))
        invariant
            from <= to <= len == text@.len(),
            trimmed(text@) == trimmed_end(text@.subrange(from as int, to as int)),
        decreases to,
    {
        assert(text@.subrange(from as int, to as int).drop_last() =~= text@.subrange(
            from as int,
            to - 1,
        ));
        to = to - 1;
    }
    text.substring_char(from, to)
}

/// Whether the text ends with `suffix`.
pub fn ends_with(text: &str, suffix: &str) -> (found: bool)
    ensures
        found == suffix@.is_suffix_of(text@),
{
    let size: usize = suffix.unicode_len();
    let len: usize = text.unicode_len();
    size <= len && same_text(text.substring_char(len - size, len), suffix)
}

/// The text after `suffix` has been taken off its end as often as it stands there.
pub fn trim_end_matches<'a>(text: &'a str, suffix: &str) -> (rest: &'a str)
    requires
        suffix@.len() > 0,
    ensures
        rest@ == without_suffixes(text@, suffix@),
{
    let size: usize = suffix.unicode_len();
    let mut rest = text;
    while ends_with(rest, suffix)
        invariant
            0 < size == suffix@.len(),
            without_suffixes(text@, suffix@) == without_suffixes(rest@, suffix@),
        decreases rest@.len(),
    {
        let len: usize = rest.unicode_len();
        assert(rest@.take(len - size) =~= rest@.subrange(0, len - size));
        rest = rest.substring_char(0, len - size);
    }
    rest
}

/// The rest of the text behind `prefix`, where the text starts with it.
pub fn strip_prefix<'a>(text: &'a str, prefix: &str) -> (rest: Option<&'a str>)
    ensures
        rest is Some <==> prefix@.is_prefix_of(text@),
        rest matches Some(tail) ==> tail@ == text@.skip(prefix@.len() as int),
{
    let size: usize = prefix.unicode_len();
    let len: usize = text.unicode_len();
    if size <= len && same_text(text.substring_char(0, size), prefix) {
        assert(text@.skip(size as int) =~= text@.subrange(size as int, len as int));
        Some(text.substring_char(size, len))
    } else {
        None
    }
}

/// A decimal digit.
pub open spec fn is_digit(c: char) -> bool {
    '0' <= c <= '9'
}

/// The decimal digit that stands for `n`.
pub open spec fn digit(n: nat) -> char {
    ('0' as int + n) as char
}

/// `n` in decimal digits, without leading zeros.
pub open spec fn decimal(n: nat) -> Seq<char>
    decreases n,
{
    if n < 10 {
        seq![digit(n)]
    } else {
        decimal(n / 10).push(digit(n % 10))
    }
}

/// `n` in decimal digits, behind a minus sign where it is negative.
pub open spec fn signed_decimal(n: int) -> Seq<char> {
    if n < 0 {
        "-"@ + decimal((-n) as nat)
    } else {
        decimal(n as nat)
    }
}

/// Writes `n` in decimal digits.
pub fn decimal_text(n: u64) -> (text: String)
    ensures
        text@ == decimal(n as nat),
    decreases n,
{
    let mut text: String = if n < 10 {
        String::new()
    } else {
        decimal_text(n / 10)
    };
    let last: usize = (n % 10) as usize;
    let digits = "0123456789";
    proof {
        reveal_strlit("0123456789");
    }
    let ghost head = text@;
    text.append(digits.substring_char(last, last + 1));
    assert(text@ =~= head.push(digit((n % 10) as nat)));
    text
}

/// Writes `n` in decimal digits, behind a minus sign where it is negative.
pub fn signed_decimal_text(n: i32) -> (text: String)
    ensures
        text@ == signed_decimal(n as int),
{
    if n < 0 {
        "-".to_string().concat(decimal_text((-(n as i64)) as u64).as_str())
    } else {
        decimal_text(n as u64)
    }
}

/// Owned copies of the texts, in their order.
pub fn owned_texts(texts: &[&str]) -> (copies: Vec<String>)
    ensures
        copies.deep_view() == texts.deep_view(),
{
    let mut copies: Vec<String> = Vec::new();
    for at in 0..texts.len()
        invariant
            copies@.len() == at,
            forall|i: int| 0 <= i < at ==> (#[trigger] copies@[i])@ == texts@[i]@,
    {
        copies.push(texts[at].to_string());
    }
    assert(copies.deep_view() =~= texts.deep_view());
    copies
}

/// Whether a text is white space and nothing else.
pub open spec fn is_blank(s: Seq<char>) -> bool {
    forall|i: int| 0 <= i < s.len() ==> is_white_space(#[trigger] s[i])
}

/// What is left of a trimmed text neither starts nor ends with white space.
pub proof fn law_trimmed_has_no_white_ends(s: Seq<char>)
    ensures
        trimmed(s).len() > 0 ==> !is_white_space(trimmed(s)[0]) && !is_white_space(
            trimmed(s).last(),
        ),
{
    lemma_front(s);
    lemma_end(trimmed_front(s));
}

proof fn lemma_front(s: Seq<char>)
    ensures
        trimmed_front(s).len() > 0 ==> !is_white_space(trimmed_front(s)[0]),
    decreases s.len(),
{
    if s.len() > 0 && is_white_space(s[0]) {
        lemma_front(s.drop_first());
    }
}

proof fn lemma_end(s: Seq<char>)
    ensures
        trimmed_end(s).len() > 0 ==> !is_white_space(trimmed_end(s).last()) && trimmed_end(s)[0]
            == s[0],
    decreases s.len(),
{
    if s.len() > 0 && is_white_space(s.last()) {
        lemma_end(s.drop_last());
    }
}

/// Trimming a second time changes nothing.
pub proof fn law_trimming_twice_is_trimming_once(s: Seq<char>)
    ensures
        trimmed(trimmed(s)) == trimmed(s),
{
    law_trimmed_has_no_white_ends(s);
}

/// White space around a text, such as the line break behind what a command wrote, has no
/// part in what is left of it.
pub proof fn law_white_space_around_is_lost(front: Seq<char>, s: Seq<char>, end: Seq<char>)
    requires
        is_blank(front),
        is_blank(end),
    ensures
        trimmed(front + s + end) == trimmed(s),
{
    assert(front + s + end =~= front + (s + end));
    lemma_blank_front(front, s + end);
    lemma_blank_end_behind(s, end);
}

proof fn lemma_blank_front(front: Seq<char>, s: Seq<char>)
    requires
        is_blank(front),
    ensures
        trimmed_front(front + s) == trimmed_front(s),
    decreases front.len(),
{
    if front.len() == 0 {
        assert(front + s =~= s);
    } else {
        assert(is_white_space(front[0]));
        assert((front + s).drop_first() =~= front.drop_first() + s);
        assert forall|i: int| 0 <= i < front.drop_first().len() implies is_white_space(
            #[trigger] front.drop_first()[i],
        ) by {
            assert(is_white_space(front[i + 1]));
        }
        lemma_blank_front(front.drop_first(), s);
    }
}

proof fn lemma_blank_end(s: Seq<char>, end: Seq<char>)
    requires
        is_blank(end),
    ensures
        trimmed_end(s + end) == trimmed_end(s),
    decreases end.len(),
{
    if end.len() == 0 {
        assert(s + end =~= s);
    } else {
        assert(is_white_space(end[end.len() - 1]));
        assert((s + end).drop_last() =~= s + end.drop_last());
        assert forall|i: int| 0 <= i < end.drop_last().len() implies is_white_space(
            #[trigger] end.drop_last()[i],
        ) by {
            assert(is_white_space(end[i]));
        }
        lemma_blank_end(s, end.drop_last());
    }
}

proof fn lemma_blank_end_behind(s: Seq<char>, end: Seq<char>)
    requires
        is_blank(end),
    ensures
        trimmed(s + end) == trimmed(s),
    decreases s.len(),
{
    if s.len() == 0 {
        assert(s + end =~= end + s);
        lemma_blank_front(end, s);
    } else if is_white_space(s[0]) {
        assert((s + end).drop_first() =~= s.drop_first() + end);
        lemma_blank_end_behind(s.drop_first(), end);
    } else {
        lemma_blank_end(s, end);
    }
}

/// The suffix that was taken off stands at the end no longer.
pub proof fn law_suffixes_are_gone(s: Seq<char>, suffix: Seq<char>)
    requires
        suffix.len() > 0,
    ensures
        !suffix.is_suffix_of(without_suffixes(s, suffix)),
        without_suffixes(s, suffix).is_prefix_of(s),
    decreases s.len(),
{
    if suffix.is_suffix_of(s) {
        let shorter = s.take(s.len() - suffix.len());
        law_suffixes_are_gone(shorter, suffix);
        let rest = without_suffixes(s, suffix);
        assert(rest =~= s.subrange(0, rest.len() as int)) by {
            assert(rest =~= shorter.subrange(0, rest.len() as int));
        }
    } else {
        assert(s =~= s.subrange(0, s.len() as int));
    }
}

/// A number is written with digits alone, at least one, and without leading zeros.
pub proof fn law_decimal_has_digits_alone(n: nat)
    ensures
        decimal(n).len() > 0,
        forall|i: int| 0 <= i < decimal(n).len() ==> is_digit(#[trigger] decimal(n)[i]),
        decimal(n).len() > 1 ==> decimal(n)[0] != '0',
    decreases n,
{
    if n >= 10 {
        law_decimal_has_digits_alone(n / 10);
        assert forall|i: int| 0 <= i < decimal(n).len() implies is_digit(
            #[trigger] decimal(n)[i],
        ) by {
            if i < decimal(n / 10).len() {
                assert(decimal(n)[i] == decimal(n / 10)[i]);
            }
        }
        if decimal(n / 10).len() == 1 {
            assert(n / 10 < 10) by {
                if n / 10 >= 10 {
                    law_decimal_has_digits_alone(n / 10 / 10);
                }
            }
            assert(decimal(n)[0] == digit(n / 10));
        } else {
            assert(decimal(n)[0] == decimal(n / 10)[0]);
        }
    }
}

/// Different numbers are written differently.
pub proof fn law_decimal_is_unambiguous(m: nat, n: nat)
    requires
        decimal(m) == decimal(n),
    ensures
        m == n,
    decreases m,
{
    law_decimal_has_digits_alone(m / 10);
    law_decimal_has_digits_alone(n / 10);
    if m < 10 {
        assert(decimal(m).len() == 1);
        assert(n < 10);
        assert(decimal(m)[0] == digit(m) && decimal(n)[0] == digit(n));
    } else {
        assert(decimal(m).len() > 1);
        assert(n >= 10);
        assert(decimal(m).last() == digit(m % 10) && decimal(n).last() == digit(n % 10));
        assert(decimal(m).drop_last() =~= decimal(m / 10));
        assert(decimal(n).drop_last() =~= decimal(n / 10));
        law_decimal_is_unambiguous(m / 10, n / 10);
    }
}

/// Where two texts agree in front of a character, and hold it nowhere in front, they agree
/// behind it too.
pub proof fn lemma_split_at(mark: char, a: Seq<char>, x: Seq<char>, b: Seq<char>, y: Seq<char>)
    requires
        !a.contains(mark),
        !b.contains(mark),
        a + seq![mark] + x == b + seq![mark] + y,
    ensures
        a == b,
        x == y,
{
    let whole = a + seq![mark] + x;
    assert(whole[a.len() as int] == mark && whole[b.len() as int] == mark);
    if a.len() < b.len() {
        assert(b[a.len() as int] == whole[a.len() as int]);
    } else if b.len() < a.len() {
        assert(a[b.len() as int] == whole[b.len() as int]);
    }
    assert(a =~= whole.take(a.len() as int));
    assert(b =~= whole.take(b.len() as int));
    assert(x =~= whole.skip(a.len() as int + 1));
    assert(y =~= whole.skip(b.len() as int + 1));
}

/// Two texts that agree behind a common front are the same.
pub proof fn lemma_same_behind(front: Seq<char>, x: Seq<char>, y: Seq<char>)
    requires
        front + x == front + y,
    ensures
        x == y,
{
    assert(x =~= (front + x).skip(front.len() as int));
    assert(y =~= (front + y).skip(front.len() as int));
}

/// What stands between the white space at its ends is what trimming leaves, whole: a text
/// that neither starts nor ends with white space comes out as it went in.
pub proof fn law_trimming_keeps_the_rest(front: Seq<char>, s: Seq<char>, end: Seq<char>)
    requires
        is_blank(front),
        is_blank(end),
        s.len() > 0 ==> !is_white_space(s[0]) && !is_white_space(s[s.len() - 1]),
    ensures
        trimmed(front + s + end) == s,
{
    law_white_space_around_is_lost(front, s, end);
}

/// Among the first 128 characters, the blank and the characters from the tab to the carriage
/// return are white space, and no others.
pub proof fn law_white_space_in_ascii(c: char)
    requires
        (c as int) < 128,
    ensures
        is_white_space(c) <==> (9 <= c as int <= 13 || c as int == 32),
{
}

/// A suffix more makes no difference to what is left without suffixes, and a text that does
/// not end with the suffix stays as it is.
pub proof fn law_suffixes_alone_are_taken_off(s: Seq<char>, suffix: Seq<char>)
    requires
        suffix.len() > 0,
    ensures
        without_suffixes(s + suffix, suffix) == without_suffixes(s, suffix),
        !suffix.is_suffix_of(s) ==> without_suffixes(s, suffix) == s,
{
    let longer = s + suffix;
    assert(suffix =~= longer.subrange(longer.len() - suffix.len(), longer.len() as int));
    assert(longer.take(longer.len() - suffix.len()) =~= s);
}

/// A number below ten is its digit. A digit behind a positive number is ten times the number
/// and the digit more.
pub proof fn law_decimal_by_digits(n: nat, d: nat)
    requires
        d < 10,
    ensures
        decimal(d).len() == 1,
        decimal(d)[0] as int == 48 + d,
        n > 0 ==> decimal(10 * n + d) == decimal(n) + decimal(d),
{
    if n > 0 {
        assert((10 * n + d) / 10 == n && (10 * n + d) % 10 == d);
        assert(decimal(10 * n + d) =~= decimal(n) + decimal(d));
    }
}

/// A negative number is its opposite behind a hyphen.
pub proof fn law_signed_decimal(n: nat)
    ensures
        signed_decimal(n as int) == decimal(n),
        n > 0 ==> signed_decimal(-(n as int)) == "-"@ + decimal(n),
{
}

/// Two texts that agree between a common front and a common end are the same.
pub proof fn lemma_same_between(front: Seq<char>, x: Seq<char>, y: Seq<char>, end: Seq<char>)
    requires
        front + x + end == front + y + end,
    ensures
        x == y,
{
    let whole = front + x + end;
    assert(whole.len() == front.len() + x.len() + end.len());
    assert(x =~= whole.subrange(front.len() as int, (front.len() + x.len()) as int));
    assert(y =~= whole.subrange(front.len() as int, (front.len() + y.len()) as int));
}

} // verus!
