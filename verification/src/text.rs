//! Text operations on character sequences, with exact models.

use vstd::prelude::*;

verus! {

/// The model of a piece of text: its characters in order.
pub type Text = Seq<char>;

/// The texts that a sequence of strings holds.
pub open spec fn texts(v: Seq<String>) -> Seq<Text> {
    v.map_values(|s: String| s@)
}

/// The texts that a sequence of character vectors holds.
pub open spec fn char_rows(v: Seq<Vec<char>>) -> Seq<Text> {
    v.map_values(|s: Vec<char>| s@)
}

/// Appends `c` to the end of `s` (`String::push` of the standard library, whose
/// documentation says exactly this).
pub assume_specification[ String::push ](s: &mut String, c: char)
    ensures
        final(s)@ == old(s)@.push(c),
;

/// The characters of `s` as a vector.
pub fn chars_of(s: &str) -> (r: Vec<char>)
    ensures
        r@ == s@,
{
    let mut r: Vec<char> = Vec::new();
    for c in it: s.chars()
        invariant
            it.seq() == s@,
            r@ == s@.take(it.index()),
    {
        r.push(c);
        assert(s@.take(it.index() + 1) =~= s@.take(it.index()).push(c));
    }
    assert(s@.take(s@.len() as int) =~= s@);
    r
}

/// Whether `a` and `b` hold the same characters.
pub fn same_text(a: &str, b: &str) -> (r: bool)
    ensures
        r == (a@ == b@),
{
    a.to_owned() == b.to_owned()
}

/// Appends all of `chars` to `out`.
pub fn push_chars(out: &mut String, chars: &Vec<char>)
    ensures
        final(out)@ == old(out)@ + chars@,
{
    let mut i: usize = 0;
    while i < chars.len()
        invariant
            i <= chars@.len(),
            out@ == old(out)@ + chars@.take(i as int),
        decreases chars@.len() - i,
    {
        out.push(chars[i]);
        assert(chars@.take(i + 1) =~= chars@.take(i as int).push(chars@[i as int]));
        i += 1;
    }
    assert(chars@.take(i as int) =~= chars@);
}

// ---------------------------------------------------------------------------
// Replacing

/// `s` with every occurrence of `pattern` replaced by `with`, where occurrences
/// are taken from the left and do not overlap. An empty pattern matches nothing.
pub open spec fn replaced(s: Text, pattern: Text, with: Text) -> Text
    decreases s.len(),
{
    if pattern.len() == 0 || s.len() < pattern.len() {
        s
    } else if pattern == s.take(pattern.len() as int) {
        with + replaced(s.skip(pattern.len() as int), pattern, with)
    } else {
        seq![s[0]] + replaced(s.skip(1), pattern, with)
    }
}

/// Whether `pattern` stands in `s` from position `at` on.
pub open spec fn occurs_at(s: Text, pattern: Text, at: int) -> bool {
    &&& 0 <= at
    &&& at + pattern.len() <= s.len()
    &&& s.subrange(at, at + pattern.len()) == pattern
}

/// Whether `pattern` stands anywhere in `s`.
pub open spec fn occurs(s: Text, pattern: Text) -> bool {
    exists|at: int| occurs_at(s, pattern, at)
}

/// Whether `pattern` stands in `s` from position `at` on.
pub(crate) fn matches_at(s: &Vec<char>, pattern: &Vec<char>, at: usize) -> (r: bool)
    requires
        at <= s@.len(),
    ensures
        r == occurs_at(s@, pattern@, at as int),
{
    if s.len() - at < pattern.len() {
        return false;
    }
    let mut i: usize = 0;
    while i < pattern.len()
        invariant
            i <= pattern@.len(),
            at + pattern@.len() <= s.len(),
            forall|j: int| 0 <= j < i ==> s@[at + j] == pattern@[j],
        decreases pattern@.len() - i,
    {
        if s[at + i] != pattern[i] {
            assert(s@.subrange(at as int, at + pattern@.len())[i as int] != pattern@[i as int]);
            return false;
        }
        i += 1;
    }
    assert(s@.subrange(at as int, at + pattern@.len()) =~= pattern@);
    true
}

/// `s` with every occurrence of `pattern`, from the left and without overlap,
/// replaced by `with`.
pub fn replace_all(s: &str, pattern: &str, with: &str) -> (r: String)
    ensures
        r@ == replaced(s@, pattern@, with@),
{
    let text = chars_of(s);
    let pat = chars_of(pattern);
    let mut out = String::new();
    let mut at: usize = 0;
    assert(text@.skip(0) =~= text@);
    assert(out@ + replaced(text@.skip(0), pat@, with@) =~= replaced(text@, pat@, with@));
    while at < text.len()
        invariant
            at <= text@.len(),
            out@ + replaced(text@.skip(at as int), pat@, with@) == replaced(text@, pat@, with@),
        decreases text@.len() - at,
    {
        let ghost rest = text@.skip(at as int);
        if pat.len() > 0 && matches_at(&text, &pat, at) {
            assert(rest.take(pat@.len() as int) =~= text@.subrange(at as int, at + pat@.len()));
            assert(rest.skip(pat@.len() as int) =~= text@.skip(at + pat@.len()));
            assert(out@ + with@ + replaced(text@.skip(at + pat@.len()), pat@, with@)
                =~= out@ + (with@ + replaced(text@.skip(at + pat@.len()), pat@, with@)));
            out.append(with);
            at += pat.len();
        } else {
            proof {
                if pat@.len() > 0 && rest.len() >= pat@.len() {
                    assert(rest.take(pat@.len() as int) =~= text@.subrange(
                        at as int,
                        at + pat@.len(),
                    ));
                } else {
                    assert(replaced(rest, pat@, with@) == rest);
                    assert(replaced(rest.skip(1), pat@, with@) == rest.skip(1));
                    assert(rest =~= seq![rest[0]] + rest.skip(1));
                }
                assert(rest.skip(1) =~= text@.skip(at + 1));
                assert(out@.push(rest[0]) + replaced(rest.skip(1), pat@, with@) =~= out@ + (seq![
                    rest[0],
                ] + replaced(rest.skip(1), pat@, with@)));
            }
            out.push(text[at]);
            at += 1;
        }
    }
    assert(text@.skip(at as int) =~= Seq::empty());
    assert(out@ + Seq::<char>::empty() =~= out@);
    out
}

// ---------------------------------------------------------------------------
// Splitting, trimming and joining

/// How many characters of `s` stand before the first `sep`.
pub open spec fn field_len(s: Text, sep: char) -> nat
    decreases s.len(),
{
    if s.len() == 0 || s[0] == sep {
        0
    } else {
        1 + field_len(s.skip(1), sep)
    }
}

/// The pieces of `s` between its `sep` characters, in order; one more piece than
/// there are separators.
pub open spec fn fields(s: Text, sep: char) -> Seq<Text>
    decreases s.len(),
{
    let n = field_len(s, sep) as int;
    if n < s.len() {
        seq![s.take(n)] + fields(s.skip(n + 1), sep)
    } else {
        seq![s]
    }
}

/// `parts` one after the other with `sep` between neighbours.
pub open spec fn joined(parts: Seq<Text>, sep: Text) -> Text
    decreases parts.len(),
{
    if parts.len() == 0 {
        Seq::empty()
    } else if parts.len() == 1 {
        parts[0]
    } else {
        joined(parts.drop_last(), sep) + sep + parts.last()
    }
}

/// Whether `c` has the Unicode property White_Space.
pub open spec fn is_white_space(c: char) -> bool {
    ||| '\u{9}' <= c <= '\u{d}'
    ||| c == ' '
    ||| c == '\u{85}'
    ||| c == '\u{a0}'
    ||| c == '\u{1680}'
    ||| '\u{2000}' <= c <= '\u{200a}'
    ||| c == '\u{2028}'
    ||| c == '\u{2029}'
    ||| c == '\u{202f}'
    ||| c == '\u{205f}'
    ||| c == '\u{3000}'
}

/// `s` without its leading white space.
pub open spec fn trimmed_start(s: Text) -> Text
    decreases s.len(),
{
    if s.len() > 0 && is_white_space(s[0]) {
        trimmed_start(s.skip(1))
    } else {
        s
    }
}

/// `s` without its trailing white space.
pub open spec fn trimmed_end(s: Text) -> Text
    decreases s.len(),
{
    if s.len() > 0 && is_white_space(s.last()) {
        trimmed_end(s.drop_last())
    } else {
        s
    }
}

/// `s` without its leading and trailing white space.
pub open spec fn trimmed(s: Text) -> Text {
    trimmed_end(trimmed_start(s))
}

/// Whether `c` has the Unicode property White_Space.
pub fn white_space(c: char) -> (r: bool)
    ensures
        r == is_white_space(c),
{
    ('\u{9}' <= c && c <= '\u{d}') || c == ' ' || c == '\u{85}' || c == '\u{a0}' || c == '\u{1680}'
        || ('\u{2000}' <= c && c <= '\u{200a}') || c == '\u{2028}' || c == '\u{2029}' || c
        == '\u{202f}' || c == '\u{205f}' || c == '\u{3000}'
}

proof fn lemma_field_len(s: Text, sep: char)
    ensures
        field_len(s, sep) <= s.len(),
        forall|i: int| 0 <= i < field_len(s, sep) ==> s[i] != sep,
        field_len(s, sep) < s.len() ==> s[field_len(s, sep) as int] == sep,
    decreases s.len(),
{
    if s.len() > 0 && s[0] != sep {
        lemma_field_len(s.skip(1), sep);
        assert forall|i: int| 0 <= i < field_len(s, sep) implies s[i] != sep by {
            if i > 0 {
                assert(s.skip(1)[i - 1] == s[i]);
            }
        }
    }
}

proof fn lemma_field_len_is(s: Text, sep: char, n: nat)
    requires
        n <= s.len(),
        forall|i: int| 0 <= i < n ==> s[i] != sep,
        n < s.len() ==> s[n as int] == sep,
    ensures
        field_len(s, sep) == n,
{
    lemma_field_len(s, sep);
    let m = field_len(s, sep);
    if m < n {
        assert(s[m as int] == sep);
    }
}

/// The pieces of `s` between its `sep` characters.
pub fn split_fields(s: &str, sep: char) -> (r: Vec<Vec<char>>)
    ensures
        char_rows(r@) == fields(s@, sep),
{
    let text = chars_of(s);
    let mut out: Vec<Vec<char>> = Vec::new();
    let mut field: Vec<char> = Vec::new();
    let ghost mut start: int = 0;
    let mut at: usize = 0;
    assert(text@.skip(0) =~= text@);
    assert(char_rows(out@) + fields(text@.skip(0), sep) =~= fields(text@, sep));
    while at < text.len()
        invariant
            0 <= start <= at <= text@.len(),
            field@ == text@.subrange(start, at as int),
            forall|i: int| start <= i < at ==> text@[i] != sep,
            char_rows(out@) + fields(text@.skip(start), sep) == fields(text@, sep),
        decreases text@.len() - at,
    {
        let c = text[at];
        if c == sep {
            let ghost rest = text@.skip(start);
            let ghost before = char_rows(out@);
            proof {
                lemma_field_len_is(rest, sep, (at - start) as nat);
                assert(rest.take(at - start) =~= field@);
                assert(rest.skip(at - start + 1) =~= text@.skip(at + 1));
            }
            out.push(field);
            field = Vec::new();
            proof {
                assert(char_rows(out@) =~= before.push(rest.take(at - start)));
                assert(char_rows(out@) + fields(text@.skip(at + 1), sep) =~= before + (seq![
                    rest.take(at - start),
                ] + fields(text@.skip(at + 1), sep)));
                start = at + 1;
            }
        } else {
            field.push(c);
        }
        at += 1;
        assert(field@ =~= text@.subrange(start, at as int));
    }
    let ghost before = char_rows(out@);
    proof {
        lemma_field_len_is(text@.skip(start), sep, (at - start) as nat);
        assert(text@.skip(start) =~= field@);
    }
    out.push(field);
    assert(char_rows(out@) =~= before + seq![text@.skip(start)]);
    out
}

/// `s` without its leading and trailing white space.
pub fn trim(s: &Vec<char>) -> (r: Vec<char>)
    ensures
        r@ == trimmed(s@),
{
    let mut start: usize = 0;
    assert(s@.skip(0) =~= s@);
    while start < s.len() && white_space(s[start])
        invariant
            start <= s@.len(),
            trimmed_start(s@.skip(start as int)) == trimmed_start(s@),
        decreases s@.len() - start,
    {
        assert(s@.skip(start as int).skip(1) =~= s@.skip(start + 1));
        start += 1;
    }
    let ghost front = s@.skip(start as int);
    assert(trimmed_start(s@) == front);
    let mut end: usize = s.len();
    assert(s@.subrange(start as int, end as int) =~= front);
    while start < end && white_space(s[end - 1])
        invariant
            start <= end <= s@.len(),
            trimmed_end(s@.subrange(start as int, end as int)) == trimmed_end(front),
        decreases end - start,
    {
        assert(s@.subrange(start as int, end as int).drop_last() =~= s@.subrange(
            start as int,
            end - 1,
        ));
        end -= 1;
    }
    let mut r: Vec<char> = Vec::new();
    let mut at: usize = start;
    while at < end
        invariant
            start <= at <= end <= s@.len(),
            r@ == s@.subrange(start as int, at as int),
        decreases end - at,
    {
        r.push(s[at]);
        at += 1;
        assert(r@ =~= s@.subrange(start as int, at as int));
    }
    r
}

/// Splitting loses nothing: the pieces joined by the separator give the text back.
pub proof fn law_joined_fields(s: Text, sep: char)
    ensures
        joined(fields(s, sep), seq![sep]) == s,
        fields(s, sep).len() > 0,
        forall|i: int| 0 <= i < fields(s, sep).len() ==> !#[trigger] fields(s, sep)[i].contains(sep),
    decreases s.len(),
{
    let n = field_len(s, sep) as int;
    lemma_field_len(s, sep);
    if n < s.len() {
        let rest = s.skip(n + 1);
        law_joined_fields(rest, sep);
        lemma_joined_front(s.take(n), fields(rest, sep), seq![sep]);
        assert(s =~= s.take(n) + seq![sep] + rest);
        assert forall|i: int| 0 <= i < fields(s, sep).len() implies !#[trigger] fields(
            s,
            sep,
        )[i].contains(sep) by {
            if i > 0 {
                assert(fields(s, sep)[i] == fields(rest, sep)[i - 1]);
            }
        }
    }
}

proof fn lemma_joined_front(first: Text, rest: Seq<Text>, sep: Text)
    requires
        rest.len() > 0,
    ensures
        joined(seq![first] + rest, sep) == first + sep + joined(rest, sep),
    decreases rest.len(),
{
    let all = seq![first] + rest;
    if rest.len() == 1 {
        assert(all.drop_last() =~= seq![first]);
        assert(joined(all.drop_last(), sep) == first);
    } else {
        lemma_joined_front(first, rest.drop_last(), sep);
        assert(all.drop_last() =~= seq![first] + rest.drop_last());
        assert(joined(all, sep) =~= first + sep + joined(rest, sep));
    }
}

/// A text without a separator is its only piece, and before a separator stands the first piece,
/// after which the text goes on on its own account.
pub proof fn law_fields_go_on(first: Text, sep: char, rest: Text)
    requires
        !first.contains(sep),
    ensures
        fields(first, sep) == seq![first],
        fields(first + seq![sep] + rest, sep) == seq![first] + fields(rest, sep),
{
    let n = first.len();
    let s = first + seq![sep] + rest;
    assert forall|i: int| 0 <= i < n implies first[i] != sep by {
        assert(first.contains(first[i]));
    }
    lemma_field_len_is(first, sep, n);
    lemma_field_len_is(s, sep, n);
    assert(s.take(n as int) =~= first);
    assert(s.skip(n as int + 1) =~= rest);
}

/// Joining puts the separator between neighbours and nowhere else.
pub proof fn law_joined_goes_on(first: Text, rest: Seq<Text>, sep: Text)
    ensures
        joined(Seq::empty(), sep) == Seq::<char>::empty(),
        joined(seq![first], sep) == first,
        rest.len() > 0 ==> joined(seq![first] + rest, sep) == first + sep + joined(rest, sep),
{
    if rest.len() > 0 {
        lemma_joined_front(first, rest, sep);
    }
}

proof fn lemma_trimmed_start(a: Text, s: Text)
    requires
        forall|i: int| 0 <= i < a.len() ==> is_white_space(#[trigger] a[i]),
        s.len() > 0 ==> !is_white_space(s[0]),
    ensures
        trimmed_start(a + s) == s,
    decreases a.len(),
{
    if a.len() == 0 {
        assert(a + s =~= s);
    } else {
        assert((a + s)[0] == a[0]);
        assert((a + s).skip(1) =~= a.skip(1) + s);
        assert forall|i: int| 0 <= i < a.skip(1).len() implies is_white_space(
            #[trigger] a.skip(1)[i],
        ) by {
            assert(a.skip(1)[i] == a[i + 1]);
        }
        lemma_trimmed_start(a.skip(1), s);
    }
}

proof fn lemma_trimmed_end(s: Text, b: Text)
    requires
        forall|i: int| 0 <= i < b.len() ==> is_white_space(#[trigger] b[i]),
        s.len() > 0 ==> !is_white_space(s.last()),
    ensures
        trimmed_end(s + b) == s,
    decreases b.len(),
{
    if b.len() == 0 {
        assert(s + b =~= s);
    } else {
        assert((s + b).last() == b[b.len() - 1]);
        assert((s + b).drop_last() =~= s + b.drop_last());
        assert forall|i: int| 0 <= i < b.drop_last().len() implies is_white_space(
            #[trigger] b.drop_last()[i],
        ) by {
            assert(b.drop_last()[i] == b[i]);
        }
        lemma_trimmed_end(s, b.drop_last());
    }
}

/// Trimming takes away the white space at both ends, all of it and nothing else.
pub proof fn law_trimmed_is_the_middle(before: Text, middle: Text, after: Text)
    requires
        forall|i: int| 0 <= i < before.len() ==> is_white_space(#[trigger] before[i]),
        forall|i: int| 0 <= i < after.len() ==> is_white_space(#[trigger] after[i]),
        middle.len() > 0 ==> !is_white_space(middle[0]) && !is_white_space(middle.last()),
    ensures
        trimmed(before + middle + after) == middle,
{
    if middle.len() > 0 {
        assert(before + middle + after =~= before + (middle + after));
        lemma_trimmed_start(before, middle + after);
        lemma_trimmed_end(middle, after);
    } else {
        let all = before + middle + after;
        let none = Seq::<char>::empty();
        assert forall|i: int| 0 <= i < all.len() implies is_white_space(#[trigger] all[i]) by {
            if i < before.len() {
                assert(all[i] == before[i]);
            } else {
                assert(all[i] == after[i - before.len()]);
            }
        }
        assert(all + none =~= all);
        lemma_trimmed_start(all, none);
        assert(middle =~= none);
    }
}

// ---------------------------------------------------------------------------
// Numbers

/// The decimal digit with value `d`.
pub open spec fn digit(d: nat) -> char {
    (48 + d) as char
}

/// `n` in decimal, without leading zeros.
pub open spec fn decimal(n: nat) -> Text
    decreases n,
{
    if n < 10 {
        seq![digit(n)]
    } else {
        decimal(n / 10).push(digit(n % 10))
    }
}

/// `i` in decimal, with a minus sign where it is negative.
pub open spec fn signed_decimal(i: int) -> Text {
    if i < 0 {
        seq!['-'] + decimal((-i) as nat)
    } else {
        decimal(i as nat)
    }
}

/// Appends `n` in decimal.
pub fn push_decimal(out: &mut String, n: u64)
    ensures
        final(out)@ == old(out)@ + decimal(n as nat),
    decreases n,
{
    if n >= 10 {
        push_decimal(out, n / 10);
    }
    let d: u8 = (n % 10) as u8;
    out.push((48u8 + d) as char);
    assert(out@ =~= old(out)@ + decimal(n as nat));
}

/// Appends `i` in decimal.
pub fn push_signed(out: &mut String, i: i64)
    ensures
        final(out)@ == old(out)@ + signed_decimal(i as int),
{
    if i < 0 {
        out.push('-');
        let n: u64 = (-(i as i128)) as u64;
        push_decimal(out, n);
        assert(out@ =~= old(out)@ + signed_decimal(i as int));
    } else {
        push_decimal(out, i as u64);
    }
}

/// The number that `digits` stand for.
pub open spec fn value_of(digits: Text) -> int
    decreases digits.len(),
{
    if digits.len() == 0 {
        0
    } else {
        10 * value_of(digits.drop_last()) + (digits.last() as int - '0' as int)
    }
}

/// A number in decimal reads back as that number: it is made of digits, and it starts with a
/// zero only where it is zero.
pub proof fn law_decimal_reads_back(n: nat)
    ensures
        value_of(decimal(n)) == n,
        decimal(n).len() > 0,
        forall|i: int| 0 <= i < decimal(n).len() ==> '0' <= #[trigger] decimal(n)[i] <= '9',
        decimal(n)[0] == '0' ==> n == 0 && decimal(n).len() == 1,
    decreases n,
{
    reveal_with_fuel(value_of, 2);
    if n >= 10 {
        law_decimal_reads_back(n / 10);
        assert(decimal(n).drop_last() =~= decimal(n / 10));
        assert(decimal(n)[0] == decimal(n / 10)[0]);
        assert forall|i: int| 0 <= i < decimal(n).len() implies '0' <= #[trigger] decimal(n)[i]
            <= '9' by {
            if i < decimal(n / 10).len() {
                assert(decimal(n)[i] == decimal(n / 10)[i]);
            }
        }
    } else {
        assert(decimal(n).drop_last() =~= Seq::empty());
    }
}

/// A negative number in decimal is a minus sign and the number without its sign.
pub proof fn law_signed_decimal(i: int)
    ensures
        i >= 0 ==> signed_decimal(i) == decimal(i as nat),
        i < 0 ==> signed_decimal(i) == seq!['-'] + decimal((-i) as nat),
{
}

} // verus!
