//! Pointing the statements of one database at another.

use crate::text::{self, Text};
use vstd::prelude::*;

verus! {

/// How a backtick-quoted database name introduces a name of that database.
pub open spec fn quoted_ref(db: Text) -> Text {
    "`"@ + db + "`."@
}

/// How an unquoted database name introduces a name of that database.
pub open spec fn plain_ref(db: Text) -> Text {
    db + "."@
}

/// Whether `c` can be part of an unquoted name: a letter, a digit, `_`, `$`, or anything beyond
/// ASCII.
pub open spec fn is_name_part(c: char) -> bool {
    ||| 'A' <= c <= 'Z'
    ||| 'a' <= c <= 'z'
    ||| '0' <= c <= '9'
    ||| c == '_'
    ||| c == '$'
    ||| c > '\u{7f}'
}

/// Whether what stands in `s` from position `at` on goes on with a name that started before it;
/// `inside` says whether `s` itself does.
pub open spec fn inside_name(s: Text, at: int, inside: bool) -> bool {
    if at <= 0 {
        inside
    } else {
        is_name_part(s[at - 1])
    }
}

/// Whether `pattern` stands in `s` from position `at` on and is not the tail of a longer name.
pub open spec fn stands_at(s: Text, pattern: Text, at: int, inside: bool) -> bool {
    text::occurs_at(s, pattern, at) && !inside_name(s, at, inside)
}

/// `s` with every occurrence of `pattern` that is not the tail of a longer name replaced by
/// `with`, where occurrences are taken from the left and do not overlap. `inside` says whether
/// `s` goes on with a name that started before it.
pub open spec fn replaced_names(s: Text, pattern: Text, with: Text, inside: bool) -> Text
    decreases s.len(),
{
    if pattern.len() == 0 || s.len() < pattern.len() {
        s
    } else if !inside && pattern == s.take(pattern.len() as int) {
        with + replaced_names(
            s.skip(pattern.len() as int),
            pattern,
            with,
            is_name_part(pattern.last()),
        )
    } else {
        seq![s[0]] + replaced_names(s.skip(1), pattern, with, is_name_part(s[0]))
    }
}

/// `sql` with the references to `template` pointed at `new_db`: the quoted ones first, then
/// the unquoted ones. A name that only ends like the template's is no reference to it.
pub open spec fn redirected(sql: Text, template: Text, new_db: Text) -> Text {
    replaced_names(
        text::replaced(sql, quoted_ref(template), quoted_ref(new_db)),
        plain_ref(template),
        plain_ref(new_db),
        false,
    )
}

/// Whether `c` can be part of an unquoted name.
fn name_part(c: char) -> (r: bool)
    ensures
        r == is_name_part(c),
{
    ('A' <= c && c <= 'Z') || ('a' <= c && c <= 'z') || ('0' <= c && c <= '9') || c == '_' || c
        == '$' || c > '\u{7f}'
}

/// `s` with every occurrence of `pattern` that is not the tail of a longer name, from the left
/// and without overlap, replaced by `with`.
fn replace_names(s: &str, pattern: &str, with: &str) -> (r: String)
    ensures
        r@ == replaced_names(s@, pattern@, with@, false),
{
    let text = text::chars_of(s);
    let pat = text::chars_of(pattern);
    let mut out = String::new();
    let mut at: usize = 0;
    let mut inside = false;
    assert(text@.skip(0) =~= text@);
    assert(out@ + replaced_names(text@.skip(0), pat@, with@, inside) =~= replaced_names(
        text@,
        pat@,
        with@,
        false,
    ));
    while at < text.len()
        invariant
            at <= text@.len(),
            out@ + replaced_names(text@.skip(at as int), pat@, with@, inside) == replaced_names(
                text@,
                pat@,
                with@,
                false,
            ),
        decreases text@.len() - at,
    {
        let ghost rest = text@.skip(at as int);
        if pat.len() > 0 && !inside && text::matches_at(&text, &pat, at) {
            let after = name_part(pat[pat.len() - 1]);
            proof {
                let n = pat@.len() as int;
                assert(rest.take(n) =~= text@.subrange(at as int, at + n));
                assert(rest.skip(n) =~= text@.skip(at + n));
                let tail = replaced_names(text@.skip(at + n), pat@, with@, after);
                assert(out@ + with@ + tail =~= out@ + (with@ + tail));
            }
            out.append(with);
            inside = after;
            at += pat.len();
        } else {
            let after = name_part(text[at]);
            proof {
                let n = pat@.len() as int;
                if n > 0 && rest.len() >= n {
                    assert(rest.take(n) =~= text@.subrange(at as int, at + n));
                } else {
                    assert(rest =~= seq![rest[0]] + rest.skip(1));
                }
                assert(rest.skip(1) =~= text@.skip(at + 1));
                let tail = replaced_names(rest.skip(1), pat@, with@, after);
                assert(out@.push(rest[0]) + tail =~= out@ + (seq![rest[0]] + tail));
            }
            out.push(text[at]);
            inside = after;
            at += 1;
        }
    }
    assert(text@.skip(at as int) =~= Seq::empty());
    assert(out@ + Seq::<char>::empty() =~= out@);
    out
}

/// Helper function to replace database references in CREATE statements.
/// Used when cloning objects from template to target database.
pub fn replace_database_refs(sql: &str, template_name: &str, new_db_name: &str) -> (r: String)
    ensures
        r@ == redirected(sql@, template_name@, new_db_name@),
{
    // Replace backtick-quoted references first (more specific)
    let result = text::replace_all(
        sql,
        String::from_str("`").concat(template_name).concat("`.").as_str(),
        String::from_str("`").concat(new_db_name).concat("`.").as_str(),
    );
    // Then replace unquoted references
    replace_names(
        result.as_str(),
        String::from_str(template_name).concat(".").as_str(),
        String::from_str(new_db_name).concat(".").as_str(),
    )
}

// ---------------------------------------------------------------------------
// What replacing leaves behind

/// Whether one of `a` and `b` ends in the other.
pub open spec fn share_an_end(a: Text, b: Text) -> bool {
    a.is_suffix_of(b) || b.is_suffix_of(a)
}

/// Whether `q` ends in `d` and holds no other `d`.
spec fn ends_first_in(q: Text, d: char) -> bool {
    &&& q.len() > 0
    &&& q.last() == d
    &&& forall|i: int| 0 <= i < q.len() - 1 ==> q[i] != d
}

proof fn lemma_prefix_of_replaced(s: Text, p: Text, w: Text, q: Text, d: char)
    requires
        p.len() > 0,
        ends_first_in(q, d),
        ends_first_in(w, d),
        q.is_prefix_of(text::replaced(s, p, w)),
    ensures
        q.is_prefix_of(s) || w.is_suffix_of(q),
    decreases s.len(),
{
    let r = text::replaced(s, p, w);
    let n = p.len() as int;
    if s.len() < n {
    } else if p == s.take(n) {
        assert(q.last() == r[q.len() - 1]);
        if q.len() < w.len() {
            assert(w[q.len() - 1] == d);
        } else if q.len() > w.len() {
            assert(q[w.len() - 1] == r[w.len() - 1]);
            assert(r[w.len() - 1] == w.last());
        } else {
            assert(q =~= w);
            assert(w =~= q.subrange(q.len() - w.len(), q.len() as int));
        }
    } else {
        let rest = text::replaced(s.skip(1), p, w);
        assert(q[0] == r[0]);
        if q.len() == 1 {
            assert(q =~= s.take(1));
        } else {
            let tail = q.skip(1);
            assert(tail =~= rest.take(tail.len() as int)) by {
                assert forall|i: int| 0 <= i < tail.len() implies tail[i] == rest[i] by {
                    assert(q[i + 1] == r[i + 1]);
                }
            }
            lemma_prefix_of_replaced(s.skip(1), p, w, tail, d);
            if tail.is_prefix_of(s.skip(1)) {
                assert forall|i: int| 0 <= i < q.len() implies q[i] == s[i] by {
                    if i > 0 {
                        assert(tail[i - 1] == s.skip(1)[i - 1]);
                    }
                }
                assert(q =~= s.take(q.len() as int));
            } else {
                assert(tail.subrange(tail.len() - w.len(), tail.len() as int) =~= q.subrange(
                    q.len() - w.len(),
                    q.len() as int,
                ));
            }
        }
    }
}

proof fn lemma_occurs_later(s: Text, q: Text, by: int)
    requires
        0 <= by <= s.len(),
        text::occurs(s.skip(by), q),
    ensures
        text::occurs(s, q),
{
    let at = choose|at: int| text::occurs_at(s.skip(by), q, at);
    assert(s.subrange(by + at, by + at + q.len()) =~= s.skip(by).subrange(at, at + q.len()));
    assert(text::occurs_at(s, q, by + at));
}

/// Where `q` stands in a text after replacing, it either shares an end with what was put in,
/// or stood in the text before and was not what was looked for.
proof fn lemma_occurs_in_replaced(s: Text, p: Text, w: Text, q: Text, d: char, at: int)
    requires
        p.len() > 0,
        ends_first_in(q, d),
        ends_first_in(w, d),
        text::occurs_at(text::replaced(s, p, w), q, at),
    ensures
        share_an_end(q, w) || (text::occurs(s, q) && q != p),
    decreases s.len(),
{
    let r = text::replaced(s, p, w);
    let n = p.len() as int;
    let m = w.len() as int;
    let k = q.len() as int;
    if s.len() < n {
        assert(text::occurs_at(s, q, at));
    } else if p == s.take(n) {
        let rest = text::replaced(s.skip(n), p, w);
        if at >= m {
            assert(rest.subrange(at - m, at - m + k) =~= r.subrange(at, at + k));
            lemma_occurs_in_replaced(s.skip(n), p, w, q, d, at - m);
            if text::occurs(s.skip(n), q) {
                lemma_occurs_later(s, q, n);
            }
        } else if at + k <= m {
            assert(q.last() == r.subrange(at, at + k)[k - 1]);
            assert(w[at + k - 1] == d);
            assert(w.subrange(m - k, m) =~= r.subrange(at, at + k));
        } else {
            assert(r.subrange(at, at + k)[m - 1 - at] == w.last());
        }
    } else {
        let rest = text::replaced(s.skip(1), p, w);
        if at >= 1 {
            assert(rest.subrange(at - 1, at - 1 + k) =~= r.subrange(at, at + k));
            lemma_occurs_in_replaced(s.skip(1), p, w, q, d, at - 1);
            if text::occurs(s.skip(1), q) {
                lemma_occurs_later(s, q, 1);
            }
        } else {
            assert forall|i: int| 0 <= i < k implies q[i] == r[i] by {
                assert(r.subrange(0, k)[i] == r[i]);
            }
            assert(q =~= r.take(k));
            lemma_prefix_of_replaced(s, p, w, q, d);
            if q.is_prefix_of(s) {
                assert(s.subrange(0, k) =~= q);
                assert(text::occurs_at(s, q, 0));
                if q == p {
                    assert(s.take(n) =~= p);
                }
            }
        }
    }
}

/// Whether `q` ends in `w`, and that is not the tail of a longer name; `inside` says whether
/// `q` goes on with a name that started before it.
pub open spec fn ends_in_name(q: Text, w: Text, inside: bool) -> bool {
    w.is_suffix_of(q) && !inside_name(q, q.len() - w.len(), inside)
}

proof fn lemma_prefix_of_replaced_names(s: Text, p: Text, w: Text, inside: bool, q: Text, d: char)
    requires
        p.len() > 0,
        ends_first_in(q, d),
        ends_first_in(w, d),
        q.is_prefix_of(replaced_names(s, p, w, inside)),
    ensures
        q.is_prefix_of(s) || ends_in_name(q, w, inside),
    decreases s.len(),
{
    let r = replaced_names(s, p, w, inside);
    let n = p.len() as int;
    if s.len() < n {
    } else if !inside && p == s.take(n) {
        assert(q.last() == r[q.len() - 1]);
        if q.len() < w.len() {
            assert(w[q.len() - 1] == d);
        } else if q.len() > w.len() {
            assert(q[w.len() - 1] == r[w.len() - 1]);
            assert(r[w.len() - 1] == w.last());
        } else {
            assert(q =~= w);
            assert(w =~= q.subrange(q.len() - w.len(), q.len() as int));
        }
    } else {
        let rest = replaced_names(s.skip(1), p, w, is_name_part(s[0]));
        assert(q[0] == r[0]);
        if q.len() == 1 {
            assert(q =~= s.take(1));
        } else {
            let tail = q.skip(1);
            assert forall|i: int| 0 <= i < tail.len() implies tail[i] == rest[i] by {
                assert(q[i + 1] == r[i + 1]);
            }
            assert(tail =~= rest.take(tail.len() as int));
            lemma_prefix_of_replaced_names(s.skip(1), p, w, is_name_part(s[0]), tail, d);
            if tail.is_prefix_of(s.skip(1)) {
                assert forall|i: int| 0 <= i < q.len() implies q[i] == s[i] by {
                    if i > 0 {
                        assert(tail[i - 1] == s.skip(1)[i - 1]);
                    }
                }
                assert(q =~= s.take(q.len() as int));
            } else {
                assert(tail.subrange(tail.len() - w.len(), tail.len() as int) =~= q.subrange(
                    q.len() - w.len(),
                    q.len() as int,
                ));
            }
        }
    }
}

/// Where `q` stands in a text after replacing names, it shares an end with what was put in, or
/// stood in the text before.
proof fn lemma_occurs_in_replaced_names(
    s: Text,
    p: Text,
    w: Text,
    inside: bool,
    q: Text,
    d: char,
    at: int,
)
    requires
        p.len() > 0,
        ends_first_in(q, d),
        ends_first_in(w, d),
        text::occurs_at(replaced_names(s, p, w, inside), q, at),
    ensures
        share_an_end(q, w) || text::occurs(s, q),
    decreases s.len(),
{
    let r = replaced_names(s, p, w, inside);
    let n = p.len() as int;
    let m = w.len() as int;
    let k = q.len() as int;
    if s.len() < n {
        assert(text::occurs_at(s, q, at));
    } else if !inside && p == s.take(n) {
        let after = is_name_part(p.last());
        let rest = replaced_names(s.skip(n), p, w, after);
        if at >= m {
            assert(rest.subrange(at - m, at - m + k) =~= r.subrange(at, at + k));
            lemma_occurs_in_replaced_names(s.skip(n), p, w, after, q, d, at - m);
            if text::occurs(s.skip(n), q) {
                lemma_occurs_later(s, q, n);
            }
        } else if at + k <= m {
            assert(q.last() == r.subrange(at, at + k)[k - 1]);
            assert(w[at + k - 1] == d);
            assert(w.subrange(m - k, m) =~= r.subrange(at, at + k));
        } else {
            assert(r.subrange(at, at + k)[m - 1 - at] == w.last());
        }
    } else {
        let after = is_name_part(s[0]);
        let rest = replaced_names(s.skip(1), p, w, after);
        if at >= 1 {
            assert(rest.subrange(at - 1, at - 1 + k) =~= r.subrange(at, at + k));
            lemma_occurs_in_replaced_names(s.skip(1), p, w, after, q, d, at - 1);
            if text::occurs(s.skip(1), q) {
                lemma_occurs_later(s, q, 1);
            }
        } else {
            assert forall|i: int| 0 <= i < k implies q[i] == r[i] by {
                assert(r.subrange(0, k)[i] == r[i]);
            }
            assert(q =~= r.take(k));
            lemma_prefix_of_replaced_names(s, p, w, inside, q, d);
            if q.is_prefix_of(s) {
                assert(s.subrange(0, k) =~= q);
                assert(text::occurs_at(s, q, 0));
            }
        }
    }
}

/// What was looked for is gone: it stands in the text after replacing names only where it ends
/// in what was put in, or the other way round.
proof fn lemma_names_are_replaced(s: Text, p: Text, w: Text, inside: bool, d: char, at: int)
    requires
        !is_name_part(d),
        ends_first_in(p, d),
        ends_first_in(w, d),
        stands_at(replaced_names(s, p, w, inside), p, at, inside),
    ensures
        ends_in_name(p, w, false) || ends_in_name(w, p, false),
    decreases s.len(),
{
    let r = replaced_names(s, p, w, inside);
    let n = p.len() as int;
    let m = w.len() as int;
    if s.len() < n {
    } else if !inside && p == s.take(n) {
        let rest = replaced_names(s.skip(n), p, w, false);
        if at >= m {
            assert(rest.subrange(at - m, at - m + n) =~= r.subrange(at, at + n));
            if at > m {
                assert(r[at - 1] == rest[at - m - 1]);
            }
            lemma_names_are_replaced(s.skip(n), p, w, false, d, at - m);
        } else if at + n <= m {
            assert(p.last() == r.subrange(at, at + n)[n - 1]);
            assert(w[at + n - 1] == d);
            assert(w.subrange(m - n, m) =~= r.subrange(at, at + n));
            if at > 0 {
                assert(r[at - 1] == w[at - 1]);
            }
        } else {
            assert(r.subrange(at, at + n)[m - 1 - at] == w.last());
        }
    } else {
        let after = is_name_part(s[0]);
        let rest = replaced_names(s.skip(1), p, w, after);
        if at >= 1 {
            assert(rest.subrange(at - 1, at - 1 + n) =~= r.subrange(at, at + n));
            if at > 1 {
                assert(r[at - 1] == rest[at - 2]);
            }
            lemma_names_are_replaced(s.skip(1), p, w, after, d, at - 1);
        } else {
            assert forall|i: int| 0 <= i < n implies p[i] == r[i] by {
                assert(r.subrange(0, n)[i] == r[i]);
            }
            assert(p =~= r.take(n));
            lemma_prefix_of_replaced_names(s, p, w, inside, p, d);
            if p.is_prefix_of(s) {
                assert(s.take(n) =~= p);
            }
        }
    }
}

proof fn lemma_refs(t: Text)
    requires
        !t.contains('.'),
    ensures
        ends_first_in(plain_ref(t), '.'),
        ends_first_in(quoted_ref(t), '.'),
{
    reveal_strlit(".");
    reveal_strlit("`");
    reveal_strlit("`.");
    let a = plain_ref(t);
    assert forall|i: int| 0 <= i < a.len() - 1 implies a[i] != '.' by {
        assert(t.contains(t[i]));
    }
    let q = quoted_ref(t);
    assert forall|i: int| 0 <= i < q.len() - 1 implies q[i] != '.' by {
        if 1 <= i < 1 + t.len() {
            assert(q[i] == t[i - 1]);
            assert(t.contains(t[i - 1]));
        }
    }
}

proof fn lemma_plain_ends(a: Text, b: Text)
    requires
        ends_in_name(plain_ref(a), plain_ref(b), false),
    ensures
        ends_in_name(a, b, false),
{
    reveal_strlit(".");
    let x = plain_ref(a);
    let y = plain_ref(b);
    let cut = x.len() - y.len();
    let tail = x.subrange(cut, x.len() as int);
    assert forall|i: int| 0 <= i < b.len() implies b[i] == a[cut + i] by {
        assert(y[i] == tail[i]);
    }
    assert(b =~= a.subrange(a.len() - b.len(), a.len() as int));
    if cut > 0 {
        assert(x[cut - 1] == a[cut - 1]);
    }
}

/// No unquoted reference to the template is left, whatever the statement: for names without a
/// dot of which neither ends in the other, unless as the tail of a longer name. By
/// [`law_plain_names_are_apart`], two different names that need no quoting are such names.
pub proof fn law_no_plain_ref_left(sql: Text, template: Text, new_db: Text, at: int)
    requires
        !template.contains('.'),
        !new_db.contains('.'),
        !ends_in_name(template, new_db, false),
        !ends_in_name(new_db, template, false),
    ensures
        !stands_at(redirected(sql, template, new_db), plain_ref(template), at, false),
{
    let q = plain_ref(template);
    if stands_at(redirected(sql, template, new_db), q, at, false) {
        let half = text::replaced(sql, quoted_ref(template), quoted_ref(new_db));
        lemma_refs(template);
        lemma_refs(new_db);
        lemma_names_are_replaced(half, q, plain_ref(new_db), false, '.', at);
        if ends_in_name(q, plain_ref(new_db), false) {
            lemma_plain_ends(template, new_db);
        } else {
            lemma_plain_ends(new_db, template);
        }
    }
}

/// A name that needs no quoting holds no dot or backtick, and it ends in another name only as the
/// tail of a longer name.
pub proof fn law_plain_names_are_apart(a: Text, b: Text)
    requires
        a != b,
        b.len() > 0,
        forall|i: int| 0 <= i < a.len() ==> is_name_part(#[trigger] a[i]),
    ensures
        !a.contains('.'),
        !a.contains('`'),
        !ends_in_name(a, b, false),
{
    if b.is_suffix_of(a) && a.len() == b.len() {
        assert(a =~= a.subrange(0, a.len() as int));
    }
}

/// No quoted reference to the template is left, whatever the statement: for different names
/// without a dot or a backtick.
pub proof fn law_no_quoted_ref_left(sql: Text, template: Text, new_db: Text)
    requires
        !template.contains('.'),
        !new_db.contains('.'),
        !template.contains('`'),
        !new_db.contains('`'),
        template != new_db,
        new_db.len() > 0,
    ensures
        !text::occurs(redirected(sql, template, new_db), quoted_ref(template)),
{
    lemma_refs(template);
    lemma_refs(new_db);
    let q = quoted_ref(template);
    let w = quoted_ref(new_db);
    let half = text::replaced(sql, q, w);
    if text::occurs(half, q) {
        let at = choose|at: int| text::occurs_at(half, q, at);
        lemma_occurs_in_replaced(sql, q, w, q, '.', at);
        if q.is_suffix_of(w) {
            lemma_quoted_ends(template, new_db);
        } else {
            lemma_quoted_ends(new_db, template);
        }
    }
    if text::occurs(redirected(sql, template, new_db), q) {
        let at = choose|at: int| text::occurs_at(redirected(sql, template, new_db), q, at);
        lemma_occurs_in_replaced_names(
            half,
            plain_ref(template),
            plain_ref(new_db),
            false,
            q,
            '.',
            at,
        );
        lemma_mixed_ends(template, new_db);
    }
}

proof fn lemma_quoted_ends(a: Text, b: Text)
    requires
        !a.contains('`'),
        !b.contains('`'),
        quoted_ref(a).is_suffix_of(quoted_ref(b)),
    ensures
        a == b,
{
    reveal_strlit("`");
    reveal_strlit("`.");
    let x = quoted_ref(a);
    let y = quoted_ref(b);
    let cut = y.len() - x.len();
    let tail = y.subrange(cut, y.len() as int);
    assert(x[0] == tail[0]);
    if cut > 0 {
        assert(y[cut] == b[cut - 1]);
        assert(b.contains(b[cut - 1]));
    }
    assert forall|i: int| 0 <= i < a.len() implies a[i] == b[i] by {
        assert(x[i + 1] == tail[i + 1]);
    }
    assert(a =~= b);
}

proof fn lemma_mixed_ends(t: Text, n: Text)
    requires
        !n.contains('`'),
        n.len() > 0,
    ensures
        !share_an_end(quoted_ref(t), plain_ref(n)),
{
    reveal_strlit(".");
    reveal_strlit("`");
    reveal_strlit("`.");
    let q = quoted_ref(t);
    let w = plain_ref(n);
    assert(n.contains(n.last()));
    assert(w[w.len() - 2] == n.last());
    assert(q[q.len() - 2] == '`');
    if q.is_suffix_of(w) {
        assert(q[q.len() - 2] == w.subrange(w.len() - q.len(), w.len() as int)[q.len() - 2]);
    }
    if w.is_suffix_of(q) {
        assert(w[w.len() - 2] == q.subrange(q.len() - w.len(), q.len() as int)[w.len() - 2]);
    }
}

/// Replacing a pattern that does not stand in the text changes nothing.
proof fn lemma_replaced_nothing(s: Text, p: Text, w: Text)
    requires
        !text::occurs(s, p),
    ensures
        text::replaced(s, p, w) == s,
    decreases s.len(),
{
    if p.len() > 0 && s.len() >= p.len() {
        if p == s.take(p.len() as int) {
            assert(s.subrange(0, p.len() as int) =~= p);
            assert(text::occurs_at(s, p, 0));
        }
        if text::occurs(s.skip(1), p) {
            lemma_occurs_later(s, p, 1);
        }
        lemma_replaced_nothing(s.skip(1), p, w);
        assert(seq![s[0]] + s.skip(1) =~= s);
    }
}

proof fn lemma_replaced_no_names(s: Text, p: Text, w: Text, inside: bool)
    requires
        forall|at: int| !stands_at(s, p, at, inside),
    ensures
        replaced_names(s, p, w, inside) == s,
    decreases s.len(),
{
    if p.len() > 0 && s.len() >= p.len() {
        if p == s.take(p.len() as int) {
            assert(s.subrange(0, p.len() as int) =~= p);
            assert(!stands_at(s, p, 0, inside));
        }
        let rest = s.skip(1);
        let after = is_name_part(s[0]);
        assert forall|at: int| !stands_at(rest, p, at, after) by {
            if stands_at(rest, p, at, after) {
                assert(s.subrange(1 + at, 1 + at + p.len()) =~= rest.subrange(at, at + p.len()));
                if at > 0 {
                    assert(rest[at - 1] == s[at]);
                }
                assert(stands_at(s, p, 1 + at, inside));
            }
        }
        lemma_replaced_no_names(rest, p, w, after);
        assert(seq![s[0]] + rest =~= s);
    }
}

/// A statement without a reference to the template stays as it is: column names, definers,
/// longer names that end like the template's, and all other text that only resembles a
/// reference are kept.
pub proof fn law_unrelated_text_is_kept(sql: Text, template: Text, new_db: Text)
    requires
        !text::occurs(sql, quoted_ref(template)),
        forall|at: int| !stands_at(sql, plain_ref(template), at, false),
    ensures
        redirected(sql, template, new_db) == sql,
{
    lemma_replaced_nothing(sql, quoted_ref(template), quoted_ref(new_db));
    lemma_replaced_no_names(sql, plain_ref(template), plain_ref(new_db), false);
}

} // verus!
