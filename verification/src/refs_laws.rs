//! What redirecting a statement gives, said of the statement itself.

use crate::refs;
use crate::text::{self, Text};
use vstd::prelude::*;

verus! {

/// Whether `c` can be part of an unquoted name: a letter, a digit, `_`, `$`, or
/// anything beyond ASCII.
pub open spec fn continues_name(c: char) -> bool {
    ||| 'a' <= c <= 'z'
    ||| 'A' <= c <= 'Z'
    ||| '0' <= c <= '9'
    ||| c == '_'
    ||| c == '$'
    ||| c > '\u{7f}'
}

/// Whether `name` is a name without a dot or a backtick, as is every name that needs no quoting.
pub open spec fn is_simple(name: Text) -> bool {
    &&& name.len() > 0
    &&& forall|i: int| 0 <= i < name.len() ==> #[trigger] name[i] != '.' && name[i] != '`'
}

/// Whether no reference to `db` stands in `piece`: no quoted one at all, and an unquoted one only
/// as the tail of a longer name.
pub open spec fn is_free_of(piece: Text, db: Text) -> bool {
    &&& forall|i: int, j: int|
        0 <= i <= j <= piece.len() ==> #[trigger] piece.subrange(i, j) != "`"@ + db + "`."@
    &&& forall|i: int, j: int|
        0 <= i <= j <= piece.len() && #[trigger] piece.subrange(i, j) == db + "."@ ==> i > 0
            && continues_name(piece[i - 1])
}

/// A quoted or an unquoted reference to `db`.
pub open spec fn reference(quoted: bool, db: Text) -> Text {
    if quoted {
        "`"@ + db + "`."@
    } else {
        db + "."@
    }
}

/// The pieces of a statement with references to `db` between them, each quoted or not.
pub open spec fn woven(pieces: Seq<Text>, quoted: Seq<bool>, db: Text) -> Text
    decreases quoted.len(),
{
    if quoted.len() == 0 {
        pieces[0]
    } else {
        pieces[0] + reference(quoted[0], db) + woven(pieces.skip(1), quoted.skip(1), db)
    }
}

/// The pieces with references to `db` where they are quoted, and to `other` where not.
spec fn half_woven(pieces: Seq<Text>, quoted: Seq<bool>, db: Text, other: Text) -> Text
    decreases quoted.len(),
{
    if quoted.len() == 0 {
        pieces[0]
    } else {
        pieces[0] + reference(
            quoted[0],
            if quoted[0] {
                db
            } else {
                other
            },
        ) + half_woven(pieces.skip(1), quoted.skip(1), db, other)
    }
}

/// Whether every piece is free of references to `db` and none runs into an unquoted reference
/// after it.
pub open spec fn are_pieces(pieces: Seq<Text>, quoted: Seq<bool>, db: Text) -> bool {
    &&& pieces.len() == quoted.len() + 1
    &&& forall|i: int| 0 <= i < pieces.len() ==> is_free_of(#[trigger] pieces[i], db)
    &&& forall|i: int|
        0 <= i < quoted.len() && !quoted[i] && (#[trigger] pieces[i]).len() > 0
            ==> !continues_name(pieces[i].last())
}

proof fn lemma_kept(x: Text, rest: Text, p: Text, w: Text)
    requires
        p.len() > 0,
        forall|i: int| 0 <= i < x.len() ==> !text::occurs_at(x + rest, p, i),
    ensures
        text::replaced(x + rest, p, w) == x + text::replaced(rest, p, w),
    decreases x.len(),
{
    let s = x + rest;
    let n = p.len() as int;
    if x.len() == 0 {
        assert(s =~= rest);
        assert(x + text::replaced(rest, p, w) =~= text::replaced(rest, p, w));
    } else if s.len() >= n {
        assert(s.subrange(0, n) =~= s.take(n));
        assert(!text::occurs_at(s, p, 0));
        let y = x.skip(1);
        assert(s.skip(1) =~= y + rest);
        assert forall|i: int| 0 <= i < y.len() implies !text::occurs_at(y + rest, p, i) by {
            assert(!text::occurs_at(s, p, i + 1));
            if i + n <= y.len() + rest.len() {
                assert((y + rest).subrange(i, i + n) =~= s.subrange(i + 1, i + 1 + n));
            }
        }
        lemma_kept(y, rest, p, w);
        assert(seq![s[0]] + (y + text::replaced(rest, p, w)) =~= x + text::replaced(rest, p, w));
    }
}

proof fn lemma_names_kept(x: Text, rest: Text, p: Text, w: Text, inside: bool)
    requires
        p.len() > 0,
        forall|i: int| 0 <= i < x.len() ==> !refs::stands_at(x + rest, p, i, inside),
    ensures
        refs::replaced_names(x + rest, p, w, inside) == x + refs::replaced_names(
            rest,
            p,
            w,
            refs::inside_name(x, x.len() as int, inside),
        ),
    decreases x.len(),
{
    let s = x + rest;
    let n = p.len() as int;
    let last = refs::inside_name(x, x.len() as int, inside);
    let done = refs::replaced_names(rest, p, w, last);
    if x.len() == 0 {
        assert(s =~= rest);
        assert(x + done =~= done);
    } else if s.len() >= n {
        assert(s.subrange(0, n) =~= s.take(n));
        assert(!refs::stands_at(s, p, 0, inside));
        let y = x.skip(1);
        let after = refs::is_name_part(s[0]);
        assert(s.skip(1) =~= y + rest);
        assert forall|i: int| 0 <= i < y.len() implies !refs::stands_at(y + rest, p, i, after) by {
            assert(!refs::stands_at(s, p, i + 1, inside));
            if i + n <= y.len() + rest.len() {
                assert((y + rest).subrange(i, i + n) =~= s.subrange(i + 1, i + 1 + n));
            }
            if i > 0 {
                assert((y + rest)[i - 1] == s[i]);
            }
        }
        lemma_names_kept(y, rest, p, w, after);
        if y.len() > 0 {
            assert(y[y.len() - 1] == x[x.len() - 1]);
        }
        assert(seq![s[0]] + (y + done) =~= x + done);
    }
}

/// Whether the only dot of `s` is its end.
spec fn ends_at_its_dot(s: Text) -> bool {
    &&& s.len() > 1
    &&& s.last() == '.'
    &&& forall|i: int| 0 <= i < s.len() - 1 ==> s[i] != '.'
}

proof fn lemma_references(db: Text)
    requires
        is_simple(db),
    ensures
        ends_at_its_dot(reference(true, db)),
        ends_at_its_dot(reference(false, db)),
        reference(true, db)[reference(true, db).len() - 2] == '`',
        reference(false, db)[reference(false, db).len() - 2] == db.last(),
        db.last() != '`',
{
    reveal_strlit("`");
    reveal_strlit("`.");
    reveal_strlit(".");
    let q = reference(true, db);
    assert forall|i: int| 0 <= i < q.len() - 1 implies q[i] != '.' by {
        if 0 < i <= db.len() {
            assert(q[i] == db[i - 1]);
        }
    }
    assert(db.last() == db[db.len() - 1]);
}

/// What stands at `at` and has its only dot at its end lies in `x`, or ends where `r` ends.
proof fn lemma_ends(x: Text, r: Text, tail: Text, p: Text, at: int)
    requires
        ends_at_its_dot(r),
        ends_at_its_dot(p),
        0 <= at < x.len() + r.len(),
        text::occurs_at(x + (r + tail), p, at),
    ensures
        at + p.len() <= x.len() || at + p.len() == x.len() + r.len(),
        at + p.len() <= x.len() ==> x.subrange(at, at + p.len()) == p,
        at + p.len() == x.len() + r.len() ==> p[p.len() - 2] == r[r.len() - 2],
{
    let s = x + (r + tail);
    let e = at + p.len() - 1;
    let d = x.len() + r.len() - 1;
    assert forall|i: int| 0 <= i < p.len() implies s[at + i] == p[i] by {
        assert(s.subrange(at, at + p.len())[i] == s[at + i]);
    }
    assert(s[d] == '.');
    assert(s[at + (p.len() - 1)] == p[p.len() - 1]);
    assert(s[e] == '.');
    if e > d {
        assert(s[at + (d - at)] == p[d - at]);
    } else if e < d && e >= x.len() {
        assert(s[e] == r[e - x.len()]);
    }
    if e < x.len() {
        assert(x.subrange(at, at + p.len()) =~= p);
    }
    if e == d {
        assert(s[at + (p.len() - 2)] == p[p.len() - 2]);
        assert(s[d - 1] == r[r.len() - 2]);
    }
}

proof fn lemma_quoted_pass(pieces: Seq<Text>, quoted: Seq<bool>, t: Text, n: Text)
    requires
        are_pieces(pieces, quoted, t),
        is_simple(t),
    ensures
        text::replaced(woven(pieces, quoted, t), reference(true, t), reference(true, n))
            == half_woven(pieces, quoted, n, t),
    decreases quoted.len(),
{
    let p = reference(true, t);
    let w = reference(true, n);
    let x = pieces[0];
    lemma_references(t);
    assert(is_free_of(x, t));
    if quoted.len() == 0 {
        let none = Seq::<char>::empty();
        assert(x + none =~= x);
        assert forall|i: int| 0 <= i < x.len() implies !text::occurs_at(x + none, p, i) by {
            if text::occurs_at(x + none, p, i) {
                assert(x.subrange(i, i + p.len()) =~= p);
            }
        }
        lemma_kept(x, none, p, w);
    } else {
        let r = reference(quoted[0], t);
        let tail = woven(pieces.skip(1), quoted.skip(1), t);
        let done = text::replaced(tail, p, w);
        assert forall|i: int| 0 <= i < pieces.skip(1).len() implies is_free_of(
            #[trigger] pieces.skip(1)[i],
            t,
        ) by {
            assert(pieces.skip(1)[i] == pieces[i + 1]);
        }
        assert forall|i: int|
            0 <= i < quoted.skip(1).len() && !quoted.skip(1)[i] && (#[trigger] pieces.skip(
                1,
            )[i]).len() > 0 implies !continues_name(pieces.skip(1)[i].last()) by {
            assert(pieces.skip(1)[i] == pieces[i + 1]);
        }
        lemma_quoted_pass(pieces.skip(1), quoted.skip(1), t, n);
        assert(woven(pieces, quoted, t) =~= x + (r + tail));
        assert forall|i: int|
            0 <= i < x.len() + r.len() && text::occurs_at(x + (r + tail), p, i) implies quoted[0]
            && i == x.len() by {
            lemma_ends(x, r, tail, p, i);
        }
        if quoted[0] {
            lemma_kept(x, r + tail, p, w);
            assert((r + tail).take(p.len() as int) =~= p);
            assert((r + tail).skip(p.len() as int) =~= tail);
            assert(x + (w + done) =~= x + w + done);
        } else {
            assert((x + r) + tail =~= x + (r + tail));
            lemma_kept(x + r, tail, p, w);
        }
    }
}

proof fn lemma_plain_pass(pieces: Seq<Text>, quoted: Seq<bool>, t: Text, n: Text)
    requires
        are_pieces(pieces, quoted, t),
        is_simple(t),
        is_simple(n),
    ensures
        refs::replaced_names(
            half_woven(pieces, quoted, n, t),
            reference(false, t),
            reference(false, n),
            false,
        ) == woven(pieces, quoted, n),
    decreases quoted.len(),
{
    let p = reference(false, t);
    let w = reference(false, n);
    let x = pieces[0];
    lemma_references(t);
    lemma_references(n);
    assert(is_free_of(x, t));
    assert(forall|c: char| refs::is_name_part(c) == continues_name(c));
    assert(p.last() == '.');
    if quoted.len() == 0 {
        let none = Seq::<char>::empty();
        assert(x + none =~= x);
        assert forall|i: int| 0 <= i < x.len() implies !refs::stands_at(x + none, p, i, false) by {
            if text::occurs_at(x + none, p, i) {
                assert(x.subrange(i, i + p.len()) =~= p);
            }
        }
        lemma_names_kept(x, none, p, w, false);
    } else {
        let r = reference(
            quoted[0],
            if quoted[0] {
                n
            } else {
                t
            },
        );
        let tail = half_woven(pieces.skip(1), quoted.skip(1), n, t);
        let done = refs::replaced_names(tail, p, w, false);
        assert forall|i: int| 0 <= i < pieces.skip(1).len() implies is_free_of(
            #[trigger] pieces.skip(1)[i],
            t,
        ) by {
            assert(pieces.skip(1)[i] == pieces[i + 1]);
        }
        assert forall|i: int|
            0 <= i < quoted.skip(1).len() && !quoted.skip(1)[i] && (#[trigger] pieces.skip(
                1,
            )[i]).len() > 0 implies !continues_name(pieces.skip(1)[i].last()) by {
            assert(pieces.skip(1)[i] == pieces[i + 1]);
        }
        lemma_plain_pass(pieces.skip(1), quoted.skip(1), t, n);
        let s = x + (r + tail);
        assert(half_woven(pieces, quoted, n, t) =~= s);
        assert forall|i: int|
            0 <= i < x.len() + r.len() && refs::stands_at(s, p, i, false) implies !quoted[0] && i
            == x.len() by {
            lemma_ends(x, r, tail, p, i);
            if i + p.len() <= x.len() {
                assert(x.subrange(i, i + p.len()) == p);
                assert(s[i - 1] == x[i - 1]);
            }
        }
        if quoted[0] {
            assert((x + r) + tail =~= s);
            lemma_names_kept(x + r, tail, p, w, false);
            assert((x + r)[(x + r).len() - 1] == '.');
        } else {
            lemma_names_kept(x, r + tail, p, w, false);
            assert((r + tail).take(p.len() as int) =~= p);
            assert((r + tail).skip(p.len() as int) =~= tail);
            if x.len() > 0 {
                assert(!continues_name(pieces[0].last()));
            }
            assert(x + (w + done) =~= x + w + done);
        }
    }
}

/// Where a reference to the template stood, the same kind of reference to the whole name of the
/// new database stands, and all text between the references is kept: for names without a dot or a
/// backtick and pieces of text without a reference to the template, however many, with quoted and
/// unquoted references between them in any order.
pub proof fn law_references_are_redirected(
    pieces: Seq<Text>,
    quoted: Seq<bool>,
    template: Text,
    new_db: Text,
)
    requires
        are_pieces(pieces, quoted, template),
        is_simple(template),
        is_simple(new_db),
    ensures
        refs::redirected(woven(pieces, quoted, template), template, new_db) == woven(
            pieces,
            quoted,
            new_db,
        ),
{
    lemma_quoted_pass(pieces, quoted, template, new_db);
    lemma_plain_pass(pieces, quoted, template, new_db);
}

/// One quoted reference: the text before it and after it is kept, and it refers to the new
/// database instead.
pub proof fn law_quoted_reference_is_redirected(
    before: Text,
    after: Text,
    template: Text,
    new_db: Text,
)
    requires
        is_free_of(before, template),
        is_free_of(after, template),
        is_simple(template),
        is_simple(new_db),
    ensures
        refs::redirected(before + ("`"@ + template + "`."@) + after, template, new_db) == before + (
        "`"@ + new_db + "`."@) + after,
{
    let pieces = seq![before, after];
    let quoted = seq![true];
    reveal_with_fuel(woven, 2);
    assert(pieces.skip(1)[0] == after);
    law_references_are_redirected(pieces, quoted, template, new_db);
}

/// One unquoted reference: the text before it and after it is kept, and it refers to the new
/// database instead.
pub proof fn law_plain_reference_is_redirected(
    before: Text,
    after: Text,
    template: Text,
    new_db: Text,
)
    requires
        is_free_of(before, template),
        before.len() > 0 ==> !continues_name(before.last()),
        is_free_of(after, template),
        is_simple(template),
        is_simple(new_db),
    ensures
        refs::redirected(before + (template + "."@) + after, template, new_db) == before + (new_db
            + "."@) + after,
{
    let pieces = seq![before, after];
    let quoted = seq![false];
    reveal_with_fuel(woven, 2);
    assert(pieces.skip(1)[0] == after);
    law_references_are_redirected(pieces, quoted, template, new_db);
}

/// Replacing goes on after what was looked for: up to its first occurrence the text is kept, the
/// occurrence is replaced by the whole of what is put in, and the rest is treated on its own
/// account. A text without an occurrence is kept.
pub proof fn law_replacing_goes_on(before: Text, pattern: Text, rest: Text, with: Text)
    requires
        pattern.len() > 0,
        forall|i: int, j: int|
            0 <= i < before.len() && i <= j <= before.len() + pattern.len() + rest.len()
                ==> #[trigger] (before + (pattern + rest)).subrange(i, j) != pattern,
    ensures
        text::replaced(before + (pattern + rest), pattern, with) == before + (with
            + text::replaced(rest, pattern, with)),
        text::replaced(before, pattern, with) == before,
{
    let n = pattern.len() as int;
    let all = before + (pattern + rest);
    assert forall|i: int| 0 <= i < before.len() implies !text::occurs_at(all, pattern, i) by {
        if i + n <= all.len() {
            assert(all.subrange(i, i + n) != pattern);
        }
    }
    lemma_kept(before, pattern + rest, pattern, with);
    assert((pattern + rest).take(n) =~= pattern);
    assert((pattern + rest).skip(n) =~= rest);
    let none = Seq::<char>::empty();
    assert(before + none =~= before);
    assert forall|i: int| 0 <= i < before.len() implies !text::occurs_at(
        before + none,
        pattern,
        i,
    ) by {
        if text::occurs_at(before + none, pattern, i) {
            assert(all.subrange(i, i + n) =~= before.subrange(i, i + n));
        }
    }
    lemma_kept(before, none, pattern, with);
}

/// Replacing names goes on in the same way, but passes over what is only the tail of a longer
/// name.
pub proof fn law_replacing_names_goes_on(
    before: Text,
    pattern: Text,
    rest: Text,
    with: Text,
    inside: bool,
)
    requires
        pattern.len() > 0,
        forall|i: int, j: int|
            0 <= i < before.len() && i <= j <= before.len() + pattern.len() + rest.len()
                && #[trigger] (before + (pattern + rest)).subrange(i, j) == pattern ==> (if i
                == 0 {
                inside
            } else {
                continues_name(before[i - 1])
            }),
        if before.len() == 0 {
            !inside
        } else {
            !continues_name(before.last())
        },
    ensures
        refs::replaced_names(before + (pattern + rest), pattern, with, inside) == before + (with
            + refs::replaced_names(rest, pattern, with, continues_name(pattern.last()))),
{
    let n = pattern.len() as int;
    let all = before + (pattern + rest);
    assert(forall|c: char| refs::is_name_part(c) == continues_name(c));
    assert forall|i: int| 0 <= i < before.len() implies !refs::stands_at(
        all,
        pattern,
        i,
        inside,
    ) by {
        if i + n <= all.len() && all.subrange(i, i + n) == pattern {
            if i > 0 {
                assert(all[i - 1] == before[i - 1]);
            }
        }
    }
    lemma_names_kept(before, pattern + rest, pattern, with, inside);
    assert((pattern + rest).take(n) =~= pattern);
    assert((pattern + rest).skip(n) =~= rest);
}

/// Whatever the names, quoted references are redirected first and unquoted ones then, each to the
/// whole name of the new database.
pub proof fn law_redirecting_takes_two_passes(sql: Text, template: Text, new_db: Text)
    ensures
        refs::redirected(sql, template, new_db) == refs::replaced_names(
            text::replaced(sql, "`"@ + template + "`."@, "`"@ + new_db + "`."@),
            template + "."@,
            new_db + "."@,
            false,
        ),
{
}

} // verus!
