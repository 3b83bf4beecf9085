//! Migrations, the hash that stands for a set of them, and the database names made from
//! hashes.

use crate::digest;
use crate::text::{chars_of, Text};
use vstd::prelude::*;

verus! {

/// What a migration's file is for.
#[derive(Clone, Copy, Debug, PartialEq, Eq, Structural)]
pub enum MigrationType {
    /// A single file without a way back.
    Simple,
    /// The way forward of a reversible migration.
    ReversibleUp,
    /// The way back of a reversible migration.
    ReversibleDown,
}

impl MigrationType {
    /// The byte that stands for the type in a hash.
    pub open spec fn code(self) -> u8 {
        match self {
            MigrationType::Simple => 0,
            MigrationType::ReversibleUp => 1,
            MigrationType::ReversibleDown => 2,
        }
    }

    /// The byte that stands for the type in a hash.
    pub fn to_byte(self) -> (r: u8)
        ensures
            r == self.code(),
    {
        match self {
            MigrationType::Simple => 0,
            MigrationType::ReversibleUp => 1,
            MigrationType::ReversibleDown => 2,
        }
    }
}

/// One migration: what its hash depends on.
#[derive(Debug)]
pub struct Migration {
    pub version: i64,
    pub migration_type: MigrationType,
    /// A digest of the migration's SQL.
    pub checksum: Vec<u8>,
}

/// The model of a [`Migration`].
pub struct MigrationView {
    pub version: int,
    pub migration_type: MigrationType,
    pub checksum: Seq<u8>,
}

impl View for Migration {
    type V = MigrationView;

    open spec fn view(&self) -> MigrationView {
        MigrationView {
            version: self.version as int,
            migration_type: self.migration_type,
            checksum: self.checksum@,
        }
    }
}

/// The migrations of a schema, in the order in which they apply.
#[derive(Debug)]
pub struct Migrator {
    pub migrations: Vec<Migration>,
}

impl View for Migrator {
    type V = Seq<MigrationView>;

    open spec fn view(&self) -> Seq<MigrationView> {
        self.migrations@.map_values(|m: Migration| m@)
    }
}

/// The lowest `n` bytes of `u`, the lowest first.
pub open spec fn le_bytes(u: nat, n: nat) -> Seq<u8>
    decreases n,
{
    if n == 0 {
        Seq::empty()
    } else {
        seq![(u % 256) as u8] + le_bytes(u / 256, (n - 1) as nat)
    }
}

/// The unsigned number with the same 64 bits as `v`.
pub open spec fn bits_of(v: int) -> nat {
    if v < 0 {
        (v + 0x1_0000_0000_0000_0000) as nat
    } else {
        v as nat
    }
}

/// What one migration adds to the hashed bytes: its version in eight bytes, its type in one,
/// and its checksum.
pub open spec fn entry_bytes(m: MigrationView) -> Seq<u8> {
    le_bytes(bits_of(m.version), 8) + seq![m.migration_type.code()] + m.checksum
}

/// The bytes that the hash of `ms` is taken of: one entry after the other.
pub open spec fn hash_input(ms: Seq<MigrationView>) -> Seq<u8>
    decreases ms.len(),
{
    if ms.len() == 0 {
        Seq::empty()
    } else {
        hash_input(ms.drop_last()) + entry_bytes(ms.last())
    }
}

/// The first 16 bytes (128 bits) of the digest of `ms`.
pub open spec fn hash_bits(ms: Seq<MigrationView>) -> Seq<u8> {
    digest::sha256(hash_input(ms)).take(16)
}

/// The hash of `ms` as text.
pub open spec fn hash_text(ms: Seq<MigrationView>) -> Text {
    digest::base64_url_no_pad(hash_bits(ms))
}

fn push_le_bytes(out: &mut Vec<u8>, v: i64)
    ensures
        final(out)@ == old(out)@ + le_bytes(bits_of(v as int), 8),
{
    let u: u64 = if v < 0 {
        (v as i128 + 0x1_0000_0000_0000_0000) as u64
    } else {
        v as u64
    };
    let ghost whole = le_bytes(u as nat, 8);
    let mut rest: u64 = u;
    let mut n: usize = 8;
    while n > 0
        invariant
            n <= 8,
            out@ + le_bytes(rest as nat, n as nat) == old(out)@ + whole,
        decreases n,
    {
        let ghost before = out@;
        let b: u8 = (rest % 256) as u8;
        out.push(b);
        assert(out@ + le_bytes(rest as nat / 256, (n - 1) as nat) =~= before + le_bytes(
            rest as nat,
            n as nat,
        ));
        rest = rest / 256;
        n -= 1;
    }
    assert(out@ =~= out@ + le_bytes(rest as nat, 0));
}

fn push_bytes(out: &mut Vec<u8>, bytes: &Vec<u8>)
    ensures
        final(out)@ == old(out)@ + bytes@,
{
    let mut i: usize = 0;
    while i < bytes.len()
        invariant
            i <= bytes@.len(),
            out@ == old(out)@ + bytes@.take(i as int),
        decreases bytes@.len() - i,
    {
        out.push(bytes[i]);
        assert(bytes@.take(i + 1) =~= bytes@.take(i as int).push(bytes@[i as int]));
        i += 1;
    }
    assert(bytes@.take(i as int) =~= bytes@);
}

/// The bytes that the hash of a migrator is taken of.
pub fn migrations_hash_input(migrator: &Migrator) -> (r: Vec<u8>)
    ensures
        r@ == hash_input(migrator@),
{
    let mut out: Vec<u8> = Vec::new();
    let mut i: usize = 0;
    while i < migrator.migrations.len()
        invariant
            i <= migrator.migrations@.len(),
            out@ == hash_input(migrator@.take(i as int)),
        decreases migrator.migrations@.len() - i,
    {
        let m = &migrator.migrations[i];
        let ghost before = out@;
        // Include version, type, and checksum in the hash
        push_le_bytes(&mut out, m.version);
        out.push(m.migration_type.to_byte());
        push_bytes(&mut out, &m.checksum);
        proof {
            let upto = migrator@.take(i + 1);
            assert(upto.drop_last() =~= migrator@.take(i as int));
            assert(upto.last() == m@);
            assert(out@ =~= before + entry_bytes(m@));
        }
        i += 1;
    }
    assert(migrator@.take(i as int) =~= migrator@);
    out
}

/// Compute a combined hash of all migrations for template invalidation.
///
/// This hash is used to name template databases. When migrations change,
/// a new hash is generated, resulting in a new template being created: two migrators
/// share a hash only where the digests of their bytes share the first 128 bits.
pub fn migrations_hash(migrator: &Migrator) -> (r: String)
    ensures
        r@ == hash_text(migrator@),
        r@.len() == 22,
        forall|i: int| 0 <= i < r@.len() ==> digest::is_base64_url_char(#[trigger] r@[i]),
        r@ == digest::base64_url_no_pad(digest::sha256(hash_input(migrator@)).take(16)),
        forall|other: Seq<MigrationView>| #[trigger]
            hash_text(other) == r@ ==> hash_bits(other) == hash_bits(migrator@),
        forall|other: Seq<MigrationView>| #[trigger]
            hash_text(other) == r@ ==> digest::sha256(hash_input(other)).take(16)
                == digest::sha256(hash_input(migrator@)).take(16),
{
    let input = migrations_hash_input(migrator);
    let mut hash = digest::sha256_digest(input.as_slice());
    // Use first 16 bytes (128 bits) for a reasonably short but unique name
    hash.truncate(16);
    proof {
        digest::law_base64_keeps_to_its_alphabet(hash@);
        assert forall|other: Seq<MigrationView>| #[trigger]
            hash_text(other) == hash_text(migrator@) implies digest::sha256(
            hash_input(other),
        ).take(16) == digest::sha256(hash_input(migrator@)).take(16) by {
            law_hash_stands_for_the_whole(other, migrator@);
        }
    }
    digest::encode_base64_url_no_pad(hash.as_slice())
}

/// Whether a character of a migrations hash may cause trouble in a database name.
pub open spec fn is_unsafe_in_name(c: char) -> bool {
    c == '-' || c == '+' || c == '/'
}

/// How many characters of a migrations hash a template's name holds at most.
pub const MAX_HASH_CHARS: usize = 47;

/// The part of a migrations hash that a template's name holds: all of it, up to
/// [`MAX_HASH_CHARS`] characters.
pub open spec fn kept_hash(hash: Text) -> Text {
    if hash.len() > MAX_HASH_CHARS {
        hash.take(MAX_HASH_CHARS as int)
    } else {
        hash
    }
}

/// The name of the template database for a migrations hash: `_sqlx_template_` and the kept part
/// of the hash, with `_` for each character that may cause trouble.
pub open spec fn template_name(hash: Text) -> Text {
    "_sqlx_template_"@ + kept_hash(hash).map_values(
        |c: char| if is_unsafe_in_name(c) { '_' } else { c },
    )
}

/// Generate a template database name from a migrations hash.
///
/// Template names follow the pattern `_sqlx_template_<hash>` and are kept
/// under 63 characters to respect database identifier limits.
pub fn template_db_name(migrations_hash: &str) -> (r: String)
    ensures
        r@ == template_name(migrations_hash@),
        r@.len() < 63,
{
    // Replace any characters that might cause issues in database names
    let hash = chars_of(migrations_hash);
    let mut name = String::from_str("_sqlx_template_");
    let ghost safe = kept_hash(hash@).map_values(
        |c: char| if is_unsafe_in_name(c) { '_' } else { c },
    );
    let mut i: usize = 0;
    while i < hash.len() && i < MAX_HASH_CHARS
        invariant
            i <= safe.len(),
            safe == kept_hash(hash@).map_values(
                |c: char| if is_unsafe_in_name(c) { '_' } else { c },
            ),
            name@ == "_sqlx_template_"@ + safe.take(i as int),
        decreases hash@.len() - i,
    {
        let c = hash[i];
        if c == '-' || c == '+' || c == '/' {
            name.push('_');
        } else {
            name.push(c);
        }
        assert(safe.take(i + 1) =~= safe.take(i as int).push(safe[i as int]));
        i += 1;
    }
    assert(safe.take(i as int) =~= safe);
    proof {
        reveal_strlit("_sqlx_template_");
    }
    name
}

/// The name of a test's database, given the textual hash of the test's path: `_sqlx_test_`
/// and the hash, with `_` for `-`.
pub open spec fn test_name(hash: Text) -> Text {
    ("_sqlx_test_"@ + hash).map_values(|c: char| if c == '-' { '_' } else { c })
}

/// The textual hash of a test's path.
pub open spec fn path_hash(test_path: Text) -> Text {
    digest::base64_url(digest::sha512(vstd::utf8::encode_utf8(test_path)).take(39))
}

/// The name of a test's database, given the textual hash of the test's path.
pub fn test_db_name(path_hash: &str) -> (r: String)
    ensures
        r@ == test_name(path_hash@),
{
    let mut plain = String::from_str("_sqlx_test_");
    plain.append(path_hash);
    let chars = chars_of(plain.as_str());
    let mut name = String::new();
    let ghost safe = chars@.map_values(|c: char| if c == '-' { '_' } else { c });
    let mut i: usize = 0;
    while i < chars.len()
        invariant
            i <= chars@.len(),
            safe == chars@.map_values(|c: char| if c == '-' { '_' } else { c }),
            name@ == safe.take(i as int),
        decreases chars@.len() - i,
    {
        let c = chars[i];
        if c == '-' {
            name.push('_');
        } else {
            name.push(c);
        }
        assert(safe.take(i + 1) =~= safe.take(i as int).push(safe[i as int]));
        i += 1;
    }
    assert(safe.take(i as int) =~= safe);
    name
}

/// Whether `c` needs no quoting in a database name.
pub open spec fn is_name_char(c: char) -> bool {
    ||| 'A' <= c <= 'Z'
    ||| 'a' <= c <= 'z'
    ||| '0' <= c <= '9'
    ||| c == '_'
}

/// Generate a unique database name for the given test path.
pub fn db_name_of_path(test_path: &str) -> (r: String)
    ensures
        r@ == test_name(path_hash(test_path@)),
        r@ == ("_sqlx_test_"@ + digest::base64_url(
            digest::sha512(vstd::utf8::encode_utf8(test_path@)).take(39),
        )).map_values(|c: char| if c == '-' { '_' } else { c }),
        r@.len() == 63,
        forall|i: int| 0 <= i < r@.len() ==> is_name_char(#[trigger] r@[i]),
{
    let mut hash = digest::sha512_digest(test_path.as_bytes());
    hash.truncate(39);
    let encoded = digest::encode_base64_url(hash.as_slice());
    let name = test_db_name(encoded.as_str());
    proof {
        reveal_strlit("_sqlx_test_");
        digest::law_base64_keeps_to_its_alphabet(hash@);
        digest::law_base64_is_padded(hash@);
    }
    name
}

/// No test's database is ever a template: the names differ, whatever the hashes.
pub proof fn law_tests_and_templates_are_apart(path_hash: Text, hash: Text)
    ensures
        test_name(path_hash) != template_name(hash),
{
    reveal_strlit("_sqlx_test_");
    reveal_strlit("_sqlx_template_");
    assert(test_name(path_hash)[8] == 's');
    assert(template_name(hash)[8] == 'm');
}

/// A template's name fits: for every hash of migrations it is 37 characters long, starts
/// with `_sqlx_template_`, and needs no quoting.
pub proof fn law_template_name_fits(hash: Text)
    requires
        hash.len() == 22,
        forall|i: int| 0 <= i < hash.len() ==> digest::is_base64_url_char(#[trigger] hash[i]),
    ensures
        template_name(hash).len() == 37,
        template_name(hash).len() < 63,
        "_sqlx_template_"@.is_prefix_of(template_name(hash)),
        forall|i: int|
            0 <= i < template_name(hash).len() ==> is_name_char(#[trigger] template_name(hash)[i]),
{
    reveal_strlit("_sqlx_template_");
}

/// Whatever hash it is made of, a template's name is kept under 63 characters, starts with
/// `_sqlx_template_` and holds none of the troublesome characters.
pub proof fn law_template_name_is_safe(hash: Text)
    ensures
        template_name(hash).len() == 15 + kept_hash(hash).len(),
        template_name(hash).len() < 63,
        "_sqlx_template_"@.is_prefix_of(template_name(hash)),
        forall|i: int|
            0 <= i < template_name(hash).len() ==> !is_unsafe_in_name(
                #[trigger] template_name(hash)[i],
            ),
{
    reveal_strlit("_sqlx_template_");
}

proof fn lemma_le_bytes(a: nat, b: nat, n: nat)
    ensures
        le_bytes(a, n).len() == n,
        a < vstd::arithmetic::power::pow(256, n) && b < vstd::arithmetic::power::pow(256, n)
            && le_bytes(a, n) == le_bytes(b, n) ==> a == b,
    decreases n,
{
    vstd::arithmetic::power::lemma_pow0(256);
    if n > 0 {
        let m = (n - 1) as nat;
        lemma_le_bytes(a / 256, b / 256, m);
        lemma_le_bytes(b / 256, a / 256, m);
        if a < vstd::arithmetic::power::pow(256, n) && b < vstd::arithmetic::power::pow(256, n)
            && le_bytes(a, n) == le_bytes(b, n) {
            reveal(vstd::arithmetic::power::pow);
            assert(le_bytes(a, n)[0] == le_bytes(b, n)[0]);
            assert(a % 256 == b % 256);
            assert(le_bytes(a, n).skip(1) =~= le_bytes(a / 256, m));
            assert(le_bytes(b, n).skip(1) =~= le_bytes(b / 256, m));
        }
    }
}

proof fn lemma_version_bytes(v: int, w: int)
    requires
        i64::MIN <= v <= i64::MAX,
        i64::MIN <= w <= i64::MAX,
    ensures
        le_bytes(bits_of(v), 8).len() == 8,
        le_bytes(bits_of(v), 8) == le_bytes(bits_of(w), 8) ==> v == w,
{
    assert(vstd::arithmetic::power::pow(256, 8) == 0x1_0000_0000_0000_0000) by {
        reveal_with_fuel(vstd::arithmetic::power::pow, 9);
    }
    lemma_le_bytes(bits_of(v), bits_of(w), 8);
}

proof fn lemma_hash_input_len(ms: Seq<MigrationView>, k: nat)
    requires
        forall|i: int|
            0 <= i < ms.len() ==> i64::MIN <= (#[trigger] ms[i]).version <= i64::MAX
                && ms[i].checksum.len() == k,
    ensures
        hash_input(ms).len() == ms.len() * (9 + k),
    decreases ms.len(),
{
    if ms.len() > 0 {
        lemma_hash_input_len(ms.drop_last(), k);
        lemma_version_bytes(ms.last().version, 0);
        assert(ms.last() == ms[ms.len() - 1]);
        assert(ms.len() * (9 + k) == (ms.len() - 1) * (9 + k) + (9 + k)) by (nonlinear_arith);
    }
}

/// Nothing about a migration escapes the hashed bytes: where checksums have one fixed length,
/// two lists of migrations give the same bytes only if they agree in the version, the type
/// and the checksum of every migration, and in their order.
pub proof fn law_hash_input_is_injective(a: Seq<MigrationView>, b: Seq<MigrationView>, k: nat)
    requires
        forall|i: int|
            0 <= i < a.len() ==> i64::MIN <= (#[trigger] a[i]).version <= i64::MAX
                && a[i].checksum.len() == k,
        forall|i: int|
            0 <= i < b.len() ==> i64::MIN <= (#[trigger] b[i]).version <= i64::MAX
                && b[i].checksum.len() == k,
        hash_input(a) == hash_input(b),
    ensures
        a == b,
    decreases a.len(),
{
    lemma_hash_input_len(a, k);
    lemma_hash_input_len(b, k);
    assert(a.len() == b.len()) by (nonlinear_arith)
        requires
            a.len() * (9 + k) == b.len() * (9 + k),
    ;
    if a.len() > 0 {
        let x = a.last();
        let y = b.last();
        assert(x == a[a.len() - 1] && y == b[b.len() - 1]);
        lemma_version_bytes(x.version, y.version);
        lemma_version_bytes(y.version, x.version);
        lemma_hash_input_len(a.drop_last(), k);
        lemma_hash_input_len(b.drop_last(), k);
        let cut = hash_input(a.drop_last()).len() as int;
        assert(hash_input(a).skip(cut) =~= entry_bytes(x));
        assert(hash_input(b).skip(cut) =~= entry_bytes(y));
        assert(hash_input(a).take(cut) =~= hash_input(a.drop_last()));
        assert(hash_input(b).take(cut) =~= hash_input(b.drop_last()));
        assert(entry_bytes(x).take(8) =~= le_bytes(bits_of(x.version), 8));
        assert(entry_bytes(y).take(8) =~= le_bytes(bits_of(y.version), 8));
        assert(entry_bytes(x)[8] == x.migration_type.code());
        assert(entry_bytes(y)[8] == y.migration_type.code());
        assert(entry_bytes(x).skip(9) =~= x.checksum);
        assert(entry_bytes(y).skip(9) =~= y.checksum);
        assert(x == y);
        law_hash_input_is_injective(a.drop_last(), b.drop_last(), k);
        assert(a =~= a.drop_last().push(x));
        assert(b =~= b.drop_last().push(y));
    }
    assert(a =~= b);
}

// ---------------------------------------------------------------------------
// What a hash and a name are made of

/// A hash stands for all of the hashed bytes: two lists of migrations share a hash exactly where
/// the SHA-256 digests of all their bytes share the first 128 bits.
pub proof fn law_hash_stands_for_the_whole(a: Seq<MigrationView>, b: Seq<MigrationView>)
    ensures
        hash_text(a) == hash_text(b) <==> digest::sha256(hash_input(a)).take(16)
            == digest::sha256(hash_input(b)).take(16),
{
    if hash_text(a) == hash_text(b) {
        digest::law_base64_is_injective(
            digest::sha256(hash_input(a)).take(16),
            digest::sha256(hash_input(b)).take(16),
        );
    }
}

/// Changed migrations get a new hash unless SHA-256 fails: where checksums have one fixed length,
/// two different lists of migrations share a hash only if their bytes differ and have digests
/// that share the first 128 bits.
pub proof fn law_changed_migrations_change_the_hash(
    a: Seq<MigrationView>,
    b: Seq<MigrationView>,
    k: nat,
)
    requires
        a != b,
        forall|i: int|
            0 <= i < a.len() ==> i64::MIN <= (#[trigger] a[i]).version <= i64::MAX
                && a[i].checksum.len() == k,
        forall|i: int|
            0 <= i < b.len() ==> i64::MIN <= (#[trigger] b[i]).version <= i64::MAX
                && b[i].checksum.len() == k,
        hash_text(a) == hash_text(b),
    ensures
        hash_input(a) != hash_input(b),
        digest::sha256(hash_input(a)).take(16) == digest::sha256(hash_input(b)).take(16),
{
    law_hash_stands_for_the_whole(a, b);
    if hash_input(a) == hash_input(b) {
        law_hash_input_is_injective(a, b, k);
    }
}

/// Migrations go into the hashed bytes one after the other, each on its own account.
pub proof fn law_hash_input_is_in_order(a: Seq<MigrationView>, b: Seq<MigrationView>)
    ensures
        hash_input(a + b) == hash_input(a) + hash_input(b),
    decreases b.len(),
{
    if b.len() == 0 {
        assert(a + b =~= a);
        assert(hash_input(a) + hash_input(b) =~= hash_input(a));
    } else {
        law_hash_input_is_in_order(a, b.drop_last());
        assert((a + b).drop_last() =~= a + b.drop_last());
        assert((a + b).last() == b.last());
        assert(hash_input(a) + (hash_input(b.drop_last()) + entry_bytes(b.last()))
            =~= hash_input(a) + hash_input(b.drop_last()) + entry_bytes(b.last()));
    }
}

/// What one migration adds to the hashed bytes: eight bytes that hold its version, the lowest
/// first and in two's complement; one byte for its type; and its whole checksum.
pub proof fn law_hash_input_of_a_migration(m: MigrationView)
    requires
        i64::MIN <= m.version <= i64::MAX,
    ensures
        ({
            let bytes = hash_input(seq![m]);
            let value = bytes[0] + 0x100 * bytes[1] + 0x1_0000 * bytes[2] + 0x100_0000 * bytes[3]
                + 0x1_0000_0000 * bytes[4] + 0x100_0000_0000 * bytes[5] + 0x1_0000_0000_0000
                * bytes[6] + 0x100_0000_0000_0000 * bytes[7];
            &&& bytes.len() == 9 + m.checksum.len()
            &&& m.version >= 0 ==> value == m.version
            &&& m.version < 0 ==> value == m.version + 0x1_0000_0000_0000_0000
            &&& m.migration_type is Simple ==> bytes[8] == 0
            &&& m.migration_type is ReversibleUp ==> bytes[8] == 1
            &&& m.migration_type is ReversibleDown ==> bytes[8] == 2
            &&& bytes.skip(9) == m.checksum
        }),
{
    let u = bits_of(m.version);
    let bytes = hash_input(seq![m]);
    reveal_with_fuel(hash_input, 2);
    assert(seq![m].drop_last() =~= Seq::<MigrationView>::empty());
    assert(seq![m].last() == m);
    assert(bytes =~= entry_bytes(m));
    lemma_version_bytes(m.version, 0);
    reveal_with_fuel(le_bytes, 9);
    let v = le_bytes(u, 8);
    assert(v[0] == (u % 256) as u8);
    assert(v[1] == (u / 256 % 256) as u8);
    assert(v[2] == (u / 256 / 256 % 256) as u8);
    assert(v[3] == (u / 256 / 256 / 256 % 256) as u8);
    assert(v[4] == (u / 256 / 256 / 256 / 256 % 256) as u8);
    assert(v[5] == (u / 256 / 256 / 256 / 256 / 256 % 256) as u8);
    assert(v[6] == (u / 256 / 256 / 256 / 256 / 256 / 256 % 256) as u8);
    assert(v[7] == (u / 256 / 256 / 256 / 256 / 256 / 256 / 256 % 256) as u8);
    assert(bytes.skip(9) =~= m.checksum);
}

/// How a template's name is spelled: `_sqlx_template_`, then the first 47 characters of the hash,
/// or all where it has fewer, each as it is but for `-`, `+` and `/`, which become `_`.
pub proof fn law_template_name_is_spelled_out(hash: Text)
    ensures
        template_name(hash).take(15) == "_sqlx_template_"@,
        hash.len() <= 47 ==> template_name(hash).len() == 15 + hash.len(),
        hash.len() > 47 ==> template_name(hash).len() == 62,
        forall|i: int|
            0 <= i < hash.len() && i < 47 ==> template_name(hash)[15 + i] == (if (#[trigger] hash[i])
                == '-' || hash[i] == '+' || hash[i] == '/' {
                '_'
            } else {
                hash[i]
            }),
{
    reveal_strlit("_sqlx_template_");
    assert(template_name(hash).take(15) =~= "_sqlx_template_"@);
}

/// Different hashes name different templates: of hashes of up to 47 characters two share a name
/// only if they differ in nothing but which of `-`, `+`, `/` and `_` they hold.
pub proof fn law_different_hashes_name_different_templates(a: Text, b: Text)
    requires
        a.len() <= 47,
        b.len() <= 47,
        template_name(a) == template_name(b),
    ensures
        a.len() == b.len(),
        forall|i: int|
            0 <= i < a.len() ==> (#[trigger] a[i]) == b[i] || ((a[i] == '-' || a[i] == '+' || a[i]
                == '/' || a[i] == '_') && (b[i] == '-' || b[i] == '+' || b[i] == '/' || b[i]
                == '_')),
{
    law_template_name_is_spelled_out(a);
    law_template_name_is_spelled_out(b);
    assert forall|i: int| 0 <= i < a.len() implies (#[trigger] a[i]) == b[i] || ((a[i] == '-'
        || a[i] == '+' || a[i] == '/' || a[i] == '_') && (b[i] == '-' || b[i] == '+' || b[i] == '/'
        || b[i] == '_')) by {
        assert(template_name(a)[15 + i] == template_name(b)[15 + i]);
        assert(b[i] == b[i]);
    }
}

/// How the name of a test's database is spelled: `_sqlx_test_`, then the base64 of the first 39
/// bytes of the SHA-512 digest of the whole of the test's path in UTF-8, each character as it is
/// but for `-`, which becomes `_`.
pub proof fn law_test_name_is_spelled_out(test_path: Text)
    ensures
        ({
            let name = test_name(path_hash(test_path));
            let encoded = digest::base64_url(
                digest::sha512(vstd::utf8::encode_utf8(test_path)).take(39),
            );
            &&& name.len() == 11 + encoded.len()
            &&& name.take(11) == "_sqlx_test_"@
            &&& forall|i: int|
                0 <= i < encoded.len() ==> name[11 + i] == (if (#[trigger] encoded[i]) == '-' {
                    '_'
                } else {
                    encoded[i]
                })
        }),
{
    reveal_strlit("_sqlx_test_");
    assert(test_name(path_hash(test_path)).take(11) =~= "_sqlx_test_"@);
}

/// Each test path has a database of its own, unless SHA-512 fails: two paths share a name only
/// if the base64 of the first 39 bytes of the digests of all their bytes differs in nothing but
/// which of `-` and `_` it holds.
pub proof fn law_test_paths_share_no_database(a: Text, b: Text)
    requires
        test_name(path_hash(a)) == test_name(path_hash(b)),
    ensures
        ({
            let x = digest::base64_url(digest::sha512(vstd::utf8::encode_utf8(a)).take(39));
            let y = digest::base64_url(digest::sha512(vstd::utf8::encode_utf8(b)).take(39));
            &&& x.len() == y.len()
            &&& forall|i: int|
                0 <= i < x.len() ==> (#[trigger] x[i]) == y[i] || ((x[i] == '-' || x[i] == '_') && (
                y[i] == '-' || y[i] == '_'))
        }),
{
    law_test_name_is_spelled_out(a);
    law_test_name_is_spelled_out(b);
    let x = digest::base64_url(digest::sha512(vstd::utf8::encode_utf8(a)).take(39));
    let y = digest::base64_url(digest::sha512(vstd::utf8::encode_utf8(b)).take(39));
    let name = test_name(path_hash(a));
    assert forall|i: int| 0 <= i < x.len() implies (#[trigger] x[i]) == y[i] || ((x[i] == '-'
        || x[i] == '_') && (y[i] == '-' || y[i] == '_')) by {
        assert(name[11 + i] == (if x[i] == '-' { '_' } else { x[i] }));
        assert(name[11 + i] == (if y[i] == '-' { '_' } else { y[i] }));
    }
}

/// Migrations are seen whole: each with its version, its type and its checksum, in order.
pub proof fn law_migrations_are_seen_whole(migrator: Migrator)
    ensures
        migrator@.len() == migrator.migrations@.len(),
        forall|i: int|
            0 <= i < migrator@.len() ==> {
                &&& (#[trigger] migrator@[i]).version == migrator.migrations@[i].version
                &&& migrator@[i].migration_type == migrator.migrations@[i].migration_type
                &&& migrator@[i].checksum == migrator.migrations@[i].checksum@
            },
{
}

/// How a test's database is named after any hash: `_sqlx_test_`, then the whole hash, each
/// character as it is but for `-`, which becomes `_`.
pub proof fn law_test_name_of_a_hash(hash: Text)
    ensures
        test_name(hash).len() == 11 + hash.len(),
        test_name(hash).take(11) == "_sqlx_test_"@,
        forall|i: int|
            0 <= i < hash.len() ==> test_name(hash)[11 + i] == (if (#[trigger] hash[i]) == '-' {
                '_'
            } else {
                hash[i]
            }),
{
    reveal_strlit("_sqlx_test_");
    assert(test_name(hash).take(11) =~= "_sqlx_test_"@);
}

} // verus!
