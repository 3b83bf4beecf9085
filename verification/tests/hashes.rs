//! Hashes and the names made of them.

use sha2::{Digest, Sha384};
use sqlx_testing::migrate::{
    db_name_of_path, migrations_hash, migrations_hash_input, template_db_name, test_db_name,
    Migration, MigrationType, Migrator,
};
use sqlx_testing::mysql::MySql;
use sqlx_testing::testing::{TestArgs, TestSupport};

fn create_test_migrator(migrations: Vec<Migration>) -> Migrator {
    Migrator { migrations }
}

fn create_test_migration(version: i64, sql: &'static str) -> Migration {
    Migration {
        version,
        migration_type: MigrationType::Simple,
        checksum: Sha384::digest(sql.as_bytes()).to_vec(),
    }
}

#[test]
fn migrations_hash_is_deterministic() {
    let migrations = vec![
        create_test_migration(1, "CREATE TABLE users (id INT)"),
        create_test_migration(2, "CREATE TABLE posts (id INT)"),
        create_test_migration(3, "ALTER TABLE users ADD name VARCHAR(255)"),
    ];
    let migrator = create_test_migrator(migrations);

    // Hash should be consistent across calls
    let hash1 = migrations_hash(&migrator);
    let hash2 = migrations_hash(&migrator);

    assert_eq!(hash1, hash2, "migrations_hash should be deterministic");

    // Hash should be non-empty and reasonable length
    assert!(!hash1.is_empty(), "hash should not be empty");
    assert!(
        hash1.len() < 30,
        "hash should be reasonably short for use in database names"
    );
}

#[test]
fn migrations_hash_changes_with_different_migrations() {
    let migrations1 = vec![create_test_migration(1, "CREATE TABLE users (id INT)")];
    let migrations2 = vec![create_test_migration(1, "CREATE TABLE posts (id INT)")];

    let hash1 = migrations_hash(&create_test_migrator(migrations1));
    let hash2 = migrations_hash(&create_test_migrator(migrations2));

    assert_ne!(hash1, hash2, "different migrations should produce different hashes");
}

#[test]
fn migrations_hash_changes_with_version() {
    let migrations1 = vec![create_test_migration(1, "CREATE TABLE users (id INT)")];
    let migrations2 = vec![create_test_migration(2, "CREATE TABLE users (id INT)")];

    let hash1 = migrations_hash(&create_test_migrator(migrations1));
    let hash2 = migrations_hash(&create_test_migrator(migrations2));

    assert_ne!(hash1, hash2, "different versions should produce different hashes");
}

#[test]
fn template_db_name_has_correct_format() {
    let name = template_db_name("abc123xyz");

    assert!(
        name.starts_with("_sqlx_template_"),
        "template name should have correct prefix"
    );
    assert!(
        name.contains("abc123xyz"),
        "template name should contain hash"
    );
    assert!(
        name.len() < 63,
        "template name should fit in MySQL identifier limit"
    );
}

#[test]
fn template_db_name_escapes_special_characters() {
    // Test with special characters that need escaping
    let name_with_special = template_db_name("a-b+c/d");

    assert!(
        !name_with_special.contains('-'),
        "should not contain hyphen"
    );
    assert!(!name_with_special.contains('+'), "should not contain plus");
    assert!(!name_with_special.contains('/'), "should not contain slash");
    assert!(
        name_with_special.starts_with("_sqlx_template_"),
        "should still have correct prefix"
    );
}

#[test]
fn template_db_name_handles_empty_hash() {
    let name = template_db_name("");

    assert!(
        name.starts_with("_sqlx_template_"),
        "should have prefix even with empty hash"
    );
    assert_eq!(name, "_sqlx_template_");
}

#[test]
fn hash_input_holds_version_type_and_checksum() {
    let migrator = create_test_migrator(vec![
        Migration {
            version: 0x0102_0304_0506_0708,
            migration_type: MigrationType::ReversibleDown,
            checksum: vec![0xaa, 0xbb],
        },
        Migration {
            version: -2,
            migration_type: MigrationType::ReversibleUp,
            checksum: vec![],
        },
    ]);
    assert_eq!(
        migrations_hash_input(&migrator),
        vec![
            8, 7, 6, 5, 4, 3, 2, 1, 2, 0xaa, 0xbb, 0xfe, 0xff, 0xff, 0xff, 0xff, 0xff, 0xff, 0xff,
            1,
        ]
    );
    assert_eq!(MigrationType::Simple.to_byte(), 0);
}

#[test]
fn migrations_hash_of_nothing() {
    // The first 16 bytes of the SHA-256 digest of nothing: e3b0c44298fc1c149afbf4c8996fb924.
    let hash = migrations_hash(&create_test_migrator(vec![]));
    assert_eq!(hash, "47DEQpj8HBSa-_TImW-5JA");
    assert_eq!(template_db_name(&hash), "_sqlx_template_47DEQpj8HBSa__TImW_5JA");
}

#[test]
fn migrations_hash_depends_on_the_type() {
    let of = |migration_type: MigrationType| {
        migrations_hash(&create_test_migrator(vec![Migration {
            version: 1,
            migration_type,
            checksum: vec![1, 2, 3],
        }]))
    };
    assert_ne!(of(MigrationType::Simple), of(MigrationType::ReversibleUp));
    assert_ne!(of(MigrationType::ReversibleUp), of(MigrationType::ReversibleDown));
}

#[test]
fn template_names_of_hashes_fit_and_are_safe() {
    for version in 0..200 {
        let migrator = create_test_migrator(vec![create_test_migration(version, "SELECT 1")]);
        let name = template_db_name(&migrations_hash(&migrator));
        assert_eq!(name.len(), 37);
        assert!(name.chars().all(|c| c.is_ascii_alphanumeric() || c == '_'));
    }
}

#[test]
fn template_names_of_long_hashes_are_cut() {
    for len in [46, 47, 48, 64, 1000] {
        let hash = "a".repeat(len);
        let name = template_db_name(&hash);
        assert!(name.starts_with("_sqlx_template_"));
        assert!(name.len() < 63);
        assert_eq!(name, format!("_sqlx_template_{}", "a".repeat(len.min(47))));
    }
    let hash = format!("{}-b", "a".repeat(46));
    assert_eq!(template_db_name(&hash), format!("_sqlx_template_{}_", "a".repeat(46)));
}

#[test]
fn test_names_replace_hyphens() {
    assert_eq!(test_db_name("a-b_c-"), "_sqlx_test_a_b_c_");
    assert_eq!(test_db_name(""), "_sqlx_test_");
}

#[test]
fn db_names_have_the_full_length() {
    for path in ["", "my_crate::tests::it_works", "\u{fc}ber::\u{1f600}"] {
        let name = db_name_of_path(path);
        assert_eq!(name.len(), 63);
        assert!(name.starts_with("_sqlx_test_"));
        assert!(name.chars().all(|c| c.is_ascii_alphanumeric() || c == '_'));
        assert_eq!(name, MySql::db_name(&TestArgs::new(path)));
    }
}

#[test]
fn db_name_of_the_empty_path() {
    // The SHA-512 digest of nothing starts with
    // cf83e1357eefb8bdf1542850d66d8007d620e4050b5715dc83f4a921d36ce9ce47d0d13c5d85f2.
    assert_eq!(
        db_name_of_path(""),
        "_sqlx_test_z4PhNX7vuL3xVChQ1m2AB9Yg5AULVxXcg_SpIdNs6c5H0NE8XYXy"
    );
}

#[test]
fn db_names_of_different_paths_differ() {
    assert_ne!(db_name_of_path("a::b"), db_name_of_path("a::c"));
    assert_eq!(db_name_of_path("a::b"), db_name_of_path("a::b"));
}
