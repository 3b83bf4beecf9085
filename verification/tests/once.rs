//! Setting a value once, and the options of pools.

use sqlx_testing::once::{insertion, once_lock_try_insert_polyfill};
use sqlx_testing::testing::{
    master_pool_options, pool_conflict, test_pool_options, ConnectOptions, PoolConflict,
    TestArgs, TestFixture, TestTermination,
};
use std::sync::OnceLock;

#[test]
fn first_value_is_set_and_later_ones_come_back() {
    let lock: OnceLock<String> = OnceLock::new();
    assert_eq!(
        once_lock_try_insert_polyfill(&lock, "first".to_string()),
        Ok(&"first".to_string())
    );
    assert_eq!(
        once_lock_try_insert_polyfill(&lock, "second".to_string()),
        Err((&"first".to_string(), "second".to_string()))
    );
    assert_eq!(lock.get(), Some(&"first".to_string()));
}

#[test]
fn empty_slot_means_that_the_value_was_set() {
    assert_eq!(insertion(&1, None), Ok(&1));
    assert_eq!(insertion(&1, Some(2)), Err((&1, 2)));
}

fn options(host: &str, database: Option<&str>) -> ConnectOptions {
    ConnectOptions { host: host.to_string(), database: database.map(|d| d.to_string()) }
}

#[test]
fn url_must_not_change() {
    let a = options("h", Some("d"));
    assert_eq!(pool_conflict(&a, &options("h", Some("d"))), None);
    assert_eq!(pool_conflict(&a, &options("i", Some("d"))), Some(PoolConflict::Host));
    assert_eq!(pool_conflict(&a, &options("i", Some("e"))), Some(PoolConflict::Host));
    assert_eq!(pool_conflict(&a, &options("h", Some("e"))), Some(PoolConflict::Database));
    assert_eq!(pool_conflict(&a, &options("h", None)), Some(PoolConflict::Database));
    assert_eq!(pool_conflict(&options("h", None), &options("h", None)), None);
}

#[test]
fn options_of_another_database() {
    assert_eq!(options("h", Some("d")).database("e"), options("h", Some("e")));
    assert_eq!(options("h", None).database("e"), options("h", Some("e")));
}

#[test]
fn pools_are_bounded() {
    assert_eq!(master_pool_options().max_connections, 20);
    assert!(master_pool_options().close_released);
    assert!(!master_pool_options().counts_against_master);
    assert_eq!(test_pool_options().max_connections, 5);
    assert_eq!(test_pool_options().idle_timeout_secs, Some(1));
    assert!(test_pool_options().counts_against_master);
}

#[test]
fn results_tell_whether_a_test_succeeded() {
    assert!(().is_success());
    assert!(Ok::<i32, ()>(1).is_success());
    assert!(!Err::<(), i32>(1).is_success());
}

#[test]
fn arguments_are_set_one_by_one() {
    let mut args = TestArgs::new("a::b");
    assert_eq!(args.test_path, "a::b");
    assert!(args.migrator.is_none());
    assert!(args.fixtures.is_empty());
    assert!(args.suits_bare_function());
    args.fixtures(&[TestFixture { path: "p", contents: "c" }]);
    assert_eq!(args.fixtures.len(), 1);
    assert_eq!(args.fixtures[0].contents, "c");
    assert!(!args.suits_bare_function());
    assert!(args.migrator.is_none());
}
