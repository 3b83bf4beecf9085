//! SQL text: references to databases, clauses and whole statements.

use sqlx_testing::refs::replace_database_refs;
use sqlx_testing::sql::{
    add_foreign_key_sql, create_clone_sql, create_empty_sql, create_table_sql,
    create_template_sql, drop_listed_sql, drop_old_sql, drop_partial_sql, drop_template_sql,
    drop_test_sql, fill_table_sql, forget_listed_sql, format_column_list, format_fk_action,
    format_fk_update_action, max_of_column_sql, qualified_name, routine_kind_of,
    set_auto_increment_sql, show_create_sql, ForeignKey,
};
use sqlx_testing::text::{
    chars_of, push_decimal, push_signed, replace_all, same_text, split_fields, trim, white_space,
};

#[test]
fn replace_database_refs_with_backticks() {
    let sql = "CREATE VIEW `template_db`.`my_view` AS SELECT * FROM `template_db`.`users`";
    let result = replace_database_refs(sql, "template_db", "new_db");

    assert!(result.contains("`new_db`.`my_view`"));
    assert!(result.contains("`new_db`.`users`"));
    assert!(!result.contains("template_db"));
}

#[test]
fn replace_database_refs_without_backticks() {
    let sql = "CREATE VIEW template_db.my_view AS SELECT * FROM template_db.users";
    let result = replace_database_refs(sql, "template_db", "new_db");

    assert!(result.contains("new_db.my_view"));
    assert!(result.contains("new_db.users"));
    assert!(!result.contains("template_db"));
}

#[test]
fn replace_database_refs_mixed_quotes() {
    let sql = "CREATE VIEW `template_db`.my_view AS SELECT * FROM template_db.`users`";
    let result = replace_database_refs(sql, "template_db", "new_db");

    assert!(result.contains("`new_db`.my_view"));
    assert!(result.contains("new_db.`users`"));
    assert!(!result.contains("template_db"));
}

#[test]
fn replace_database_refs_preserves_column_names() {
    // Ensure we don't accidentally replace column names that happen to match
    let sql = "CREATE VIEW `db`.`v` AS SELECT template_db_id FROM `db`.`t`";
    let result = replace_database_refs(sql, "db", "new_db");

    // Should still have the column name unchanged (no dot after it)
    assert!(result.contains("template_db_id"));
    assert!(result.contains("`new_db`.`v`"));
    assert!(result.contains("`new_db`.`t`"));
}

#[test]
fn replace_database_refs_handles_definer() {
    // DEFINER clauses include user@host, not database references
    let sql = "CREATE DEFINER=`root`@`localhost` VIEW `template`.`v` AS SELECT 1";
    let result = replace_database_refs(sql, "template", "new_db");

    // DEFINER should be unchanged (no template. pattern)
    assert!(result.contains("DEFINER=`root`@`localhost`"));
    assert!(result.contains("`new_db`.`v`"));
}

#[test]
fn replace_database_refs_gives_the_whole_statement() {
    assert_eq!(
        replace_database_refs("SELECT `t`.a, t.b, x.`t` FROM `t`.`v`", "t", "n"),
        "SELECT `n`.a, n.b, x.`t` FROM `n`.`v`"
    );
    assert_eq!(replace_database_refs("", "t", "n"), "");
    assert_eq!(replace_database_refs("SELECT 1", "t", "n"), "SELECT 1");
}

#[test]
fn replace_database_refs_keeps_longer_names() {
    // A name that only ends like the template's is no reference to it.
    assert_eq!(replace_database_refs("not.x", "t", "n"), "not.x");
    assert_eq!(
        replace_database_refs(
            "CREATE VIEW `db`.`v` AS SELECT my_db.id FROM `db`.`my_db`",
            "db",
            "new_db"
        ),
        "CREATE VIEW `new_db`.`v` AS SELECT my_db.id FROM `new_db`.`my_db`"
    );
    for before in ["a", "Z", "0", "_", "$", "\u{e9}", "\u{1f600}"] {
        let sql = format!("SELECT {before}db.x");
        assert_eq!(replace_database_refs(&sql, "db", "new_db"), sql);
    }
    for before in ["", " ", "(", ",", "="] {
        assert_eq!(
            replace_database_refs(&format!("{before}db.x"), "db", "new_db"),
            format!("{before}new_db.x")
        );
    }
}

#[test]
fn replace_database_refs_leaves_no_reference() {
    let result = replace_database_refs("SELECT db.a, `db`.b, xdb.c FROM db.t", "db", "new_db");
    assert_eq!(result, "SELECT new_db.a, `new_db`.b, xdb.c FROM new_db.t");
    assert_eq!(replace_database_refs(&result, "db", "new_db"), result);
}

#[test]
fn format_column_list_single_column() {
    assert_eq!(format_column_list("id"), "`id`");
}

#[test]
fn format_column_list_multiple_columns() {
    assert_eq!(format_column_list("id,name,value"), "`id`, `name`, `value`");
}

#[test]
fn format_column_list_trims_whitespace() {
    assert_eq!(
        format_column_list("id , name , value"),
        "`id`, `name`, `value`"
    );
}

#[test]
fn format_column_list_keeps_empty_columns() {
    assert_eq!(format_column_list(""), "``");
    assert_eq!(format_column_list("a,,b,"), "`a`, ``, `b`, ``");
    assert_eq!(format_column_list("\u{a0}a b\t, \u{3000}c\n"), "`a b`, `c`");
}

#[test]
fn format_fk_action_cascade() {
    assert_eq!(format_fk_action("CASCADE"), "ON DELETE CASCADE");
}

#[test]
fn format_fk_action_restrict() {
    assert_eq!(format_fk_action("RESTRICT"), "ON DELETE RESTRICT");
}

#[test]
fn format_fk_action_set_null() {
    assert_eq!(format_fk_action("SET NULL"), "ON DELETE SET NULL");
}

#[test]
fn format_fk_action_no_action_is_empty() {
    // NO ACTION is the default, so we don't need to specify it
    assert_eq!(format_fk_action("NO ACTION"), "");
}

#[test]
fn format_fk_update_action_cascade() {
    assert_eq!(format_fk_update_action("CASCADE"), "ON UPDATE CASCADE");
}

#[test]
fn format_fk_update_action_set_null() {
    assert_eq!(format_fk_update_action("SET NULL"), "ON UPDATE SET NULL");
}

#[test]
fn format_fk_update_action_no_action_is_empty() {
    assert_eq!(format_fk_update_action("NO ACTION"), "");
}

#[test]
fn format_fk_actions_of_other_rules() {
    assert_eq!(format_fk_action("SET DEFAULT"), "ON DELETE SET DEFAULT");
    assert_eq!(format_fk_update_action("RESTRICT"), "ON UPDATE RESTRICT");
    assert_eq!(format_fk_update_action("SET DEFAULT"), "ON UPDATE SET DEFAULT");
    assert_eq!(format_fk_action("cascade"), "");
    assert_eq!(format_fk_update_action(""), "");
}

#[test]
fn statements_about_databases() {
    assert_eq!(create_clone_sql("n"), "CREATE DATABASE `n`");
    assert_eq!(create_template_sql("t"), "CREATE DATABASE IF NOT EXISTS `t`");
    assert_eq!(drop_template_sql("t"), "DROP DATABASE IF EXISTS `t`");
    assert_eq!(create_empty_sql("n"), "create database `n`");
    assert_eq!(drop_partial_sql("n"), "drop database if exists `n`");
    assert_eq!(drop_test_sql("n"), "drop database if exists n;");
    assert_eq!(drop_listed_sql("n"), "drop database if exists n");
    assert_eq!(drop_old_sql(0), "drop database if exists _sqlx_test_database_0");
    assert_eq!(
        drop_old_sql(u64::MAX),
        "drop database if exists _sqlx_test_database_18446744073709551615"
    );
    assert_eq!(
        forget_listed_sql(1),
        "delete from _sqlx_test_databases where db_name in (?)"
    );
    assert_eq!(
        forget_listed_sql(3),
        "delete from _sqlx_test_databases where db_name in (?,?,?)"
    );
}

#[test]
fn statements_about_tables() {
    assert_eq!(qualified_name("d", "x"), "`d`.`x`");
    assert_eq!(create_table_sql("n", "t", "x"), "CREATE TABLE `n`.`x` LIKE `t`.`x`");
    assert_eq!(fill_table_sql("n", "t", "x"), "INSERT INTO `n`.`x` SELECT * FROM `t`.`x`");
    assert_eq!(max_of_column_sql("n", "x", "id"), "SELECT MAX(`id`) FROM `n`.`x`");
    assert_eq!(
        set_auto_increment_sql("n", "x", 42),
        "ALTER TABLE `n`.`x` AUTO_INCREMENT = 42"
    );
    assert_eq!(
        set_auto_increment_sql("n", "x", -4),
        "ALTER TABLE `n`.`x` AUTO_INCREMENT = -4"
    );
}

fn key(delete_rule: &str, update_rule: &str) -> ForeignKey {
    ForeignKey {
        constraint_name: "fk".to_string(),
        table_name: "posts".to_string(),
        columns: "a,b".to_string(),
        referenced_table_name: "users".to_string(),
        ref_columns: "c,d".to_string(),
        delete_rule: delete_rule.to_string(),
        update_rule: update_rule.to_string(),
    }
}

#[test]
fn statements_about_foreign_keys() {
    assert_eq!(
        add_foreign_key_sql("n", &key("CASCADE", "SET NULL")),
        "ALTER TABLE `n`.`posts` ADD CONSTRAINT `fk` FOREIGN KEY (`a`, `b`) \
         REFERENCES `users`(`c`, `d`) ON DELETE CASCADE ON UPDATE SET NULL"
    );
    assert_eq!(
        add_foreign_key_sql("n", &key("NO ACTION", "NO ACTION")),
        "ALTER TABLE `n`.`posts` ADD CONSTRAINT `fk` FOREIGN KEY (`a`, `b`) \
         REFERENCES `users`(`c`, `d`)  "
    );
}

#[test]
fn statements_about_other_objects() {
    assert_eq!(show_create_sql("VIEW", "t", "v"), "SHOW CREATE VIEW `t`.`v`");
    assert_eq!(routine_kind_of("PROCEDURE"), "PROCEDURE");
    assert_eq!(routine_kind_of("FUNCTION"), "FUNCTION");
    assert_eq!(routine_kind_of("anything"), "FUNCTION");
}

#[test]
fn replace_all_replaces_what_str_replace_replaces() {
    for (s, pattern) in [
        ("aaaa", "aa"),
        ("aaaaa", "aa"),
        ("abcabc", "bc"),
        ("abc", "x"),
        ("", "x"),
        ("\u{e9}t\u{e9}", "\u{e9}"),
        ("abab", "abab"),
    ] {
        for with in ["", "aa", "-", "longer"] {
            assert_eq!(replace_all(s, pattern, with), s.replace(pattern, with));
        }
    }
}

#[test]
fn white_space_is_what_char_says() {
    for n in 0..=0x10ffff {
        if let Some(c) = char::from_u32(n) {
            assert_eq!(white_space(c), c.is_whitespace(), "{n:x}");
        }
    }
}

#[test]
fn trim_is_what_str_says() {
    for s in ["", " ", " a ", "a\u{2003}b\t", "\n\r\u{85}x"] {
        let trimmed: String = trim(&chars_of(s)).into_iter().collect();
        assert_eq!(trimmed, s.trim());
    }
}

#[test]
fn fields_joined_give_the_text_back() {
    for s in ["", ",", "a", "a,b", ",a,,b,"] {
        let fields: Vec<String> =
            split_fields(s, ',').into_iter().map(|f| f.into_iter().collect()).collect();
        let expected: Vec<&str> = s.split(',').collect();
        assert_eq!(fields, expected);
        assert_eq!(fields.join(","), s);
    }
}

#[test]
fn numbers_in_decimal() {
    for n in [0, 7, 10, 99, 100, 12345, u64::MAX] {
        let mut out = "n = ".to_string();
        push_decimal(&mut out, n);
        assert_eq!(out, format!("n = {n}"));
    }
    for i in [0, 1, -1, 10, i64::MIN, i64::MAX] {
        let mut out = String::new();
        push_signed(&mut out, i);
        assert_eq!(out, i.to_string());
    }
}

#[test]
fn same_text_compares_characters() {
    assert!(same_text("", ""));
    assert!(same_text("\u{e9}", "\u{e9}"));
    assert!(!same_text("a", "ab"));
    assert!(!same_text("a", "A"));
}
