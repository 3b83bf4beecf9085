//! What the statements say, word for word.

use crate::sql::{self, ForeignKeyView};
use crate::text::{self, Text};
use vstd::prelude::*;

verus! {

/// Every statement about a database names that database, whole and once.
pub proof fn law_database_statements(db: Text)
    ensures
        sql::create_clone(db) == "CREATE DATABASE `"@ + db + "`"@,
        sql::create_template(db) == "CREATE DATABASE IF NOT EXISTS `"@ + db + "`"@,
        sql::drop_template(db) == "DROP DATABASE IF EXISTS `"@ + db + "`"@,
        sql::create_empty(db) == "create database `"@ + db + "`"@,
        sql::drop_partial(db) == "drop database if exists `"@ + db + "`"@,
        sql::drop_test(db) == "drop database if exists "@ + db + ";"@,
        sql::drop_listed(db) == "drop database if exists "@ + db,
{
}

/// A database that is named by a number is dropped by that number.
pub proof fn law_old_database_statement(id: u64)
    ensures
        ({
            let s = sql::drop_old(id);
            let head = "drop database if exists _sqlx_test_database_"@;
            &&& head.is_prefix_of(s)
            &&& text::value_of(s.skip(head.len() as int)) == id
            &&& s[head.len() as int] == '0' ==> id == 0
        }),
{
    let s = sql::drop_old(id);
    let head = "drop database if exists _sqlx_test_database_"@;
    assert(head =~= s.take(head.len() as int));
    assert(s.skip(head.len() as int) =~= text::decimal(id as nat));
    text::law_decimal_reads_back(id as nat);
}

/// A table of the new database is made like, and filled from, the table of that name in the
/// template.
pub proof fn law_table_statements(new_db: Text, template: Text, table: Text)
    ensures
        sql::create_table(new_db, template, table) == "CREATE TABLE `"@ + new_db + "`.`"@ + table
            + "` LIKE `"@ + template + "`.`"@ + table + "`"@,
        sql::fill_table(new_db, template, table) == "INSERT INTO `"@ + new_db + "`.`"@ + table
            + "` SELECT * FROM `"@ + template + "`.`"@ + table + "`"@,
{
    reveal_strlit("`");
    reveal_strlit("CREATE TABLE ");
    reveal_strlit("CREATE TABLE `");
    reveal_strlit(" LIKE ");
    reveal_strlit("` LIKE `");
    reveal_strlit("INSERT INTO ");
    reveal_strlit("INSERT INTO `");
    reveal_strlit(" SELECT * FROM ");
    reveal_strlit("` SELECT * FROM `");
    assert(sql::create_table(new_db, template, table) =~= "CREATE TABLE `"@ + new_db + "`.`"@
        + table + "` LIKE `"@ + template + "`.`"@ + table + "`"@);
    assert(sql::fill_table(new_db, template, table) =~= "INSERT INTO `"@ + new_db + "`.`"@ + table
        + "` SELECT * FROM `"@ + template + "`.`"@ + table + "`"@);
}

/// A counter is read from its column in the new database and set on its table there.
pub proof fn law_counter_statements(new_db: Text, table: Text, column: Text, next: int)
    ensures
        sql::max_of_column(new_db, table, column) == "SELECT MAX(`"@ + column + "`) FROM `"@
            + new_db + "`.`"@ + table + "`"@,
        next >= 0 ==> sql::set_auto_increment(new_db, table, next) == "ALTER TABLE `"@ + new_db
            + "`.`"@ + table + "` AUTO_INCREMENT = "@ + text::decimal(next as nat),
        next < 0 ==> sql::set_auto_increment(new_db, table, next) == "ALTER TABLE `"@ + new_db
            + "`.`"@ + table + "` AUTO_INCREMENT = -"@ + text::decimal((-next) as nat),
{
    reveal_strlit("`");
    reveal_strlit("`) FROM ");
    reveal_strlit("`) FROM `");
    reveal_strlit("ALTER TABLE ");
    reveal_strlit("ALTER TABLE `");
    reveal_strlit(" AUTO_INCREMENT = ");
    reveal_strlit("` AUTO_INCREMENT = ");
    reveal_strlit("` AUTO_INCREMENT = -");
    assert(sql::max_of_column(new_db, table, column) =~= "SELECT MAX(`"@ + column + "`) FROM `"@
        + new_db + "`.`"@ + table + "`"@);
    if next >= 0 {
        assert(sql::set_auto_increment(new_db, table, next) =~= "ALTER TABLE `"@ + new_db + "`.`"@
            + table + "` AUTO_INCREMENT = "@ + text::decimal(next as nat));
    } else {
        assert(sql::set_auto_increment(new_db, table, next) =~= "ALTER TABLE `"@ + new_db + "`.`"@
            + table + "` AUTO_INCREMENT = -"@ + text::decimal((-next) as nat));
    }
}

/// A list of columns is the first one, trimmed and quoted, and after a comma the rest of the
/// list: whatever white space stands around a column, and however many follow.
pub proof fn law_column_list_goes_on(before: Text, column: Text, after: Text, rest: Text)
    requires
        forall|i: int| 0 <= i < before.len() ==> text::is_white_space(#[trigger] before[i]),
        forall|i: int| 0 <= i < after.len() ==> text::is_white_space(#[trigger] after[i]),
        column.len() > 0 ==> !text::is_white_space(column[0]) && !text::is_white_space(
            column.last(),
        ),
        !column.contains(','),
    ensures
        sql::column_list(before + column + after) == "`"@ + column + "`"@,
        sql::column_list(before + column + after + ","@ + rest) == "`"@ + column + "`, "@
            + sql::column_list(rest),
{
    reveal_strlit(",");
    reveal_strlit("`");
    reveal_strlit(", ");
    reveal_strlit("`, ");
    let first = before + column + after;
    let quote = |c: Text| sql::quoted_column(c);
    assert forall|i: int| 0 <= i < first.len() implies first[i] != ',' by {
        if i < before.len() {
            assert(first[i] == before[i]);
        } else if i < before.len() + column.len() {
            assert(first[i] == column[i - before.len()]);
            assert(column.contains(column[i - before.len()]));
        } else {
            assert(first[i] == after[i - before.len() - column.len()]);
        }
    }
    text::law_trimmed_is_the_middle(before, column, after);
    text::law_fields_go_on(first, ',', rest);
    text::law_joined_fields(rest, ',');
    let more = text::fields(rest, ',');
    assert(first + ","@ + rest =~= first + seq![','] + rest);
    assert(seq![first].map_values(quote) =~= seq![quote(first)]);
    assert((seq![first] + more).map_values(quote) =~= seq![quote(first)] + more.map_values(quote));
    text::law_joined_goes_on(quote(first), more.map_values(quote), ", "@);
    assert(("`"@ + column + "`"@) + ", "@ + sql::column_list(rest) =~= "`"@ + column + "`, "@
        + sql::column_list(rest));
}

/// What a foreign key does when a row is deleted or updated: the four rules that are not the
/// default are spelled out, and nothing else is said.
pub proof fn law_action_clauses(rule: Text)
    ensures
        rule == "RESTRICT"@ ==> sql::action_clause("ON DELETE "@, rule) == "ON DELETE RESTRICT"@
            && sql::action_clause("ON UPDATE "@, rule) == "ON UPDATE RESTRICT"@,
        rule == "CASCADE"@ ==> sql::action_clause("ON DELETE "@, rule) == "ON DELETE CASCADE"@
            && sql::action_clause("ON UPDATE "@, rule) == "ON UPDATE CASCADE"@,
        rule == "SET NULL"@ ==> sql::action_clause("ON DELETE "@, rule) == "ON DELETE SET NULL"@
            && sql::action_clause("ON UPDATE "@, rule) == "ON UPDATE SET NULL"@,
        rule == "SET DEFAULT"@ ==> sql::action_clause("ON DELETE "@, rule)
            == "ON DELETE SET DEFAULT"@ && sql::action_clause("ON UPDATE "@, rule)
            == "ON UPDATE SET DEFAULT"@,
        rule != "RESTRICT"@ && rule != "CASCADE"@ && rule != "SET NULL"@ && rule != "SET DEFAULT"@
            ==> sql::action_clause("ON DELETE "@, rule).len() == 0 && sql::action_clause(
            "ON UPDATE "@,
            rule,
        ).len() == 0,
{
    reveal_strlit("ON DELETE ");
    reveal_strlit("ON UPDATE ");
    reveal_strlit("RESTRICT");
    reveal_strlit("CASCADE");
    reveal_strlit("SET NULL");
    reveal_strlit("SET DEFAULT");
    reveal_strlit("ON DELETE RESTRICT");
    reveal_strlit("ON UPDATE RESTRICT");
    reveal_strlit("ON DELETE CASCADE");
    reveal_strlit("ON UPDATE CASCADE");
    reveal_strlit("ON DELETE SET NULL");
    reveal_strlit("ON UPDATE SET NULL");
    reveal_strlit("ON DELETE SET DEFAULT");
    reveal_strlit("ON UPDATE SET DEFAULT");
    assert("ON DELETE "@ + "RESTRICT"@ =~= "ON DELETE RESTRICT"@);
    assert("ON UPDATE "@ + "RESTRICT"@ =~= "ON UPDATE RESTRICT"@);
    assert("ON DELETE "@ + "CASCADE"@ =~= "ON DELETE CASCADE"@);
    assert("ON UPDATE "@ + "CASCADE"@ =~= "ON UPDATE CASCADE"@);
    assert("ON DELETE "@ + "SET NULL"@ =~= "ON DELETE SET NULL"@);
    assert("ON UPDATE "@ + "SET NULL"@ =~= "ON UPDATE SET NULL"@);
    assert("ON DELETE "@ + "SET DEFAULT"@ =~= "ON DELETE SET DEFAULT"@);
    assert("ON UPDATE "@ + "SET DEFAULT"@ =~= "ON UPDATE SET DEFAULT"@);
}

/// A foreign key is added to its table in the new database with its own name, its columns, the
/// table and the columns that it refers to, and what it does on a change.
pub proof fn law_foreign_key_statement(new_db: Text, key: ForeignKeyView)
    ensures
        sql::add_foreign_key(new_db, key) == "ALTER TABLE `"@ + new_db + "`.`"@ + key.table_name
            + "` ADD CONSTRAINT `"@ + key.constraint_name + "` FOREIGN KEY ("@ + sql::column_list(
            key.columns,
        ) + ") REFERENCES `"@ + key.referenced_table_name + "`("@ + sql::column_list(
            key.ref_columns,
        ) + ") "@ + sql::action_clause("ON DELETE "@, key.delete_rule) + " "@ + sql::action_clause(
            "ON UPDATE "@,
            key.update_rule,
        ),
{
    reveal_strlit("`");
    reveal_strlit("ALTER TABLE ");
    reveal_strlit("ALTER TABLE `");
    reveal_strlit(" ADD CONSTRAINT `");
    reveal_strlit("` ADD CONSTRAINT `");
    let head = "ALTER TABLE "@ + sql::qualified(new_db, key.table_name) + " ADD CONSTRAINT `"@;
    assert(head =~= "ALTER TABLE `"@ + new_db + "`.`"@ + key.table_name + "` ADD CONSTRAINT `"@);
}

/// A view, a trigger, a routine or an event is shown as it is in the template; a routine that is
/// no procedure is a function.
pub proof fn law_show_statements(kind: Text, template: Text, name: Text)
    ensures
        sql::show_create(kind, template, name) == "SHOW CREATE "@ + kind + " `"@ + template
            + "`.`"@ + name + "`"@,
        sql::routine_kind("PROCEDURE"@) == "PROCEDURE"@,
        kind != "PROCEDURE"@ ==> sql::routine_kind(kind) == "FUNCTION"@,
{
    reveal_strlit("`");
    reveal_strlit(" ");
    reveal_strlit(" `");
    assert(sql::show_create(kind, template, name) =~= "SHOW CREATE "@ + kind + " `"@ + template
        + "`.`"@ + name + "`"@);
}

proof fn lemma_marks(n: nat)
    ensures
        ({
            let marks = text::joined(Seq::new(n, |i: int| "?"@), ","@);
            &&& n == 0 ==> marks.len() == 0
            &&& n > 0 ==> marks.len() == 2 * n - 1
            &&& forall|i: int|
                0 <= i < marks.len() ==> (#[trigger] marks[i]) == (if i % 2 == 0 {
                    '?'
                } else {
                    ','
                })
        }),
    decreases n,
{
    reveal_strlit("?");
    reveal_strlit(",");
    let all = Seq::new(n, |i: int| "?"@);
    if n > 1 {
        let m = (n - 1) as nat;
        lemma_marks(m);
        assert(all.drop_last() =~= Seq::new(m, |i: int| "?"@));
        assert(all.last() == "?"@);
        let less = text::joined(all.drop_last(), ","@);
        let marks = text::joined(all, ","@);
        assert forall|i: int| 0 <= i < marks.len() implies (#[trigger] marks[i]) == (if i % 2
            == 0 {
            '?'
        } else {
            ','
        }) by {
            if i < less.len() {
                assert(marks[i] == less[i]);
            }
        }
    }
}

/// The statement that strikes `n` databases off the list has exactly `n` parameters, with a comma
/// between them.
pub proof fn law_forget_statement(n: nat)
    ensures
        ({
            let s = sql::forget_listed(n);
            let head = "delete from _sqlx_test_databases where db_name in ("@;
            let marks = s.subrange(head.len() as int, s.len() - 1);
            &&& s == head + marks + ")"@
            &&& n > 0 ==> marks.len() == 2 * n - 1
            &&& forall|i: int|
                0 <= i < marks.len() ==> (#[trigger] marks[i]) == (if i % 2 == 0 {
                    '?'
                } else {
                    ','
                })
        }),
{
    reveal_strlit(")");
    lemma_marks(n);
    let s = sql::forget_listed(n);
    let head = "delete from _sqlx_test_databases where db_name in ("@;
    let marks = text::joined(Seq::new(n, |i: int| "?"@), ","@);
    assert(s.subrange(head.len() as int, s.len() - 1) =~= marks);
}

/// What is asked of the server where nothing varies.
pub proof fn law_fixed_statements()
    ensures
        sql::TEMPLATE_LOCK_NAME@ == "sqlx_template_lock"@,
        sql::ACQUIRE_LOCK@ == "SELECT GET_LOCK(?, 300)"@,
        sql::RELEASE_LOCK@ == "SELECT RELEASE_LOCK(?)"@,
        sql::FIND_TEMPLATE@
            == "SELECT template_name FROM _sqlx_test_templates WHERE migrations_hash = ?"@,
        sql::TOUCH_TEMPLATE@
            == "UPDATE _sqlx_test_templates SET last_used_at = CURRENT_TIMESTAMP WHERE template_name = ?"@,
        sql::COUNT_MIGRATIONS@ == "SELECT COUNT(*) FROM _sqlx_migrations"@,
        sql::REGISTER_TEMPLATE@
            == "INSERT IGNORE INTO _sqlx_test_templates (template_name, migrations_hash) VALUES (?, ?)"@,
        sql::LIST_TABLES@
            == "SELECT table_name FROM information_schema.tables WHERE table_schema = ? AND table_type = 'BASE TABLE'"@,
        sql::LIST_VIEWS@ == "SELECT table_name FROM information_schema.views WHERE table_schema = ?"@,
        sql::LIST_TRIGGERS@
            == "SELECT trigger_name FROM information_schema.triggers WHERE trigger_schema = ?"@,
        sql::LIST_ROUTINES@
            == "SELECT routine_name, routine_type FROM information_schema.routines WHERE routine_schema = ?"@,
        sql::LIST_EVENTS@
            == "SELECT event_name FROM information_schema.events WHERE event_schema = ?"@,
        sql::RECORD_TEST@ == "insert into _sqlx_test_databases(db_name, test_path) values (?, ?)"@,
        sql::FORGET_TEST@ == "delete from _sqlx_test_databases where db_name = ?"@,
        sql::LIST_TESTS@ == "select db_name from _sqlx_test_databases"@,
        sql::LIST_OLD_TESTS@ == "select db_id from _sqlx_test_databases"@,
        sql::LIST_AUTO_INCREMENTS@ == r#"
        SELECT table_name, column_name
        FROM information_schema.columns
        WHERE table_schema = ?
            AND extra LIKE '%auto_increment%'
        "#@,
        sql::LIST_FOREIGN_KEYS@ == r#"
        SELECT
            tc.constraint_name,
            kcu.table_name,
            GROUP_CONCAT(kcu.column_name ORDER BY kcu.ordinal_position) as columns,
            kcu.referenced_table_name,
            GROUP_CONCAT(kcu.referenced_column_name ORDER BY kcu.ordinal_position) as ref_columns,
            rc.delete_rule,
            rc.update_rule
        FROM information_schema.table_constraints tc
        JOIN information_schema.key_column_usage kcu
            ON tc.constraint_name = kcu.constraint_name
            AND tc.table_schema = kcu.table_schema
        JOIN information_schema.referential_constraints rc
            ON tc.constraint_name = rc.constraint_name
            AND tc.table_schema = rc.constraint_schema
        WHERE tc.table_schema = ?
            AND tc.constraint_type = 'FOREIGN KEY'
        GROUP BY tc.constraint_name, kcu.table_name, kcu.referenced_table_name,
                 rc.delete_rule, rc.update_rule
        "#@,
        sql::CREATE_TEMPLATES_TABLE@ == r#"
        CREATE TABLE IF NOT EXISTS _sqlx_test_templates (
            template_name VARCHAR(255) PRIMARY KEY,
            migrations_hash VARCHAR(64) NOT NULL,
            created_at TIMESTAMP NOT NULL DEFAULT CURRENT_TIMESTAMP,
            last_used_at TIMESTAMP NOT NULL DEFAULT CURRENT_TIMESTAMP ON UPDATE CURRENT_TIMESTAMP,
            UNIQUE KEY (migrations_hash)
        )
        "#@,
        sql::CREATE_TESTS_TABLE@ == r#"
        create table if not exists _sqlx_test_databases (
            db_name text not null,
            test_path text not null,
            created_at timestamp not null default current_timestamp,
            -- BLOB/TEXT columns can only be used as index keys with a prefix length:
            -- https://dev.mysql.com/doc/refman/8.4/en/column-indexes.html#column-indexes-prefix
            primary key(db_name(63))
        );
    "#@,
        sql::DROP_TESTS_TABLE@ == "drop table if exists _sqlx_test_databases"@,
{
}

} // verus!
