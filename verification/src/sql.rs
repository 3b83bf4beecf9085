//! The SQL that goes to the server.

use crate::text::{self, Text};
use vstd::prelude::*;

verus! {

// ---------------------------------------------------------------------------
// Statements without a variable part

/// Name of the lock under which template databases are made.
pub const TEMPLATE_LOCK_NAME: &'static str = "sqlx_template_lock";

pub const ACQUIRE_LOCK: &'static str = "SELECT GET_LOCK(?, 300)";

pub const RELEASE_LOCK: &'static str = "SELECT RELEASE_LOCK(?)";

pub const CREATE_TEMPLATES_TABLE: &'static str = r#"
        CREATE TABLE IF NOT EXISTS _sqlx_test_templates (
            template_name VARCHAR(255) PRIMARY KEY,
            migrations_hash VARCHAR(64) NOT NULL,
            created_at TIMESTAMP NOT NULL DEFAULT CURRENT_TIMESTAMP,
            last_used_at TIMESTAMP NOT NULL DEFAULT CURRENT_TIMESTAMP ON UPDATE CURRENT_TIMESTAMP,
            UNIQUE KEY (migrations_hash)
        )
        "#;

pub const FIND_TEMPLATE: &'static str =
    "SELECT template_name FROM _sqlx_test_templates WHERE migrations_hash = ?";

pub const TOUCH_TEMPLATE: &'static str =
    "UPDATE _sqlx_test_templates SET last_used_at = CURRENT_TIMESTAMP WHERE template_name = ?";

pub const COUNT_MIGRATIONS: &'static str = "SELECT COUNT(*) FROM _sqlx_migrations";

pub const REGISTER_TEMPLATE: &'static str =
    "INSERT IGNORE INTO _sqlx_test_templates (template_name, migrations_hash) VALUES (?, ?)";

pub const LIST_TABLES: &'static str =
    "SELECT table_name FROM information_schema.tables WHERE table_schema = ? AND table_type = 'BASE TABLE'";

pub const LIST_AUTO_INCREMENTS: &'static str = r#"
        SELECT table_name, column_name
        FROM information_schema.columns
        WHERE table_schema = ?
            AND extra LIKE '%auto_increment%'
        "#;

pub const LIST_FOREIGN_KEYS: &'static str = r#"
        SELECT
            tc.constraint_name,
            kcu.table_name,
            GROUP_CONCAT(kcu.column_name ORDER BY kcu.ordinal_position) as columns,
            kcu.referenced_table_name,
            GROUP_CONCAT(kcu.referenced_column_name ORDER BY kcu.ordinal_position) as ref_columns,
            rc.delete_rule,
            rc.update_rule
        FROM information_schema.table_constraints tc
        JOIN information_schema.key_column_usage kcu
            ON tc.constraint_name = kcu.constraint_name
            AND tc.table_schema = kcu.table_schema
        JOIN information_schema.referential_constraints rc
            ON tc.constraint_name = rc.constraint_name
            AND tc.table_schema = rc.constraint_schema
        WHERE tc.table_schema = ?
            AND tc.constraint_type = 'FOREIGN KEY'
        GROUP BY tc.constraint_name, kcu.table_name, kcu.referenced_table_name,
                 rc.delete_rule, rc.update_rule
        "#;

pub const LIST_VIEWS: &'static str =
    "SELECT table_name FROM information_schema.views WHERE table_schema = ?";

pub const LIST_TRIGGERS: &'static str =
    "SELECT trigger_name FROM information_schema.triggers WHERE trigger_schema = ?";

pub const LIST_ROUTINES: &'static str =
    "SELECT routine_name, routine_type FROM information_schema.routines WHERE routine_schema = ?";

pub const LIST_EVENTS: &'static str =
    "SELECT event_name FROM information_schema.events WHERE event_schema = ?";

pub const CREATE_TESTS_TABLE: &'static str = r#"
        create table if not exists _sqlx_test_databases (
            db_name text not null,
            test_path text not null,
            created_at timestamp not null default current_timestamp,
            -- BLOB/TEXT columns can only be used as index keys with a prefix length:
            -- https://dev.mysql.com/doc/refman/8.4/en/column-indexes.html#column-indexes-prefix
            primary key(db_name(63))
        );
    "#;

pub const RECORD_TEST: &'static str =
    "insert into _sqlx_test_databases(db_name, test_path) values (?, ?)";

pub const FORGET_TEST: &'static str = "delete from _sqlx_test_databases where db_name = ?";

pub const LIST_TESTS: &'static str = "select db_name from _sqlx_test_databases";

pub const LIST_OLD_TESTS: &'static str = "select db_id from _sqlx_test_databases";

pub const DROP_TESTS_TABLE: &'static str = "drop table if exists _sqlx_test_databases";

// ---------------------------------------------------------------------------
// Names and clauses

/// A name of a database, both quoted with backticks.
pub open spec fn qualified(db: Text, name: Text) -> Text {
    "`"@ + db + "`.`"@ + name + "`"@
}

pub fn qualified_name(db: &str, name: &str) -> (r: String)
    ensures
        r@ == qualified(db@, name@),
{
    String::from_str("`").concat(db).concat("`.`").concat(name).concat("`")
}

/// A column name, trimmed and quoted with backticks.
pub open spec fn quoted_column(column: Text) -> Text {
    "`"@ + text::trimmed(column) + "`"@
}

/// The comma-separated `columns` one by one, each trimmed and quoted, with `, ` between them.
pub open spec fn column_list(columns: Text) -> Text {
    text::joined(text::fields(columns, ',').map_values(|c: Text| quoted_column(c)), ", "@)
}

/// Format a comma-separated column list with backticks.
pub fn format_column_list(columns: &str) -> (r: String)
    ensures
        r@ == column_list(columns@),
{
    let parts = text::split_fields(columns, ',');
    let ghost quoted = text::fields(columns@, ',').map_values(|c: Text| quoted_column(c));
    let mut out = String::new();
    let mut i: usize = 0;
    while i < parts.len()
        invariant
            i <= parts@.len(),
            text::char_rows(parts@) == text::fields(columns@, ','),
            quoted == text::fields(columns@, ',').map_values(|c: Text| quoted_column(c)),
            out@ == text::joined(quoted.take(i as int), ", "@),
        decreases parts@.len() - i,
    {
        let ghost before = out@;
        let column = text::trim(&parts[i]);
        assert(text::char_rows(parts@)[i as int] == parts@[i as int]@);
        if i > 0 {
            out.append(", ");
        }
        out.append("`");
        text::push_chars(&mut out, &column);
        out.append("`");
        proof {
            let upto = quoted.take(i + 1);
            assert(upto.drop_last() =~= quoted.take(i as int));
            assert(upto.last() == quoted_column(parts@[i as int]@));
            if i > 0 {
                assert(out@ =~= before + ", "@ + quoted_column(parts@[i as int]@));
            } else {
                assert(out@ =~= quoted_column(parts@[i as int]@));
            }
        }
        i += 1;
    }
    assert(quoted.take(i as int) =~= quoted);
    out
}

/// The clause for what a foreign key does `on` (`"ON DELETE "` or `"ON UPDATE "`) a change:
/// nothing for `NO ACTION`, the default, and nothing for an unknown rule.
pub open spec fn action_clause(on: Text, rule: Text) -> Text {
    if rule == "RESTRICT"@ || rule == "CASCADE"@ || rule == "SET NULL"@ || rule == "SET DEFAULT"@ {
        on + rule
    } else {
        Seq::empty()
    }
}

fn format_action(on: &str, rule: &str) -> (r: String)
    ensures
        r@ == action_clause(on@, rule@),
{
    if text::same_text(rule, "RESTRICT") || text::same_text(rule, "CASCADE") || text::same_text(
        rule,
        "SET NULL",
    ) || text::same_text(rule, "SET DEFAULT") {
        String::from_str(on).concat(rule)
    } else {
        // NO ACTION is the default, no need to specify
        String::new()
    }
}

/// Format a foreign key action clause.
pub fn format_fk_action(rule: &str) -> (r: String)
    ensures
        r@ == action_clause("ON DELETE "@, rule@),
{
    format_action("ON DELETE ", rule)
}

/// Format a foreign key ON UPDATE action clause.
pub fn format_fk_update_action(rule: &str) -> (r: String)
    ensures
        r@ == action_clause("ON UPDATE "@, rule@),
{
    format_action("ON UPDATE ", rule)
}

// ---------------------------------------------------------------------------
// Databases

/// `CREATE DATABASE` for the target of a clone.
pub open spec fn create_clone(db: Text) -> Text {
    "CREATE DATABASE `"@ + db + "`"@
}

pub fn create_clone_sql(db: &str) -> (r: String)
    ensures
        r@ == create_clone(db@),
{
    String::from_str("CREATE DATABASE `").concat(db).concat("`")
}

pub open spec fn create_template(db: Text) -> Text {
    "CREATE DATABASE IF NOT EXISTS `"@ + db + "`"@
}

pub fn create_template_sql(db: &str) -> (r: String)
    ensures
        r@ == create_template(db@),
{
    String::from_str("CREATE DATABASE IF NOT EXISTS `").concat(db).concat("`")
}

pub open spec fn drop_template(db: Text) -> Text {
    "DROP DATABASE IF EXISTS `"@ + db + "`"@
}

pub fn drop_template_sql(db: &str) -> (r: String)
    ensures
        r@ == drop_template(db@),
{
    String::from_str("DROP DATABASE IF EXISTS `").concat(db).concat("`")
}

/// `create database` for a test that starts from an empty database.
pub open spec fn create_empty(db: Text) -> Text {
    "create database `"@ + db + "`"@
}

pub fn create_empty_sql(db: &str) -> (r: String)
    ensures
        r@ == create_empty(db@),
{
    String::from_str("create database `").concat(db).concat("`")
}

/// `drop database` for a clone that was not finished.
pub open spec fn drop_partial(db: Text) -> Text {
    "drop database if exists `"@ + db + "`"@
}

pub fn drop_partial_sql(db: &str) -> (r: String)
    ensures
        r@ == drop_partial(db@),
{
    String::from_str("drop database if exists `").concat(db).concat("`")
}

/// `drop database` for the database of one test.
pub open spec fn drop_test(db: Text) -> Text {
    "drop database if exists "@ + db + ";"@
}

pub fn drop_test_sql(db: &str) -> (r: String)
    ensures
        r@ == drop_test(db@),
{
    String::from_str("drop database if exists ").concat(db).concat(";")
}

/// `drop database` for a database found in the list of all tests' databases.
pub open spec fn drop_listed(db: Text) -> Text {
    "drop database if exists "@ + db
}

pub fn drop_listed_sql(db: &str) -> (r: String)
    ensures
        r@ == drop_listed(db@),
{
    String::from_str("drop database if exists ").concat(db)
}

/// `drop database` for a database that is named by a number.
pub open spec fn drop_old(id: u64) -> Text {
    "drop database if exists _sqlx_test_database_"@ + text::decimal(id as nat)
}

pub fn drop_old_sql(id: u64) -> (r: String)
    ensures
        r@ == drop_old(id),
{
    let mut r = String::from_str("drop database if exists _sqlx_test_database_");
    text::push_decimal(&mut r, id);
    r
}

/// The statement that strikes `n` databases off the list, with one parameter for each.
pub open spec fn forget_listed(n: nat) -> Text {
    "delete from _sqlx_test_databases where db_name in ("@ + text::joined(
        Seq::new(n, |i: int| "?"@),
        ","@,
    ) + ")"@
}

pub fn forget_listed_sql(n: usize) -> (r: String)
    ensures
        r@ == forget_listed(n as nat),
{
    let mut r = String::from_str("delete from _sqlx_test_databases where db_name in (");
    let ghost head = r@;
    let ghost marks = Seq::new(n as nat, |i: int| "?"@);
    let mut i: usize = 0;
    assert(r@ =~= head + text::joined(marks.take(0), ","@));
    while i < n
        invariant
            i <= n,
            marks == Seq::new(n as nat, |i: int| "?"@),
            r@ == head + text::joined(marks.take(i as int), ","@),
        decreases n - i,
    {
        let ghost before = r@;
        if i > 0 {
            r.append(",");
        }
        r.append("?");
        proof {
            let upto = marks.take(i + 1);
            assert(upto.drop_last() =~= marks.take(i as int));
            assert(upto.last() == "?"@);
            assert(r@ =~= head + text::joined(upto, ","@));
        }
        i += 1;
    }
    assert(marks.take(i as int) =~= marks);
    r.append(")");
    r
}

// ---------------------------------------------------------------------------
// Tables

pub open spec fn create_table(new_db: Text, template: Text, table: Text) -> Text {
    "CREATE TABLE "@ + qualified(new_db, table) + " LIKE "@ + qualified(template, table)
}

pub fn create_table_sql(new_db: &str, template: &str, table: &str) -> (r: String)
    ensures
        r@ == create_table(new_db@, template@, table@),
{
    String::from_str("CREATE TABLE ").concat(qualified_name(new_db, table).as_str()).concat(
        " LIKE ",
    ).concat(qualified_name(template, table).as_str())
}

pub open spec fn fill_table(new_db: Text, template: Text, table: Text) -> Text {
    "INSERT INTO "@ + qualified(new_db, table) + " SELECT * FROM "@ + qualified(template, table)
}

pub fn fill_table_sql(new_db: &str, template: &str, table: &str) -> (r: String)
    ensures
        r@ == fill_table(new_db@, template@, table@),
{
    String::from_str("INSERT INTO ").concat(qualified_name(new_db, table).as_str()).concat(
        " SELECT * FROM ",
    ).concat(qualified_name(template, table).as_str())
}

pub open spec fn max_of_column(new_db: Text, table: Text, column: Text) -> Text {
    "SELECT MAX(`"@ + column + "`) FROM "@ + qualified(new_db, table)
}

pub fn max_of_column_sql(new_db: &str, table: &str, column: &str) -> (r: String)
    ensures
        r@ == max_of_column(new_db@, table@, column@),
{
    String::from_str("SELECT MAX(`").concat(column).concat("`) FROM ").concat(
        qualified_name(new_db, table).as_str(),
    )
}

pub open spec fn set_auto_increment(new_db: Text, table: Text, next: int) -> Text {
    "ALTER TABLE "@ + qualified(new_db, table) + " AUTO_INCREMENT = "@ + text::signed_decimal(next)
}

pub fn set_auto_increment_sql(new_db: &str, table: &str, next: i64) -> (r: String)
    ensures
        r@ == set_auto_increment(new_db@, table@, next as int),
{
    let mut r = String::from_str("ALTER TABLE ").concat(
        qualified_name(new_db, table).as_str(),
    ).concat(" AUTO_INCREMENT = ");
    text::push_signed(&mut r, next);
    r
}

/// A foreign key as the catalogue describes it.
#[derive(Debug, PartialEq, Eq)]
pub struct ForeignKey {
    pub constraint_name: String,
    pub table_name: String,
    /// The columns, separated by commas.
    pub columns: String,
    pub referenced_table_name: String,
    /// The referenced columns, separated by commas.
    pub ref_columns: String,
    pub delete_rule: String,
    pub update_rule: String,
}

/// The model of a [`ForeignKey`].
pub struct ForeignKeyView {
    pub constraint_name: Text,
    pub table_name: Text,
    pub columns: Text,
    pub referenced_table_name: Text,
    pub ref_columns: Text,
    pub delete_rule: Text,
    pub update_rule: Text,
}

impl View for ForeignKey {
    type V = ForeignKeyView;

    open spec fn view(&self) -> ForeignKeyView {
        ForeignKeyView {
            constraint_name: self.constraint_name@,
            table_name: self.table_name@,
            columns: self.columns@,
            referenced_table_name: self.referenced_table_name@,
            ref_columns: self.ref_columns@,
            delete_rule: self.delete_rule@,
            update_rule: self.update_rule@,
        }
    }
}

pub open spec fn add_foreign_key(new_db: Text, key: ForeignKeyView) -> Text {
    "ALTER TABLE "@ + qualified(new_db, key.table_name) + " ADD CONSTRAINT `"@
        + key.constraint_name + "` FOREIGN KEY ("@ + column_list(key.columns) + ") REFERENCES `"@
        + key.referenced_table_name + "`("@ + column_list(key.ref_columns) + ") "@ + action_clause(
        "ON DELETE "@,
        key.delete_rule,
    ) + " "@ + action_clause("ON UPDATE "@, key.update_rule)
}

pub fn add_foreign_key_sql(new_db: &str, key: &ForeignKey) -> (r: String)
    ensures
        r@ == add_foreign_key(new_db@, key@),
{
    let columns = format_column_list(key.columns.as_str());
    let ref_columns = format_column_list(key.ref_columns.as_str());
    let on_delete = format_fk_action(key.delete_rule.as_str());
    let on_update = format_fk_update_action(key.update_rule.as_str());
    String::from_str("ALTER TABLE ").concat(
        qualified_name(new_db, key.table_name.as_str()).as_str(),
    ).concat(" ADD CONSTRAINT `").concat(key.constraint_name.as_str()).concat(
        "` FOREIGN KEY (",
    ).concat(columns.as_str()).concat(") REFERENCES `").concat(
        key.referenced_table_name.as_str(),
    ).concat("`(").concat(ref_columns.as_str()).concat(") ").concat(on_delete.as_str()).concat(
        " ",
    ).concat(on_update.as_str())
}

// ---------------------------------------------------------------------------
// Views, triggers, routines and events

/// `SHOW CREATE <kind>` for an object of the template.
pub open spec fn show_create(kind: Text, template: Text, name: Text) -> Text {
    "SHOW CREATE "@ + kind + " "@ + qualified(template, name)
}

pub fn show_create_sql(kind: &str, template: &str, name: &str) -> (r: String)
    ensures
        r@ == show_create(kind@, template@, name@),
{
    String::from_str("SHOW CREATE ").concat(kind).concat(" ").concat(
        qualified_name(template, name).as_str(),
    )
}

/// What `SHOW CREATE` calls a routine of type `routine_type`: whatever is no procedure is a
/// function.
pub open spec fn routine_kind(routine_type: Text) -> Text {
    if routine_type == "PROCEDURE"@ {
        "PROCEDURE"@
    } else {
        "FUNCTION"@
    }
}

pub fn routine_kind_of(routine_type: &str) -> (r: &'static str)
    ensures
        r@ == routine_kind(routine_type@),
{
    if text::same_text(routine_type, "PROCEDURE") {
        "PROCEDURE"
    } else {
        "FUNCTION"
    }
}

} // verus!
