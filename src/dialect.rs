//! The catalog of SQL dialects and their identifier-character rules.
use vstd::prelude::*;

use sqlparser::dialect::Dialect as SqlDialect;

verus! {

/// A SQL dialect, selecting the identifier rules that the tokenizer uses.
#[derive(Debug, Clone, Copy, PartialEq, Eq, Structural)]
pub enum Dialect {
    AnsiDialect,
    BigQueryDialect,
    ClickHouseDialect,
    DuckDbDialect,
    GenericDialect,
    HiveDialect,
    MsSqlDialect,
    MySqlDialect,
    PostgreSqlDialect,
    RedshiftSqlDialect,
    SQLiteDialect,
    SnowflakeDialect,
}

impl Default for Dialect {
    /// The PostgreSQL dialect.
    fn default() -> (r: Dialect)
        ensures
            r == Dialect::PostgreSqlDialect,
    {
        Dialect::PostgreSqlDialect
    }
}

/// `char::is_ascii_alphabetic`.
pub open spec fn ascii_letter(c: char) -> bool {
    ('a' <= c && c <= 'z') || ('A' <= c && c <= 'Z')
}

/// `char::is_ascii_digit`.
pub open spec fn ascii_digit(c: char) -> bool {
    '0' <= c && c <= '9'
}

/// The negation of `char::is_ascii`.
pub open spec fn non_ascii(c: char) -> bool {
    (c as u32) >= 0x80
}

/// A character from U+007F to U+FFFF.
pub open spec fn in_bmp_from_del(c: char) -> bool {
    0x7f <= (c as u32) && (c as u32) <= 0xffff
}

/// Whether `c` has the Unicode `Alphabetic` property, as `char::is_alphabetic` answers.
pub uninterp spec fn alphabetic(c: char) -> bool;

/// sqlparser's `AnsiDialect` rule for identifier start: an ASCII letter.
pub open spec fn ansi_start(ch: char) -> bool {
    ascii_letter(ch)
}

/// sqlparser's `AnsiDialect` rule for identifier characters: an ASCII letter, digit or `_`.
pub open spec fn ansi_part(ch: char) -> bool {
    ascii_letter(ch) || ascii_digit(ch) || ch == '_'
}

/// sqlparser's `BigQueryDialect` rule for identifier start: an ASCII letter, `_` or `@`.
pub open spec fn bigquery_start(ch: char) -> bool {
    ascii_letter(ch) || ch == '_' || ch == '@'
}

/// sqlparser's `BigQueryDialect` rule for identifier characters: an ASCII letter, digit or `_`.
pub open spec fn bigquery_part(ch: char) -> bool {
    ascii_letter(ch) || ascii_digit(ch) || ch == '_'
}

/// sqlparser's `ClickHouseDialect` rule for identifier start: an ASCII letter or `_`.
pub open spec fn clickhouse_start(ch: char) -> bool {
    ascii_letter(ch) || ch == '_'
}

/// sqlparser's `ClickHouseDialect` rule for identifier characters: its identifier start, or an ASCII digit.
pub open spec fn clickhouse_part(ch: char) -> bool {
    ascii_letter(ch) || ch == '_' || ascii_digit(ch)
}

/// sqlparser's `DuckDbDialect` rule for identifier start: an alphabetic character or `_`.
pub open spec fn duckdb_start(ch: char) -> bool {
    alphabetic(ch) || ch == '_'
}

/// sqlparser's `DuckDbDialect` rule for identifier characters: an alphabetic character, ASCII digit, `$` or `_`.
pub open spec fn duckdb_part(ch: char) -> bool {
    alphabetic(ch) || ascii_digit(ch) || ch == '$' || ch == '_'
}

/// sqlparser's `GenericDialect` rule for identifier start: an alphabetic character, `_`, `#` or `@`.
pub open spec fn generic_start(ch: char) -> bool {
    alphabetic(ch) || ch == '_' || ch == '#' || ch == '@'
}

/// sqlparser's `GenericDialect` rule for identifier characters: an alphabetic character, ASCII digit, `@`, `$`, `#` or `_`.
pub open spec fn generic_part(ch: char) -> bool {
    alphabetic(ch) || ascii_digit(ch) || ch == '@' || ch == '$' || ch == '#' || ch == '_'
}

/// sqlparser's `HiveDialect` rule for identifier start: an ASCII letter, digit or `$`.
pub open spec fn hive_start(ch: char) -> bool {
    ascii_letter(ch) || ascii_digit(ch) || ch == '$'
}

/// sqlparser's `HiveDialect` rule for identifier characters: an ASCII letter, digit, `_`, `$`, `{` or `}`.
pub open spec fn hive_part(ch: char) -> bool {
    ascii_letter(ch) || ascii_digit(ch) || ch == '_' || ch == '$' || ch == '{' || ch == '}'
}

/// sqlparser's `MsSqlDialect` rule for identifier start: an alphabetic character, `_`, `#` or `@`.
pub open spec fn mssql_start(ch: char) -> bool {
    alphabetic(ch) || ch == '_' || ch == '#' || ch == '@'
}

/// sqlparser's `MsSqlDialect` rule for identifier characters: an alphabetic character, ASCII digit, `@`, `$`, `#` or `_`.
pub open spec fn mssql_part(ch: char) -> bool {
    alphabetic(ch) || ascii_digit(ch) || ch == '@' || ch == '$' || ch == '#' || ch == '_'
}

/// sqlparser's `MySqlDialect` rule for identifier start: an alphabetic character, `_`, `$`, `@` or any non-ASCII character.
pub open spec fn mysql_start(ch: char) -> bool {
    alphabetic(ch) || ch == '_' || ch == '$' || ch == '@' || non_ascii(ch)
}

/// sqlparser's `MySqlDialect` rule for identifier characters: its identifier start, an ASCII digit or any non-ASCII character.
pub open spec fn mysql_part(ch: char) -> bool {
    alphabetic(ch) || ch == '_' || ch == '$' || ch == '@' || non_ascii(ch) || ascii_digit(ch)
}

/// sqlparser's `PostgreSqlDialect` rule for identifier start: an alphabetic character, `_` or any non-ASCII character.
pub open spec fn postgresql_start(ch: char) -> bool {
    alphabetic(ch) || ch == '_' || non_ascii(ch)
}

/// sqlparser's `PostgreSqlDialect` rule for identifier characters: an alphabetic character, ASCII digit, `$`, `_` or any non-ASCII character.
pub open spec fn postgresql_part(ch: char) -> bool {
    alphabetic(ch) || ascii_digit(ch) || ch == '$' || ch == '_' || non_ascii(ch)
}

/// sqlparser's `RedshiftSqlDialect` rule for identifier start: PostgreSQL's identifier start, or `#`.
pub open spec fn redshift_start(ch: char) -> bool {
    alphabetic(ch) || ch == '_' || non_ascii(ch) || ch == '#'
}

/// sqlparser's `RedshiftSqlDialect` rule for identifier characters: PostgreSQL's identifier part, or `#`.
pub open spec fn redshift_part(ch: char) -> bool {
    alphabetic(ch) || ascii_digit(ch) || ch == '$' || ch == '_' || non_ascii(ch) || ch == '#'
}

/// sqlparser's `SQLiteDialect` rule for identifier start: an ASCII letter, `_`, or a character from U+007F to U+FFFF.
pub open spec fn sqlite_start(ch: char) -> bool {
    ascii_letter(ch) || ch == '_' || in_bmp_from_del(ch)
}

/// sqlparser's `SQLiteDialect` rule for identifier characters: its identifier start, or an ASCII digit.
pub open spec fn sqlite_part(ch: char) -> bool {
    ascii_letter(ch) || ch == '_' || in_bmp_from_del(ch) || ascii_digit(ch)
}

/// sqlparser's `SnowflakeDialect` rule for identifier start: an ASCII letter or `_`.
pub open spec fn snowflake_start(ch: char) -> bool {
    ascii_letter(ch) || ch == '_'
}

/// sqlparser's `SnowflakeDialect` rule for identifier characters: an ASCII letter, digit, `$` or `_`.
pub open spec fn snowflake_part(ch: char) -> bool {
    ascii_letter(ch) || ascii_digit(ch) || ch == '$' || ch == '_'
}

impl Dialect {
    /// The rule that this dialect applies to the first character of an identifier.
    pub open spec fn start_rule(self, c: char) -> bool {
        match self {
            Dialect::AnsiDialect => ansi_start(c),
            Dialect::BigQueryDialect => bigquery_start(c),
            Dialect::ClickHouseDialect => clickhouse_start(c),
            Dialect::DuckDbDialect => duckdb_start(c),
            Dialect::GenericDialect => generic_start(c),
            Dialect::HiveDialect => hive_start(c),
            Dialect::MsSqlDialect => mssql_start(c),
            Dialect::MySqlDialect => mysql_start(c),
            Dialect::PostgreSqlDialect => postgresql_start(c),
            Dialect::RedshiftSqlDialect => redshift_start(c),
            Dialect::SQLiteDialect => sqlite_start(c),
            Dialect::SnowflakeDialect => snowflake_start(c),
        }
    }

    /// The rule that this dialect applies to the later characters of an identifier.
    pub open spec fn part_rule(self, c: char) -> bool {
        match self {
            Dialect::AnsiDialect => ansi_part(c),
            Dialect::BigQueryDialect => bigquery_part(c),
            Dialect::ClickHouseDialect => clickhouse_part(c),
            Dialect::DuckDbDialect => duckdb_part(c),
            Dialect::GenericDialect => generic_part(c),
            Dialect::HiveDialect => hive_part(c),
            Dialect::MsSqlDialect => mssql_part(c),
            Dialect::MySqlDialect => mysql_part(c),
            Dialect::PostgreSqlDialect => postgresql_part(c),
            Dialect::RedshiftSqlDialect => redshift_part(c),
            Dialect::SQLiteDialect => sqlite_part(c),
            Dialect::SnowflakeDialect => snowflake_part(c),
        }
    }
}

/// Relies on sqlparser's `AnsiDialect::is_identifier_start`: an ASCII letter.
#[verifier::external_body]
fn ansi_is_start(ch: char) -> (r: bool)
    ensures
        r == (ascii_letter(ch)),
{
    sqlparser::dialect::AnsiDialect {}.is_identifier_start(ch)
}

/// Relies on sqlparser's `AnsiDialect::is_identifier_part`: an ASCII letter, digit or `_`.
#[verifier::external_body]
fn ansi_is_part(ch: char) -> (r: bool)
    ensures
        r == (ascii_letter(ch) || ascii_digit(ch) || ch == '_'),
{
    sqlparser::dialect::AnsiDialect {}.is_identifier_part(ch)
}

/// Relies on sqlparser's `BigQueryDialect::is_identifier_start`: an ASCII letter, `_` or `@`.
#[verifier::external_body]
fn bigquery_is_start(ch: char) -> (r: bool)
    ensures
        r == (ascii_letter(ch) || ch == '_' || ch == '@'),
{
    sqlparser::dialect::BigQueryDialect {}.is_identifier_start(ch)
}

/// Relies on sqlparser's `BigQueryDialect::is_identifier_part`: an ASCII letter, digit or `_`.
#[verifier::external_body]
fn bigquery_is_part(ch: char) -> (r: bool)
    ensures
        r == (ascii_letter(ch) || ascii_digit(ch) || ch == '_'),
{
    sqlparser::dialect::BigQueryDialect {}.is_identifier_part(ch)
}

/// Relies on sqlparser's `ClickHouseDialect::is_identifier_start`: an ASCII letter or `_`.
#[verifier::external_body]
fn clickhouse_is_start(ch: char) -> (r: bool)
    ensures
        r == (ascii_letter(ch) || ch == '_'),
{
    sqlparser::dialect::ClickHouseDialect {}.is_identifier_start(ch)
}

/// Relies on sqlparser's `ClickHouseDialect::is_identifier_part`: its identifier start, or an ASCII digit.
#[verifier::external_body]
fn clickhouse_is_part(ch: char) -> (r: bool)
    ensures
        r == (ascii_letter(ch) || ch == '_' || ascii_digit(ch)),
{
    sqlparser::dialect::ClickHouseDialect {}.is_identifier_part(ch)
}

/// Relies on sqlparser's `DuckDbDialect::is_identifier_start`: an alphabetic character or `_`.
#[verifier::external_body]
fn duckdb_is_start(ch: char) -> (r: bool)
    ensures
        r == (alphabetic(ch) || ch == '_'),
{
    sqlparser::dialect::DuckDbDialect {}.is_identifier_start(ch)
}

/// Relies on sqlparser's `DuckDbDialect::is_identifier_part`: an alphabetic character, ASCII digit, `$` or `_`.
#[verifier::external_body]
fn duckdb_is_part(ch: char) -> (r: bool)
    ensures
        r == (alphabetic(ch) || ascii_digit(ch) || ch == '$' || ch == '_'),
{
    sqlparser::dialect::DuckDbDialect {}.is_identifier_part(ch)
}

/// Relies on sqlparser's `GenericDialect::is_identifier_start`: an alphabetic character, `_`, `#` or `@`.
#[verifier::external_body]
fn generic_is_start(ch: char) -> (r: bool)
    ensures
        r == (alphabetic(ch) || ch == '_' || ch == '#' || ch == '@'),
{
    sqlparser::dialect::GenericDialect {}.is_identifier_start(ch)
}

/// Relies on sqlparser's `GenericDialect::is_identifier_part`: an alphabetic character, ASCII digit, `@`, `$`, `#` or `_`.
#[verifier::external_body]
fn generic_is_part(ch: char) -> (r: bool)
    ensures
        r == (alphabetic(ch) || ascii_digit(ch) || ch == '@' || ch == '$' || ch == '#' || ch == '_'),
{
    sqlparser::dialect::GenericDialect {}.is_identifier_part(ch)
}

/// Relies on sqlparser's `HiveDialect::is_identifier_start`: an ASCII letter, digit or `$`.
#[verifier::external_body]
fn hive_is_start(ch: char) -> (r: bool)
    ensures
        r == (ascii_letter(ch) || ascii_digit(ch) || ch == '$'),
{
    sqlparser::dialect::HiveDialect {}.is_identifier_start(ch)
}

/// Relies on sqlparser's `HiveDialect::is_identifier_part`: an ASCII letter, digit, `_`, `$`, `{` or `}`.
#[verifier::external_body]
fn hive_is_part(ch: char) -> (r: bool)
    ensures
        r == (ascii_letter(ch) || ascii_digit(ch) || ch == '_' || ch == '$' || ch == '{' || ch == '}'),
{
    sqlparser::dialect::HiveDialect {}.is_identifier_part(ch)
}

/// Relies on sqlparser's `MsSqlDialect::is_identifier_start`: an alphabetic character, `_`, `#` or `@`.
#[verifier::external_body]
fn mssql_is_start(ch: char) -> (r: bool)
    ensures
        r == (alphabetic(ch) || ch == '_' || ch == '#' || ch == '@'),
{
    sqlparser::dialect::MsSqlDialect {}.is_identifier_start(ch)
}

/// Relies on sqlparser's `MsSqlDialect::is_identifier_part`: an alphabetic character, ASCII digit, `@`, `$`, `#` or `_`.
#[verifier::external_body]
fn mssql_is_part(ch: char) -> (r: bool)
    ensures
        r == (alphabetic(ch) || ascii_digit(ch) || ch == '@' || ch == '$' || ch == '#' || ch == '_'),
{
    sqlparser::dialect::MsSqlDialect {}.is_identifier_part(ch)
}

/// Relies on sqlparser's `MySqlDialect::is_identifier_start`: an alphabetic character, `_`, `$`, `@` or any non-ASCII character.
#[verifier::external_body]
fn mysql_is_start(ch: char) -> (r: bool)
    ensures
        r == (alphabetic(ch) || ch == '_' || ch == '$' || ch == '@' || non_ascii(ch)),
{
    sqlparser::dialect::MySqlDialect {}.is_identifier_start(ch)
}

/// Relies on sqlparser's `MySqlDialect::is_identifier_part`: its identifier start, an ASCII digit or any non-ASCII character.
#[verifier::external_body]
fn mysql_is_part(ch: char) -> (r: bool)
    ensures
        r == (alphabetic(ch) || ch == '_' || ch == '$' || ch == '@' || non_ascii(ch) || ascii_digit(ch)),
{
    sqlparser::dialect::MySqlDialect {}.is_identifier_part(ch)
}

/// Relies on sqlparser's `PostgreSqlDialect::is_identifier_start`: an alphabetic character, `_` or any non-ASCII character.
#[verifier::external_body]
fn postgresql_is_start(ch: char) -> (r: bool)
    ensures
        r == (alphabetic(ch) || ch == '_' || non_ascii(ch)),
{
    sqlparser::dialect::PostgreSqlDialect {}.is_identifier_start(ch)
}

/// Relies on sqlparser's `PostgreSqlDialect::is_identifier_part`: an alphabetic character, ASCII digit, `$`, `_` or any non-ASCII character.
#[verifier::external_body]
fn postgresql_is_part(ch: char) -> (r: bool)
    ensures
        r == (alphabetic(ch) || ascii_digit(ch) || ch == '$' || ch == '_' || non_ascii(ch)),
{
    sqlparser::dialect::PostgreSqlDialect {}.is_identifier_part(ch)
}

/// Relies on sqlparser's `RedshiftSqlDialect::is_identifier_start`: PostgreSQL's identifier start, or `#`.
#[verifier::external_body]
fn redshift_is_start(ch: char) -> (r: bool)
    ensures
        r == (alphabetic(ch) || ch == '_' || non_ascii(ch) || ch == '#'),
{
    sqlparser::dialect::RedshiftSqlDialect {}.is_identifier_start(ch)
}

/// Relies on sqlparser's `RedshiftSqlDialect::is_identifier_part`: PostgreSQL's identifier part, or `#`.
#[verifier::external_body]
fn redshift_is_part(ch: char) -> (r: bool)
    ensures
        r == (alphabetic(ch) || ascii_digit(ch) || ch == '$' || ch == '_' || non_ascii(ch) || ch == '#'),
{
    sqlparser::dialect::RedshiftSqlDialect {}.is_identifier_part(ch)
}

/// Relies on sqlparser's `SQLiteDialect::is_identifier_start`: an ASCII letter, `_`, or a character from U+007F to U+FFFF.
#[verifier::external_body]
fn sqlite_is_start(ch: char) -> (r: bool)
    ensures
        r == (ascii_letter(ch) || ch == '_' || in_bmp_from_del(ch)),
{
    sqlparser::dialect::SQLiteDialect {}.is_identifier_start(ch)
}

/// Relies on sqlparser's `SQLiteDialect::is_identifier_part`: its identifier start, or an ASCII digit.
#[verifier::external_body]
fn sqlite_is_part(ch: char) -> (r: bool)
    ensures
        r == (ascii_letter(ch) || ch == '_' || in_bmp_from_del(ch) || ascii_digit(ch)),
{
    sqlparser::dialect::SQLiteDialect {}.is_identifier_part(ch)
}

/// Relies on sqlparser's `SnowflakeDialect::is_identifier_start`: an ASCII letter or `_`.
#[verifier::external_body]
fn snowflake_is_start(ch: char) -> (r: bool)
    ensures
        r == (ascii_letter(ch) || ch == '_'),
{
    sqlparser::dialect::SnowflakeDialect {}.is_identifier_start(ch)
}

/// Relies on sqlparser's `SnowflakeDialect::is_identifier_part`: an ASCII letter, digit, `$` or `_`.
#[verifier::external_body]
fn snowflake_is_part(ch: char) -> (r: bool)
    ensures
        r == (ascii_letter(ch) || ascii_digit(ch) || ch == '$' || ch == '_'),
{
    sqlparser::dialect::SnowflakeDialect {}.is_identifier_part(ch)
}

impl Dialect {
    /// Whether `ch` may begin an identifier under this dialect: the answer of
    /// the sqlparser dialect of the same name.
    pub fn is_identifier_start(&self, ch: char) -> (r: bool)
        ensures
            r == self.start_rule(ch),
    {
        match self {
            Dialect::AnsiDialect => ansi_is_start(ch),
            Dialect::BigQueryDialect => bigquery_is_start(ch),
            Dialect::ClickHouseDialect => clickhouse_is_start(ch),
            Dialect::DuckDbDialect => duckdb_is_start(ch),
            Dialect::GenericDialect => generic_is_start(ch),
            Dialect::HiveDialect => hive_is_start(ch),
            Dialect::MsSqlDialect => mssql_is_start(ch),
            Dialect::MySqlDialect => mysql_is_start(ch),
            Dialect::PostgreSqlDialect => postgresql_is_start(ch),
            Dialect::RedshiftSqlDialect => redshift_is_start(ch),
            Dialect::SQLiteDialect => sqlite_is_start(ch),
            Dialect::SnowflakeDialect => snowflake_is_start(ch),
        }
    }

    /// Whether `ch` may stand after the first character of an identifier under
    /// this dialect: the answer of the sqlparser dialect of the same name.
    pub fn is_identifier_part(&self, ch: char) -> (r: bool)
        ensures
            r == self.part_rule(ch),
    {
        match self {
            Dialect::AnsiDialect => ansi_is_part(ch),
            Dialect::BigQueryDialect => bigquery_is_part(ch),
            Dialect::ClickHouseDialect => clickhouse_is_part(ch),
            Dialect::DuckDbDialect => duckdb_is_part(ch),
            Dialect::GenericDialect => generic_is_part(ch),
            Dialect::HiveDialect => hive_is_part(ch),
            Dialect::MsSqlDialect => mssql_is_part(ch),
            Dialect::MySqlDialect => mysql_is_part(ch),
            Dialect::PostgreSqlDialect => postgresql_is_part(ch),
            Dialect::RedshiftSqlDialect => redshift_is_part(ch),
            Dialect::SQLiteDialect => sqlite_is_part(ch),
            Dialect::SnowflakeDialect => snowflake_is_part(ch),
        }
    }
}

impl SqlDialect for Dialect {
    fn is_identifier_start(&self, ch: char) -> bool {
        Dialect::is_identifier_start(self, ch)
    }

    fn is_identifier_part(&self, ch: char) -> bool {
        Dialect::is_identifier_part(self, ch)
    }
}

} // verus!
