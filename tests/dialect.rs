use sql_highlighter::Dialect;
use sqlparser::dialect as sp;
use sqlparser::dialect::Dialect as _;

const SAMPLE: [char; 22] = [
    'a', 'Z', 'm', '0', '9', '_', '$', '#', '@', '{', '}', ' ', '-', '"', '`', '\u{7f}', '\u{80}',
    'é', '京', 'Ω', '\u{1F600}', '\u{10000}',
];

fn reference(d: Dialect) -> Box<dyn sp::Dialect> {
    match d {
        Dialect::AnsiDialect => Box::new(sp::AnsiDialect {}),
        Dialect::BigQueryDialect => Box::new(sp::BigQueryDialect {}),
        Dialect::ClickHouseDialect => Box::new(sp::ClickHouseDialect {}),
        Dialect::DuckDbDialect => Box::new(sp::DuckDbDialect {}),
        Dialect::GenericDialect => Box::new(sp::GenericDialect {}),
        Dialect::HiveDialect => Box::new(sp::HiveDialect {}),
        Dialect::MsSqlDialect => Box::new(sp::MsSqlDialect {}),
        Dialect::MySqlDialect => Box::new(sp::MySqlDialect {}),
        Dialect::PostgreSqlDialect => Box::new(sp::PostgreSqlDialect {}),
        Dialect::RedshiftSqlDialect => Box::new(sp::RedshiftSqlDialect {}),
        Dialect::SQLiteDialect => Box::new(sp::SQLiteDialect {}),
        Dialect::SnowflakeDialect => Box::new(sp::SnowflakeDialect {}),
    }
}

const ALL: [Dialect; 12] = [
    Dialect::AnsiDialect,
    Dialect::BigQueryDialect,
    Dialect::ClickHouseDialect,
    Dialect::DuckDbDialect,
    Dialect::GenericDialect,
    Dialect::HiveDialect,
    Dialect::MsSqlDialect,
    Dialect::MySqlDialect,
    Dialect::PostgreSqlDialect,
    Dialect::RedshiftSqlDialect,
    Dialect::SQLiteDialect,
    Dialect::SnowflakeDialect,
];

#[test]
fn predicates_agree_with_sqlparser() {
    for d in ALL {
        let r = reference(d);
        for c in SAMPLE {
            assert_eq!(d.is_identifier_start(c), r.is_identifier_start(c), "{:?} start {:?}", d, c);
            assert_eq!(d.is_identifier_part(c), r.is_identifier_part(c), "{:?} part {:?}", d, c);
        }
    }
}

#[test]
fn ansi_identifier_rules() {
    let d = Dialect::AnsiDialect;
    assert!(d.is_identifier_start('a'));
    assert!(!d.is_identifier_start('1'));
    assert!(!d.is_identifier_start('_'));
    assert!(d.is_identifier_part('_'));
    assert!(d.is_identifier_part('7'));
    assert!(!d.is_identifier_part('$'));
}

#[test]
fn dialect_specific_rules() {
    assert!(Dialect::BigQueryDialect.is_identifier_start('@'));
    assert!(Dialect::ClickHouseDialect.is_identifier_part('3'));
    assert!(!Dialect::ClickHouseDialect.is_identifier_start('3'));
    assert!(Dialect::DuckDbDialect.is_identifier_part('$'));
    assert!(Dialect::GenericDialect.is_identifier_start('#'));
    assert!(Dialect::HiveDialect.is_identifier_start('1'));
    assert!(Dialect::HiveDialect.is_identifier_part('{'));
    assert!(Dialect::MsSqlDialect.is_identifier_start('@'));
    assert!(Dialect::MySqlDialect.is_identifier_start('$'));
    assert!(Dialect::PostgreSqlDialect.is_identifier_start('é'));
    assert!(!Dialect::PostgreSqlDialect.is_identifier_start('#'));
    assert!(Dialect::RedshiftSqlDialect.is_identifier_start('#'));
    assert!(Dialect::SQLiteDialect.is_identifier_start('\u{7f}'));
    assert!(!Dialect::SQLiteDialect.is_identifier_start('\u{10000}'));
    assert!(!Dialect::SnowflakeDialect.is_identifier_start('$'));
    assert!(Dialect::SnowflakeDialect.is_identifier_part('$'));
}

#[test]
fn identifier_part_covers_digits_where_start_does_not() {
    for d in ALL {
        if d != Dialect::HiveDialect {
            assert!(!d.is_identifier_start('5'), "{:?}", d);
        }
        assert!(d.is_identifier_part('5'), "{:?}", d);
    }
}
