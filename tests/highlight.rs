use nu_ansi_term::{Color, Style};
use reedline::Highlighter;
use sql_highlighter::highlighter::highlight_tokens;
use sql_highlighter::{Dialect, Lexeme, SQLKeywordHighlighter};

const ALL_DIALECTS: [Dialect; 12] = [
    Dialect::AnsiDialect,
    Dialect::BigQueryDialect,
    Dialect::ClickHouseDialect,
    Dialect::DuckDbDialect,
    Dialect::GenericDialect,
    Dialect::HiveDialect,
    Dialect::MsSqlDialect,
    Dialect::MySqlDialect,
    Dialect::PostgreSqlDialect,
    Dialect::RedshiftSqlDialect,
    Dialect::SQLiteDialect,
    Dialect::SnowflakeDialect,
];

fn keyword() -> Style {
    Style::new().bold().fg(Color::Green)
}

fn spans(h: &SQLKeywordHighlighter, line: &str) -> Vec<(Style, String)> {
    h.highlight(line, 0).buffer
}

fn joined(spans: &[(Style, String)]) -> String {
    spans.iter().map(|(_, t)| t.as_str()).collect()
}

#[test]
fn select_star_from_default_dialect() {
    let h = SQLKeywordHighlighter::new();
    let expected = vec![
        (keyword(), "SELECT".to_string()),
        (Style::default(), " ".to_string()),
        (Style::default(), "*".to_string()),
        (Style::default(), " ".to_string()),
        (keyword(), "FROM".to_string()),
        (Style::default(), " ".to_string()),
        (Style::default(), "foo".to_string()),
    ];
    assert_eq!(spans(&h, "select * from foo"), expected);
}

#[test]
fn unterminated_string_is_shown_unstyled() {
    for d in ALL_DIALECTS {
        let h = SQLKeywordHighlighter::new_with_dialect(d);
        let line = "select 'unterminated";
        assert_eq!(spans(&h, line), vec![(Style::default(), line.to_string())]);
    }
}

#[test]
fn empty_line_has_no_spans() {
    let h = SQLKeywordHighlighter::new();
    assert!(spans(&h, "").is_empty());
}

#[test]
fn mixed_case_keyword_is_upper_cased() {
    let h = SQLKeywordHighlighter::new();
    let s = spans(&h, "SeLeCt");
    assert_eq!(s, vec![(keyword(), "SELECT".to_string())]);
    assert!(s[0].0.is_bold);
    assert_eq!(s[0].0.foreground, Some(Color::Green));
}

#[test]
fn plain_words_keep_their_case() {
    let h = SQLKeywordHighlighter::new();
    assert_eq!(spans(&h, "MyTable"), vec![(Style::default(), "MyTable".to_string())]);
}

#[test]
fn quoted_keyword_is_not_reserved() {
    let h = SQLKeywordHighlighter::new();
    assert_eq!(spans(&h, "\"select\""), vec![(Style::default(), "select".to_string())]);
}

#[test]
fn joined_spans_upper_case_only_keywords() {
    let h = SQLKeywordHighlighter::new_with_dialect(Dialect::GenericDialect);
    let s = spans(&h, "select a, b from t where x = 1");
    assert_eq!(joined(&s), "SELECT a, b FROM t WHERE x = 1");
    for (style, text) in &s {
        if *style == keyword() {
            assert_eq!(text.to_uppercase(), *text);
        } else {
            assert_eq!(*style, Style::default());
        }
    }
}

#[test]
fn string_literal_is_rendered_by_the_tokenizer() {
    let h = SQLKeywordHighlighter::new();
    let s = spans(&h, "select 'it''s'");
    assert_eq!(s.last().unwrap(), &(Style::default(), "'it's'".to_string()));
}

#[test]
fn highlight_twice_gives_same_spans() {
    for d in ALL_DIALECTS {
        let h = SQLKeywordHighlighter::new_with_dialect(d);
        for line in ["select * from foo", "select 'x", "", "insert into t values (1, 'a')"] {
            assert_eq!(spans(&h, line), spans(&h, line));
        }
    }
}

#[test]
fn every_span_is_keyword_or_plain() {
    for d in ALL_DIALECTS {
        let h = SQLKeywordHighlighter::new_with_dialect(d);
        for (style, _) in spans(&h, "SELECT count(*) FROM orders WHERE id > 10 -- note") {
            assert!(style == keyword() || style == Style::default());
        }
    }
}

#[test]
fn reedline_trait_gives_same_spans() {
    let h = SQLKeywordHighlighter::default();
    let via_trait = <SQLKeywordHighlighter as Highlighter>::highlight(&h, "select x", 3).buffer;
    assert_eq!(via_trait, spans(&h, "select x"));
    assert_eq!(via_trait[0], (keyword(), "SELECT".to_string()));
}

#[test]
fn cursor_does_not_change_spans() {
    let h = SQLKeywordHighlighter::new();
    let line = "select a from b";
    assert_eq!(h.highlight(line, 0).buffer, h.highlight(line, 7).buffer);
}

#[test]
fn tokens_are_painted_one_by_one() {
    let tokens = vec![
        Lexeme::Word { value: "from".to_string(), reserved: true },
        Lexeme::Other { text: " ".to_string() },
        Lexeme::Word { value: "Orders".to_string(), reserved: false },
    ];
    let expected = vec![
        (keyword(), "FROM".to_string()),
        (Style::default(), " ".to_string()),
        (Style::default(), "Orders".to_string()),
    ];
    assert_eq!(highlight_tokens(tokens).buffer, expected);
}

#[test]
fn no_tokens_no_spans() {
    assert!(highlight_tokens(Vec::new()).buffer.is_empty());
}

#[test]
fn default_dialect_is_postgresql() {
    assert_eq!(Dialect::default(), Dialect::PostgreSqlDialect);
}
