//! The keyword highlighter: one styled span per token of a line.
use vstd::prelude::*;

use crate::dialect::Dialect;
use crate::lexeme::{tokenize, tokens_of, Lexeme, LexemeView};
use nu_ansi_term::{Color, Style};
use reedline::{Highlighter, StyledText};

verus! {

#[verifier::external_type_specification]
pub struct ExStyle(Style);

#[verifier::external_type_specification]
pub struct ExColor(Color);

#[verifier::external_type_specification]
pub struct ExStyledText(StyledText);

/// Bold, green foreground, nothing else.
pub open spec fn reserved_style() -> Style {
    Style {
        foreground: Some(Color::Green),
        background: None,
        is_bold: true,
        is_dimmed: false,
        is_italic: false,
        is_underline: false,
        is_blink: false,
        is_reverse: false,
        is_hidden: false,
        is_strikethrough: false,
        prefix_with_reset: false,
    }
}

/// No colour and no attribute: text painted with it is left as it is.
pub open spec fn plain_style() -> Style {
    Style {
        foreground: None,
        background: None,
        is_bold: false,
        is_dimmed: false,
        is_italic: false,
        is_underline: false,
        is_blink: false,
        is_reverse: false,
        is_hidden: false,
        is_strikethrough: false,
        prefix_with_reset: false,
    }
}

/// The upper-case form of `s`, as `str::to_uppercase` gives it.
pub uninterp spec fn upper_of(s: Seq<char>) -> Seq<char>;

/// Relies on `str::to_uppercase`: the result depends on the characters alone.
#[verifier::external_body]
fn to_upper(s: &str) -> (r: String)
    ensures
        r@ == upper_of(s@),
{
    s.to_uppercase()
}

/// Whether a token is a reserved word.
pub open spec fn is_reserved(l: LexemeView) -> bool {
    match l {
        LexemeView::Word { reserved, .. } => reserved,
        LexemeView::Other { .. } => false,
    }
}

/// The text shown for a token: a reserved word upper-cased, any other word as
/// written, any other token as the tokenizer renders it.
pub open spec fn shown_text(l: LexemeView) -> Seq<char> {
    match l {
        LexemeView::Word { value, reserved } => if reserved {
            upper_of(value)
        } else {
            value
        },
        LexemeView::Other { text } => text,
    }
}

/// The span painted for one token.
pub open spec fn span_of(l: LexemeView) -> (Style, Seq<char>) {
    if is_reserved(l) {
        (reserved_style(), shown_text(l))
    } else {
        (plain_style(), shown_text(l))
    }
}

/// The spans for `line` under `dialect`: one per token, or the whole line
/// unstyled where the tokenizer fails.
pub open spec fn highlighted(dialect: Dialect, line: Seq<char>) -> Seq<(Style, Seq<char>)> {
    match tokens_of(dialect, line) {
        Some(ts) => ts.map_values(|l: LexemeView| span_of(l)),
        None => seq![(plain_style(), line)],
    }
}

/// The mathematical value of a span buffer.
pub open spec fn spans_view(b: Seq<(Style, String)>) -> Seq<(Style, Seq<char>)> {
    b.map_values(|p: (Style, String)| (p.0, p.1@))
}

/// The texts of `spans`, joined in order.
pub open spec fn joined(spans: Seq<(Style, Seq<char>)>) -> Seq<char>
    decreases spans.len(),
{
    if spans.len() == 0 {
        seq![]
    } else {
        joined(spans.drop_last()) + spans.last().1
    }
}

/// The shown texts of `ts`, joined in order.
pub open spec fn rendering(ts: Seq<LexemeView>) -> Seq<char>
    decreases ts.len(),
{
    if ts.len() == 0 {
        seq![]
    } else {
        rendering(ts.drop_last()) + shown_text(ts.last())
    }
}

/// Paints each token: a reserved word bold green and upper-cased, anything
/// else unstyled with its own text.
pub fn highlight_tokens(tokens: Vec<Lexeme>) -> (r: StyledText)
    ensures
        spans_view(r.buffer@) == tokens@.map_values(|l: Lexeme| span_of(l@)),
        r.buffer@.len() == tokens@.len(),
        forall|i: int|
            0 <= i < tokens@.len() ==> (#[trigger] r.buffer@[i]).0 == span_of(tokens@[i]@).0
                && r.buffer@[i].1@ == span_of(tokens@[i]@).1,
{
    let mut ret = StyledText { buffer: Vec::new() };
    let mut i: usize = 0;
    while i < tokens.len()
        invariant
            i <= tokens@.len(),
            ret.buffer@.len() == i,
            forall|j: int|
                0 <= j < i ==> (#[trigger] ret.buffer@[j].0, ret.buffer@[j].1@) == span_of(tokens@[j]@),
        decreases tokens@.len() - i,
    {
        let span = match &tokens[i] {
            Lexeme::Word { value, reserved } => if *reserved {
                (SQLKeywordHighlighter::keyword_style(), to_upper(value.as_str()))
            } else {
                (unstyled(), value.clone())
            },
            Lexeme::Other { text } => (unstyled(), text.clone()),
        };
        assert((span.0, span.1@) == span_of(tokens@[i as int]@));
        ret.buffer.push(span);
        i = i + 1;
    }
    assert(spans_view(ret.buffer@) =~= tokens@.map_values(|l: Lexeme| span_of(l@)));
    ret
}

fn unstyled() -> (r: Style)
    ensures
        r == plain_style(),
{
    Style {
        foreground: None,
        background: None,
        is_bold: false,
        is_dimmed: false,
        is_italic: false,
        is_underline: false,
        is_blink: false,
        is_reverse: false,
        is_hidden: false,
        is_strikethrough: false,
        prefix_with_reset: false,
    }
}

/// Highlights the SQL keywords of a line, for reedline.
pub struct SQLKeywordHighlighter {
    dialect: Dialect,
}

impl View for SQLKeywordHighlighter {
    type V = Dialect;

    /// The dialect that lines are tokenized under.
    closed spec fn view(&self) -> Dialect {
        self.dialect
    }
}

impl Default for SQLKeywordHighlighter {
    fn default() -> (r: Self)
        ensures
            r@ == Dialect::PostgreSqlDialect,
    {
        SQLKeywordHighlighter { dialect: Dialect::default() }
    }
}

impl SQLKeywordHighlighter {
    /// Style for keywords.
    fn keyword_style() -> (r: Style)
        ensures
            r == reserved_style(),
    {
        Style {
            foreground: Some(Color::Green),
            background: None,
            is_bold: true,
            is_dimmed: false,
            is_italic: false,
            is_underline: false,
            is_blink: false,
            is_reverse: false,
            is_hidden: false,
            is_strikethrough: false,
            prefix_with_reset: false,
        }
    }

    /// Creates a highlighter with the default dialect.
    pub fn new() -> (r: Self)
        ensures
            r@ == Dialect::PostgreSqlDialect,
    {
        Self::default()
    }

    /// Creates a highlighter with a specific dialect.
    pub fn new_with_dialect(dialect: Dialect) -> (r: Self)
        ensures
            r@ == dialect,
    {
        SQLKeywordHighlighter { dialect }
    }

    /// The spans of `line`: one per token, or the whole line unstyled where
    /// the tokenizer fails. `cursor` does not change the result.
    #[allow(unused_variables)]
    pub fn highlight(&self, line: &str, cursor: usize) -> (r: StyledText)
        ensures
            spans_view(r.buffer@) == highlighted(self@, line@),
    {
        match tokenize(&self.dialect, line) {
            Ok(tokens) => highlight_tokens(tokens),
            Err(_) => {
                let mut ret = StyledText { buffer: Vec::new() };
                ret.buffer.push((unstyled(), line.to_string()));
                assert(spans_view(ret.buffer@) =~= highlighted(self@, line@));
                ret
            },
        }
    }
}

impl Highlighter for SQLKeywordHighlighter {
    fn highlight(&self, line: &str, cursor: usize) -> StyledText {
        SQLKeywordHighlighter::highlight(self, line, cursor)
    }
}

proof fn lemma_joined_spans(ts: Seq<LexemeView>)
    ensures
        joined(ts.map_values(|l: LexemeView| span_of(l))) == rendering(ts),
    decreases ts.len(),
{
    if ts.len() > 0 {
        lemma_joined_spans(ts.drop_last());
        assert(ts.map_values(|l: LexemeView| span_of(l)).drop_last() =~= ts.drop_last().map_values(
            |l: LexemeView| span_of(l),
        ));
    }
}

/// Where the tokenizer succeeds on `line`, the texts of the spans joined in
/// order are the tokens' texts joined in order: reserved words upper-cased,
/// every other token exactly as the tokenizer reports it.
pub proof fn lemma_spans_render_tokens(dialect: Dialect, line: Seq<char>)
    requires
        tokens_of(dialect, line) is Some,
    ensures
        joined(highlighted(dialect, line)) == rendering(tokens_of(dialect, line)->Some_0),
{
    lemma_joined_spans(tokens_of(dialect, line)->Some_0);
}

/// Where the tokenizer fails on `line`, the result is one unstyled span that
/// holds `line` unchanged.
pub proof fn lemma_failure_shows_line(dialect: Dialect, line: Seq<char>)
    requires
        tokens_of(dialect, line) is None,
    ensures
        highlighted(dialect, line) == seq![(plain_style(), line)],
        joined(highlighted(dialect, line)) == line,
{
    let spans = highlighted(dialect, line);
    assert(spans.drop_last() =~= Seq::<(Style, Seq<char>)>::empty());
    assert(joined(spans.drop_last()) =~= Seq::<char>::empty());
    assert(joined(spans) =~= line);
}

/// Two highlights of the same line with the same dialect give the same spans.
pub proof fn lemma_highlight_deterministic(
    dialect: Dialect,
    line: Seq<char>,
    first: StyledText,
    second: StyledText,
)
    requires
        spans_view(first.buffer@) == highlighted(dialect, line),
        spans_view(second.buffer@) == highlighted(dialect, line),
    ensures
        spans_view(first.buffer@) == spans_view(second.buffer@),
{
}

/// Every span is either bold green (exactly the reserved words) or unstyled.
pub proof fn lemma_span_styles(dialect: Dialect, line: Seq<char>)
    ensures
        reserved_style().is_bold,
        reserved_style().foreground == Some(Color::Green),
        plain_style().foreground is None,
        !plain_style().is_bold,
        forall|i: int|
            0 <= i < highlighted(dialect, line).len() ==> {
                let s = #[trigger] highlighted(dialect, line)[i].0;
                s == reserved_style() || s == plain_style()
            },
        tokens_of(dialect, line) is Some ==> forall|i: int|
            0 <= i < highlighted(dialect, line).len() ==> (#[trigger] highlighted(dialect, line)[i].0
                == reserved_style() <==> is_reserved(tokens_of(dialect, line)->Some_0[i])),
{
}

} // verus!
