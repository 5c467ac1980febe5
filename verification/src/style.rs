//! Colours and styles, the table that assigns a style to each part of a
//! line, and the painting of styled text for a terminal.

use colored::Color as Ink;
use colored::Colorize;
use vstd::prelude::*;

verus! {

/// The sixteen terminal colours.
#[derive(Debug, Clone, Copy, PartialEq, Eq)]
pub enum Color {
    Black,
    Red,
    Green,
    Yellow,
    Blue,
    Magenta,
    Cyan,
    White,
    BrightBlack,
    BrightRed,
    BrightGreen,
    BrightYellow,
    BrightBlue,
    BrightMagenta,
    BrightCyan,
    BrightWhite,
}

/// How a piece of text is shown: foreground, background, bold.
#[derive(Debug, Clone, Copy, PartialEq, Eq)]
pub struct Style {
    pub fg: Option<Color>,
    pub bg: Option<Color>,
    pub bold: bool,
}

/// The severities that have a badge style of their own, and `Other` for
/// every other label.
#[derive(Debug, Clone, Copy, PartialEq, Eq)]
pub enum Severity {
    Panic,
    Fatal,
    Error,
    Warn,
    Info,
    Debug,
    Trace,
    Other,
}

/// What a piece of text is, for the purpose of choosing its style.
#[derive(Debug, Clone, Copy, PartialEq, Eq)]
pub enum Role {
    /// Text that is written as it is.
    Plain,
    /// The time of a record, the key of a field, the tag of a diagnostic.
    Muted,
    /// The badge of a severity.
    Badge(Severity),
    /// The badge of a record without a level.
    NoBadge,
    /// A message that is a string or a number.
    Message,
    /// A message of another kind, or a missing one.
    Alert,
    FieldString,
    FieldNumber,
    FieldBool,
    FieldNull,
    /// Braces, colons and commas of a nested object.
    ObjectMark,
    /// Brackets and commas of a nested array.
    ArrayMark,
}

/// A text with its style, as a value of specifications.
pub struct Piece {
    pub text: Seq<char>,
    pub style: Style,
}

/// A text with its style.
#[derive(Debug, PartialEq, Eq)]
pub struct Span {
    pub text: String,
    pub style: Style,
}

impl View for Span {
    type V = Piece;

    open spec fn view(&self) -> Piece {
        Piece { text: self.text@, style: self.style }
    }
}

/// The pieces that a sequence of spans stands for.
pub open spec fn pieces_of(spans: Seq<Span>) -> Seq<Piece> {
    Seq::new(spans.len(), |i: int| spans[i]@)
}

/// The texts of a sequence of pieces, one after the other.
pub open spec fn plain_text(pieces: Seq<Piece>) -> Seq<char> {
    Seq::new(pieces.len(), |i: int| pieces[i].text).flatten()
}

impl Style {
    /// Whether the style changes nothing.
    pub open spec fn is_plain(self) -> bool {
        self.fg is None && self.bg is None && !self.bold
    }

    /// The style of a colour on the default background.
    pub open spec fn colored(fg: Color) -> Style {
        Style { fg: Some(fg), bg: None, bold: false }
    }

    /// The style of a bold colour on the default background.
    pub open spec fn strong(fg: Color) -> Style {
        Style { fg: Some(fg), bg: None, bold: true }
    }

    /// The style of a badge: a bold colour on a coloured background.
    pub open spec fn badge(fg: Color, bg: Color) -> Style {
        Style { fg: Some(fg), bg: Some(bg), bold: true }
    }
}

/// The style table: the style of each role.
pub open spec fn style_of(role: Role) -> Style {
    match role {
        Role::Plain => Style { fg: None, bg: None, bold: false },
        Role::Muted => Style::colored(Color::BrightBlack),
        Role::Badge(Severity::Panic) => Style::badge(Color::Red, Color::BrightWhite),
        Role::Badge(Severity::Fatal) => Style::badge(Color::BrightWhite, Color::Red),
        Role::Badge(Severity::Error) => Style::badge(Color::BrightWhite, Color::BrightRed),
        Role::Badge(Severity::Warn) => Style::badge(Color::BrightBlack, Color::BrightYellow),
        Role::Badge(Severity::Info) => Style::badge(Color::BrightWhite, Color::BrightBlue),
        Role::Badge(Severity::Debug) => Style::badge(Color::BrightWhite, Color::BrightBlack),
        Role::Badge(Severity::Trace) => Style::badge(Color::BrightWhite, Color::Black),
        Role::Badge(Severity::Other) => Style::badge(Color::BrightWhite, Color::BrightBlack),
        Role::NoBadge => Style::badge(Color::BrightBlack, Color::BrightYellow),
        Role::Message => Style::strong(Color::White),
        Role::Alert => Style::strong(Color::BrightRed),
        Role::FieldString => Style::colored(Color::BrightBlue),
        Role::FieldNumber => Style::colored(Color::BrightCyan),
        Role::FieldBool => Style::colored(Color::BrightGreen),
        Role::FieldNull => Style::colored(Color::BrightRed),
        Role::ObjectMark => Style::colored(Color::BrightYellow),
        Role::ArrayMark => Style::colored(Color::BrightMagenta),
    }
}

/// The piece that a text makes in a role.
pub open spec fn piece(text: Seq<char>, role: Role) -> Piece {
    Piece { text, style: style_of(role) }
}

/// Looks a role up in the style table.
pub fn style_for(role: Role) -> (style: Style)
    ensures
        style == style_of(role),
{
    match role {
        Role::Plain => Style { fg: None, bg: None, bold: false },
        Role::Muted => Style { fg: Some(Color::BrightBlack), bg: None, bold: false },
        Role::Badge(severity) => {
            let (fg, bg) = match severity {
                Severity::Panic => (Color::Red, Color::BrightWhite),
                Severity::Fatal => (Color::BrightWhite, Color::Red),
                Severity::Error => (Color::BrightWhite, Color::BrightRed),
                Severity::Warn => (Color::BrightBlack, Color::BrightYellow),
                Severity::Info => (Color::BrightWhite, Color::BrightBlue),
                Severity::Debug => (Color::BrightWhite, Color::BrightBlack),
                Severity::Trace => (Color::BrightWhite, Color::Black),
                Severity::Other => (Color::BrightWhite, Color::BrightBlack),
            };
            Style { fg: Some(fg), bg: Some(bg), bold: true }
        },
        Role::NoBadge => Style {
            fg: Some(Color::BrightBlack),
            bg: Some(Color::BrightYellow),
            bold: true,
        },
        Role::Message => Style { fg: Some(Color::White), bg: None, bold: true },
        Role::Alert => Style { fg: Some(Color::BrightRed), bg: None, bold: true },
        Role::FieldString => Style { fg: Some(Color::BrightBlue), bg: None, bold: false },
        Role::FieldNumber => Style { fg: Some(Color::BrightCyan), bg: None, bold: false },
        Role::FieldBool => Style { fg: Some(Color::BrightGreen), bg: None, bold: false },
        Role::FieldNull => Style { fg: Some(Color::BrightRed), bg: None, bold: false },
        Role::ObjectMark => Style { fg: Some(Color::BrightYellow), bg: None, bold: false },
        Role::ArrayMark => Style { fg: Some(Color::BrightMagenta), bg: None, bold: false },
    }
}

/// Makes the span of a text in a role.
pub fn span(text: String, role: Role) -> (r: Span)
    ensures
        r@ == piece(text@, role),
{
    Span { text, style: style_for(role) }
}

/// Makes the span of a literal text in a role.
pub fn span_of(text: &str, role: Role) -> (r: Span)
    ensures
        r@ == piece(text@, role),
{
    Span { text: String::from_str(text), style: style_for(role) }
}

/// What `colored` writes for a text in a style that is not plain while
/// colours are switched on: the escape sequence of the style, the text (in
/// which the style is taken up again behind every reset sequence), and the
/// reset sequence.
pub uninterp spec fn ansi_text(text: Seq<char>, style: Style) -> Seq<char>;

/// `ColoredString`'s `to_string`, on the text with the style's colours, each
/// as the colour of `colored` of the same name, and, where the style is
/// bold, `bold()`. `colored` decides from the environment, the terminal and
/// its override switch whether colours are on: the result is the text
/// itself where they are off, and `ansi_text` where they are on. (This
/// holds as long as nobody flips the override switch while the call runs.)
#[verifier::external_body]
fn paint(text: &str, style: Style) -> (out: String)
    requires
        !style.is_plain(),
    ensures
        out@ == text@ || out@ == ansi_text(text@, style),
{
    let ink = |c| match c {
        Color::Black => Ink::Black, Color::Red => Ink::Red, Color::Green => Ink::Green,
        Color::Yellow => Ink::Yellow, Color::Blue => Ink::Blue, Color::Magenta => Ink::Magenta,
        Color::Cyan => Ink::Cyan, Color::White => Ink::White,
        Color::BrightBlack => Ink::BrightBlack, Color::BrightRed => Ink::BrightRed,
        Color::BrightGreen => Ink::BrightGreen, Color::BrightYellow => Ink::BrightYellow,
        Color::BrightBlue => Ink::BrightBlue, Color::BrightMagenta => Ink::BrightMagenta,
        Color::BrightCyan => Ink::BrightCyan, Color::BrightWhite => Ink::BrightWhite,
    };
    let mut shown = colored::ColoredString::from(text);
    shown.fgcolor = style.fg.map(ink);
    shown.bgcolor = style.bg.map(ink);
    if style.bold { shown = shown.bold(); }
    shown.to_string()
}

/// Whether a text is one of the ways a piece can come out on the terminal:
/// as it is, or, for a style that is not plain, with its escape sequences.
pub open spec fn is_painting(piece: Piece, out: Seq<char>) -> bool {
    out == piece.text || (!piece.style.is_plain() && out == ansi_text(piece.text, piece.style))
}

/// Whether each text is a painting of the piece at its place.
pub open spec fn are_paintings(pieces: Seq<Piece>, outs: Seq<Seq<char>>) -> bool {
    &&& outs.len() == pieces.len()
    &&& forall|i: int| 0 <= i < pieces.len() ==> is_painting(pieces[i], #[trigger] outs[i])
}

/// Whether a text is a rendering of the pieces: paintings of them, one after
/// the other.
pub open spec fn is_rendering(pieces: Seq<Piece>, out: Seq<char>) -> bool {
    exists|outs: Seq<Seq<char>>| are_paintings(pieces, outs) && out == outs.flatten()
}

/// Paints one span for the terminal.
pub fn paint_span(span: &Span) -> (out: String)
    ensures
        is_painting(span@, out@),
{
    if span.style.fg.is_none() && span.style.bg.is_none() && !span.style.bold {
        span.text.clone()
    } else {
        paint(span.text.as_str(), span.style)
    }
}

/// Renders spans for the terminal, one after the other.
pub fn render(spans: &Vec<Span>) -> (out: String)
    ensures
        is_rendering(pieces_of(spans@), out@),
{
    let mut out = String::new();
    let ghost mut outs: Seq<Seq<char>> = Seq::empty();
    let mut i: usize = 0;
    while i < spans.len()
        invariant
            0 <= i <= spans.len(),
            are_paintings(pieces_of(spans@).take(i as int), outs),
            out@ == outs.flatten(),
        decreases spans.len() - i,
    {
        let painted = paint_span(&spans[i]);
        out.append(painted.as_str());
        proof {
            let before = outs;
            outs = outs.push(painted@);
            before.lemma_flatten_push(painted@);
            assert(pieces_of(spans@).take(i + 1) =~= pieces_of(spans@).take(i as int).push(
                spans[i as int]@,
            ));
        }
        i += 1;
    }
    proof {
        assert(pieces_of(spans@).take(i as int) =~= pieces_of(spans@));
    }
    out
}

/// Writes the texts of spans without any styling.
pub fn plain(spans: &Vec<Span>) -> (out: String)
    ensures
        out@ == plain_text(pieces_of(spans@)),
{
    let mut out = String::new();
    let ghost texts = Seq::new(spans@.len(), |i: int| pieces_of(spans@)[i].text);
    let mut i: usize = 0;
    while i < spans.len()
        invariant
            0 <= i <= spans.len(),
            texts == Seq::new(spans@.len(), |i: int| pieces_of(spans@)[i].text),
            out@ == texts.take(i as int).flatten(),
        decreases spans.len() - i,
    {
        out.append(spans[i].text.as_str());
        proof {
            texts.take(i as int).lemma_flatten_push(spans[i as int].text@);
            assert(texts.take(i + 1) =~= texts.take(i as int).push(spans[i as int].text@));
        }
        i += 1;
    }
    proof {
        assert(texts.take(i as int) =~= texts);
    }
    out
}

/// A rendering in which every piece came out as it is, is the plain text.
pub proof fn rendering_without_colors(pieces: Seq<Piece>, outs: Seq<Seq<char>>)
    requires
        outs.len() == pieces.len(),
        forall|i: int| 0 <= i < pieces.len() ==> #[trigger] outs[i] == pieces[i].text,
    ensures
        are_paintings(pieces, outs),
        outs.flatten() == plain_text(pieces),
{
    assert(outs =~= Seq::new(pieces.len(), |i: int| pieces[i].text));
}

/// A rendering of a single plain piece is its text.
pub proof fn rendering_of_plain(text: Seq<char>, out: Seq<char>)
    requires
        is_rendering(seq![piece(text, Role::Plain)], out),
    ensures
        out == text,
{
    let outs = choose|outs: Seq<Seq<char>>|
        are_paintings(seq![piece(text, Role::Plain)], outs) && out == outs.flatten();
    assert(outs[0] == text);
    outs.lemma_flatten_one_element();
}

} // verus!
