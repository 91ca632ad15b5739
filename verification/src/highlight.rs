//! Terminal highlighting, line by line, by the syntect highlighter.

use vstd::prelude::*;
use syntect::easy::HighlightLines;
use syntect::highlighting::{Theme, ThemeSet};
use syntect::parsing::{SyntaxReference, SyntaxSet};
use crate::text::decimal;

verus! {

/// `syntect::parsing::SyntaxSet`, carried through unopened.
#[verifier::external_type_specification]
#[verifier::external_body]
pub struct ExSyntaxSet(SyntaxSet);

/// `syntect::parsing::SyntaxReference`, carried through unopened.
#[verifier::external_type_specification]
#[verifier::external_body]
pub struct ExSyntaxReference(SyntaxReference);

/// `syntect::highlighting::ThemeSet`, carried through unopened.
#[verifier::external_type_specification]
#[verifier::external_body]
pub struct ExThemeSet(ThemeSet);

/// `syntect::highlighting::Theme`, carried through unopened.
#[verifier::external_type_specification]
#[verifier::external_body]
pub struct ExTheme(Theme);

/// `syntect::easy::HighlightLines`, carried through unopened.
#[verifier::external_type_specification]
#[verifier::external_body]
pub struct ExHighlightLines<'a>(HighlightLines<'a>);

/// The theme that lines are painted in.
pub const THEME: &'static str = "base16-ocean.dark";

/// What a `SyntaxSet` holds, as far as a language is looked up in it: the
/// file extensions of its syntaxes.
pub uninterp spec fn syntax_extensions(syntaxes: SyntaxSet) -> Set<Seq<char>>;

/// What a `ThemeSet` holds, as far as a theme is looked up in it: the names
/// of its themes, which are the keys of `ThemeSet::themes`.
pub uninterp spec fn theme_names(themes: ThemeSet) -> Set<Seq<char>>;

/// A stretch of a line in its colours, each as red, green and blue.
pub struct Piece {
    pub foreground: (u8, u8, u8),
    pub background: (u8, u8, u8),
    pub text: Seq<char>,
}

/// The texts of the pieces, one after the other.
pub open spec fn pieces_text(pieces: Seq<Piece>) -> Seq<char>
    decreases pieces.len(),
{
    if pieces.len() == 0 {
        Seq::empty()
    } else {
        pieces_text(pieces.drop_last()) + pieces.last().text
    }
}

/// The three parts of a colour as they stand in an escape sequence.
pub open spec fn colour_text(colour: (u8, u8, u8)) -> Seq<char> {
    decimal(colour.0 as nat) + ";"@ + decimal(colour.1 as nat) + ";"@ + decimal(colour.2 as nat)
}

/// A piece as the terminal takes it: the 24-bit escape sequence of its
/// background, that of its foreground, then its text.
pub open spec fn escaped_piece(piece: Piece) -> Seq<char> {
    "\u{1b}[48;2;"@ + colour_text(piece.background) + "m"@ + "\u{1b}[38;2;"@ + colour_text(
        piece.foreground,
    ) + "m"@ + piece.text
}

/// The pieces as the terminal takes them, one after the other.
pub open spec fn escaped(pieces: Seq<Piece>) -> Seq<char>
    decreases pieces.len(),
{
    if pieces.len() == 0 {
        Seq::empty()
    } else {
        escaped(pieces.drop_last()) + escaped_piece(pieces.last())
    }
}

/// Whether `painted` is `line` painted: the line cut into pieces, whose texts
/// one after the other are the line again, each piece behind the escape
/// sequences of its colours. Which pieces and which colours is the
/// highlighter's to say.
pub open spec fn is_painting(painted: Seq<char>, line: Seq<char>) -> bool {
    exists|pieces: Seq<Piece>| pieces_text(pieces) == line && #[trigger] escaped(pieces) == painted
}

/// Calls `SyntaxSet::load_defaults_nonewlines`. Nothing is claimed of the set.
#[verifier::external_body]
fn load_syntaxes() -> SyntaxSet {
    SyntaxSet::load_defaults_nonewlines()
}

/// Calls `ThemeSet::load_defaults`.
///
/// Trusted: the set holds the theme named [`THEME`], which the function's
/// documentation lists among the keys of the map it gives.
#[verifier::external_body]
fn load_themes() -> (themes: ThemeSet)
    ensures
        theme_names(themes).contains(THEME@),
{
    ThemeSet::load_defaults()
}

/// Calls `SyntaxSet::find_syntax_by_extension`.
///
/// Trusted: a syntax is found where one of the set has the extension, and
/// only there. Nothing is claimed of the syntax.
#[verifier::external_body]
fn syntax_for<'a>(syntaxes: &'a SyntaxSet, tag: &str) -> (found: Option<&'a SyntaxReference>)
    ensures
        found is Some <==> syntax_extensions(*syntaxes).contains(tag@),
{
    syntaxes.find_syntax_by_extension(tag)
}

/// Looks a theme up by its name in `ThemeSet::themes`.
///
/// Trusted: a theme is found where the map has the name, and only there.
/// Nothing is claimed of the theme.
#[verifier::external_body]
fn theme_named<'a>(themes: &'a ThemeSet, name: &str) -> (found: Option<&'a Theme>)
    ensures
        found is Some <==> theme_names(*themes).contains(name@),
{
    themes.themes.get(name)
}

/// Calls `HighlightLines::new`. Nothing is claimed of the state.
#[verifier::external_body]
fn start_lines<'a>(syntax: &SyntaxReference, theme: &'a Theme) -> HighlightLines<'a> {
    HighlightLines::new(syntax, theme)
}

/// Calls `HighlightLines::highlight` on one line and writes the styled pieces
/// out with `syntect::util::as_24_bit_terminal_escaped`, background too.
///
/// Trusted: the first gives pieces whose texts, one after the other, are the
/// line, as its iterator documents; the second writes each piece behind the
/// escape sequences of its background and its foreground. Which pieces and
/// colours come back is not claimed: it depends on the lines the state has
/// seen. The call asks for the set that the state's syntax came from; every
/// set in this crate is the one of [`load_syntaxes`], and
/// [`HighlighterContext::open`] keeps a state with the set it was started on.
#[verifier::external_body]
fn paint_line(state: &mut HighlightLines<'_>, syntaxes: &SyntaxSet, line: &str) -> (painted: String)
    ensures
        is_painting(painted@, line@),
{
    let pieces = state.highlight(line, syntaxes);
    syntect::util::as_24_bit_terminal_escaped(&pieces[..], true)
}

/// The syntaxes and themes a highlighter draws on. It is built once and
/// handed to each rendering.
pub struct HighlighterContext {
    syntaxes: SyntaxSet,
    themes: ThemeSet,
}

/// The highlighter of one response. It carries what it has read from line to
/// line, and is made anew for every response.
pub struct LineHighlighter<'a> {
    state: HighlightLines<'a>,
    syntaxes: &'a SyntaxSet,
}

impl HighlighterContext {
    /// Whether the context holds the theme that lines are painted in.
    pub closed spec fn has_theme(&self) -> bool {
        theme_names(self.themes).contains(THEME@)
    }

    /// Whether the context can paint the language `tag`: it holds a syntax
    /// for it, and the theme.
    pub closed spec fn knows(&self, tag: Seq<char>) -> bool {
        syntax_extensions(self.syntaxes).contains(tag) && self.has_theme()
    }

    /// The context of the syntaxes and themes that come with the highlighter.
    /// The theme that lines are painted in is among them.
    pub fn load_defaults() -> (context: HighlighterContext)
        ensures
            context.has_theme(),
    {
        HighlighterContext { syntaxes: load_syntaxes(), themes: load_themes() }
    }

    /// A highlighter for a response in the language `tag`: one where the
    /// context knows the language, none where it does not.
    pub fn open<'a>(&'a self, tag: &str) -> (highlighter: Option<LineHighlighter<'a>>)
        ensures
            highlighter is Some <==> self.knows(tag@),
    {
        let syntax = syntax_for(&self.syntaxes, tag);
        let theme = theme_named(&self.themes, THEME);
        match (syntax, theme) {
            (Some(syntax), Some(theme)) => Some(
                LineHighlighter { state: start_lines(syntax, theme), syntaxes: &self.syntaxes },
            ),
            _ => None,
        }
    }

    /// Paints the lines of one response as the language `tag`: each line
    /// painted where the context knows the language, the lines as they are
    /// where it does not.
    pub fn highlight(&self, tag: &str, lines: Vec<String>) -> (painted: Vec<String>)
        ensures
            painted@.len() == lines@.len(),
            !self.knows(tag@) ==> painted == lines,
            self.knows(tag@) ==> forall|i: int|
                0 <= i < lines@.len() ==> is_painting((#[trigger] painted@[i])@, lines@[i]@),
    {
        paint_lines(self.open(tag), lines)
    }
}

impl<'a> LineHighlighter<'a> {
    /// Paints the next line of the response: the line in pieces, each behind
    /// the escape sequences of its colours.
    pub fn paint(&mut self, line: &str) -> (painted: String)
        ensures
            is_painting(painted@, line@),
    {
        paint_line(&mut self.state, self.syntaxes, line)
    }
}

/// Paints the lines of one response, in order and with the one highlighter
/// for all of them. Without a highlighter the lines come back as they are.
pub fn paint_lines(highlighter: Option<LineHighlighter<'_>>, lines: Vec<String>) -> (painted: Vec<String>)
    ensures
        painted@.len() == lines@.len(),
        highlighter is None ==> painted == lines,
        highlighter is Some ==> forall|i: int|
            0 <= i < lines@.len() ==> is_painting((#[trigger] painted@[i])@, lines@[i]@),
{
    match highlighter {
        Some(mut highlighter) => {
            let mut painted: Vec<String> = Vec::new();
            let mut i: usize = 0;
            while i < lines.len()
                invariant
                    i <= lines.len(),
                    painted@.len() == i,
                    forall|j: int| 0 <= j < i ==> is_painting((#[trigger] painted@[j])@, lines@[j]@),
                decreases lines.len() - i,
            {
                painted.push(highlighter.paint(lines[i].as_str()));
                i = i + 1;
            }
            painted
        },
        None => lines,
    }
}

} // verus!
