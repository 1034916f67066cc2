//! Painted text: spans with a colour, rows of them, and the areas they are drawn in.

use crate::game::state::RoleAssignment;
use crate::harness::action_log::ActionKind;
use crate::roles::data::name_of;
use crate::roles::{type_of, Character, CharacterType};
use crate::text::{chars_of, dec, numbered};
use vstd::prelude::*;
use vstd::string::*;

verus! {

/// A colour of the terminal palette.
#[derive(Debug, Clone, Copy, PartialEq, Eq, Structural)]
pub enum Tone {
    /// Whatever the terminal uses.
    Plain,
    Black,
    White,
    Gray,
    DarkGray,
    Cyan,
    Green,
    Yellow,
    Blue,
    Red,
    Magenta,
    LightRed,
    LightGreen,
}

/// How a span is drawn.
#[derive(Debug, Clone, Copy, PartialEq, Eq, Structural)]
pub struct Paint {
    pub fg: Tone,
    pub bold: bool,
    pub italic: bool,
}

/// Plain paint in a colour.
pub open spec fn ink(fg: Tone) -> Paint {
    Paint { fg, bold: false, italic: false }
}

/// Bold paint in a colour.
pub open spec fn bold_ink(fg: Tone) -> Paint {
    Paint { fg, bold: true, italic: false }
}

impl Paint {
    pub fn ink(fg: Tone) -> (p: Paint)
        ensures
            p == ink(fg),
    {
        Paint { fg, bold: false, italic: false }
    }

    pub fn bold(fg: Tone) -> (p: Paint)
        ensures
            p == bold_ink(fg),
    {
        Paint { fg, bold: true, italic: false }
    }
}

/// A painted piece of text.
#[derive(Debug)]
pub struct Span {
    pub text: String,
    pub paint: Paint,
}

/// What a span says.
pub struct SpanView {
    pub text: Seq<char>,
    pub paint: Paint,
}

impl View for Span {
    type V = SpanView;

    open spec fn view(&self) -> SpanView {
        SpanView { text: self.text@, paint: self.paint }
    }
}

/// A row of spans, as it reads.
pub type RowView = Seq<SpanView>;

/// What a row says.
pub open spec fn row_view(v: Seq<Span>) -> RowView {
    v.map_values(|s: Span| s@)
}

/// What rows say.
pub open spec fn rows_view(v: Seq<Vec<Span>>) -> Seq<RowView> {
    v.map_values(|r: Vec<Span>| row_view(r@))
}

/// A span.
pub open spec fn span(text: Seq<char>, paint: Paint) -> SpanView {
    SpanView { text, paint }
}

/// A row of one span.
pub open spec fn one_span(text: Seq<char>, paint: Paint) -> RowView {
    seq![span(text, paint)]
}

/// The text of a row.
pub open spec fn row_text(row: RowView) -> Seq<char>
    decreases row.len(),
{
    if row.len() == 0 { seq![] } else { row_text(row.drop_last()) + row.last().text }
}

/// Append a span to a row.
pub fn put(row: &mut Vec<Span>, text: &str, paint: Paint)
    ensures
        row_view(final(row)@) == row_view(old(row)@).push(span(text@, paint)),
{
    row.push(Span { text: text.to_owned(), paint });
    assert(row_view(row@) =~= row_view(old(row)@).push(span(text@, paint)));
}

/// A row of one span.
pub fn row_of(text: &str, paint: Paint) -> (row: Vec<Span>)
    ensures
        row_view(row@) == one_span(text@, paint),
{
    let mut row: Vec<Span> = Vec::new();
    row.push(Span { text: text.to_owned(), paint });
    assert(row_view(row@) =~= one_span(text@, paint));
    row
}

/// Append a row.
pub fn put_row(rows: &mut Vec<Vec<Span>>, row: Vec<Span>)
    ensures
        rows_view(final(rows)@) == rows_view(old(rows)@).push(row_view(row@)),
{
    rows.push(row);
    assert(rows_view(rows@) =~= rows_view(old(rows)@).push(row_view(row@)));
}

/// The text of a row.
#[verifier::loop_isolation(false)]
pub fn text_of_row(row: &Vec<Span>) -> (s: String)
    ensures
        s@ == row_text(row_view(row@)),
{
    let ghost all = row_view(row@);
    let mut s = String::new();
    let mut i: usize = 0;
    assert(s@ =~= row_text(all.take(0)));
    while i < row.len()
        invariant
            i <= row@.len(),
            s@ == row_text(all.take(i as int)),
        decreases row@.len() - i,
    {
        assert(all.take(i + 1).drop_last() =~= all.take(i as int));
        assert(all[i as int] == row@[i as int]@);
        s.append(row[i].text.as_str());
        i += 1;
    }
    assert(all.take(i as int) =~= all);
    s
}

// ---------------------------------------------------------------------------
// Columns
// ---------------------------------------------------------------------------

/// This many blanks.
pub open spec fn blanks(n: nat) -> Seq<char> {
    Seq::new(n, |i: int| ' ')
}

/// The text with blanks after it, up to a width.
pub open spec fn padded(s: Seq<char>, width: nat) -> Seq<char> {
    if s.len() < width { s + blanks((width - s.len()) as nat) } else { s }
}

/// The text with blanks before it, up to a width.
pub open spec fn indented(s: Seq<char>, width: nat) -> Seq<char> {
    if s.len() < width { blanks((width - s.len()) as nat) + s } else { s }
}

fn make_blanks(n: usize) -> (s: String)
    ensures
        s@ == blanks(n as nat),
{
    let mut s = String::new();
    let mut i: usize = 0;
    assert(s@ =~= blanks(0));
    while i < n
        invariant
            i <= n,
            s@ == blanks(i as nat),
        decreases n - i,
    {
        s.push(' ');
        i += 1;
        assert(s@ =~= blanks(i as nat));
    }
    s
}

/// The text with blanks after it, up to a width.
pub fn pad_right(s: &str, width: usize) -> (r: String)
    ensures
        r@ == padded(s@, width as nat),
{
    let n = chars_of(s).len();
    let mut r = s.to_owned();
    if n < width {
        r.append(make_blanks(width - n).as_str());
    }
    r
}

/// The text with blanks before it, up to a width.
pub fn pad_left(s: &str, width: usize) -> (r: String)
    ensures
        r@ == indented(s@, width as nat),
{
    let n = chars_of(s).len();
    if n < width {
        let mut r = make_blanks(width - n);
        r.append(s);
        r
    } else {
        s.to_owned()
    }
}

// ---------------------------------------------------------------------------
// Areas
// ---------------------------------------------------------------------------

/// An area of the screen.
#[derive(Debug, Clone, Copy, PartialEq, Eq, Structural)]
pub struct Rect {
    pub x: u16,
    pub y: u16,
    pub width: u16,
    pub height: u16,
}

/// A sum that stops at `u16::MAX`.
pub open spec fn edge(a: u16, b: u16) -> int {
    if a + b <= u16::MAX { a + b } else { u16::MAX as int }
}

/// The point lies in the area; its right and lower edge do not belong to it.
pub open spec fn hit(r: Rect, x: u16, y: u16) -> bool {
    r.x <= x < edge(r.x, r.width) && r.y <= y < edge(r.y, r.height)
}

impl Default for Rect {
    fn default() -> (r: Rect)
        ensures
            r == (Rect { x: 0, y: 0, width: 0, height: 0 }),
    {
        Rect { x: 0, y: 0, width: 0, height: 0 }
    }
}

pub fn point_in_rect(r: Rect, x: u16, y: u16) -> (b: bool)
    ensures
        b == hit(r, x, y),
{
    x >= r.x && x < r.x.saturating_add(r.width) && y >= r.y && y < r.y.saturating_add(r.height)
}

// ---------------------------------------------------------------------------
// Colours
// ---------------------------------------------------------------------------

/// The palette for players.
pub open spec fn palette(i: int) -> Tone {
    if i == 0 {
        Tone::Cyan
    } else if i == 1 {
        Tone::Green
    } else if i == 2 {
        Tone::Yellow
    } else if i == 3 {
        Tone::Blue
    } else if i == 4 {
        Tone::LightRed
    } else {
        Tone::LightGreen
    }
}

/// The colour of an agent.
pub open spec fn actor_tone(is_host: bool, seat: Option<u8>) -> Tone {
    if is_host {
        Tone::Magenta
    } else {
        match seat {
            Some(s) => palette(s as int % 6),
            None => palette(0),
        }
    }
}

/// Stable per-agent colour (host magenta; players cycle a palette by seat).
pub fn actor_color(is_host: bool, seat: Option<u8>) -> (t: Tone)
    ensures
        t == actor_tone(is_host, seat),
{
    if is_host {
        return Tone::Magenta;
    }
    let n: u8 = match seat {
        Some(s) => s,
        None => 0,
    };
    match n % 6 {
        0 => Tone::Cyan,
        1 => Tone::Green,
        2 => Tone::Yellow,
        3 => Tone::Blue,
        4 => Tone::LightRed,
        _ => Tone::LightGreen,
    }
}

/// The paint of a role.
pub open spec fn role_paint(c: Character) -> Paint {
    match type_of(c) {
        CharacterType::Demon => bold_ink(Tone::Red),
        CharacterType::Minion => ink(Tone::Red),
        CharacterType::Outsider => ink(Tone::Yellow),
        CharacterType::Townsfolk => ink(Tone::Green),
    }
}

/// Colour a role by team so the operator can see the evil seats at a glance.
pub fn role_style(c: Character) -> (p: Paint)
    ensures
        p == role_paint(c),
{
    match c.character_type() {
        CharacterType::Demon => Paint::bold(Tone::Red),
        CharacterType::Minion => Paint::ink(Tone::Red),
        CharacterType::Outsider => Paint::ink(Tone::Yellow),
        CharacterType::Townsfolk => Paint::ink(Tone::Green),
    }
}

/// The paint of a summary in the feed.
pub open spec fn summary_paint(kind: ActionKind) -> Paint {
    if kind is Game { ink(Tone::Cyan) } else { ink(Tone::DarkGray) }
}

pub fn summary_style(kind: ActionKind) -> (p: Paint)
    ensures
        p == summary_paint(kind),
{
    match kind {
        ActionKind::Game => Paint::ink(Tone::Cyan),
        _ => Paint::ink(Tone::DarkGray),
    }
}

/// A previewed role in words.
pub open spec fn role_words(a: RoleAssignment) -> Seq<char> {
    match a.believed_character {
        Some(face) => name_of(a.true_character) + " (as "@ + name_of(face) + ")"@,
        None => name_of(a.true_character),
    }
}

/// Setup-screen label for a previewed seat role. Drunk shows both its true role and
/// the Townsfolk it believes it is, since the operator picks models on the true role.
pub fn role_label(a: &RoleAssignment) -> (s: String)
    ensures
        s@ == role_words(*a),
{
    let mut s = a.true_character.display_name().to_owned();
    if let Some(face) = a.believed_character {
        s.append(" (as ");
        s.append(face.display_name());
        s.append(")");
    }
    s
}

/// `Host`, or `P` and the number of the player, for a row of the setup screen.
pub open spec fn slot_name(slot: int) -> Seq<char> {
    if slot == 0 { "Host"@ } else { "P"@ + dec((slot - 1) as nat) }
}

/// `Host`, or `P` and the number of the player, for a row of the setup screen.
pub fn name_of_slot(slot: usize) -> (s: String)
    ensures
        s@ == slot_name(slot as int),
{
    if slot == 0 {
        "Host".to_owned()
    } else {
        numbered("P", (slot - 1) as u64)
    }
}

} // verus!
