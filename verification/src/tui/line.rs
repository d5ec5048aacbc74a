//! Styled lines of text, and areas of the screen.
//!
//! Colours are named by the part that they play; which colour that is, the
//! theme says.
use ratatui::layout::{Constraint, Direction, Layout, Rect};
use vstd::prelude::*;

verus! {

/// The part that a colour plays.
#[derive(Clone, Copy, Debug, PartialEq, Eq, Structural)]
pub enum Role {
    /// The terminal's own colour.
    Plain,
    Text,
    Dimmed,
    Accent,
    Border,
    Branch,
    Sandbox,
    TerminalActive,
    Running,
    Waiting,
    Error,
    /// The colour of an idle session, which depends on how long it has been.
    Idle,
}

/// How a piece of text looks.
#[derive(Clone, Copy, Debug, PartialEq, Eq, Structural)]
pub struct Style {
    pub role: Role,
    pub bold: bool,
}

/// A piece of a line.
pub struct Span {
    pub text: String,
    pub style: Style,
}

/// A piece of a line by its text.
pub struct SpanView {
    pub text: Seq<char>,
    pub style: Style,
}

impl View for Span {
    type V = SpanView;

    open spec fn view(&self) -> SpanView {
        SpanView { text: self.text@, style: self.style }
    }
}

/// A line.
pub struct Line {
    pub spans: Vec<Span>,
}

impl View for Line {
    type V = Seq<SpanView>;

    open spec fn view(&self) -> Seq<SpanView> {
        self.spans@.map_values(|s: Span| s@)
    }
}

/// The views of a number of lines.
pub open spec fn line_views(lines: Seq<Line>) -> Seq<Seq<SpanView>> {
    lines.map_values(|l: Line| l@)
}

/// A piece of text in a colour.
pub open spec fn colored(text: Seq<char>, role: Role) -> SpanView {
    SpanView { text, style: Style { role, bold: false } }
}

/// A piece of bold text in a colour.
pub open spec fn bold(text: Seq<char>, role: Role) -> SpanView {
    SpanView { text, style: Style { role, bold: true } }
}

/// A piece of text in a colour.
pub fn span(text: &str, role: Role) -> (res: Span)
    ensures
        res@ == colored(text@, role),
{
    Span { text: text.to_owned(), style: Style { role, bold: false } }
}

/// A piece of bold text in a colour.
pub fn bold_span(text: &str, role: Role) -> (res: Span)
    ensures
        res@ == bold(text@, role),
{
    Span { text: text.to_owned(), style: Style { role, bold: true } }
}

impl Line {
    /// A line without text.
    pub fn empty() -> (res: Self)
        ensures
            res@ == Seq::<SpanView>::empty(),
    {
        let res = Line { spans: Vec::new() };
        assert(res@ =~= Seq::<SpanView>::empty());
        res
    }

    /// Appends a piece.
    pub fn add(&mut self, span: Span)
        ensures
            final(self)@ == old(self)@.push(span@),
    {
        self.spans.push(span);
        assert(self@ =~= old(self)@.push(span@));
    }

    /// A line of one piece.
    pub fn of_one(a: Span) -> (res: Self)
        ensures
            res@ == seq![a@],
    {
        let mut res = Line::empty();
        res.add(a);
        assert(res@ =~= seq![a@]);
        res
    }

    /// A line of two pieces.
    pub fn of_two(a: Span, b: Span) -> (res: Self)
        ensures
            res@ == seq![a@, b@],
    {
        let mut res = Line::empty();
        res.add(a);
        res.add(b);
        assert(res@ =~= seq![a@, b@]);
        res
    }

    /// A line of three pieces.
    pub fn of_three(a: Span, b: Span, c: Span) -> (res: Self)
        ensures
            res@ == seq![a@, b@, c@],
    {
        let mut res = Line::empty();
        res.add(a);
        res.add(b);
        res.add(c);
        assert(res@ =~= seq![a@, b@, c@]);
        res
    }
}

/// Appends a line.
pub fn add_line(lines: &mut Vec<Line>, line: Line)
    ensures
        line_views(final(lines)@) == line_views(old(lines)@).push(line@),
{
    lines.push(line);
    assert(line_views(lines@) =~= line_views(old(lines)@).push(line@));
}

/// An area of the screen, in cells.
#[derive(Clone, Copy, Debug, PartialEq, Eq, Structural)]
pub struct Area {
    pub x: u16,
    pub y: u16,
    pub width: u16,
    pub height: u16,
}

/// The lesser of two numbers.
pub open spec fn lesser(a: int, b: int) -> int {
    if a <= b {
        a
    } else {
        b
    }
}

/// The area without what lies beyond the last column and row that can be
/// counted.
pub open spec fn fitted(area: Area) -> Area {
    Area {
        width: lesser(area.width as int, u16::MAX - area.x) as u16,
        height: lesser(area.height as int, u16::MAX - area.y) as u16,
        ..area
    }
}

/// The rows of the upper part of an area whose parts want `top` rows and at
/// least `rest` rows: the lower part gets its least first.
pub open spec fn top_rows(height: int, top: int, rest: int) -> int {
    lesser(top, height - lesser(rest, height))
}

/// The area cut in two, one part above the other.
pub open spec fn rows_of(area: Area, top: u16, rest: u16) -> (Area, Area) {
    let whole = fitted(area);
    let above = top_rows(whole.height as int, top as int, rest as int);
    (
        Area { height: above as u16, ..whole },
        Area { y: (whole.y + above) as u16, height: (whole.height - above) as u16, ..whole },
    )
}

/// Cuts an area in two, one part above the other: `top` rows, and at least
/// `rest` rows.
///
/// Calls `ratatui::layout::Layout::split` with the constraints `Length(top)` and
/// `Min(rest)`, downwards. Taken on trust: the two parts fill the area; a
/// minimum goes before a length, so the upper part gives way where there is no
/// room for both; what is left over goes to the lower part.
#[verifier::external_body]
pub(crate) fn split_rows(area: Area, top: u16, rest: u16) -> (res: (Area, Area))
    requires
        rest <= i16::MAX,
    ensures
        res == rows_of(area, top, rest),
{
    let parts = Layout::default()
        .direction(Direction::Vertical)
        .constraints([Constraint::Length(top), Constraint::Min(rest)])
        .split(Rect::new(area.x, area.y, area.width, area.height));
    let (a, b) = (parts[0], parts[1]);
    (
        Area { x: a.x, y: a.y, width: a.width, height: a.height },
        Area { x: b.x, y: b.y, width: b.width, height: b.height },
    )
}

/// The two parts of an area that was cut in two fill it and do not overlap; the
/// lower part gets at least one row where there is one.
pub proof fn law_parts_fill_the_area(area: Area, top: u16)
    ensures
        rows_of(area, top, 1).0.height + rows_of(area, top, 1).1.height == fitted(area).height,
        rows_of(area, top, 1).1.y == rows_of(area, top, 1).0.y + rows_of(area, top, 1).0.height,
        rows_of(area, top, 1).0.height <= top,
        fitted(area).height >= 1 ==> rows_of(area, top, 1).1.height >= 1,
        fitted(area).height > top ==> rows_of(area, top, 1).0.height == top,
{
}

/// What is left of an area below its first row.
pub open spec fn below_first_row(area: Area) -> Area {
    Area {
        y: lesser(
            lesser(area.y + 1, u16::MAX as int),
            lesser(area.y + area.height, u16::MAX as int),
        ) as u16,
        height: if area.height > 0 {
            (area.height - 1) as u16
        } else {
            0
        },
        ..area
    }
}

/// What is left of an area below a border along its top.
pub fn under_border(area: Area) -> (res: Area)
    ensures
        res == below_first_row(area),
{
    let next = area.y.saturating_add(1);
    let bottom = area.y.saturating_add(area.height);
    Area {
        y: if next <= bottom {
            next
        } else {
            bottom
        },
        height: area.height.saturating_sub(1),
        ..area
    }
}

/// Below its first row an area keeps its columns and its lower edge, and loses
/// one row; one without rows keeps its place.
pub proof fn law_first_row_is_taken_off(area: Area)
    requires
        area.y + area.height <= u16::MAX,
    ensures
        below_first_row(area).x == area.x,
        below_first_row(area).width == area.width,
        below_first_row(area).y + below_first_row(area).height == area.y + area.height,
        area.height > 0 ==> below_first_row(area).height + 1 == area.height,
        area.height == 0 ==> below_first_row(area) == area,
{
}

/// A piece of text carries its text, its colour, and whether it is bold.
pub proof fn law_pieces_carry_their_text(text: Seq<char>, role: Role)
    ensures
        colored(text, role).text == text,
        bold(text, role).text == text,
        colored(text, role).style.role == role,
        bold(text, role).style.role == role,
        !colored(text, role).style.bold,
        bold(text, role).style.bold,
{
}

/// A line is known by its pieces, each by its text and its look.
pub proof fn law_lines_are_known_by_their_pieces(lines: Seq<Line>, piece: Span)
    ensures
        piece@.text == piece.text@,
        piece@.style == piece.style,
        line_views(lines).len() == lines.len(),
        forall|i: int|
            #![trigger line_views(lines)[i]]
            0 <= i < lines.len() ==> line_views(lines)[i].len() == lines[i].spans@.len()
                && forall|j: int|
                0 <= j < lines[i].spans@.len() ==> #[trigger] line_views(lines)[i][j]
                    == lines[i].spans@[j]@,
{
}

} // verus!
