use vstd::prelude::*;

verus! {

/// Terminal dimensions in character cells, captured once when the session starts.
#[derive(Clone, Copy, Debug, PartialEq, Eq, Structural)]
pub struct Size {
    pub width: u16,
    pub height: u16,
}

/// A zero-based cell position in editor space.
#[derive(Clone, Copy, Debug, PartialEq, Eq, Structural)]
pub struct Position {
    pub x: u16,
    pub y: u16,
}

/// `v + 1`, held at the largest `u16` instead of wrapping.
pub open spec fn one_based(v: u16) -> u16 {
    if v == u16::MAX {
        u16::MAX
    } else {
        (v + 1) as u16
    }
}

/// The one-based terminal coordinate of a zero-based position.
pub fn goto_coords(position: &Position) -> (r: (u16, u16))
    ensures
        r == (one_based(position.x), one_based(position.y)),
{
    (position.x.saturating_add(1), position.y.saturating_add(1))
}

/// The mapping to one-based coordinates adds one below the largest value, holds
/// there at the largest value, never gives 0, and keeps distinct positions apart.
pub proof fn lemma_one_based(a: u16, b: u16)
    ensures
        a < u16::MAX ==> one_based(a) == a + 1,
        a == u16::MAX ==> one_based(a) == u16::MAX,
        one_based(a) != 0,
        a < u16::MAX && b < u16::MAX && one_based(a) == one_based(b) ==> a == b,
{
}

pub open spec fn escape() -> Seq<char> {
    seq!['\x1B', '[']
}

pub open spec fn digit(d: nat) -> char {
    if d == 0 { '0' }
    else if d == 1 { '1' }
    else if d == 2 { '2' }
    else if d == 3 { '3' }
    else if d == 4 { '4' }
    else if d == 5 { '5' }
    else if d == 6 { '6' }
    else if d == 7 { '7' }
    else if d == 8 { '8' }
    else { '9' }
}

/// The decimal digits of `n`, most significant first.
pub open spec fn decimal(n: nat) -> Seq<char>
    decreases n,
{
    if n < 10 {
        seq![digit(n)]
    } else {
        decimal(n / 10) + seq![digit(n % 10)]
    }
}

pub open spec fn clear_all_text() -> Seq<char> {
    escape() + seq!['2', 'J']
}

pub open spec fn clear_line_text() -> Seq<char> {
    escape() + seq!['2', 'K']
}

pub open spec fn hide_text() -> Seq<char> {
    escape() + seq!['?', '2', '5', 'l']
}

pub open spec fn show_text() -> Seq<char> {
    escape() + seq!['?', '2', '5', 'h']
}

/// Move to one-based column `x` and row `y`: the row comes first on the wire.
pub open spec fn goto_text(x: u16, y: u16) -> Seq<char> {
    escape() + decimal(y as nat) + seq![';'] + decimal(x as nat) + seq!['H']
}

/// Relies on termion's `clear::All`, whose text is CSI "2J".
#[verifier::external_body]
fn termion_clear_all() -> (r: String)
    ensures
        r@ == clear_all_text(),
{
    format!("{}", termion::clear::All)
}

/// Relies on termion's `clear::CurrentLine`, whose text is CSI "2K".
#[verifier::external_body]
fn termion_clear_line() -> (r: String)
    ensures
        r@ == clear_line_text(),
{
    format!("{}", termion::clear::CurrentLine)
}

/// Relies on termion's `cursor::Hide`, whose text is CSI "?25l".
#[verifier::external_body]
fn termion_hide() -> (r: String)
    ensures
        r@ == hide_text(),
{
    format!("{}", termion::cursor::Hide)
}

/// Relies on termion's `cursor::Show`, whose text is CSI "?25h".
#[verifier::external_body]
fn termion_show() -> (r: String)
    ensures
        r@ == show_text(),
{
    format!("{}", termion::cursor::Show)
}

/// Relies on termion's `cursor::Goto`: CSI, the row and the column in decimal,
/// separated by ';', then 'H'. Its `Display` rejects (0, 0) in debug builds.
#[verifier::external_body]
fn termion_goto(x: u16, y: u16) -> (r: String)
    requires
        x != 0 || y != 0,
    ensures
        r@ == goto_text(x, y),
{
    format!("{}", termion::cursor::Goto(x, y))
}

/// The terminal session: its size, fixed at creation, and the guard that keeps the
/// terminal in raw mode. The guard is owned here alone and is released when the
/// session is dropped.
pub struct Terminal<G> {
    size: Size,
    _guard: G,
}

impl<G> Terminal<G> {
    pub closed spec fn size_of(&self) -> Size {
        self.size
    }

    /// A session over a terminal of `size` whose raw mode is held by `guard`.
    pub fn new(size: Size, guard: G) -> (r: Self)
        ensures
            r.size_of() == size,
    {
        Terminal { size, _guard: guard }
    }

    /// The size captured when the session was created; it is never queried again.
    pub fn size(&self) -> (r: &Size)
        ensures
            *r == self.size_of(),
    {
        &self.size
    }
}

/// The control sequences depend on no session state, so they are offered once,
/// on the session type without a guard.
impl Terminal<()> {
    /// Text that erases the whole screen.
    pub fn clear_screen() -> (r: String)
        ensures
            r@ == clear_all_text(),
    {
        termion_clear_all()
    }

    /// Text that moves the cursor to `position`, one-based and saturating.
    pub fn cursor_position(position: &Position) -> (r: String)
        ensures
            r@ == goto_text(one_based(position.x), one_based(position.y)),
    {
        let (x, y) = goto_coords(position);
        termion_goto(x, y)
    }

    /// Text that hides the cursor.
    pub fn cursor_hide() -> (r: String)
        ensures
            r@ == hide_text(),
    {
        termion_hide()
    }

    /// Text that shows the cursor.
    pub fn cursor_show() -> (r: String)
        ensures
            r@ == show_text(),
    {
        termion_show()
    }

    /// Text that erases the line under the cursor.
    pub fn clear_current_line() -> (r: String)
        ensures
            r@ == clear_line_text(),
    {
        termion_clear_line()
    }
}

} // verus!
