use vstd::prelude::*;
use vstd::string::*;

use crate::keys::{is_quit, is_quit_key, Key};
use crate::terminal::{clear_all_text, goto_text, Position, Size, Terminal};

verus! {

/// Where the loop stands: before the first frame, after a frame was written,
/// waiting for a key, or finished.
#[derive(Clone, Copy, Debug, PartialEq, Eq, Structural)]
pub enum Phase {
    Start,
    Drawn,
    Reading,
    Stopped,
}

/// What the loop reports back after carrying out the last action.
pub enum Event<E> {
    /// The last action finished without producing a key.
    Done,
    /// A key was read.
    Key(Key),
    /// The terminal reported an error.
    Failed(E),
}

/// A fatal error: the text that clears the screen, then the error to abort with.
pub struct Fatal<E> {
    pub cleanup: String,
    pub error: E,
}

/// What the loop must do next.
pub enum Action<E> {
    /// Write this text to the terminal and flush it.
    Write(String),
    /// Block until a key is available.
    ReadKey,
    /// Leave the loop normally.
    Exit,
    /// Write the cleanup text, then end the process with the error.
    Abort(Fatal<E>),
}

#[derive(Clone, Copy, Debug, PartialEq, Eq, Structural)]
pub enum ActionKind {
    Write,
    ReadKey,
    Exit,
    Abort,
}

pub open spec fn kind_of<E>(a: Action<E>) -> ActionKind {
    match a {
        Action::Write(_) => ActionKind::Write,
        Action::ReadKey => ActionKind::ReadKey,
        Action::Exit => ActionKind::Exit,
        Action::Abort(_) => ActionKind::Abort,
    }
}

/// The abstract state of the editor loop.
pub struct LoopState {
    pub should_quit: bool,
    pub phase: Phase,
    pub size: Size,
}

pub open spec fn farewell_text() -> Seq<char> {
    seq!['G', 'o', 'o', 'd', 'b', 'y', 'e', '.', '\r', '\n']
}

pub open spec fn placeholder_line() -> Seq<char> {
    seq!['~', '\r', '\n']
}

/// `n` placeholder lines, one per terminal row.
pub open spec fn placeholder_rows(n: nat) -> Seq<char>
    decreases n,
{
    if n == 0 {
        Seq::empty()
    } else {
        placeholder_rows((n - 1) as nat) + placeholder_line()
    }
}

/// One frame: clear, go home, then either the farewell line or one placeholder
/// line per row followed by a return home.
pub open spec fn frame_text(should_quit: bool, height: u16) -> Seq<char> {
    clear_all_text() + goto_text(1, 1) + if should_quit {
        farewell_text()
    } else {
        placeholder_rows(height as nat) + goto_text(1, 1)
    }
}

/// The state after `event` arrives in state `s`.
pub open spec fn next_state<E>(s: LoopState, event: Event<E>) -> LoopState {
    match s.phase {
        Phase::Stopped => s,
        _ => match event {
            Event::Failed(_) => LoopState { phase: Phase::Stopped, ..s },
            _ => match s.phase {
                Phase::Start => LoopState { phase: Phase::Drawn, ..s },
                Phase::Drawn => if s.should_quit {
                    LoopState { phase: Phase::Stopped, ..s }
                } else {
                    LoopState { phase: Phase::Reading, ..s }
                },
                _ => match event {
                    Event::Key(k) => LoopState {
                        should_quit: s.should_quit || is_quit_key(k),
                        phase: Phase::Drawn,
                        ..s
                    },
                    _ => s,
                },
            },
        },
    }
}

/// The kind of action taken when `event` arrives in state `s`.
pub open spec fn next_kind<E>(s: LoopState, event: Event<E>) -> ActionKind {
    match s.phase {
        Phase::Stopped => ActionKind::Exit,
        _ => match event {
            Event::Failed(_) => ActionKind::Abort,
            _ => match s.phase {
                Phase::Start => ActionKind::Write,
                Phase::Drawn => if s.should_quit {
                    ActionKind::Exit
                } else {
                    ActionKind::ReadKey
                },
                _ => match event {
                    Event::Key(_) => ActionKind::Write,
                    _ => ActionKind::ReadKey,
                },
            },
        },
    }
}

/// The kinds of the actions taken while `events` arrive one by one from state `s`.
pub open spec fn trace<E>(s: LoopState, events: Seq<Event<E>>) -> Seq<ActionKind>
    decreases events.len(),
{
    if events.len() == 0 {
        Seq::empty()
    } else {
        seq![next_kind(s, events[0])] + trace(next_state(s, events[0]), events.drop_first())
    }
}

/// The text of `count` placeholder lines.
pub fn draw_rows(count: u16) -> (r: String)
    ensures
        r@ == placeholder_rows(count as nat),
{
    let mut text = String::new();
    let mut i: u16 = 0;
    while i < count
        invariant
            i <= count,
            text@ == placeholder_rows(i as nat),
        decreases count - i,
    {
        proof {
            reveal_strlit("~\r\n");
        }
        text.append("~\r\n");
        i = i + 1;
    }
    text
}

/// The text of one frame for a terminal `height` rows high.
pub fn render(should_quit: bool, height: u16) -> (r: String)
    ensures
        r@ == frame_text(should_quit, height),
{
    let home = Position { x: 0, y: 0 };
    let mut text = Terminal::clear_screen();
    let goto = Terminal::cursor_position(&home);
    text.append(goto.as_str());
    if should_quit {
        proof {
            reveal_strlit("Goodbye.\r\n");
        }
        text.append("Goodbye.\r\n");
    } else {
        let rows = draw_rows(height);
        text.append(rows.as_str());
        text.append(goto.as_str());
    }
    text
}

/// The diagnostic for a fatal terminal error: clear the screen, then abort with `error`.
pub fn die<E>(error: E) -> (r: Fatal<E>)
    ensures
        r.cleanup@ == clear_all_text(),
        r.error == error,
{
    Fatal { cleanup: Terminal::clear_screen(), error }
}

/// The editor: the quit flag, where the loop stands, and the terminal session.
pub struct Editor<G> {
    should_quit: bool,
    phase: Phase,
    terminal: Terminal<G>,
}

impl<G> View for Editor<G> {
    type V = LoopState;

    closed spec fn view(&self) -> LoopState {
        LoopState { should_quit: self.should_quit, phase: self.phase, size: self.terminal.size_of() }
    }
}

impl<G> Editor<G> {
    /// An editor over `terminal`, running and before its first frame.
    pub fn new(terminal: Terminal<G>) -> (r: Self)
        ensures
            r@ == (LoopState { should_quit: false, phase: Phase::Start, size: terminal.size_of() }),
    {
        Editor { should_quit: false, phase: Phase::Start, terminal }
    }

    pub fn terminal(&self) -> (r: &Terminal<G>)
        ensures
            r.size_of() == self@.size,
    {
        &self.terminal
    }

    pub fn should_quit(&self) -> (r: bool)
        ensures
            r == self@.should_quit,
    {
        self.should_quit
    }

    pub fn phase(&self) -> (r: Phase)
        ensures
            r == self@.phase,
    {
        self.phase
    }

    /// The text of the frame for the current state.
    pub fn refresh_screen(&self) -> (r: String)
        ensures
            r@ == frame_text(self@.should_quit, self@.size.height),
    {
        render(self.should_quit, self.terminal.size().height)
    }

    /// Handles one key: the quit combination sets the quit flag, every other key
    /// changes nothing.
    pub fn process_keypress(&mut self, key: Key)
        ensures
            final(self)@ == (LoopState {
                should_quit: old(self)@.should_quit || is_quit_key(key),
                ..old(self)@
            }),
    {
        if is_quit(&key) {
            self.should_quit = true;
        }
    }

    /// Takes the outcome of the last action and says what to do next. A key that
    /// arrives when none was asked for is ignored; no key while reading asks again.
    pub fn step<E>(&mut self, event: Event<E>) -> (r: Action<E>)
        ensures
            final(self)@ == next_state(old(self)@, event),
            kind_of(r) == next_kind(old(self)@, event),
            r matches Action::Write(text) ==> text@ == frame_text(
                final(self)@.should_quit,
                final(self)@.size.height,
            ),
            r matches Action::Abort(fatal) ==> fatal.cleanup@ == clear_all_text() && event
                == Event::Failed(fatal.error),
    {
        match self.phase {
            Phase::Stopped => Action::Exit,
            _ => match event {
                Event::Failed(error) => {
                    self.phase = Phase::Stopped;
                    Action::Abort(die(error))
                },
                Event::Key(key) if self.phase == Phase::Reading => {
                    self.process_keypress(key);
                    self.phase = Phase::Drawn;
                    Action::Write(self.refresh_screen())
                },
                _ => match self.phase {
                    Phase::Start => {
                        self.phase = Phase::Drawn;
                        Action::Write(self.refresh_screen())
                    },
                    Phase::Drawn => if self.should_quit {
                        self.phase = Phase::Stopped;
                        Action::Exit
                    } else {
                        self.phase = Phase::Reading;
                        Action::ReadKey
                    },
                    _ => Action::ReadKey,
                },
            },
        }
    }
}

/// A frame drawn while running holds exactly one placeholder line per terminal
/// row, between the move home at its start and the one at its end.
pub proof fn lemma_running_frame_rows(size: Size)
    requires
        size.width > 0,
        size.height > 0,
    ensures
        frame_text(false, size.height) == clear_all_text() + goto_text(1, 1) + placeholder_rows(
            size.height as nat,
        ) + goto_text(1, 1),
        placeholder_rows(size.height as nat).len() == 3 * size.height,
        forall|i: int|
            0 <= i < size.height ==> #[trigger] placeholder_rows(size.height as nat).subrange(
                3 * i,
                3 * i + 3,
            ) == placeholder_line(),
{
    assert(frame_text(false, size.height) == clear_all_text() + goto_text(1, 1) + placeholder_rows(
        size.height as nat,
    ) + goto_text(1, 1));
    lemma_placeholder_rows(size.height as nat);
}

/// `n` placeholder lines are `3 * n` characters, line `i` at `3 * i`.
pub proof fn lemma_placeholder_rows(n: nat)
    ensures
        placeholder_rows(n).len() == 3 * n,
        forall|i: int|
            0 <= i < n ==> #[trigger] placeholder_rows(n).subrange(3 * i, 3 * i + 3)
                == placeholder_line(),
    decreases n,
{
    if n > 0 {
        let m = (n - 1) as nat;
        lemma_placeholder_rows(m);
        let rows = placeholder_rows(n);
        assert(rows == placeholder_rows(m) + placeholder_line());
        assert forall|i: int| 0 <= i < n implies #[trigger] rows.subrange(3 * i, 3 * i + 3)
            == placeholder_line() by {
            if i < m {
                assert(rows.subrange(3 * i, 3 * i + 3) =~= placeholder_rows(m).subrange(
                    3 * i,
                    3 * i + 3,
                ));
            } else {
                assert(rows.subrange(3 * i, 3 * i + 3) =~= placeholder_line());
            }
        }
    }
}

/// While running, a key read sets the quit flag exactly when it is the quit
/// combination; any other key leaves the loop running with nothing else changed.
pub proof fn lemma_dispatch(s: LoopState, key: Key)
    requires
        !s.should_quit,
        s.phase == Phase::Reading,
    ensures
        next_state(s, Event::<()>::Key(key)).should_quit == is_quit_key(key),
        next_state(s, Event::<()>::Key(key)).size == s.size,
        next_kind(s, Event::<()>::Key(key)) == ActionKind::Write,
        !is_quit_key(key) ==> next_state(s, Event::<()>::Key(key)) == (LoopState {
            phase: Phase::Drawn,
            ..s
        }),
{
}

/// Once quitting after a frame, whatever arrives, the loop neither draws nor reads again.
pub proof fn lemma_quitting_is_final<E>(s: LoopState, events: Seq<Event<E>>)
    requires
        s.should_quit,
        s.phase == Phase::Drawn || s.phase == Phase::Stopped,
    ensures
        forall|i: int|
            0 <= i < trace(s, events).len() ==> #[trigger] trace(s, events)[i] != ActionKind::Write
                && trace(s, events)[i] != ActionKind::ReadKey,
    decreases events.len(),
{
    if events.len() > 0 {
        let t = next_state(s, events[0]);
        lemma_quitting_is_final(t, events.drop_first());
        let rest = trace(t, events.drop_first());
        assert(trace(s, events) == seq![next_kind(s, events[0])] + rest);
        assert forall|i: int| 0 <= i < trace(s, events).len() implies #[trigger] trace(
            s,
            events,
        )[i] != ActionKind::Write && trace(s, events)[i] != ActionKind::ReadKey by {
            if i > 0 {
                assert(trace(s, events)[i] == rest[i - 1]);
            }
        }
    }
}

/// The quit key, read while running, brings exactly one more frame, the farewell;
/// after it no frame is drawn and no key is read, whatever follows.
pub proof fn lemma_quit_renders_once<E>(s: LoopState, key: Key, events: Seq<Event<E>>)
    requires
        s.phase == Phase::Reading,
        is_quit_key(key),
    ensures
        trace(s, seq![Event::Key(key)] + events)[0] == ActionKind::Write,
        next_state(s, Event::<E>::Key(key)).should_quit,
        forall|i: int|
            1 <= i < trace(s, seq![Event::Key(key)] + events).len() ==> #[trigger] trace(
                s,
                seq![Event::Key(key)] + events,
            )[i] != ActionKind::Write && trace(s, seq![Event::Key(key)] + events)[i]
                != ActionKind::ReadKey,
{
    let all = seq![Event::Key(key)] + events;
    let t = next_state(s, Event::<E>::Key(key));
    assert(all[0] == Event::<E>::Key(key));
    assert(all.drop_first() =~= events);
    lemma_quitting_is_final(t, events);
    let rest = trace(t, events);
    assert(trace(s, all) == seq![next_kind(s, all[0])] + rest);
    assert forall|i: int| 1 <= i < trace(s, all).len() implies #[trigger] trace(s, all)[i]
        != ActionKind::Write && trace(s, all)[i] != ActionKind::ReadKey by {
        assert(trace(s, all)[i] == rest[i - 1]);
    }
}

} // verus!
