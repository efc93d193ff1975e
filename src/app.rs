use crate::sysctl::{Parameter, Section, Sysctl};
use crate::text::{chars_of, contains, contains_chars, push_all, string_of, sub_chars};
use vstd::prelude::*;

verus! {

/// How long a message stays on screen, in the units of the tick clock.
pub const MESSAGE_DURATION: u64 = 2000;

/// The number of choices that the copy popup offers: the name and the value.
pub const COPY_CHOICES: usize = 2;

/// Which scrollable area a scroll command moves.
#[derive(Clone, Copy, Debug, PartialEq, Eq, Structural)]
pub enum ScrollArea {
    List,
    Documentation,
}

/// Which way a scroll command moves.
#[derive(Clone, Copy, Debug, PartialEq, Eq, Structural)]
pub enum Direction {
    Up,
    Down,
    Top,
    Bottom,
}

/// A command of the interactive session.
#[derive(Clone, Copy, Debug, PartialEq, Eq, Structural)]
pub enum Command {
    /// Edit the selected parameter, or pick the highlighted popup choice.
    Select,
    /// Start typing a filter.
    Search,
    /// Insert a character at the cursor.
    UpdateInput(char),
    /// Move the cursor by the given number of characters (negative: left).
    MoveCursor(i32),
    /// `false` deletes the character before the cursor; `true` deletes back
    /// to the start of the word before the cursor, spaces included.
    ClearInput(bool),
    /// Run the typed command or apply the typed filter.
    ProcessInput,
    /// Reload the parameters.
    Refresh,
    /// Offer to copy the selected parameter's name or value.
    Copy,
    /// Scroll an area.
    Scroll(ScrollArea, Direction, u8),
    /// Close the input or popup, or end the session.
    Exit,
    /// Do nothing.
    Nothing,
}

/// A key pressed on the terminal.
#[derive(Clone, Copy, Debug, PartialEq, Eq, Structural)]
pub enum Key {
    Char(char),
    Ctrl(char),
    Backspace,
    Delete,
    Left,
    Right,
    Up,
    Down,
    PageUp,
    PageDown,
    Home,
    End,
    Esc,
    Other,
}

/// The command a key stands for, while typing or while browsing.
pub open spec fn key_command(key: Key, typing: bool) -> Command {
    if typing {
        match key {
            Key::Char(c) => if c == '\n' {
                Command::ProcessInput
            } else {
                Command::UpdateInput(c)
            },
            Key::Backspace => Command::ClearInput(false),
            Key::Delete => Command::ClearInput(true),
            Key::Ctrl(c) => if c == 'w' {
                Command::ClearInput(true)
            } else {
                Command::Nothing
            },
            Key::Left => Command::MoveCursor(-1i32),
            Key::Right => Command::MoveCursor(1i32),
            Key::Esc => Command::Exit,
            _ => Command::Nothing,
        }
    } else {
        match key {
            Key::Char(c) => if c == 'q' {
                Command::Exit
            } else if c == 'k' {
                Command::Scroll(ScrollArea::List, Direction::Up, 1)
            } else if c == 'j' {
                Command::Scroll(ScrollArea::List, Direction::Down, 1)
            } else if c == 't' {
                Command::Scroll(ScrollArea::List, Direction::Top, 0)
            } else if c == 'b' {
                Command::Scroll(ScrollArea::List, Direction::Bottom, 0)
            } else if c == 'K' {
                Command::Scroll(ScrollArea::Documentation, Direction::Up, 1)
            } else if c == 'J' {
                Command::Scroll(ScrollArea::Documentation, Direction::Down, 1)
            } else if c == '\n' || c == ':' {
                Command::Select
            } else if c == '/' {
                Command::Search
            } else if c == 'c' {
                Command::Copy
            } else if c == 'r' {
                Command::Refresh
            } else {
                Command::Nothing
            },
            Key::Ctrl(c) => if c == 'c' {
                Command::Exit
            } else {
                Command::Nothing
            },
            Key::Esc => Command::Exit,
            Key::Up => Command::Scroll(ScrollArea::List, Direction::Up, 1),
            Key::Down => Command::Scroll(ScrollArea::List, Direction::Down, 1),
            Key::PageUp => Command::Scroll(ScrollArea::List, Direction::Up, 4),
            Key::PageDown => Command::Scroll(ScrollArea::List, Direction::Down, 4),
            Key::Home => Command::Scroll(ScrollArea::List, Direction::Top, 0),
            Key::End => Command::Scroll(ScrollArea::List, Direction::Bottom, 0),
            _ => Command::Nothing,
        }
    }
}

impl Command {
    /// The command a key stands for; `typing` tells whether the input line is open.
    pub fn parse(key: Key, typing: bool) -> (r: Command)
        ensures
            r == key_command(key, typing),
    {
        if typing {
            match key {
                Key::Char(c) => if c == '\n' {
                    Command::ProcessInput
                } else {
                    Command::UpdateInput(c)
                },
                Key::Backspace => Command::ClearInput(false),
                Key::Delete => Command::ClearInput(true),
                Key::Ctrl(c) => if c == 'w' {
                    Command::ClearInput(true)
                } else {
                    Command::Nothing
                },
                Key::Left => Command::MoveCursor(-1),
                Key::Right => Command::MoveCursor(1),
                Key::Esc => Command::Exit,
                _ => Command::Nothing,
            }
        } else {
            match key {
                Key::Char(c) => if c == 'q' {
                    Command::Exit
                } else if c == 'k' {
                    Command::Scroll(ScrollArea::List, Direction::Up, 1)
                } else if c == 'j' {
                    Command::Scroll(ScrollArea::List, Direction::Down, 1)
                } else if c == 't' {
                    Command::Scroll(ScrollArea::List, Direction::Top, 0)
                } else if c == 'b' {
                    Command::Scroll(ScrollArea::List, Direction::Bottom, 0)
                } else if c == 'K' {
                    Command::Scroll(ScrollArea::Documentation, Direction::Up, 1)
                } else if c == 'J' {
                    Command::Scroll(ScrollArea::Documentation, Direction::Down, 1)
                } else if c == '\n' || c == ':' {
                    Command::Select
                } else if c == '/' {
                    Command::Search
                } else if c == 'c' {
                    Command::Copy
                } else if c == 'r' {
                    Command::Refresh
                } else {
                    Command::Nothing
                },
                Key::Ctrl(c) => if c == 'c' {
                    Command::Exit
                } else {
                    Command::Nothing
                },
                Key::Esc => Command::Exit,
                Key::Up => Command::Scroll(ScrollArea::List, Direction::Up, 1),
                Key::Down => Command::Scroll(ScrollArea::List, Direction::Down, 1),
                Key::PageUp => Command::Scroll(ScrollArea::List, Direction::Up, 4),
                Key::PageDown => Command::Scroll(ScrollArea::List, Direction::Down, 4),
                Key::Home => Command::Scroll(ScrollArea::List, Direction::Top, 0),
                Key::End => Command::Scroll(ScrollArea::List, Direction::Bottom, 0),
                _ => Command::Nothing,
            }
        }
    }
}

/// What a command typed into the input line is.
#[derive(Clone, Copy, Debug, PartialEq, Eq, Structural)]
pub enum InputMode {
    /// A command, shown after `:`.
    Command,
    /// A filter, shown after `/`.
    Search,
}

/// The line being typed.
#[derive(Clone, Debug)]
pub struct Input {
    pub mode: InputMode,
    pub text: Vec<char>,
    /// Position of the cursor, in characters from the start of `text`.
    pub cursor: usize,
}

/// A status message and the clock value after which it is removed.
#[derive(Clone, Debug)]
pub struct Message {
    pub text: String,
    pub expires_at: u64,
}

/// What the surroundings of the session must do after a command.
#[derive(Clone, Debug)]
pub enum Action {
    Nothing,
    /// Write `value` to the parameter at `index`, then report with `finish_update`.
    Update { index: usize, value: String },
    /// Put the text on the clipboard.
    CopyText(String),
    /// Read the parameters again, then hand them to `reload`.
    Refresh,
}

/// The state of an interactive session.
pub struct App {
    pub sysctl: Sysctl,
    /// The section whose parameters are listed; all of them where `None`.
    pub section: Option<Section>,
    /// The filter in force: only names that contain it are listed.
    pub search_query: Option<Vec<char>>,
    /// Positions in `sysctl.parameters` of the listed parameters, in order.
    pub visible: Vec<usize>,
    /// Position in `visible` of the selected parameter.
    pub selected: Option<usize>,
    pub input: Option<Input>,
    pub message: Option<Message>,
    pub docs_scroll: usize,
    /// Number of lines of the documentation being shown.
    pub docs_lines: usize,
    /// The highlighted choice of the copy popup, while it is open.
    pub popup: Option<usize>,
    pub running: bool,
    /// Whether the clipboard can be used.
    pub clipboard: bool,
    /// The clock value of the last tick.
    pub now: u64,
}

pub open spec fn query_view(q: Option<Vec<char>>) -> Option<Seq<char>> {
    match q {
        Some(v) => Some(v@),
        None => None,
    }
}

/// Whether a parameter is listed under the given section and filter.
pub open spec fn shown(p: Parameter, section: Option<Section>, query: Option<Seq<char>>) -> bool {
    &&& (section matches Some(s) ==> p.section == s)
    &&& (query matches Some(q) ==> contains(p.name@, q))
}

/// The positions of the listed parameters among the first `n`.
pub open spec fn listed(
    ps: Seq<Parameter>,
    section: Option<Section>,
    query: Option<Seq<char>>,
    n: int,
) -> Seq<usize>
    decreases n,
{
    if n <= 0 {
        Seq::empty()
    } else {
        let prev = listed(ps, section, query, n - 1);
        if shown(ps[n - 1], section, query) {
            prev.push((n - 1) as usize)
        } else {
            prev
        }
    }
}

proof fn lemma_listed_bounded(ps: Seq<Parameter>, section: Option<Section>, query: Option<Seq<char>>, n: int)
    requires
        0 <= n,
    ensures
        forall|i: int|
            0 <= i < listed(ps, section, query, n).len() ==> #[trigger] listed(ps, section, query, n)[i] < n,
    decreases n,
{
    if n > 0 {
        lemma_listed_bounded(ps, section, query, n - 1);
        let prev = listed(ps, section, query, n - 1);
        assert forall|i: int| 0 <= i < prev.len() implies #[trigger] prev[i] < n by {}
    }
}

/// The selection after a move in a list of `len` items: clamped to the list,
/// with `Top` and `Bottom` going to its ends whatever the amount.
pub open spec fn scrolled(len: int, selected: Option<usize>, direction: Direction, amount: int) -> Option<usize> {
    if len <= 0 {
        None
    } else {
        let cur: int = match selected {
            Some(i) => if i < len { i as int } else { len - 1 },
            None => 0,
        };
        Some(
            (match direction {
                Direction::Up => if cur >= amount { cur - amount } else { 0 },
                Direction::Down => if cur + amount < len { cur + amount } else { len - 1 },
                Direction::Top => 0,
                Direction::Bottom => len - 1,
            }) as usize,
        )
    }
}


/// `t` with `c` put in at position `at`.
pub open spec fn inserted(t: Seq<char>, at: int, c: char) -> Seq<char> {
    t.subrange(0, at).push(c) + t.subrange(at, t.len() as int)
}

/// `t` without the characters from `from` to `to`.
pub open spec fn removed(t: Seq<char>, from: int, to: int) -> Seq<char> {
    t.subrange(0, from) + t.subrange(to, t.len() as int)
}

/// The cursor moved by `n` within a line of `len` characters.
pub open spec fn moved(cursor: int, n: int, len: int) -> int {
    if cursor + n < 0 {
        0
    } else if cursor + n > len {
        len
    } else {
        cursor + n
    }
}

/// Going left from `i` over spaces.
pub open spec fn skip_spaces_back(t: Seq<char>, i: int) -> int
    decreases i,
{
    if i > 0 && t[i - 1] == ' ' {
        skip_spaces_back(t, i - 1)
    } else {
        i
    }
}

/// Going left from `i` over characters that are not spaces.
pub open spec fn skip_word_back(t: Seq<char>, i: int) -> int
    decreases i,
{
    if i > 0 && t[i - 1] != ' ' {
        skip_word_back(t, i - 1)
    } else {
        i
    }
}

/// The start of the word before position `i`, with the spaces after it.
pub open spec fn word_start(t: Seq<char>, i: int) -> int {
    skip_word_back(t, skip_spaces_back(t, i))
}

/// The documentation offset after a scroll over `lines` lines.
pub open spec fn docs_scrolled(offset: int, lines: int, direction: Direction, amount: int) -> int {
    match direction {
        Direction::Up => if offset >= amount { offset - amount } else { 0 },
        Direction::Down => if offset + amount <= lines { offset + amount } else { lines },
        Direction::Top => 0,
        Direction::Bottom => lines,
    }
}

/// `t` is the command `set <name> <value>`: a name without spaces, then a
/// value that is the rest of the line.
pub open spec fn set_command(t: Seq<char>, name: Seq<char>, value: Seq<char>) -> bool {
    &&& t == seq!['s', 'e', 't', ' '] + name + seq![' '] + value
    &&& name.len() > 0
    &&& !name.contains(' ')
}

/// The text of the input line that edits a parameter.
pub open spec fn set_line(name: Seq<char>, value: Seq<char>) -> Seq<char> {
    seq!['s', 'e', 't', ' '] + name + seq![' '] + value
}

/// The message for a name that no parameter has.
pub open spec fn no_such_text(name: Seq<char>) -> Seq<char> {
    "sysctl error: no such sysctl: "@ + name
}

/// Everything that browsing shows is as before, the input line and popup aside.
pub open spec fn same_view(a: &App, b: &App) -> bool {
    &&& b.sysctl.parameters@ == a.sysctl.parameters@
    &&& b.section == a.section
    &&& query_view(b.search_query) == query_view(a.search_query)
    &&& b.visible@ == a.visible@
    &&& b.selected == a.selected
    &&& b.docs_scroll == a.docs_scroll
    &&& b.docs_lines == a.docs_lines
    &&& b.clipboard == a.clipboard
    &&& b.now == a.now
}

/// Only the input line changed.
pub open spec fn only_input(a: &App, b: &App) -> bool {
    &&& same_view(a, b)
    &&& b.message == a.message
    &&& b.popup == a.popup
    &&& b.running == a.running
}

/// Nothing changed.
pub open spec fn unchanged(a: &App, b: &App) -> bool {
    only_input(a, b) && b.input == a.input
}

/// The effect of `Exit`.
pub open spec fn exit_done(a: &App, b: &App) -> bool {
    &&& same_view(a, b)
    &&& b.message == a.message
    &&& b.input is None
    &&& b.popup is None
    &&& b.running == (a.running && !a.browsing())
}

/// The effect of `UpdateInput(c)`.
pub open spec fn typed(a: &App, b: &App, c: char) -> bool {
    &&& only_input(a, b)
    &&& match a.input {
        Some(i) => b.input matches Some(j) && j.mode == i.mode && j.text@ == inserted(
            i.text@,
            i.cursor as int,
            c,
        ) && j.cursor == i.cursor + 1,
        None => b.input is None,
    }
}

/// The effect of `MoveCursor(n)`.
pub open spec fn cursor_moved(a: &App, b: &App, n: int) -> bool {
    &&& only_input(a, b)
    &&& match a.input {
        Some(i) => b.input matches Some(j) && j.mode == i.mode && j.text@ == i.text@ && j.cursor
            == moved(i.cursor as int, n, i.text.len() as int),
        None => b.input is None,
    }
}

/// The effect of `ClearInput(word)`.
pub open spec fn cleared(a: &App, b: &App, word: bool) -> bool {
    &&& only_input(a, b)
    &&& match a.input {
        Some(i) => {
            let from = if word {
                word_start(i.text@, i.cursor as int)
            } else if i.cursor > 0 {
                i.cursor - 1
            } else {
                0
            };
            b.input matches Some(j) && j.mode == i.mode && j.text@ == removed(
                i.text@,
                from,
                i.cursor as int,
            ) && j.cursor == from
        },
        None => b.input is None,
    }
}

/// The effect of `Search`.
pub open spec fn search_started(a: &App, b: &App) -> bool {
    &&& same_view(a, b)
    &&& b.message == a.message
    &&& b.popup == a.popup
    &&& b.running == a.running
    &&& if a.browsing() {
        b.input matches Some(j) && j.mode == InputMode::Search && j.text@.len() == 0 && j.cursor
            == 0
    } else {
        b.input == a.input
    }
}

/// The effect of `Scroll(area, direction, amount)`.
pub open spec fn scroll_done(a: &App, b: &App, area: ScrollArea, direction: Direction, amount: int) -> bool {
    &&& b.sysctl.parameters@ == a.sysctl.parameters@
    &&& b.section == a.section
    &&& query_view(b.search_query) == query_view(a.search_query)
    &&& b.visible@ == a.visible@
    &&& b.docs_lines == a.docs_lines
    &&& b.clipboard == a.clipboard
    &&& b.now == a.now
    &&& b.message == a.message
    &&& b.running == a.running
    &&& b.input == a.input
    &&& if a.popup is Some {
        &&& b.selected == a.selected
        &&& b.docs_scroll == a.docs_scroll
        &&& b.popup == (if area == ScrollArea::List {
            scrolled(COPY_CHOICES as int, a.popup, direction, amount)
        } else {
            a.popup
        })
    } else if a.input is Some {
        b.selected == a.selected && b.docs_scroll == a.docs_scroll && b.popup == a.popup
    } else if area == ScrollArea::List {
        &&& b.selected == scrolled(a.visible.len() as int, a.selected, direction, amount)
        &&& b.docs_scroll == 0
        &&& b.popup is None
    } else {
        &&& b.selected == a.selected
        &&& b.docs_scroll == docs_scrolled(
            a.docs_scroll as int,
            a.docs_lines as int,
            direction,
            amount,
        )
        &&& b.popup is None
    }
}

/// The effect of `Copy`.
pub open spec fn copy_done(a: &App, b: &App) -> bool {
    &&& same_view(a, b)
    &&& b.input == a.input
    &&& b.running == a.running
    &&& if a.browsing() && a.selected is Some {
        if a.clipboard {
            b.popup == Some(0usize) && b.message == a.message
        } else {
            b.popup is None && (b.message matches Some(m) && m.text@
                == "Clipboard support is not enabled"@)
        }
    } else {
        b.popup == a.popup && b.message == a.message
    }
}

/// The effect of `Select`, and the action it asks for.
pub open spec fn select_done(a: &App, b: &App, r: Action) -> bool {
    &&& same_view(a, b)
    &&& b.message == a.message
    &&& b.running == a.running
    &&& match a.popup {
        Some(c) => {
            &&& b.popup is None
            &&& b.input == a.input
            &&& match a.selected_index() {
                Some(k) => r matches Action::CopyText(t) && t@ == (if c == 0 {
                    a.sysctl.parameters[k as int].name@
                } else {
                    a.sysctl.parameters[k as int].value@
                }),
                None => r is Nothing,
            }
        },
        None => {
            &&& b.popup is None
            &&& r is Nothing
            &&& match (a.input, a.selected_index()) {
                (None, Some(k)) => b.input matches Some(j) && j.mode == InputMode::Command
                    && j.text@ == set_line(
                    a.sysctl.parameters[k as int].name@,
                    a.sysctl.parameters[k as int].value@,
                ) && j.cursor == j.text.len(),
                _ => b.input == a.input,
            }
        },
    }
}

/// The effect of a tick of the clock at `now`.
pub open spec fn ticked(a: &App, b: &App, now: u64) -> bool {
    &&& b.now == now
    &&& b.message == (match a.message {
        Some(m) => if now > m.expires_at { None } else { Some(m) },
        None => None,
    })
    &&& b.sysctl.parameters@ == a.sysctl.parameters@
    &&& b.section == a.section
    &&& query_view(b.search_query) == query_view(a.search_query)
    &&& b.visible@ == a.visible@
    &&& b.selected == a.selected
    &&& b.docs_scroll == a.docs_scroll
    &&& b.docs_lines == a.docs_lines
    &&& b.clipboard == a.clipboard
    &&& b.input == a.input
    &&& b.popup == a.popup
    &&& b.running == a.running
}

/// The outcome of writing `value` to the parameter at `index`: on success
/// the value is set and no message is left; on failure the parameters are
/// as before and a message says why.
pub open spec fn update_finished(a: &App, b: &App, index: int, value: Seq<char>, ok: bool) -> bool {
    &&& b.input == a.input
    &&& b.popup == a.popup
    &&& b.running == a.running
    &&& b.section == a.section
    &&& query_view(b.search_query) == query_view(a.search_query)
    &&& b.visible@ == a.visible@
    &&& b.selected == a.selected
    &&& b.docs_scroll == a.docs_scroll
    &&& b.docs_lines == a.docs_lines
    &&& b.clipboard == a.clipboard
    &&& b.now == a.now
    &&& b.sysctl.parameters.len() == a.sysctl.parameters.len()
    &&& if ok {
        &&& b.message is None
        &&& b.sysctl.parameters[index].value@ == value
        &&& b.sysctl.parameters[index].name@ == a.sysctl.parameters[index].name@
        &&& forall|k: int|
            0 <= k < a.sysctl.parameters.len() && k != index ==> b.sysctl.parameters[k]
                == a.sysctl.parameters[k]
    } else {
        &&& b.message is Some
        &&& b.sysctl.parameters@ == a.sysctl.parameters@
    }
}


/// Whether a parameter of `a` has the name `n`.
pub open spec fn has_name(a: &App, n: Seq<char>) -> bool {
    exists|k: int| 0 <= k < a.sysctl.parameters.len() && #[trigger] a.sysctl.parameters[k].name@ == n
}

/// The effect of running the command line `t`, and the action it asks for.
pub open spec fn command_processed(a: &App, b: &App, r: Action, t: Seq<char>) -> bool {
    &&& same_view(a, b)
    &&& (forall|n: Seq<char>, v: Seq<char>|
        #[trigger] set_command(t, n, v) ==> {
            if has_name(a, n) {
                &&& r matches Action::Update { index, value } && index < a.sysctl.parameters.len()
                    && a.sysctl.parameters[index as int].name@ == n && value@ == v
                &&& b.message == a.message
            } else {
                &&& r is Nothing
                &&& b.message matches Some(m) && m.text@ == no_such_text(n)
            }
        })
    &&& ((forall|n: Seq<char>, v: Seq<char>| !#[trigger] set_command(t, n, v)) ==> (r is Nothing
        && b.message is Some))
}


/// Whether a listed parameter of `b` has the name `n`.
pub open spec fn lists_name(b: &App, n: Seq<char>) -> bool {
    exists|i: int|
        0 <= i < b.visible.len() && #[trigger] b.sysctl.parameters[b.visible[i] as int].name@ == n
}

/// The first listed parameter, where there is one.
pub open spec fn first_selected(b: &App) -> Option<usize> {
    if b.visible.len() > 0 {
        Some(0usize)
    } else {
        None
    }
}

/// The selection after a reload: the parameter of the same name where it is
/// still listed, the first one otherwise.
pub open spec fn reselected(a: &App, b: &App) -> bool {
    match a.selected_index() {
        Some(k) => {
            let n = a.sysctl.parameters[k as int].name@;
            if lists_name(b, n) {
                b.selected matches Some(i) && b.sysctl.parameters[b.visible[i as int] as int].name@ == n
            } else {
                b.selected == first_selected(b)
            }
        },
        None => b.selected == first_selected(b),
    }
}

/// The effect of `ProcessInput`, and the action it asks for.
pub open spec fn input_processed(a: &App, b: &App, r: Action) -> bool {
    &&& b.popup == a.popup
    &&& b.running == a.running
    &&& b.sysctl.parameters@ == a.sysctl.parameters@
    &&& b.input is None
    &&& match a.input {
        None => unchanged(a, b) && r is Nothing,
        Some(i) => match i.mode {
            InputMode::Search => {
                &&& r is Nothing
                &&& b.section == a.section
                &&& query_view(b.search_query) == (if i.text.len() == 0 {
                    None
                } else {
                    Some(i.text@)
                })
                &&& b.visible@ == b.listing()
                &&& b.selected == (if b.visible.len() > 0 { Some(0usize) } else { None::<usize> })
                &&& b.message == a.message
                &&& b.docs_scroll == 0
                &&& b.docs_lines == a.docs_lines
                &&& b.clipboard == a.clipboard
                &&& b.now == a.now
            },
            InputMode::Command => command_processed(a, b, r, i.text@),
        },
    }
}

impl App {
    /// The listing that the parameters, section and filter call for.
    pub open spec fn listing(&self) -> Seq<usize> {
        listed(
            self.sysctl.parameters@,
            self.section,
            query_view(self.search_query),
            self.sysctl.parameters.len() as int,
        )
    }

    /// The session's invariant.
    pub open spec fn wf(&self) -> bool {
        &&& self.visible@ == self.listing()
        &&& forall|i: int|
            0 <= i < self.visible.len() ==> #[trigger] self.visible[i] < self.sysctl.parameters.len()
        &&& (self.selected matches Some(i) ==> i < self.visible.len())
        &&& (self.input matches Some(inp) ==> inp.cursor <= inp.text.len())
        &&& (self.popup matches Some(c) ==> c < COPY_CHOICES)
        &&& !(self.input is Some && self.popup is Some)
        &&& self.docs_scroll <= self.docs_lines
    }

    /// Browsing: neither typing nor a popup.
    pub open spec fn browsing(&self) -> bool {
        self.input is None && self.popup is None
    }

    /// The position in the store of the selected parameter.
    pub open spec fn selected_index(&self) -> Option<usize> {
        match self.selected {
            Some(i) => Some(self.visible[i as int]),
            None => None,
        }
    }

    /// Positions of the parameters shown under the current section and filter.
    fn list_visible(&self) -> (r: Vec<usize>)
        ensures
            r@ == self.listing(),
            forall|i: int| 0 <= i < r.len() ==> #[trigger] r[i] < self.sysctl.parameters.len(),
    {
        let ps = &self.sysctl.parameters;
        let mut r: Vec<usize> = Vec::new();
        let mut i: usize = 0;
        proof {
            lemma_listed_bounded(ps@, self.section, query_view(self.search_query), ps.len() as int);
        }
        while i < ps.len()
            invariant
                ps == &self.sysctl.parameters,
                0 <= i <= ps.len(),
                r@ == listed(ps@, self.section, query_view(self.search_query), i as int),
            decreases ps.len() - i,
        {
            let p = &ps[i];
            let in_section = match self.section {
                Some(s) => p.section == s,
                None => true,
            };
            let matches_query = match &self.search_query {
                Some(q) => {
                    let name = chars_of(p.name.as_str());
                    contains_chars(&name, q)
                },
                None => true,
            };
            if in_section && matches_query {
                r.push(i);
            }
            i = i + 1;
        }
        r
    }

    /// Starts a session over the given parameters, listing all of them, with
    /// the first one selected.
    pub fn new(sysctl: Sysctl, clipboard: bool) -> (r: App)
        ensures
            r.wf(),
            r.browsing(),
            r.running,
            r.message is None,
            r.section is None,
            r.search_query is None,
            r.sysctl.parameters@ == sysctl.parameters@,
            r.clipboard == clipboard,
            r.selected == (if sysctl.parameters.len() > 0 { Some(0usize) } else { None::<usize> }),
    {
        let mut app = App {
            sysctl,
            section: None,
            search_query: None,
            visible: Vec::new(),
            selected: None,
            input: None,
            message: None,
            docs_scroll: 0,
            docs_lines: 0,
            popup: None,
            running: true,
            clipboard,
            now: 0,
        };
        app.visible = app.list_visible();
        proof {
            lemma_listed_all(app.sysctl.parameters@, app.sysctl.parameters.len() as int);
        }
        if app.visible.len() > 0 {
            app.selected = Some(0);
        }
        app
    }

    /// `Exit`: closes the input line or the popup; while browsing, ends the session.
    pub fn exit(&mut self)
        requires
            old(self).wf(),
        ensures
            final(self).wf(),
            exit_done(old(self), final(self)),
    {
        if self.input.is_some() {
            self.input = None;
        } else if self.popup.is_some() {
            self.popup = None;
        } else {
            self.running = false;
        }
    }

    /// `UpdateInput(c)`: puts `c` in at the cursor and moves the cursor past it.
    pub fn update_input(&mut self, c: char)
        requires
            old(self).wf(),
        ensures
            final(self).wf(),
            typed(old(self), final(self), c),
    {
        if let Some(inp) = &mut self.input {
            let ghost t = inp.text@;
            inp.text.insert(inp.cursor, c);
            assert(inp.text@ =~= inserted(t, inp.cursor as int, c));
            assert(inp.cursor < inp.text.len());
            inp.cursor = inp.cursor + 1;
        }
    }

    /// `MoveCursor(n)`: moves the cursor by `n`, kept within the line.
    pub fn move_cursor(&mut self, n: i32)
        requires
            old(self).wf(),
        ensures
            final(self).wf(),
            cursor_moved(old(self), final(self), n as int),
    {
        if let Some(inp) = &mut self.input {
            if n < 0 {
                let back = (0 - (n as i64)) as usize;
                if back > inp.cursor {
                    inp.cursor = 0;
                } else {
                    inp.cursor = inp.cursor - back;
                }
            } else {
                let ahead = n as usize;
                if ahead > inp.text.len() - inp.cursor {
                    inp.cursor = inp.text.len();
                } else {
                    inp.cursor = inp.cursor + ahead;
                }
            }
        }
    }

    /// `ClearInput(word)`: deletes the character before the cursor, or with
    /// `word` the spaces and then the word before it.
    pub fn clear_input(&mut self, word: bool)
        requires
            old(self).wf(),
        ensures
            final(self).wf(),
            cleared(old(self), final(self), word),
    {
        if let Some(inp) = &mut self.input {
            let from = clear_start(&inp.text, inp.cursor, word);
            remove_range(&mut inp.text, from, inp.cursor);
            inp.cursor = from;
        }
    }

    /// `Search`: while browsing, opens an empty filter line.
    pub fn search(&mut self)
        requires
            old(self).wf(),
        ensures
            final(self).wf(),
            search_started(old(self), final(self)),
    {
        if self.input.is_none() && self.popup.is_none() {
            self.input = Some(Input { mode: InputMode::Search, text: Vec::new(), cursor: 0 });
        }
    }

    /// Shows a message until the clock is more than `duration` past its last tick.
    pub fn show_message(&mut self, text: String, duration: u64)
        requires
            old(self).wf(),
        ensures
            final(self).wf(),
            same_view(old(self), final(self)),
            final(self).input == old(self).input,
            final(self).popup == old(self).popup,
            final(self).running == old(self).running,
            final(self).message matches Some(m) && m.text@ == text@ && m.expires_at == (if old(self).now
                <= u64::MAX - duration {
                (old(self).now + duration) as u64
            } else {
                u64::MAX
            }),
    {
        let expires_at = self.now.saturating_add(duration);
        self.message = Some(Message { text, expires_at });
    }

    /// A tick of the clock: records the time and removes an expired message.
    pub fn tick(&mut self, now: u64)
        requires
            old(self).wf(),
        ensures
            final(self).wf(),
            ticked(old(self), final(self), now),
    {
        self.now = now;
        let expired = match &self.message {
            Some(m) => now > m.expires_at,
            None => false,
        };
        if expired {
            self.message = None;
        }
    }

    /// `Copy`: opens the popup that offers the selected parameter's name or
    /// value, or says that there is no clipboard.
    pub fn copy(&mut self)
        requires
            old(self).wf(),
        ensures
            final(self).wf(),
            copy_done(old(self), final(self)),
    {
        if self.input.is_none() && self.popup.is_none() && self.selected.is_some() {
            if self.clipboard {
                self.popup = Some(0);
            } else {
                let text = string_of(&chars_of("Clipboard support is not enabled"));
                self.show_message(text, MESSAGE_DURATION);
            }
        }
    }

    /// `Scroll(area, direction, amount)`: moves the popup's choice, the
    /// selection or the documentation, within their bounds.
    pub fn scroll(&mut self, area: ScrollArea, direction: Direction, amount: u8)
        requires
            old(self).wf(),
        ensures
            final(self).wf(),
            scroll_done(old(self), final(self), area, direction, amount as int),
    {
        if let Some(c) = self.popup {
            if area == ScrollArea::List {
                self.popup = Some(scroll_index(COPY_CHOICES, Some(c), direction, amount as usize));
            }
        } else if self.input.is_none() {
            if area == ScrollArea::List {
                if self.visible.len() == 0 {
                    self.selected = None;
                } else {
                    self.selected = Some(
                        scroll_index(self.visible.len(), self.selected, direction, amount as usize),
                    );
                }
                self.docs_scroll = 0;
            } else {
                let off = self.docs_scroll;
                let lines = self.docs_lines;
                let a = amount as usize;
                self.docs_scroll = match direction {
                    Direction::Up => if off >= a { off - a } else { 0 },
                    Direction::Down => if a <= lines - off { off + a } else { lines },
                    Direction::Top => 0,
                    Direction::Bottom => lines,
                };
            }
        }
    }

    /// `Select`: in the popup, asks to copy the highlighted choice; while
    /// browsing, opens the command line `set <name> <value>` for the selected
    /// parameter, with the cursor at its end.
    pub fn select(&mut self) -> (r: Action)
        requires
            old(self).wf(),
        ensures
            final(self).wf(),
            select_done(old(self), final(self), r),
    {
        if let Some(c) = self.popup {
            self.popup = None;
            match self.selected {
                Some(i) => {
                    let p = &self.sysctl.parameters[self.visible[i]];
                    let t = if c == 0 {
                        p.name.clone()
                    } else {
                        p.value.clone()
                    };
                    Action::CopyText(t)
                },
                None => Action::Nothing,
            }
        } else {
            if self.input.is_none() {
                if let Some(i) = self.selected {
                    let p = &self.sysctl.parameters[self.visible[i]];
                    let mut text = chars_of("set ");
                    proof {
                        reveal_strlit("set ");
                    }
                    push_all(&mut text, &chars_of(p.name.as_str()));
                    text.push(' ');
                    push_all(&mut text, &chars_of(p.value.as_str()));
                    assert(text@ =~= set_line(p.name@, p.value@));
                    let cursor = text.len();
                    self.input = Some(Input { mode: InputMode::Command, text, cursor });
                }
            }
            Action::Nothing
        }
    }

    /// `ProcessInput`: applies the filter line, or runs the command line, and
    /// closes it. A `set <name> <value>` command for a known name asks for
    /// the write; an unknown name or another command leaves a message.
    pub fn process_input(&mut self) -> (r: Action)
        requires
            old(self).wf(),
        ensures
            final(self).wf(),
            input_processed(old(self), final(self), r),
    {
        let (mode, text) = match &self.input {
            None => {
                return Action::Nothing;
            },
            Some(inp) => {
                let mut text: Vec<char> = Vec::new();
                push_all(&mut text, &inp.text);
                (inp.mode, text)
            },
        };
        self.input = None;
        match mode {
            InputMode::Search => {
                self.search_query = if text.len() == 0 {
                    None
                } else {
                    Some(text)
                };
                self.visible = self.list_visible();
                self.selected = if self.visible.len() > 0 {
                    Some(0)
                } else {
                    None
                };
                self.docs_scroll = 0;
                Action::Nothing
            },
            InputMode::Command => {
                match parse_set(&text) {
                    Some((name, value)) => {
                        proof {
                            lemma_set_command_unique(text@, name@, value@);
                        }
                        let name_s = string_of(&name);
                        match self.sysctl.get_parameter(&name_s) {
                            Some(k) => Action::Update { index: k, value: string_of(&value) },
                            None => {
                                let mut m = chars_of("sysctl error: no such sysctl: ");
                                push_all(&mut m, &name);
                                self.show_message(string_of(&m), MESSAGE_DURATION);
                                Action::Nothing
                            },
                        }
                    },
                    None => {
                        let m = chars_of("invalid command: expected set <name> <value>");
                        self.show_message(string_of(&m), MESSAGE_DURATION);
                        Action::Nothing
                    },
                }
            },
        }
    }

    /// Reports how the write that an `Update` asked for went: on success the
    /// value is stored and any message is removed; on failure the parameters
    /// stay as they were and the error is shown.
    pub fn finish_update(&mut self, index: usize, value: String, result: Result<(), String>)
        requires
            old(self).wf(),
            index < old(self).sysctl.parameters.len(),
        ensures
            final(self).wf(),
            update_finished(old(self), final(self), index as int, value@, result is Ok),
            result matches Err(e) ==> final(self).message matches Some(m) && m.text@
                == "sysctl error: "@ + e@,
    {
        match result {
            Ok(()) => {
                let ghost before = self.sysctl.parameters@;
                let mut p = self.sysctl.parameters.remove(index);
                p.value = value;
                self.sysctl.parameters.insert(index, p);
                proof {
                    let after = self.sysctl.parameters@;
                    assert forall|k: int| 0 <= k < before.len() && k != index implies after[k]
                        == before[k] by {
                        if k < index {
                        } else {
                        }
                    }
                    assert forall|k: int| 0 <= k < before.len() implies (#[trigger] after[k]).name@
                        == before[k].name@ && after[k].section == before[k].section by {}
                    lemma_listed_same(
                        before,
                        after,
                        self.section,
                        query_view(self.search_query),
                        before.len() as int,
                    );
                }
                self.message = None;
            },
            Err(e) => {
                let mut m = chars_of("sysctl error: ");
                push_all(&mut m, &chars_of(e.as_str()));
                self.show_message(string_of(&m), MESSAGE_DURATION);
            },
        }
    }

    /// Replaces the parameters with a fresh reading of them. The parameter
    /// that was selected stays selected where it is still listed; otherwise
    /// the first one is.
    pub fn reload(&mut self, parameters: Vec<Parameter>)
        requires
            old(self).wf(),
        ensures
            final(self).wf(),
            final(self).sysctl.parameters@ == parameters@,
            final(self).section == old(self).section,
            query_view(final(self).search_query) == query_view(old(self).search_query),
            final(self).input == old(self).input,
            final(self).popup == old(self).popup,
            final(self).message == old(self).message,
            final(self).running == old(self).running,
            reselected(old(self), final(self)),
    {
        let old_name = match self.selected {
            Some(i) => Some(self.sysctl.parameters[self.visible[i]].name.clone()),
            None => None,
        };
        self.sysctl.parameters = parameters;
        self.visible = self.list_visible();
        self.docs_scroll = 0;
        let found = match &old_name {
            Some(name) => position_of_name(&self.sysctl.parameters, &self.visible, name),
            None => None,
        };
        self.selected = match found {
            Some(i) => Some(i),
            None => if self.visible.len() > 0 {
                Some(0)
            } else {
                None
            },
        };
    }

    /// Runs one command, and tells what the surroundings must do next.
    pub fn run_command(&mut self, command: Command) -> (r: Action)
        requires
            old(self).wf(),
        ensures
            final(self).wf(),
            match command {
                Command::Select => select_done(old(self), final(self), r),
                Command::Search => search_started(old(self), final(self)) && r is Nothing,
                Command::UpdateInput(c) => typed(old(self), final(self), c) && r is Nothing,
                Command::MoveCursor(n) => cursor_moved(old(self), final(self), n as int) && r is Nothing,
                Command::ClearInput(word) => cleared(old(self), final(self), word) && r is Nothing,
                Command::ProcessInput => input_processed(old(self), final(self), r),
                Command::Refresh => unchanged(old(self), final(self)) && r is Refresh,
                Command::Copy => copy_done(old(self), final(self)) && r is Nothing,
                Command::Scroll(area, direction, amount) => scroll_done(
                    old(self),
                    final(self),
                    area,
                    direction,
                    amount as int,
                ) && r is Nothing,
                Command::Exit => exit_done(old(self), final(self)) && r is Nothing,
                Command::Nothing => unchanged(old(self), final(self)) && r is Nothing,
            },
    {
        match command {
            Command::Select => self.select(),
            Command::Search => {
                self.search();
                Action::Nothing
            },
            Command::UpdateInput(c) => {
                self.update_input(c);
                Action::Nothing
            },
            Command::MoveCursor(n) => {
                self.move_cursor(n);
                Action::Nothing
            },
            Command::ClearInput(word) => {
                self.clear_input(word);
                Action::Nothing
            },
            Command::ProcessInput => self.process_input(),
            Command::Refresh => Action::Refresh,
            Command::Copy => {
                self.copy();
                Action::Nothing
            },
            Command::Scroll(area, direction, amount) => {
                self.scroll(area, direction, amount);
                Action::Nothing
            },
            Command::Exit => {
                self.exit();
                Action::Nothing
            },
            Command::Nothing => Action::Nothing,
        }
    }
}

proof fn lemma_listed_all(ps: Seq<Parameter>, n: int)
    requires
        0 <= n,
    ensures
        listed(ps, None, None, n).len() == n,
    decreases n,
{
    if n > 0 {
        lemma_listed_all(ps, n - 1);
    }
}


/// The selection after a move in a non-empty list of `len` items.
fn scroll_index(len: usize, selected: Option<usize>, direction: Direction, amount: usize) -> (r: usize)
    requires
        len > 0,
    ensures
        Some(r) == scrolled(len as int, selected, direction, amount as int),
        r < len,
{
    let cur = match selected {
        Some(i) => if i < len { i } else { len - 1 },
        None => 0,
    };
    match direction {
        Direction::Up => if cur >= amount { cur - amount } else { 0 },
        Direction::Down => if amount < len - cur { cur + amount } else { len - 1 },
        Direction::Top => 0,
        Direction::Bottom => len - 1,
    }
}


/// Where a deletion that ends at `end` starts.
fn clear_start(t: &Vec<char>, end: usize, word: bool) -> (r: usize)
    requires
        end <= t.len(),
    ensures
        r <= end,
        r == (if word {
            word_start(t@, end as int)
        } else if end > 0 {
            end - 1
        } else {
            0
        }),
{
    let mut from: usize = end;
    if word {
        while from > 0 && t[from - 1] == ' '
            invariant
                0 <= from <= end <= t.len(),
                skip_spaces_back(t@, from as int) == skip_spaces_back(t@, end as int),
            decreases from,
        {
            from = from - 1;
        }
        assert(skip_spaces_back(t@, from as int) == from as int);
        let ghost sp = from as int;
        while from > 0 && t[from - 1] != ' '
            invariant
                0 <= from <= sp <= end <= t.len(),
                sp == skip_spaces_back(t@, end as int),
                skip_word_back(t@, from as int) == skip_word_back(t@, sp),
            decreases from,
        {
            from = from - 1;
        }
        assert(skip_word_back(t@, from as int) == from as int);
    } else if from > 0 {
        from = from - 1;
    }
    from
}

/// Deletes the characters from `from` to `to`.
fn remove_range(t: &mut Vec<char>, from: usize, to: usize)
    requires
        from <= to <= old(t).len(),
    ensures
        final(t)@ == removed(old(t)@, from as int, to as int),
{
    let ghost s = t@;
    let mut i: usize = from;
    while i < to
        invariant
            from <= i <= to <= s.len(),
            t@ == s.subrange(0, from as int) + s.subrange(i as int, s.len() as int),
        decreases to - i,
    {
        t.remove(from);
        i = i + 1;
        assert(t@ =~= s.subrange(0, from as int) + s.subrange(i as int, s.len() as int));
    }
}


/// Names in the same places, under the same sections, are listed alike.
proof fn lemma_listed_same(
    a: Seq<Parameter>,
    b: Seq<Parameter>,
    section: Option<Section>,
    query: Option<Seq<char>>,
    n: int,
)
    requires
        0 <= n <= a.len(),
        a.len() == b.len(),
        forall|k: int| 0 <= k < a.len() ==> (#[trigger] b[k]).name@ == a[k].name@,
        forall|k: int| 0 <= k < a.len() ==> (#[trigger] b[k]).section == a[k].section,
    ensures
        listed(a, section, query, n) == listed(b, section, query, n),
    decreases n,
{
    if n > 0 {
        lemma_listed_same(a, b, section, query, n - 1);
        assert(b[n - 1].name@ == a[n - 1].name@);
    }
}

/// A command line splits into `set`, a name and a value in one way at most.
proof fn lemma_set_command_unique(t: Seq<char>, n: Seq<char>, v: Seq<char>)
    requires
        set_command(t, n, v),
    ensures
        forall|n2: Seq<char>, v2: Seq<char>| #[trigger] set_command(t, n2, v2) ==> n2 == n && v2 == v,
{
    assert forall|n2: Seq<char>, v2: Seq<char>| #[trigger] set_command(t, n2, v2) implies n2 == n && v2
        == v by {
        assert(t[4 + n.len() as int] == ' ');
        assert(t[4 + n2.len() as int] == ' ');
        if n2.len() < n.len() {
            assert(n[n2.len() as int] == t[4 + n2.len() as int]);
            assert(n.contains(' '));
        } else if n.len() < n2.len() {
            assert(n2[n.len() as int] == t[4 + n.len() as int]);
            assert(n2.contains(' '));
        } else {
            assert(n2 =~= t.subrange(4, 4 + n.len() as int));
            assert(n =~= t.subrange(4, 4 + n.len() as int));
            assert(v2 =~= t.subrange(5 + n.len() as int, t.len() as int));
            assert(v =~= t.subrange(5 + n.len() as int, t.len() as int));
        }
    }
}

/// Splits `set <name> <value>` into its name and value.
fn parse_set(t: &Vec<char>) -> (r: Option<(Vec<char>, Vec<char>)>)
    ensures
        r matches Some((n, v)) ==> set_command(t@, n@, v@),
        r is None ==> forall|n: Seq<char>, v: Seq<char>| !#[trigger] set_command(t@, n, v),
{
    if t.len() < 5 || t[0] != 's' || t[1] != 'e' || t[2] != 't' || t[3] != ' ' {
        assert forall|n: Seq<char>, v: Seq<char>| !#[trigger] set_command(t@, n, v) by {
            if set_command(t@, n, v) {
                assert(t@[0] == 's' && t@[1] == 'e' && t@[2] == 't' && t@[3] == ' ');
                assert(t@.len() >= 5);
            }
        }
        return None;
    }
    let mut p: usize = 4;
    while p < t.len() && t[p] != ' '
        invariant
            4 <= p <= t.len(),
            forall|k: int| 4 <= k < p ==> t@[k] != ' ',
        decreases t.len() - p,
    {
        p = p + 1;
    }
    if p == t.len() || p == 4 {
        assert forall|n: Seq<char>, v: Seq<char>| !#[trigger] set_command(t@, n, v) by {
            if set_command(t@, n, v) {
                let e: int = 4 + n.len() as int;
                assert(t@[e] == ' ');
                if e < p {
                } else {
                    assert(t@[4] == n[0]);
                    assert(n.contains(' ') || p != 4 || t@[4] != ' ');
                    if p == t.len() {
                    } else {
                        assert(t@[p as int] == n[p - 4]);
                    }
                }
            }
        }
        return None;
    }
    let name = sub_chars(t, 4, p);
    let value = sub_chars(t, p + 1, t.len());
    assert(!name@.contains(' ')) by {
        if name@.contains(' ') {
            let k = choose|k: int| 0 <= k < name@.len() && name@[k] == ' ';
            assert(t@[4 + k] == ' ');
        }
    }
    assert(t@ =~= seq!['s', 'e', 't', ' '] + name@ + seq![' '] + value@);
    Some((name, value))
}


/// `Exit` while typing or in the popup goes back to browsing and keeps the
/// session running; `Exit` while browsing ends it.
pub proof fn lemma_exit_goes_back_one_level(a: &App, b: &App)
    requires
        a.running,
        exit_done(a, b),
    ensures
        b.browsing(),
        a.browsing() ==> !b.running,
        !a.browsing() ==> b.running,
{
}

/// Jumping to the top and then to the bottom of the list ends where a jump
/// to the bottom alone does, from any selection.
pub proof fn lemma_top_then_bottom(len: int, selected: Option<usize>, first: int, second: int)
    ensures
        scrolled(len, scrolled(len, selected, Direction::Top, first), Direction::Bottom, second)
            == scrolled(len, selected, Direction::Bottom, second),
{
}

/// After a write to a parameter is reported, either its value is the new
/// one and no message is left, or the parameters are as before and a
/// message says why: never both, never neither.
pub proof fn lemma_update_outcome(a: &App, b: &App, index: int, value: Seq<char>, ok: bool)
    requires
        a.wf(),
        0 <= index < a.sysctl.parameters.len(),
        update_finished(a, b, index, value, ok),
    ensures
        (b.sysctl.parameters[index].value@ == value && b.message is None) || (
        b.sysctl.parameters@ == a.sysctl.parameters@ && b.message is Some),
        ok <==> b.message is None,
{
}

/// A `set` command for a name that no parameter has leaves every value as
/// it was and a message naming it.
pub proof fn lemma_unknown_name_reported(a: &App, b: &App, r: Action, n: Seq<char>, v: Seq<char>)
    requires
        a.input matches Some(i) && i.mode == InputMode::Command && set_command(i.text@, n, v),
        !has_name(a, n),
        input_processed(a, b, r),
    ensures
        b.sysctl.parameters@ == a.sysctl.parameters@,
        b.message matches Some(m) && m.text@ == no_such_text(n),
        r is Nothing,
        b.input is None,
        same_view(a, b),
        b.popup == a.popup,
        b.running == a.running,
{
}

/// A `set <name> <value>` command for a known name, once the write is
/// reported, either leaves the value set and no message, or every value as
/// it was and a message: never both, never neither. Either way the session
/// is back to browsing and goes on.
pub proof fn lemma_set_command_outcome(
    a: &App,
    b: &App,
    c: &App,
    r: Action,
    n: Seq<char>,
    v: Seq<char>,
    ok: bool,
)
    requires
        a.wf(),
        a.running,
        a.input matches Some(i) && i.mode == InputMode::Command && set_command(i.text@, n, v),
        has_name(a, n),
        input_processed(a, b, r),
        r matches Action::Update { index, value } && update_finished(b, c, index as int, value@, ok),
    ensures
        c.input is None,
        c.running,
        c.popup == a.popup,
        c.selected == a.selected,
        ok ==> (r matches Action::Update { index, value } && c.sysctl.parameters[index as int].name@ == n
            && c.sysctl.parameters[index as int].value@ == v && c.message is None),
        !ok ==> (c.sysctl.parameters@ == a.sysctl.parameters@ && c.message is Some),
{
}


/// The first place in `visible` of a parameter with the given name.
fn position_of_name(ps: &Vec<Parameter>, visible: &Vec<usize>, name: &String) -> (r: Option<usize>)
    requires
        forall|j: int| 0 <= j < visible.len() ==> #[trigger] visible[j] < ps.len(),
    ensures
        r matches Some(i) ==> i < visible.len() && ps[visible[i as int] as int].name@ == name@,
        r is None ==> forall|j: int|
            0 <= j < visible.len() ==> #[trigger] ps[visible[j] as int].name@ != name@,
{
    let mut i: usize = 0;
    while i < visible.len()
        invariant
            0 <= i <= visible.len(),
            forall|j: int| 0 <= j < visible.len() ==> #[trigger] visible[j] < ps.len(),
            forall|j: int| 0 <= j < i ==> #[trigger] ps[visible[j] as int].name@ != name@,
        decreases visible.len() - i,
    {
        if ps[visible[i]].name == *name {
            return Some(i);
        }
        i = i + 1;
    }
    None
}

} // verus!
