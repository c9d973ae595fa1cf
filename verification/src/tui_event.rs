//! Terminal events: what the terminal reports, what the interface is told of it,
//! and the order in which the sources of events are asked.
use std::collections::VecDeque;
use vstd::prelude::*;

verus! {

/// A key for media control.
#[derive(Debug, Clone, Copy, PartialEq, Eq, Structural)]
pub enum MediaKeyCode {
    Play,
    Pause,
    PlayPause,
    Reverse,
    Stop,
    FastForward,
    Rewind,
    TrackNext,
    TrackPrevious,
    Record,
    LowerVolume,
    RaiseVolume,
    MuteVolume,
}

/// A modifier key, pressed by itself.
#[derive(Debug, Clone, Copy, PartialEq, Eq, Structural)]
pub enum ModifierKeyCode {
    LeftShift,
    LeftControl,
    LeftAlt,
    LeftSuper,
    LeftHyper,
    LeftMeta,
    RightShift,
    RightControl,
    RightAlt,
    RightSuper,
    RightHyper,
    RightMeta,
    IsoLevel3Shift,
    IsoLevel5Shift,
}

/// A key.
#[derive(Debug, Clone, Copy, PartialEq, Eq, Structural)]
pub enum KeyCode {
    Backspace,
    Enter,
    Left,
    Right,
    Up,
    Down,
    Home,
    End,
    PageUp,
    PageDown,
    Tab,
    BackTab,
    Delete,
    Insert,
    F(u8),
    Char(char),
    Null,
    Esc,
    CapsLock,
    ScrollLock,
    NumLock,
    PrintScreen,
    Pause,
    Menu,
    KeypadBegin,
    Media(MediaKeyCode),
    Modifier(ModifierKeyCode),
}

/// The bit of the control key among the modifiers.
pub const CONTROL: u8 = 2;

/// The modifiers that are held with a key, one bit for each.
#[derive(Debug, Clone, Copy, PartialEq, Eq, Structural)]
pub struct KeyModifiers {
    pub bits: u8,
}

impl KeyModifiers {
    /// No modifier.
    pub fn none() -> (modifiers: Self)
        ensures
            modifiers.bits == 0,
    {
        KeyModifiers { bits: 0 }
    }

    /// The control key.
    pub fn control() -> (modifiers: Self)
        ensures
            modifiers.bits == CONTROL,
    {
        KeyModifiers { bits: CONTROL }
    }

    /// All modifiers of `other` are held.
    pub open spec fn holds(self, other: Self) -> bool {
        self.bits & other.bits == other.bits
    }

    /// The modifiers of both.
    pub open spec fn joined(self, other: Self) -> Self {
        KeyModifiers { bits: self.bits | other.bits }
    }

    /// Whether all modifiers of `other` are held.
    pub fn contains(&self, other: Self) -> (held: bool)
        ensures
            held == self.holds(other),
    {
        self.bits & other.bits == other.bits
    }

    /// Hold the modifiers of `other` too.
    pub fn insert(&mut self, other: Self)
        ensures
            *final(self) == old(self).joined(other),
    {
        self.bits = self.bits | other.bits;
    }
}

/// What happened to a key.
#[derive(Debug, Clone, Copy, PartialEq, Eq, Structural)]
pub enum KeyEventKind {
    Press,
    Repeat,
    Release,
}

/// A key event.
#[derive(Debug, Clone, Copy, PartialEq, Eq, Structural)]
pub struct KeyEvent {
    pub code: KeyCode,
    pub modifiers: KeyModifiers,
    pub kind: KeyEventKind,
    /// Further state of the keyboard, one bit for each.
    pub state: u8,
}

impl KeyEvent {
    /// A key that is pressed.
    pub fn new(code: KeyCode, modifiers: KeyModifiers) -> (event: Self)
        ensures
            event == (KeyEvent { code, modifiers, kind: KeyEventKind::Press, state: 0 }),
    {
        KeyEvent { code, modifiers, kind: KeyEventKind::Press, state: 0 }
    }
}

/// What the terminal reports.
#[derive(Debug)]
pub enum Event {
    FocusGained,
    FocusLost,
    Key(KeyEvent),
    /// A mouse event, of which nothing is used.
    Mouse,
    Paste(String),
    Resize(u16, u16),
}

/// What the interface is told.
#[derive(Debug)]
pub enum TuiEvent {
    Key(KeyEvent),
    Paste(String),
    Resize { cursor: Option<(u16, u16)>, size: (u16, u16), interrupted: bool },
    Draw,
    /// Internal wake that asks the idle loop to reconcile queued runtime facts
    /// at a model boundary. It stays typed: injecting magic text into the
    /// composer would turn presentation bytes into a control protocol and
    /// could collide with real user input.
    RuntimeNotificationTurn,
}

/// The key behind a character, and whether the control key is held with it.
pub open spec fn key_of_char(c: char) -> (KeyCode, bool) {
    if c == '\u{1b}' {
        (KeyCode::Esc, false)
    } else if c == '\u{7f}' || c == '\u{8}' {
        (KeyCode::Backspace, false)
    } else if c == '\t' {
        (KeyCode::Tab, false)
    } else if c == '\n' || c == '\r' {
        (KeyCode::Enter, false)
    } else if '\u{1}' <= c <= '\u{1a}' {
        (KeyCode::Char((96 + c as u8) as char), true)
    } else {
        (KeyCode::Char(c), false)
    }
}

impl KeyEvent {
    /// The same event, with a raw control character as the key it stands for.
    pub open spec fn normalized(self) -> KeyEvent {
        match self.code {
            KeyCode::Char(c) => KeyEvent {
                code: key_of_char(c).0,
                modifiers: if key_of_char(c).1 {
                    self.modifiers.joined(KeyModifiers { bits: CONTROL })
                } else {
                    self.modifiers
                },
                ..self
            },
            _ => self,
        }
    }
}

/// The same event, with a raw control character as the key it stands for.
pub fn normalize_key_event(key_event: KeyEvent) -> (normalized: KeyEvent)
    ensures
        normalized == key_event.normalized(),
{
    let mut key_event = key_event;
    let c = match key_event.code {
        KeyCode::Char(c) => c,
        _ => {
            return key_event;
        },
    };
    if c == '\u{1b}' {
        key_event.code = KeyCode::Esc;
    } else if c == '\u{7f}' || c == '\u{8}' {
        key_event.code = KeyCode::Backspace;
    } else if c == '\t' {
        key_event.code = KeyCode::Tab;
    } else if c == '\n' || c == '\r' {
        key_event.code = KeyCode::Enter;
    } else if '\u{1}' <= c && c <= '\u{1a}' {
        let offset = c as u8 - 1;
        key_event.code = KeyCode::Char((97 + offset) as char);
        key_event.modifiers.insert(KeyModifiers::control());
    }
    key_event
}

/// What the interface is told of an event that the terminal reports. Only
/// presses are forwarded: some terminals report repeats and releases of the
/// same keypress, which would otherwise count several times.
pub open spec fn told(event: Event) -> Option<TuiEvent> {
    match event {
        Event::Key(key) => if key.kind == KeyEventKind::Press {
            Some(TuiEvent::Key(key.normalized()))
        } else {
            None
        },
        Event::Resize(width, height) => Some(
            TuiEvent::Resize { cursor: None, size: (width, height), interrupted: false },
        ),
        Event::Paste(pasted) => Some(TuiEvent::Paste(pasted)),
        Event::FocusGained => Some(TuiEvent::Draw),
        Event::FocusLost => Some(TuiEvent::Draw),
        Event::Mouse => None,
    }
}

/// What the interface is told of an event that the terminal reports.
pub fn map_crossterm_event(event: Event) -> (mapped: Option<TuiEvent>)
    ensures
        mapped == told(event),
{
    match event {
        Event::Key(key_event) => if key_event.kind == KeyEventKind::Press {
            Some(TuiEvent::Key(normalize_key_event(key_event)))
        } else {
            None
        },
        Event::Resize(width, height) => Some(
            TuiEvent::Resize { cursor: None, size: (width, height), interrupted: false },
        ),
        Event::Paste(pasted) => Some(TuiEvent::Paste(pasted)),
        Event::FocusGained | Event::FocusLost => Some(TuiEvent::Draw),
        Event::Mouse => None,
    }
}

/// What a source of events answered when it was asked.
#[derive(Debug)]
pub enum Readiness {
    /// It has nothing yet.
    Pending,
    /// It has an event, or it has ended.
    Ready(Option<TuiEvent>),
}

/// A source of events.
#[derive(Debug, Clone, Copy, PartialEq, Eq, Structural)]
pub enum Source {
    Terminal,
    Draws,
}

impl Source {
    /// The other source.
    pub open spec fn other(self) -> Source {
        match self {
            Source::Terminal => Source::Draws,
            Source::Draws => Source::Terminal,
        }
    }
}

/// How a poll of the whole stream goes on.
#[derive(Debug)]
pub enum PollStep {
    /// Answer this.
    Answer(Readiness),
    /// Ask this source, and the other one only if it has nothing yet.
    Ask(Source),
}

/// How a poll goes on after the source that it asked first has answered.
pub open spec fn gone_on(first: Source, answer: Readiness) -> PollStep {
    match answer {
        Readiness::Ready(event) => PollStep::Answer(Readiness::Ready(event)),
        Readiness::Pending => PollStep::Ask(first.other()),
    }
}

/// What is to be done next to learn what the terminal has.
#[derive(Debug)]
pub enum TerminalStep {
    /// Answer this.
    Answer(Readiness),
    /// See whether the running cursor query has finished.
    PollQuery,
    /// See whether the terminal's size is due for a check, and read it if so.
    CheckSize,
    /// Ask the terminal for input.
    PollInput,
    /// Pause the input, query the cursor beside it, and answer this event
    /// meanwhile.
    StartQuery { size: (u16, u16), meanwhile: TuiEvent },
}

/// What a look at the running cursor query gave.
#[derive(Debug)]
pub enum QueryPoll {
    Pending,
    /// The query handed the input back, with this report.
    Finished(TuiEvent),
    /// The query was lost, and the input with it.
    Failed,
}

/// What the terminal's input gave.
#[derive(Debug)]
pub enum InputPoll {
    Pending,
    Event(Event),
    /// The input could not be read.
    Failed,
    Ended,
}

/// What a finished cursor query tells the interface.
pub open spec fn reported(
    started: (u16, u16),
    answer: Option<((u16, u16), Option<(u16, u16)>, bool)>,
) -> TuiEvent {
    match answer {
        Some((size, cursor, interrupted)) => TuiEvent::Resize { cursor, size, interrupted },
        None => TuiEvent::Resize { cursor: None, size: started, interrupted: false },
    }
}

/// What a finished cursor query tells the interface: its own size, cursor and
/// interruption if the query was answered, else the size that started it.
pub fn resize_report(
    started: (u16, u16),
    answer: Option<((u16, u16), Option<(u16, u16)>, bool)>,
) -> (report: TuiEvent)
    ensures
        report == reported(started, answer),
{
    match answer {
        Some((size, cursor, interrupted)) => TuiEvent::Resize { cursor, size, interrupted },
        None => TuiEvent::Resize { cursor: None, size: started, interrupted: false },
    }
}

/// Whether device attributes announce sixel graphics.
pub open spec fn announces_sixel(attributes: Seq<u16>) -> bool {
    exists|i: int| 1 <= i < attributes.len() && attributes[i] == 4
}

/// Whether the terminal's device attributes announce sixel graphics: the
/// attribute `4`, anywhere behind the terminal's class.
pub fn sixel_supported(attributes: &[u16]) -> (supported: bool)
    ensures
        supported == announces_sixel(attributes@),
{
    let mut i: usize = 1;
    while i < attributes.len()
        invariant
            1 <= i,
            forall|j: int| 1 <= j < i && j < attributes@.len() ==> attributes@[j] != 4,
        decreases attributes.len() - i,
    {
        if attributes[i] == 4 {
            return true;
        }
        i = i + 1;
    }
    false
}

/// The decisions of the stream of events: what was put back, which source is
/// asked first, and who reads the terminal.
#[derive(Debug)]
pub struct TuiEventStream {
    pending: VecDeque<TuiEvent>,
    /// The terminal's input is read as events.
    reading: bool,
    /// A cursor query reads the terminal's input.
    querying: bool,
    observed_size: Option<(u16, u16)>,
    poll_draw_first: bool,
}

/// What the decisions depend on.
pub struct StreamView {
    /// The events that were put back, the next one first.
    pub pending: Seq<TuiEvent>,
    /// A cursor query reads the terminal's input.
    pub querying: bool,
    /// The size that the terminal was last known to have.
    pub observed_size: Option<(u16, u16)>,
    /// The source that is asked first by the next poll.
    pub first: Source,
}

impl StreamView {
    /// How the terminal is asked.
    pub open spec fn terminal_step(self) -> TerminalStep {
        if self.querying {
            TerminalStep::PollQuery
        } else {
            TerminalStep::CheckSize
        }
    }

    /// The stream with an event put back.
    pub open spec fn put_back(self, event: TuiEvent) -> StreamView {
        StreamView { pending: seq![event] + self.pending, ..self }
    }

    /// The stream once a poll has begun, and how that poll goes on: what was put
    /// back goes out first, else the sources are asked, each first in every other
    /// poll.
    pub open spec fn begun(self) -> (StreamView, PollStep) {
        if self.pending.len() > 0 {
            (
                StreamView { pending: self.pending.drop_first(), ..self },
                PollStep::Answer(Readiness::Ready(Some(self.pending[0]))),
            )
        } else {
            (StreamView { first: self.first.other(), ..self }, PollStep::Ask(self.first))
        }
    }

    /// The event that a resize to `size` makes before its query is answered.
    pub open spec fn unsettled(size: (u16, u16)) -> TuiEvent {
        TuiEvent::Resize { cursor: None, size, interrupted: true }
    }

    /// The stream once a query has started for a size.
    pub open spec fn querying_at(self, size: (u16, u16)) -> (StreamView, TerminalStep) {
        (
            StreamView { querying: true, ..self },
            TerminalStep::StartQuery { size, meanwhile: Self::unsettled(size) },
        )
    }

    /// The stream after a look at the running query.
    pub open spec fn queried(self, polled: QueryPoll) -> (StreamView, TerminalStep) {
        match polled {
            QueryPoll::Pending => (self, TerminalStep::Answer(Readiness::Pending)),
            QueryPoll::Finished(report) => (
                StreamView {
                    querying: false,
                    observed_size: match report {
                        TuiEvent::Resize { size, .. } => Some(size),
                        _ => self.observed_size,
                    },
                    ..self
                },
                TerminalStep::Answer(Readiness::Ready(Some(report))),
            ),
            QueryPoll::Failed => (self, TerminalStep::Answer(Readiness::Ready(None))),
        }
    }

    /// The stream after a look at the terminal's size.
    pub open spec fn sized(self, announced: bool, size: Option<(u16, u16)>) -> (
        StreamView,
        TerminalStep,
    ) {
        match size {
            Some(now) if announced || self.observed_size != Some(now) => self.querying_at(now),
            _ => (self, TerminalStep::PollInput),
        }
    }

    /// The stream after the terminal's input was asked.
    pub open spec fn fed(self, polled: InputPoll, current: Option<(u16, u16)>) -> (
        StreamView,
        TerminalStep,
    ) {
        match polled {
            InputPoll::Event(Event::Resize(width, height)) => self.querying_at(
                match current {
                    Some(now) => now,
                    None => (width, height),
                },
            ),
            InputPoll::Event(event) => (
                self,
                match told(event) {
                    Some(mapped) => TerminalStep::Answer(Readiness::Ready(Some(mapped))),
                    None => TerminalStep::CheckSize,
                },
            ),
            InputPoll::Failed | InputPoll::Ended => (
                self,
                TerminalStep::Answer(Readiness::Ready(None)),
            ),
            InputPoll::Pending => (self, TerminalStep::Answer(Readiness::Pending)),
        }
    }
}

impl View for TuiEventStream {
    type V = StreamView;

    closed spec fn view(&self) -> StreamView {
        StreamView {
            pending: self.pending@,
            querying: self.querying,
            observed_size: self.observed_size,
            first: if self.poll_draw_first {
                Source::Draws
            } else {
                Source::Terminal
            },
        }
    }
}

impl TuiEventStream {
    /// The terminal's input has one reader: the stream, or a cursor query.
    pub closed spec fn wf(self) -> bool {
        self.reading != self.querying
    }

    /// A stream over a terminal of this size.
    pub fn new(observed_size: Option<(u16, u16)>) -> (stream: Self)
        ensures
            stream.wf(),
            stream@ == (StreamView {
                pending: Seq::empty(),
                querying: false,
                observed_size,
                first: Source::Terminal,
            }),
    {
        TuiEventStream {
            pending: VecDeque::new(),
            reading: true,
            querying: false,
            observed_size,
            poll_draw_first: false,
        }
    }

    /// Put an event back: it is the next one out.
    pub fn push_front(&mut self, event: TuiEvent)
        requires
            old(self).wf(),
        ensures
            final(self).wf(),
            final(self)@ == old(self)@.put_back(event),
    {
        self.pending.push_front(event);
    }

    /// Begin a poll: what was put back goes out first, else the sources are
    /// asked, each first in every other poll.
    pub fn begin_poll(&mut self) -> (step: PollStep)
        requires
            old(self).wf(),
        ensures
            final(self).wf(),
            (final(self)@, step) == old(self)@.begun(),
    {
        if let Some(event) = self.pending.pop_front() {
            return PollStep::Answer(Readiness::Ready(Some(event)));
        }
        let draw_first = self.poll_draw_first;
        self.poll_draw_first = !draw_first;
        if draw_first {
            PollStep::Ask(Source::Draws)
        } else {
            PollStep::Ask(Source::Terminal)
        }
    }

    /// Go on after the source that a poll asked first has answered.
    pub fn after_first(first: Source, answer: Readiness) -> (step: PollStep)
        ensures
            step == gone_on(first, answer),
    {
        match answer {
            Readiness::Ready(event) => PollStep::Answer(Readiness::Ready(event)),
            Readiness::Pending => match first {
                Source::Terminal => PollStep::Ask(Source::Draws),
                Source::Draws => PollStep::Ask(Source::Terminal),
            },
        }
    }

    /// What a draw request, or the end of them, tells the interface.
    pub fn draw_event(polled: Option<Option<()>>) -> (answer: Readiness)
        ensures
            answer == match polled {
                Some(Some(_)) => Readiness::Ready(Some(TuiEvent::Draw)),
                Some(None) => Readiness::Ready(None),
                None => Readiness::Pending,
            },
    {
        match polled {
            Some(Some(_)) => Readiness::Ready(Some(TuiEvent::Draw)),
            Some(None) => Readiness::Ready(None),
            None => Readiness::Pending,
        }
    }

    /// How the terminal is asked.
    pub fn ask_terminal(&self) -> (step: TerminalStep)
        ensures
            step == self@.terminal_step(),
    {
        if self.querying {
            TerminalStep::PollQuery
        } else {
            TerminalStep::CheckSize
        }
    }

    /// Go on after a look at the running query. A finished one hands the input
    /// back, and the size in its report is the size last known.
    pub fn after_query(&mut self, polled: QueryPoll) -> (step: TerminalStep)
        requires
            old(self).wf(),
            old(self)@.querying,
        ensures
            final(self).wf(),
            (final(self)@, step) == old(self)@.queried(polled),
    {
        match polled {
            QueryPoll::Pending => TerminalStep::Answer(Readiness::Pending),
            QueryPoll::Finished(report) => {
                self.querying = false;
                self.reading = true;
                if let TuiEvent::Resize { size, .. } = &report {
                    self.observed_size = Some(*size);
                }
                TerminalStep::Answer(Readiness::Ready(Some(report)))
            },
            QueryPoll::Failed => TerminalStep::Answer(Readiness::Ready(None)),
        }
    }

    /// Go on after a look at the terminal's size. `announced` says that a resize
    /// is known to be under way, `size` is the terminal's size if it was due for
    /// a check and could be read. A query starts if a resize is under way or the
    /// size is not the one last known.
    pub fn after_size(&mut self, announced: bool, size: Option<(u16, u16)>) -> (step: TerminalStep)
        requires
            old(self).wf(),
            !old(self)@.querying,
        ensures
            final(self).wf(),
            (final(self)@, step) == old(self)@.sized(announced, size),
    {
        if let Some(now) = size {
            let changed = match self.observed_size {
                Some(observed) => observed.0 != now.0 || observed.1 != now.1,
                None => true,
            };
            if announced || changed {
                return self.start_resize_query(now);
            }
        }
        if !self.reading {
            return TerminalStep::Answer(Readiness::Ready(None));
        }
        TerminalStep::PollInput
    }

    /// Go on after the terminal's input was asked. A resize starts a query for
    /// `current`, the terminal's size if it can be read, else for the size in the
    /// event. What the interface is not told is passed over, and the terminal is
    /// asked again.
    pub fn after_input(&mut self, polled: InputPoll, current: Option<(u16, u16)>) -> (step:
        TerminalStep)
        requires
            old(self).wf(),
            !old(self)@.querying,
        ensures
            final(self).wf(),
            (final(self)@, step) == old(self)@.fed(polled, current),
    {
        match polled {
            InputPoll::Event(event) => {
                if let Event::Resize(width, height) = event {
                    let size = match current {
                        Some(now) => now,
                        None => (width, height),
                    };
                    return self.start_resize_query(size);
                }
                match map_crossterm_event(event) {
                    Some(mapped) => TerminalStep::Answer(Readiness::Ready(Some(mapped))),
                    None => self.ask_terminal(),
                }
            },
            InputPoll::Failed | InputPoll::Ended => TerminalStep::Answer(Readiness::Ready(None)),
            InputPoll::Pending => TerminalStep::Answer(Readiness::Pending),
        }
    }

    /// Hand the terminal's input to a cursor query. The interface is told of the
    /// new size before the query can let a draw go by, also when the terminal
    /// ends at the size that it had.
    fn start_resize_query(&mut self, size: (u16, u16)) -> (step: TerminalStep)
        requires
            old(self).wf(),
            !old(self)@.querying,
        ensures
            final(self).wf(),
            (final(self)@, step) == old(self)@.querying_at(size),
    {
        self.reading = false;
        self.querying = true;
        TerminalStep::StartQuery {
            size,
            meanwhile: TuiEvent::Resize { cursor: None, size, interrupted: true },
        }
    }
}

/// Normalizing a key again changes nothing. It keeps what happened to the key and
/// all modifiers that were held, and leaves no raw control character that a
/// keyboard sends.
pub proof fn normalization_settles(key: KeyEvent)
    ensures
        key.normalized().normalized() == key.normalized(),
        key.normalized().kind == key.kind,
        key.normalized().state == key.state,
        key.normalized().modifiers.holds(key.modifiers),
        match key.normalized().code {
            KeyCode::Char(c) => c != '\u{1b}' && c != '\u{7f}' && !('\u{1}' <= c <= '\u{1a}'),
            _ => true,
        },
{
    let bits = key.modifiers.bits;
    assert(bits & bits == bits) by (bit_vector);
    assert((bits | 2u8) & bits == bits) by (bit_vector);
}

/// A raw control letter comes out as that letter with the control key held,
/// whatever else is held.
pub proof fn control_letters_are_recognized(key: KeyEvent, c: char)
    requires
        key.code == KeyCode::Char(c),
        '\u{1}' <= c <= '\u{1a}',
        c != '\u{8}' && c != '\t' && c != '\n' && c != '\r',
    ensures
        key.normalized().code == KeyCode::Char((96 + c as u8) as char),
        key.normalized().modifiers.holds(KeyModifiers { bits: CONTROL }),
{
    let bits = key.modifiers.bits;
    assert((bits | 2u8) & 2u8 == 2u8) by (bit_vector);
}

/// One keypress counts once: of the events of a key, the interface is told of the
/// press and of nothing else.
pub proof fn only_presses_are_told(key: KeyEvent)
    ensures
        told(Event::Key(key)) is Some <==> key.kind == KeyEventKind::Press,
        match told(Event::Key(key)) {
            Some(mapped) => mapped == TuiEvent::Key(key.normalized()),
            None => true,
        },
{
}

/// An event that was put back is the next one out, and leaves the stream as it
/// was.
pub proof fn put_back_comes_next(stream: StreamView, event: TuiEvent)
    ensures
        stream.put_back(event).begun() == (
            stream,
            PollStep::Answer(Readiness::Ready(Some(event))),
        ),
{
    assert(stream.put_back(event).pending.drop_first() =~= stream.pending);
}

/// Neither source can be starved by the other: while nothing was put back, the
/// source that is asked first changes with every poll.
pub proof fn sources_take_turns(stream: StreamView)
    requires
        stream.pending.len() == 0,
    ensures
        stream.begun().1 == PollStep::Ask(stream.first),
        stream.begun().0.begun().1 == PollStep::Ask(stream.first.other()),
        stream.begun().0.begun().0 == stream,
{
}

/// A key that is no raw control character is left as it is: capital letters, digits, signs
/// and letters of any script keep their character and modifiers, and so does every key that
/// is no character.
pub proof fn ordinary_keys_stay(key: KeyEvent)
    requires
        match key.code {
            KeyCode::Char(c) => c != '\u{7f}' && (c == '\0' || c > '\u{1b}'),
            _ => true,
        },
    ensures
        key.normalized() == key,
{
}

/// A control character that has a key of its own becomes that key, with the modifiers that
/// were held and no other.
pub proof fn control_characters_have_their_keys(key: KeyEvent, c: char)
    requires
        key.code == KeyCode::Char(c),
    ensures
        c == '\u{1b}' ==> key.normalized() == (KeyEvent { code: KeyCode::Esc, ..key }),
        c == '\u{7f}' || c == '\u{8}' ==> key.normalized() == (KeyEvent {
            code: KeyCode::Backspace,
            ..key
        }),
        c == '\u{9}' ==> key.normalized() == (KeyEvent { code: KeyCode::Tab, ..key }),
        c == '\u{a}' || c == '\u{d}' ==> key.normalized() == (KeyEvent {
            code: KeyCode::Enter,
            ..key
        }),
{
}

/// A raw control letter adds the control key and nothing else: what else is held with it is
/// what was held before, and the letters come out in their order.
pub proof fn control_letters_add_control_only(key: KeyEvent, c: char, bit: u8)
    requires
        key.code == KeyCode::Char(c),
        1 <= c as u32 <= 26,
        c as u32 != 8 && c as u32 != 9 && c as u32 != 10 && c as u32 != 13,
        bit == 1 || bit == 4 || bit == 8 || bit == 16 || bit == 32 || bit == 64 || bit == 128,
    ensures
        key.normalized().code is Char,
        key.normalized().code->Char_0 as u32 - 'a' as u32 == c as u32 - 1,
        key.normalized().modifiers.holds(KeyModifiers { bits: 2 }),
        key.normalized().modifiers.holds(KeyModifiers { bits: bit }) <==> key.modifiers.holds(
            KeyModifiers { bits: bit },
        ),
{
    let bits = key.modifiers.bits;
    assert((bits | 2u8) & 2u8 == 2u8) by (bit_vector);
    assert(((bits | 2u8) & bit == bit) == (bits & bit == bit)) by (bit_vector)
        requires
            bit == 1 || bit == 4 || bit == 8 || bit == 16 || bit == 32 || bit == 64 || bit == 128,
    ;
}

/// Joined modifiers are held exactly where one of the two sides holds them.
pub proof fn joined_modifiers_are_both(a: KeyModifiers, b: KeyModifiers, bit: u8)
    requires
        bit == 1 || bit == 2 || bit == 4 || bit == 8 || bit == 16 || bit == 32 || bit == 64 || bit
            == 128,
    ensures
        a.joined(b).holds(KeyModifiers { bits: bit }) <==> a.holds(KeyModifiers { bits: bit })
            || b.holds(KeyModifiers { bits: bit }),
        !(KeyModifiers { bits: 0 }).holds(KeyModifiers { bits: bit }),
        a.joined(b).holds(a) && a.joined(b).holds(b),
{
    let x = a.bits;
    let y = b.bits;
    assert(((x | y) & bit == bit) == (x & bit == bit || y & bit == bit)) by (bit_vector)
        requires
            bit == 1 || bit == 2 || bit == 4 || bit == 8 || bit == 16 || bit == 32 || bit == 64
                || bit == 128,
    ;
    assert(0u8 & bit == 0u8) by (bit_vector);
    assert((x | y) & x == x && (x | y) & y == y) by (bit_vector);
}

/// The interface is told a paste with its text, a resize with its size and no cursor, and a
/// change of focus as a draw; of the mouse it is told nothing.
pub proof fn events_are_told_as_they_are(pasted: String, width: u16, height: u16)
    ensures
        told(Event::Paste(pasted)) == Some(TuiEvent::Paste(pasted)),
        told(Event::Resize(width, height)) == Some(
            TuiEvent::Resize { cursor: None, size: (width, height), interrupted: false },
        ),
        told(Event::FocusGained) == Some(TuiEvent::Draw),
        told(Event::FocusLost) == Some(TuiEvent::Draw),
        told(Event::Mouse) is None,
{
}

/// A poll answers what its first source has, and asks the other one only where the first has
/// nothing yet.
pub proof fn the_other_source_is_asked_second(event: Option<TuiEvent>, first: Source)
    ensures
        gone_on(first, Readiness::Ready(event)) == PollStep::Answer(Readiness::Ready(event)),
        gone_on(Source::Terminal, Readiness::Pending) == PollStep::Ask(Source::Draws),
        gone_on(Source::Draws, Readiness::Pending) == PollStep::Ask(Source::Terminal),
{
}

/// A query that was answered is told as its answer says, size, cursor and interruption; one
/// that was not is told as the size that started it, settled and without a cursor.
pub proof fn reports_say_what_was_answered(
    started: (u16, u16),
    size: (u16, u16),
    cursor: Option<(u16, u16)>,
    interrupted: bool,
)
    ensures
        reported(started, Some((size, cursor, interrupted))) == (TuiEvent::Resize {
            cursor,
            size,
            interrupted,
        }),
        reported(started, None) == (TuiEvent::Resize {
            cursor: None,
            size: started,
            interrupted: false,
        }),
{
}

/// Sixel graphics are announced by the attribute 4 at any place behind the class of the
/// terminal; the class itself does not count.
pub proof fn sixel_is_announced_anywhere(class: u16, before: Seq<u16>, after: Seq<u16>)
    ensures
        announces_sixel(seq![class] + before + seq![4u16] + after),
        announces_sixel(seq![class] + before) <==> before.contains(4),
        !announces_sixel(Seq::empty()),
{
    let whole = seq![class] + before + seq![4u16] + after;
    assert(whole[1 + before.len() as int] == 4);
    let part = seq![class] + before;
    if announces_sixel(part) {
        let i = choose|i: int| 1 <= i < part.len() && part[i] == 4;
        assert(before[i - 1] == 4);
    }
    if before.contains(4) {
        let i = choose|i: int| 0 <= i < before.len() && before[i] == 4;
        assert(part[i + 1] == 4);
    }
}

/// What was put back, and whose turn it is, does not depend on the terminal.
pub proof fn the_terminal_leaves_the_rest(
    stream: StreamView,
    polled: QueryPoll,
    announced: bool,
    size: Option<(u16, u16)>,
    input: InputPoll,
    current: Option<(u16, u16)>,
)
    ensures
        stream.queried(polled).0.pending == stream.pending,
        stream.queried(polled).0.first == stream.first,
        stream.sized(announced, size).0.pending == stream.pending,
        stream.sized(announced, size).0.first == stream.first,
        stream.sized(announced, size).0.observed_size == stream.observed_size,
        stream.fed(input, current).0.pending == stream.pending,
        stream.fed(input, current).0.first == stream.first,
        stream.fed(input, current).0.observed_size == stream.observed_size,
{
}

/// While a query runs it alone is looked at. It goes on until it has finished; its report is
/// the answer, its size the size last known, and the input is read again. A lost one ends
/// the stream.
pub proof fn queries_hand_the_input_back(
    stream: StreamView,
    size: (u16, u16),
    cursor: Option<(u16, u16)>,
    interrupted: bool,
)
    ensures
        stream.querying ==> stream.terminal_step() == TerminalStep::PollQuery,
        !stream.querying ==> stream.terminal_step() == TerminalStep::CheckSize,
        stream.queried(QueryPoll::Pending) == (stream, TerminalStep::Answer(Readiness::Pending)),
        ({
            let report = TuiEvent::Resize { cursor, size, interrupted };
            let (next, step) = stream.queried(QueryPoll::Finished(report));
            &&& !next.querying
            &&& next.observed_size == Some(size)
            &&& step == TerminalStep::Answer(Readiness::Ready(Some(report)))
        }),
        stream.queried(QueryPoll::Failed).1 == TerminalStep::Answer(Readiness::Ready(None)),
{
}

/// A query starts for a size that was read exactly where a resize is announced or the width
/// or the height is not the one last known. The interface is told of the size at once, as
/// one that is not settled.
pub proof fn changed_sizes_start_a_query(
    stream: StreamView,
    announced: bool,
    now: (u16, u16),
    known: (u16, u16),
)
    ensures
        stream.sized(announced, None) == (stream, TerminalStep::PollInput),
        stream.observed_size == Some(known) && known.0 == now.0 && known.1 == now.1 && !announced
            ==> stream.sized(announced, Some(now)) == (stream, TerminalStep::PollInput),
        stream.observed_size is None || announced || stream.observed_size == Some(known) && (known.0
            != now.0 || known.1 != now.1) ==> {
            let (next, step) = stream.sized(announced, Some(now));
            &&& next.querying
            &&& step == (TerminalStep::StartQuery {
                size: now,
                meanwhile: TuiEvent::Resize { cursor: None, size: now, interrupted: true },
            })
        },
{
}

/// Of the input, a resize starts a query for the terminal's size, or for its own where that
/// cannot be read; what the interface is told is the answer; what it is not told has the
/// terminal asked again; and the end of the input ends the stream.
pub proof fn input_is_answered(
    stream: StreamView,
    event: Event,
    width: u16,
    height: u16,
    now: (u16, u16),
    current: Option<(u16, u16)>,
)
    ensures
        stream.fed(InputPoll::Event(Event::Resize(width, height)), Some(now)).0.querying,
        stream.fed(InputPoll::Event(Event::Resize(width, height)), Some(now)).1 == (
        TerminalStep::StartQuery {
            size: now,
            meanwhile: TuiEvent::Resize { cursor: None, size: now, interrupted: true },
        }),
        stream.fed(InputPoll::Event(Event::Resize(width, height)), None).1 == (
        TerminalStep::StartQuery {
            size: (width, height),
            meanwhile: TuiEvent::Resize {
                cursor: None,
                size: (width, height),
                interrupted: true,
            },
        }),
        !(event is Resize) && told(event) is Some ==> stream.fed(InputPoll::Event(event), current)
            == (stream, TerminalStep::Answer(Readiness::Ready(Some(told(event)->0)))),
        !(event is Resize) && told(event) is None ==> stream.fed(InputPoll::Event(event), current)
            == (stream, TerminalStep::CheckSize),
        stream.fed(InputPoll::Failed, current) == (
            stream,
            TerminalStep::Answer(Readiness::Ready(None)),
        ),
        stream.fed(InputPoll::Ended, current) == (
            stream,
            TerminalStep::Answer(Readiness::Ready(None)),
        ),
        stream.fed(InputPoll::Pending, current) == (
            stream,
            TerminalStep::Answer(Readiness::Pending),
        ),
{
}

/// The call that normalizes a key leaves every key but a raw control character as it is,
/// code, modifiers and all.
pub proof fn normalizing_leaves_ordinary_keys(key: KeyEvent, normalized: KeyEvent, c: char)
    requires
        call_ensures(normalize_key_event, (key,), normalized),
        key.code == KeyCode::Char(c) && c != '\u{7f}' && (c == '\0' || c > '\u{1b}') || !(key.code
            is Char),
    ensures
        normalized.code == key.code,
        normalized.modifiers == key.modifiers,
        normalized.kind == key.kind,
        normalized.state == key.state,
{
    ordinary_keys_stay(key);
}

/// A key that is made is a press with the given code and modifiers; no modifier is none of
/// the bits, and the control key is its own.
pub proof fn made_keys_are_presses(
    code: KeyCode,
    modifiers: KeyModifiers,
    event: KeyEvent,
    bare: KeyModifiers,
    control: KeyModifiers,
)
    requires
        call_ensures(KeyEvent::new, (code, modifiers), event),
        call_ensures(KeyModifiers::none, (), bare),
        call_ensures(KeyModifiers::control, (), control),
    ensures
        event.code == code,
        event.modifiers == modifiers,
        event.kind is Press,
        event.state == 0,
        bare.bits == 0,
        control.bits == 2,
{
}

/// A draw request is told as a draw, the end of them ends the stream, and until then there is
/// nothing yet.
pub proof fn draws_are_told(asked: Readiness, ended: Readiness, idle: Readiness)
    requires
        call_ensures(TuiEventStream::draw_event, (Some(Some(())),), asked),
        call_ensures(TuiEventStream::draw_event, (Some(None),), ended),
        call_ensures(TuiEventStream::draw_event, (None,), idle),
    ensures
        asked == Readiness::Ready(Some(TuiEvent::Draw)),
        ended == Readiness::Ready(None),
        idle == Readiness::Pending,
{
}

/// The call that maps events tells a press of an ordinary key as it is, a paste with its
/// text, and a resize with its size.
pub proof fn mapping_tells_events(
    key: KeyEvent,
    c: char,
    pressed: Option<TuiEvent>,
    pasted: String,
    paste: Option<TuiEvent>,
    width: u16,
    height: u16,
    resize: Option<TuiEvent>,
)
    requires
        call_ensures(map_crossterm_event, (Event::Key(key),), pressed),
        call_ensures(map_crossterm_event, (Event::Paste(pasted),), paste),
        call_ensures(map_crossterm_event, (Event::Resize(width, height),), resize),
        key.code == KeyCode::Char(c),
        c != '\u{7f}' && c > '\u{1b}',
    ensures
        key.kind is Press ==> pressed == Some(TuiEvent::Key(key)),
        !(key.kind is Press) ==> pressed is None,
        paste == Some(TuiEvent::Paste(pasted)),
        resize == Some(
            TuiEvent::Resize { cursor: None, size: (width, height), interrupted: false },
        ),
{
    ordinary_keys_stay(key);
}

/// The calls of the stream put an event back in front, begin a poll with what was put back,
/// and ask the source whose turn it is otherwise.
pub proof fn polls_begin_with_what_was_put_back(
    pushed: &mut TuiEventStream,
    polled: &mut TuiEventStream,
    event: TuiEvent,
    step: PollStep,
)
    requires
        call_ensures(TuiEventStream::push_front, (pushed, event), ()),
        call_ensures(TuiEventStream::begin_poll, (polled,), step),
    ensures
        final(pushed)@.pending == seq![event] + old(pushed)@.pending,
        final(pushed)@.first == old(pushed)@.first,
        final(pushed)@.querying == old(pushed)@.querying,
        old(polled)@.pending.len() > 0 ==> step == PollStep::Answer(
            Readiness::Ready(Some(old(polled)@.pending[0])),
        ) && final(polled)@.pending == old(polled)@.pending.drop_first() && final(polled)@.first
            == old(polled)@.first,
        old(polled)@.pending.len() == 0 ==> step == PollStep::Ask(old(polled)@.first)
            && final(polled)@.first != old(polled)@.first && final(polled)@.pending.len() == 0,
{
}

/// The calls about the terminal follow a resize: a changed size hands the input to a query,
/// and a finished query hands it back with the size that it reports.
pub proof fn resizes_are_followed(
    looking: &mut TuiEventStream,
    waiting: &mut TuiEventStream,
    now: (u16, u16),
    started: TerminalStep,
    cursor: Option<(u16, u16)>,
    interrupted: bool,
    finished: TerminalStep,
)
    requires
        call_ensures(TuiEventStream::after_size, (looking, false, Some(now)), started),
        call_ensures(
            TuiEventStream::after_query,
            (
                waiting,
                QueryPoll::Finished(TuiEvent::Resize { cursor, size: now, interrupted }),
            ),
            finished,
        ),
    ensures
        old(looking)@.observed_size == Some(now) ==> started == TerminalStep::PollInput
            && final(looking)@ == old(looking)@,
        old(looking)@.observed_size != Some(now) ==> final(looking)@.querying && started == (
        TerminalStep::StartQuery {
            size: now,
            meanwhile: TuiEvent::Resize { cursor: None, size: now, interrupted: true },
        }),
        !final(waiting)@.querying,
        final(waiting)@.observed_size == Some(now),
        finished == TerminalStep::Answer(
            Readiness::Ready(Some(TuiEvent::Resize { cursor, size: now, interrupted })),
        ),
{
}

/// The call that takes the terminal's input tells what there is to tell, and starts a query
/// for a resize.
pub proof fn taking_input_answers_it(
    told_stream: &mut TuiEventStream,
    resized: &mut TuiEventStream,
    pasted: String,
    step: TerminalStep,
    width: u16,
    height: u16,
    query: TerminalStep,
)
    requires
        call_ensures(
            TuiEventStream::after_input,
            (told_stream, InputPoll::Event(Event::Paste(pasted)), None),
            step,
        ),
        call_ensures(
            TuiEventStream::after_input,
            (resized, InputPoll::Event(Event::Resize(width, height)), None),
            query,
        ),
    ensures
        step == TerminalStep::Answer(Readiness::Ready(Some(TuiEvent::Paste(pasted)))),
        final(told_stream)@ == old(told_stream)@,
        final(resized)@.querying,
        query is StartQuery && query->size == (width, height),
{
}

/// A new stream asks the terminal first, has nothing put back, and knows the size it was
/// given.
pub proof fn new_streams_ask_the_terminal(
    size: Option<(u16, u16)>,
    stream: TuiEventStream,
    step: TerminalStep,
)
    requires
        call_ensures(TuiEventStream::new, (size,), stream),
        call_ensures(TuiEventStream::ask_terminal, (&stream,), step),
    ensures
        stream@.pending.len() == 0,
        stream@.first is Terminal,
        stream@.observed_size == size,
        !stream@.querying,
        step == TerminalStep::CheckSize,
{
}

} // verus!
