use astra::tui_event::{
    map_crossterm_event, normalize_key_event, resize_report, sixel_supported, Event, InputPoll,
    KeyCode, KeyEvent, KeyEventKind, KeyModifiers, MediaKeyCode, PollStep, QueryPoll, Readiness,
    Source, TerminalStep, TuiEvent, TuiEventStream, CONTROL,
};

#[test]
fn raw_ctrl_c_char_is_normalized_to_ctrl_c_key() {
    let event = Event::Key(KeyEvent::new(KeyCode::Char('\u{3}'), KeyModifiers::none()));

    let Some(TuiEvent::Key(mapped)) = map_crossterm_event(event) else {
        panic!("expected mapped key event");
    };

    assert_eq!(mapped.code, KeyCode::Char('c'));
    assert!(mapped.modifiers.contains(KeyModifiers::control()));
}

#[test]
fn raw_ctrl_o_char_is_normalized_to_ctrl_o_key() {
    let event = Event::Key(KeyEvent::new(KeyCode::Char('\u{f}'), KeyModifiers::none()));

    let Some(TuiEvent::Key(mapped)) = map_crossterm_event(event) else {
        panic!("expected mapped key event");
    };

    assert_eq!(mapped.code, KeyCode::Char('o'));
    assert!(mapped.modifiers.contains(KeyModifiers::control()));
}

#[test]
fn raw_escape_char_is_normalized_to_escape_key() {
    let event = Event::Key(KeyEvent::new(KeyCode::Char('\u{1b}'), KeyModifiers::none()));

    let Some(TuiEvent::Key(mapped)) = map_crossterm_event(event) else {
        panic!("expected mapped key event");
    };

    assert_eq!(mapped.code, KeyCode::Esc);
}

fn normalized(code: KeyCode) -> (KeyCode, u8) {
    let key = normalize_key_event(KeyEvent::new(code, KeyModifiers::none()));
    (key.code, key.modifiers.bits)
}

#[test]
fn control_characters_that_have_keys_of_their_own_become_those_keys() {
    assert_eq!(normalized(KeyCode::Char('\u{7f}')), (KeyCode::Backspace, 0));
    assert_eq!(normalized(KeyCode::Char('\u{8}')), (KeyCode::Backspace, 0));
    assert_eq!(normalized(KeyCode::Char('\t')), (KeyCode::Tab, 0));
    assert_eq!(normalized(KeyCode::Char('\n')), (KeyCode::Enter, 0));
    assert_eq!(normalized(KeyCode::Char('\r')), (KeyCode::Enter, 0));
}

#[test]
fn the_control_range_ends_at_z_and_starts_at_a() {
    assert_eq!(normalized(KeyCode::Char('\u{1}')), (KeyCode::Char('a'), CONTROL));
    assert_eq!(normalized(KeyCode::Char('\u{1a}')), (KeyCode::Char('z'), CONTROL));
    assert_eq!(normalized(KeyCode::Char('\u{0}')), (KeyCode::Char('\u{0}'), 0));
    assert_eq!(normalized(KeyCode::Char('\u{1c}')), (KeyCode::Char('\u{1c}'), 0));
    assert_eq!(normalized(KeyCode::Char('é')), (KeyCode::Char('é'), 0));
    assert_eq!(normalized(KeyCode::F(5)), (KeyCode::F(5), 0));
    assert_eq!(
        normalized(KeyCode::Media(MediaKeyCode::Play)),
        (KeyCode::Media(MediaKeyCode::Play), 0)
    );
}

#[test]
fn normalization_keeps_modifiers_and_settles() {
    let mut modifiers = KeyModifiers { bits: 1 };
    modifiers.insert(KeyModifiers { bits: 4 });
    let key = KeyEvent { code: KeyCode::Char('\u{2}'), modifiers, kind: KeyEventKind::Press, state: 8 };
    let once = normalize_key_event(key);
    assert_eq!(once.code, KeyCode::Char('b'));
    assert_eq!(once.modifiers.bits, 7);
    assert_eq!(once.state, 8);
    assert_eq!(normalize_key_event(once), once);
}

#[test]
fn only_presses_are_forwarded() {
    for kind in [KeyEventKind::Repeat, KeyEventKind::Release] {
        let key = KeyEvent { kind, ..KeyEvent::new(KeyCode::Up, KeyModifiers::none()) };
        assert!(map_crossterm_event(Event::Key(key)).is_none());
    }
    assert!(map_crossterm_event(Event::Mouse).is_none());
    assert!(matches!(map_crossterm_event(Event::FocusGained), Some(TuiEvent::Draw)));
    assert!(matches!(map_crossterm_event(Event::FocusLost), Some(TuiEvent::Draw)));
    assert!(matches!(
        map_crossterm_event(Event::Paste("text".to_string())),
        Some(TuiEvent::Paste(text)) if text == "text"
    ));
    assert!(matches!(
        map_crossterm_event(Event::Resize(3, 4)),
        Some(TuiEvent::Resize { cursor: None, size: (3, 4), interrupted: false })
    ));
}

#[test]
fn what_was_put_back_comes_first_and_the_sources_take_turns() {
    let mut stream = TuiEventStream::new(Some((80, 24)));
    stream.push_front(TuiEvent::Draw);
    stream.push_front(TuiEvent::RuntimeNotificationTurn);
    assert!(matches!(
        stream.begin_poll(),
        PollStep::Answer(Readiness::Ready(Some(TuiEvent::RuntimeNotificationTurn)))
    ));
    assert!(matches!(
        stream.begin_poll(),
        PollStep::Answer(Readiness::Ready(Some(TuiEvent::Draw)))
    ));
    assert!(matches!(stream.begin_poll(), PollStep::Ask(Source::Terminal)));
    assert!(matches!(stream.begin_poll(), PollStep::Ask(Source::Draws)));
    assert!(matches!(stream.begin_poll(), PollStep::Ask(Source::Terminal)));
    assert!(matches!(
        TuiEventStream::after_first(Source::Terminal, Readiness::Pending),
        PollStep::Ask(Source::Draws)
    ));
    assert!(matches!(
        TuiEventStream::after_first(Source::Draws, Readiness::Ready(None)),
        PollStep::Answer(Readiness::Ready(None))
    ));
}

#[test]
fn draws_are_told_and_their_end_ends_the_stream() {
    assert!(matches!(
        TuiEventStream::draw_event(Some(Some(()))),
        Readiness::Ready(Some(TuiEvent::Draw))
    ));
    assert!(matches!(TuiEventStream::draw_event(Some(None)), Readiness::Ready(None)));
    assert!(matches!(TuiEventStream::draw_event(None), Readiness::Pending));
}

#[test]
fn a_resize_is_told_at_once_and_again_when_the_cursor_is_known() {
    let mut stream = TuiEventStream::new(Some((80, 24)));
    assert!(matches!(stream.ask_terminal(), TerminalStep::CheckSize));
    assert!(matches!(stream.after_size(false, Some((80, 24))), TerminalStep::PollInput));
    assert!(matches!(
        stream.after_size(false, Some((100, 30))),
        TerminalStep::StartQuery {
            size: (100, 30),
            meanwhile: TuiEvent::Resize { cursor: None, size: (100, 30), interrupted: true },
        }
    ));
    assert!(matches!(stream.ask_terminal(), TerminalStep::PollQuery));
    assert!(matches!(
        stream.after_query(QueryPoll::Pending),
        TerminalStep::Answer(Readiness::Pending)
    ));
    let report = resize_report((100, 30), Some(((101, 31), Some((2, 3)), false)));
    assert!(matches!(
        stream.after_query(QueryPoll::Finished(report)),
        TerminalStep::Answer(Readiness::Ready(Some(TuiEvent::Resize {
            cursor: Some((2, 3)),
            size: (101, 31),
            interrupted: false,
        })))
    ));
    // The size in the report is the one last known.
    assert!(matches!(stream.after_size(false, Some((101, 31))), TerminalStep::PollInput));
    assert!(matches!(stream.after_size(false, None), TerminalStep::PollInput));
    // A resize that is under way counts, also back at the same size.
    assert!(matches!(
        stream.after_size(true, Some((101, 31))),
        TerminalStep::StartQuery { .. }
    ));
}

#[test]
fn a_lost_query_ends_the_stream_and_an_unanswered_one_keeps_the_size() {
    let mut stream = TuiEventStream::new(None);
    assert!(matches!(stream.after_size(false, Some((9, 9))), TerminalStep::StartQuery { .. }));
    assert!(matches!(
        stream.after_query(QueryPoll::Failed),
        TerminalStep::Answer(Readiness::Ready(None))
    ));
    assert!(matches!(
        resize_report((9, 8), None),
        TuiEvent::Resize { cursor: None, size: (9, 8), interrupted: false }
    ));
}

#[test]
fn input_is_told_passed_over_or_ends_the_stream() {
    let mut stream = TuiEventStream::new(Some((80, 24)));
    let key = KeyEvent::new(KeyCode::Enter, KeyModifiers::none());
    assert!(matches!(
        stream.after_input(InputPoll::Event(Event::Key(key)), None),
        TerminalStep::Answer(Readiness::Ready(Some(TuiEvent::Key(told)))) if told == key
    ));
    assert!(matches!(
        stream.after_input(InputPoll::Event(Event::Mouse), None),
        TerminalStep::CheckSize
    ));
    assert!(matches!(
        stream.after_input(InputPoll::Pending, None),
        TerminalStep::Answer(Readiness::Pending)
    ));
    assert!(matches!(
        stream.after_input(InputPoll::Failed, None),
        TerminalStep::Answer(Readiness::Ready(None))
    ));
    assert!(matches!(
        stream.after_input(InputPoll::Ended, None),
        TerminalStep::Answer(Readiness::Ready(None))
    ));
    assert!(matches!(
        stream.after_input(InputPoll::Event(Event::Resize(7, 8)), Some((70, 80))),
        TerminalStep::StartQuery { size: (70, 80), .. }
    ));
    let mut unreadable = TuiEventStream::new(Some((80, 24)));
    assert!(matches!(
        unreadable.after_input(InputPoll::Event(Event::Resize(7, 8)), None),
        TerminalStep::StartQuery { size: (7, 8), .. }
    ));
}

#[test]
fn sixel_is_an_attribute_behind_the_terminal_class() {
    assert!(sixel_supported(&[62, 4, 6]));
    assert!(!sixel_supported(&[4, 6]));
    assert!(!sixel_supported(&[4]));
    assert!(!sixel_supported(&[]));
}
