use cosmic_wal::colors::{Color, LoadError};
use cosmic_wal::config::ResolvedTheme;
use cosmic_wal::daemon::{
    resolve_files, sets_off_cycle, step, Action, Cycle, Event, EventKind, Failure, Mode,
    ModifyKind, State, Step, POLL_TIMEOUT_MS,
};

const PALETTE: &str = r##"{
    "checksum": "0123abcd",
    "wallpaper": "/home/user/pictures/hills.png",
    "alpha": "100",
    "special": {
        "background": "#000000",
        "foreground": "#ffffff",
        "cursor": "#ff0000"
    },
    "colors": {
        "color5": "#050505",
        "color9": "#090909",
        "color11": "#111111",
        "color12": "#445566",
        "color13": "#112233",
        "color14": "#141414"
    }
}"##;

fn rgb(red: u8, green: u8, blue: u8) -> Color {
    Color { red, green, blue }
}

fn theme(accent: Color) -> ResolvedTheme {
    (
        accent,
        rgb(0x44, 0x55, 0x66),
        rgb(0x14, 0x14, 0x14),
        rgb(0x11, 0x11, 0x11),
        rgb(0, 0, 0),
        Color::white(),
        rgb(9, 9, 9),
        rgb(255, 255, 255),
    )
}

fn files(palette: Option<&str>, mapping: Option<&str>) -> Event {
    Event::FilesRead {
        palette: palette.map(str::to_string),
        mapping: mapping.map(str::to_string),
    }
}

fn answer(state: State, report: Option<Result<(), Failure>>, action: Action) -> Option<Step> {
    Some(Step { state, report, action })
}

fn every_state() -> Vec<State> {
    let mut states = vec![
        State::Idle(Mode::Refresh),
        State::Idle(Mode::Daemon),
        State::Registering,
        State::Watching,
        State::Stopped,
    ];
    let resolved = theme(rgb(1, 2, 3));
    for cycle in [Cycle::Once, Cycle::First, Cycle::Repeat] {
        states.push(State::Reading(cycle));
        states.push(State::ReadingMode(cycle, resolved));
        states.push(State::ReadingBuilder(cycle, resolved, true));
        states.push(State::PersistingBuilder(cycle, false));
        states.push(State::PersistingTheme(cycle));
    }
    states
}

#[test]
fn poll_timeout_is_a_tenth_of_a_second() {
    assert_eq!(POLL_TIMEOUT_MS, 100);
}

#[test]
fn files_resolve_to_a_theme() {
    assert_eq!(resolve_files(Some(PALETTE), None), Ok(theme(rgb(0x11, 0x22, 0x33))));
    assert_eq!(resolve_files(Some(PALETTE), Some("")), Ok(theme(rgb(0x11, 0x22, 0x33))));
    assert_eq!(
        resolve_files(Some(PALETTE), Some("accent_color = \"color5\"")),
        Ok(theme(rgb(5, 5, 5)))
    );
    assert_eq!(
        resolve_files(Some(PALETTE), Some("accent_color = \"color5\" oops")),
        Ok(theme(rgb(0x11, 0x22, 0x33)))
    );
}

#[test]
fn files_that_do_not_load_give_no_theme() {
    assert_eq!(resolve_files(None, None), Err(LoadError::Io));
    assert_eq!(resolve_files(None, Some("accent_color = \"color5\"")), Err(LoadError::Io));
    assert_eq!(resolve_files(Some("{"), None), Err(LoadError::Parse));
    assert_eq!(
        resolve_files(Some(&PALETTE.replace("#112233", "112233#")), None),
        Err(LoadError::ColorFormat)
    );
}

fn run_store(state: State, dark: bool, theme: ResolvedTheme) -> Option<Step> {
    let second = step(state, Event::ModeRead { dark: Some(dark) });
    assert_eq!(second, answer(State::ReadingBuilder(cycle(state), theme, dark), None, Action::ReadBuilder { dark }));
    let third = step(second.unwrap().state, Event::BuilderRead { read: true });
    assert_eq!(
        third,
        answer(
            State::PersistingBuilder(cycle(state), dark),
            None,
            Action::PersistBuilder { dark, theme }
        )
    );
    let fourth = step(third.unwrap().state, Event::BuilderPersisted { persisted: true });
    assert_eq!(
        fourth,
        answer(State::PersistingTheme(cycle(state)), None, Action::PersistTheme { dark })
    );
    step(fourth.unwrap().state, Event::ThemePersisted { persisted: true })
}

fn cycle(state: State) -> Cycle {
    match state {
        State::Reading(cycle)
        | State::ReadingMode(cycle, _)
        | State::ReadingBuilder(cycle, _, _)
        | State::PersistingBuilder(cycle, _)
        | State::PersistingTheme(cycle) => cycle,
        _ => panic!("no cycle is under way in {state:?}"),
    }
}

fn store_failures(cycle: Cycle) -> Vec<Option<Step>> {
    let theme = theme(rgb(1, 2, 3));
    vec![
        step(State::ReadingMode(cycle, theme), Event::ModeRead { dark: None }),
        step(State::ReadingBuilder(cycle, theme, true), Event::BuilderRead { read: false }),
        step(State::ReadingBuilder(cycle, theme, false), Event::BuilderRead { read: false }),
        step(State::PersistingBuilder(cycle, true), Event::BuilderPersisted { persisted: false }),
        step(State::PersistingBuilder(cycle, false), Event::BuilderPersisted { persisted: false }),
        step(State::PersistingTheme(cycle), Event::ThemePersisted { persisted: false }),
    ]
}

#[test]
fn refresh_runs_one_cycle() {
    let first = step(State::Idle(Mode::Refresh), Event::Started);
    assert_eq!(first, answer(State::Reading(Cycle::Once), None, Action::ReadFiles));
    let resolved = theme(rgb(0x11, 0x22, 0x33));
    let second = step(first.unwrap().state, files(Some(PALETTE), None));
    assert_eq!(second, answer(State::ReadingMode(Cycle::Once, resolved), None, Action::ReadMode));
    let last = run_store(second.unwrap().state, true, resolved);
    assert_eq!(last, answer(State::Stopped, Some(Ok(())), Action::Exit(Ok(()))));
}

#[test]
fn theme_goes_to_the_builder_of_the_mode() {
    let resolved = theme(rgb(5, 5, 5));
    for dark in [true, false] {
        let last = run_store(State::ReadingMode(Cycle::Repeat, resolved), dark, resolved);
        assert_eq!(last, answer(State::Watching, Some(Ok(())), Action::Poll { timeout_ms: 100 }));
    }
}

#[test]
fn refresh_fails_as_its_cycle_does() {
    let reading = State::Reading(Cycle::Once);
    for (palette, error) in [
        (None, LoadError::Io),
        (Some("not json"), LoadError::Parse),
        (Some("{\"checksum\": \"c\"}"), LoadError::Parse),
    ] {
        let failure = Err(Failure::Load(error));
        assert_eq!(
            step(reading, files(palette, None)),
            answer(State::Stopped, Some(failure), Action::Exit(failure))
        );
    }
    let bad = PALETTE.replace("#ff0000", "#ff00");
    let failure = Err(Failure::Load(LoadError::ColorFormat));
    assert_eq!(
        step(reading, files(Some(&bad), None)),
        answer(State::Stopped, Some(failure), Action::Exit(failure))
    );
    let failure = Err(Failure::Persist);
    for failed in store_failures(Cycle::Once) {
        assert_eq!(failed, answer(State::Stopped, Some(failure), Action::Exit(failure)));
    }
}

#[test]
fn daemon_runs_a_cycle_then_watches() {
    let first = step(State::Idle(Mode::Daemon), Event::Started);
    assert_eq!(first, answer(State::Reading(Cycle::First), None, Action::ReadFiles));
    let resolved = theme(rgb(5, 5, 5));
    let second = step(first.unwrap().state, files(Some(PALETTE), Some("accent_color = \"color5\"")));
    assert_eq!(second, answer(State::ReadingMode(Cycle::First, resolved), None, Action::ReadMode));
    let third = run_store(second.unwrap().state, false, resolved);
    assert_eq!(third, answer(State::Registering, Some(Ok(())), Action::RegisterWatch { recursive: false }));
    let fourth = step(third.unwrap().state, Event::WatchRegistered { registered: true });
    assert_eq!(fourth, answer(State::Watching, None, Action::Poll { timeout_ms: 100 }));
}

#[test]
fn daemon_starts_though_its_first_cycle_fails() {
    for palette in [None, Some("{"), Some("{}")] {
        let answered = step(State::Reading(Cycle::First), files(palette, None)).unwrap();
        assert_eq!(answered.state, State::Registering);
        assert_eq!(answered.action, Action::RegisterWatch { recursive: false });
        assert!(matches!(answered.report, Some(Err(Failure::Load(_)))));
    }
    for failed in store_failures(Cycle::First) {
        assert_eq!(
            failed,
            answer(State::Registering, Some(Err(Failure::Persist)), Action::RegisterWatch { recursive: false })
        );
    }
    assert_eq!(
        step(State::Registering, Event::WatchRegistered { registered: true }),
        answer(State::Watching, None, Action::Poll { timeout_ms: 100 })
    );
}

#[test]
fn watch_that_cannot_be_registered_is_fatal() {
    assert_eq!(
        step(State::Registering, Event::WatchRegistered { registered: false }),
        answer(State::Stopped, None, Action::Exit(Err(Failure::Watch)))
    );
}

#[test]
fn modification_sets_off_a_cycle() {
    for what in [ModifyKind::Any, ModifyKind::Data, ModifyKind::Name, ModifyKind::Other] {
        assert!(sets_off_cycle(EventKind::Modify(what)));
        assert_eq!(
            step(State::Watching, Event::Notified(EventKind::Modify(what))),
            answer(State::Reading(Cycle::Repeat), None, Action::ReadFiles)
        );
    }
}

#[test]
fn other_events_set_nothing_off() {
    for kind in [
        EventKind::Any,
        EventKind::Access,
        EventKind::Create,
        EventKind::Remove,
        EventKind::Other,
        EventKind::Modify(ModifyKind::Metadata),
    ] {
        assert!(!sets_off_cycle(kind));
        let before = State::Watching;
        let answered = step(before, Event::Notified(kind)).unwrap();
        assert_eq!(answered.state, before);
        assert_eq!(answered.report, None);
        assert_eq!(answered.action, Action::Poll { timeout_ms: 100 });
    }
}

#[test]
fn timeout_yields_and_polls_again() {
    assert_eq!(
        step(State::Watching, Event::TimedOut),
        answer(State::Watching, None, Action::YieldAndPoll { timeout_ms: 100 })
    );
}

#[test]
fn closed_channel_is_fatal() {
    assert_eq!(
        step(State::Watching, Event::Disconnected),
        answer(State::Stopped, None, Action::Exit(Err(Failure::Watch)))
    );
}

#[test]
fn daemon_survives_a_half_written_palette() {
    let watching = State::Watching;
    let modified = Event::Notified(EventKind::Modify(ModifyKind::Data));
    let reading = step(watching, modified).unwrap();
    assert_eq!(reading.action, Action::ReadFiles);
    let half = &PALETTE[..PALETTE.len() - 40];
    let failed = step(reading.state, files(Some(half), None));
    assert_eq!(
        failed,
        answer(State::Watching, Some(Err(Failure::Load(LoadError::Parse))), Action::Poll { timeout_ms: 100 })
    );
    let modified = Event::Notified(EventKind::Modify(ModifyKind::Data));
    let reading = step(failed.unwrap().state, modified).unwrap();
    assert_eq!(reading.action, Action::ReadFiles);
    let resolved = step(reading.state, files(Some(PALETTE), None));
    let expected = theme(rgb(0x11, 0x22, 0x33));
    assert_eq!(
        resolved,
        answer(State::ReadingMode(Cycle::Repeat, expected), None, Action::ReadMode)
    );
    let applied = run_store(resolved.unwrap().state, true, expected);
    assert_eq!(applied, answer(State::Watching, Some(Ok(())), Action::Poll { timeout_ms: 100 }));
}

#[test]
fn daemon_survives_a_theme_store_that_fails() {
    for failed in store_failures(Cycle::Repeat) {
        assert_eq!(failed, answer(State::Watching, Some(Err(Failure::Persist)), Action::Poll { timeout_ms: 100 }));
    }
}

#[test]
fn daemon_survives_an_unreadable_palette() {
    assert_eq!(
        step(State::Reading(Cycle::Repeat), files(None, Some(""))),
        answer(State::Watching, Some(Err(Failure::Load(LoadError::Io))), Action::Poll { timeout_ms: 100 })
    );
    let bad = PALETTE.replace("#050505", "050505#");
    assert_eq!(
        step(State::Reading(Cycle::Repeat), files(Some(&bad), Some(""))),
        answer(State::Watching, Some(Err(Failure::Load(LoadError::ColorFormat))), Action::Poll { timeout_ms: 100 })
    );
}

#[test]
fn rapid_modifications_each_set_off_a_cycle() {
    let mut state = State::Watching;
    let resolved = theme(rgb(0x11, 0x22, 0x33));
    for _ in 0..3 {
        let reading = step(state, Event::Notified(EventKind::Modify(ModifyKind::Any))).unwrap();
        assert_eq!(reading.action, Action::ReadFiles);
        let applying = step(reading.state, files(Some(PALETTE), None)).unwrap();
        assert_eq!(applying.action, Action::ReadMode);
        let done = run_store(applying.state, true, resolved).unwrap();
        assert_eq!(done.report, Some(Ok(())));
        state = done.state;
        assert_eq!(state, State::Watching);
    }
}

#[test]
fn event_that_is_not_waited_for_is_refused() {
    let expected = |state: State, event: &Event| {
        matches!(
            (state, event),
            (State::Idle(_), Event::Started)
                | (State::Reading(_), Event::FilesRead { .. })
                | (State::ReadingMode(..), Event::ModeRead { .. })
                | (State::ReadingBuilder(..), Event::BuilderRead { .. })
                | (State::PersistingBuilder(..), Event::BuilderPersisted { .. })
                | (State::PersistingTheme(_), Event::ThemePersisted { .. })
                | (State::Registering, Event::WatchRegistered { .. })
                | (State::Watching, Event::Notified(_))
                | (State::Watching, Event::TimedOut)
                | (State::Watching, Event::Disconnected)
        )
    };
    let events = || {
        vec![
            Event::Started,
            files(Some(PALETTE), None),
            Event::ModeRead { dark: Some(true) },
            Event::BuilderRead { read: true },
            Event::BuilderPersisted { persisted: true },
            Event::ThemePersisted { persisted: true },
            Event::WatchRegistered { registered: true },
            Event::Notified(EventKind::Modify(ModifyKind::Data)),
            Event::TimedOut,
            Event::Disconnected,
        ]
    };
    for state in every_state() {
        for event in events() {
            let waited_for = expected(state, &event);
            assert_eq!(step(state, event).is_some(), waited_for, "{state:?}");
        }
    }
}

#[test]
fn nothing_follows_the_end() {
    assert_eq!(step(State::Stopped, Event::Started), None);
    assert_eq!(step(State::Stopped, Event::TimedOut), None);
    assert_eq!(step(State::Stopped, Event::Notified(EventKind::Modify(ModifyKind::Data))), None);
}
