//! The control flow of the program, without its input and output.
//!
//! The program runs in one of two modes: it refreshes the theme once, or it
//! stays and refreshes it whenever the palette file is modified. Either way
//! it is a loop around [`step`]: the caller performs the action it is told,
//! reports what came of it as an event, and is told the next action.
//!
//! One refresh is a cycle: read the palette file and the mapping file,
//! resolve the theme, then take it to the theme store in a fixed order: read
//! the theme mode, read the theme builder of that mode, put the eight colours
//! onto the builder and persist it, build the theme from it and persist that.
//! The first thing that fails ends the cycle.

use vstd::prelude::*;
use crate::colors::{load_outcome, Colors, LoadError};
use crate::config::{loaded_mapping, resolved_theme, ColorConfig, ResolvedTheme};
use crate::text::{as_text, str_view, text_view};

verus! {

/// How the program was asked to run.
#[derive(Clone, Copy, Debug, PartialEq, Eq)]
pub enum Mode {
    /// Refresh the theme once and exit.
    Refresh,
    /// Refresh the theme, then again on every modification of the palette
    /// file.
    Daemon,
}

/// What was modified, for an event that reports a modification.
#[derive(Clone, Copy, Debug, PartialEq, Eq)]
pub enum ModifyKind {
    Any,
    Data,
    Metadata,
    Name,
    Other,
}

/// What the file watch reports to have happened to the palette file.
#[derive(Clone, Copy, Debug, PartialEq, Eq)]
pub enum EventKind {
    Any,
    Access,
    Create,
    Modify(ModifyKind),
    Remove,
    Other,
}

/// Why a cycle, or the program, did not succeed.
#[derive(Clone, Copy, Debug, PartialEq, Eq)]
pub enum Failure {
    /// The palette could not be loaded.
    Load(LoadError),
    /// The theme store could not be read or written.
    Persist,
    /// The watch could not be registered, or its channel is closed.
    Watch,
}

/// Which cycle is under way.
#[derive(Clone, Copy, Debug, PartialEq, Eq)]
pub enum Cycle {
    /// The only cycle of a refresh.
    Once,
    /// The cycle that the daemon runs on entry, before it watches.
    First,
    /// A cycle that a modification of the palette file set off.
    Repeat,
}

/// Where the program stands: what it has asked for and waits to hear of.
#[derive(Clone, Copy, Debug, PartialEq, Eq)]
pub enum State {
    /// Nothing has been done yet.
    Idle(Mode),
    /// The two files are being read.
    Reading(Cycle),
    /// The theme is resolved, and the theme mode is being read.
    ReadingMode(Cycle, ResolvedTheme),
    /// The theme builder of the mode, dark or light, is being read.
    ReadingBuilder(Cycle, ResolvedTheme, bool),
    /// The builder of the mode has the theme's colours and is being
    /// persisted.
    PersistingBuilder(Cycle, bool),
    /// The theme built from the builder is being persisted.
    PersistingTheme(Cycle),
    /// The watch on the palette file is being registered.
    Registering,
    /// The watch is registered and the channel is being polled.
    Watching,
    /// The program has ended.
    Stopped,
}

/// What came of the action that was asked for.
#[derive(Debug, PartialEq, Eq)]
pub enum Event {
    /// The program has started.
    Started,
    /// The files were read: the content of each, or `None` for one that could
    /// not be read.
    FilesRead { palette: Option<String>, mapping: Option<String> },
    /// The theme mode was read: whether it is dark, or `None` where the theme
    /// store could not be read.
    ModeRead { dark: Option<bool> },
    /// The theme builder was read, or could not be.
    BuilderRead { read: bool },
    /// The theme builder was persisted, or could not be.
    BuilderPersisted { persisted: bool },
    /// The theme was persisted, or could not be.
    ThemePersisted { persisted: bool },
    /// The watch was registered, or could not be.
    WatchRegistered { registered: bool },
    /// The channel delivered an event of the watch.
    Notified(EventKind),
    /// The channel delivered nothing within the poll timeout.
    TimedOut,
    /// The channel is closed.
    Disconnected,
}

/// What the caller is to do next.
#[derive(Clone, Copy, Debug, PartialEq, Eq)]
pub enum Action {
    /// Read the palette file and the mapping file, and report `FilesRead`.
    ReadFiles,
    /// Read the theme mode from the theme store, and report `ModeRead`.
    ReadMode,
    /// Read the theme builder of the mode, dark or light, and report
    /// `BuilderRead`.
    ReadBuilder { dark: bool },
    /// Put the eight colours of the theme onto the builder that was read,
    /// persist the builder under its mode, and report `BuilderPersisted`.
    PersistBuilder { dark: bool, theme: ResolvedTheme },
    /// Build the theme from the builder, persist it under its mode, and
    /// report `ThemePersisted`.
    PersistTheme { dark: bool },
    /// Register a watch on the palette file, on what lies below it too
    /// where `recursive` is set, and report `WatchRegistered`.
    RegisterWatch { recursive: bool },
    /// Wait on the channel for an event of the watch, for at most
    /// `timeout_ms` milliseconds, and report what it gave: `Notified`,
    /// `TimedOut` or `Disconnected`.
    Poll { timeout_ms: u64 },
    /// Let other tasks run, then do as for `Poll`.
    YieldAndPoll { timeout_ms: u64 },
    /// End the program, with success or with this failure.
    Exit(Result<(), Failure>),
}

/// The answer to an event: the new state, how the cycle ended if one ended
/// with this event, and the next action.
#[derive(Clone, Copy, Debug, PartialEq, Eq)]
pub struct Step {
    pub state: State,
    pub report: Option<Result<(), Failure>>,
    pub action: Action,
}

/// The longest that one poll of the channel waits, in milliseconds.
pub const POLL_TIMEOUT_MS: u64 = 100;

/// The action that registers the watch: on the palette file alone, which is
/// a single file and no directory tree.
pub open spec fn register_watch() -> Action {
    Action::RegisterWatch { recursive: false }
}

/// The action that polls the channel, with the poll timeout.
pub open spec fn poll() -> Action {
    Action::Poll { timeout_ms: POLL_TIMEOUT_MS }
}

/// The action that polls the channel after a poll that timed out: other
/// tasks get to run first.
pub open spec fn yield_and_poll() -> Action {
    Action::YieldAndPoll { timeout_ms: POLL_TIMEOUT_MS }
}

/// Whether an event of the watch sets off a cycle: only a modification does,
/// and not one of the file's metadata alone.
pub open spec fn is_modification(kind: EventKind) -> bool {
    kind matches EventKind::Modify(what) && !(what is Metadata)
}

/// The theme that the content of the two files gives, or why the palette
/// gives none. No theme comes of a palette that is valid only in part.
#[verifier::opaque]
pub open spec fn theme_of_files(palette: Option<Seq<char>>, mapping: Option<Seq<char>>) -> Result<
    ResolvedTheme,
    LoadError,
> {
    match load_outcome(palette) {
        Ok(colors) => Ok(resolved_theme(loaded_mapping(mapping), colors)),
        Err(error) => Err(error),
    }
}

/// The answer that goes on with a cycle: nothing to report yet.
pub open spec fn go_on(state: State, action: Action) -> Step {
    Step { state, report: None, action }
}

/// What follows the end of a cycle. A refresh ends with its only cycle, and
/// as that cycle did. The daemon goes on, however the cycle ended: to
/// registering the watch after its first cycle, to polling after any other.
pub open spec fn after_cycle(cycle: Cycle, outcome: Result<(), Failure>) -> Step {
    match cycle {
        Cycle::Once => Step {
            state: State::Stopped,
            report: Some(outcome),
            action: Action::Exit(outcome),
        },
        Cycle::First => Step {
            state: State::Registering,
            report: Some(outcome),
            action: register_watch(),
        },
        Cycle::Repeat => Step {
            state: State::Watching,
            report: Some(outcome),
            action: poll(),
        },
    }
}

/// The answer to `event` in `state`; `None` where the state does not wait
/// for such an event.
pub open spec fn next(state: State, event: Event) -> Option<Step> {
    match (state, event) {
        (State::Idle(Mode::Refresh), Event::Started) => Some(
            go_on(State::Reading(Cycle::Once), Action::ReadFiles),
        ),
        (State::Idle(Mode::Daemon), Event::Started) => Some(
            go_on(State::Reading(Cycle::First), Action::ReadFiles),
        ),
        (State::Reading(cycle), Event::FilesRead { palette, mapping }) => Some(
            match theme_of_files(text_view(palette), text_view(mapping)) {
                Ok(theme) => go_on(State::ReadingMode(cycle, theme), Action::ReadMode),
                Err(error) => after_cycle(cycle, Err(Failure::Load(error))),
            },
        ),
        (State::ReadingMode(cycle, theme), Event::ModeRead { dark }) => Some(
            match dark {
                Some(dark) => go_on(
                    State::ReadingBuilder(cycle, theme, dark),
                    Action::ReadBuilder { dark },
                ),
                None => after_cycle(cycle, Err(Failure::Persist)),
            },
        ),
        (State::ReadingBuilder(cycle, theme, dark), Event::BuilderRead { read }) => Some(
            if read {
                go_on(State::PersistingBuilder(cycle, dark), Action::PersistBuilder { dark, theme })
            } else {
                after_cycle(cycle, Err(Failure::Persist))
            },
        ),
        (State::PersistingBuilder(cycle, dark), Event::BuilderPersisted { persisted }) => Some(
            if persisted {
                go_on(State::PersistingTheme(cycle), Action::PersistTheme { dark })
            } else {
                after_cycle(cycle, Err(Failure::Persist))
            },
        ),
        (State::PersistingTheme(cycle), Event::ThemePersisted { persisted }) => Some(
            after_cycle(
                cycle,
                if persisted {
                    Ok(())
                } else {
                    Err(Failure::Persist)
                },
            ),
        ),
        (State::Registering, Event::WatchRegistered { registered }) => Some(
            if registered {
                go_on(State::Watching, poll())
            } else {
                go_on(State::Stopped, Action::Exit(Err(Failure::Watch)))
            },
        ),
        (State::Watching, Event::Notified(kind)) => Some(
            if is_modification(kind) {
                go_on(State::Reading(Cycle::Repeat), Action::ReadFiles)
            } else {
                go_on(State::Watching, poll())
            },
        ),
        (State::Watching, Event::TimedOut) => Some(go_on(State::Watching, yield_and_poll())),
        (State::Watching, Event::Disconnected) => Some(
            go_on(State::Stopped, Action::Exit(Err(Failure::Watch))),
        ),
        _ => None,
    }
}

/// Whether an event of the watch sets off a cycle.
pub fn sets_off_cycle(kind: EventKind) -> (res: bool)
    ensures
        res == is_modification(kind),
{
    match kind {
        EventKind::Modify(ModifyKind::Metadata) => false,
        EventKind::Modify(_) => true,
        _ => false,
    }
}

/// Loads the palette and the mapping from the content of their files and
/// resolves the theme. `None` stands for a file that could not be read.
pub fn resolve_files(palette: Option<&str>, mapping: Option<&str>) -> (res: Result<
    ResolvedTheme,
    LoadError,
>)
    ensures
        res == theme_of_files(str_view(palette), str_view(mapping)),
{
    proof {
        reveal(theme_of_files);
    }
    match Colors::load(palette) {
        Ok(colors) => {
            let config = ColorConfig::load(mapping);
            Ok(config.load_cosmic_colors(&colors))
        },
        Err(error) => Err(error),
    }
}

/// Goes on with a cycle.
fn proceed(state: State, action: Action) -> (res: Option<Step>)
    ensures
        res == Some(go_on(state, action)),
{
    Some(Step { state, report: None, action })
}

/// Decides what follows the end of a cycle.
fn end_cycle(cycle: Cycle, outcome: Result<(), Failure>) -> (res: Option<Step>)
    ensures
        res == Some(after_cycle(cycle, outcome)),
{
    Some(
        match cycle {
            Cycle::Once => Step {
                state: State::Stopped,
                report: Some(outcome),
                action: Action::Exit(outcome),
            },
            Cycle::First => Step {
                state: State::Registering,
                report: Some(outcome),
                action: Action::RegisterWatch { recursive: false },
            },
            Cycle::Repeat => Step {
                state: State::Watching,
                report: Some(outcome),
                action: Action::Poll { timeout_ms: POLL_TIMEOUT_MS },
            },
        },
    )
}

/// Answers one event: the new state, the report of a cycle that ended, and
/// the next action. The result is `None` where `state` does not wait for
/// `event`.
pub fn step(state: State, event: Event) -> (res: Option<Step>)
    ensures
        res == next(state, event),
{
    match (state, event) {
        (State::Idle(Mode::Refresh), Event::Started) => proceed(
            State::Reading(Cycle::Once),
            Action::ReadFiles,
        ),
        (State::Idle(Mode::Daemon), Event::Started) => proceed(
            State::Reading(Cycle::First),
            Action::ReadFiles,
        ),
        (State::Reading(cycle), Event::FilesRead { palette, mapping }) => {
            match resolve_files(as_text(&palette), as_text(&mapping)) {
                Ok(theme) => proceed(State::ReadingMode(cycle, theme), Action::ReadMode),
                Err(error) => end_cycle(cycle, Err(Failure::Load(error))),
            }
        },
        (State::ReadingMode(cycle, theme), Event::ModeRead { dark }) => {
            match dark {
                Some(dark) => proceed(
                    State::ReadingBuilder(cycle, theme, dark),
                    Action::ReadBuilder { dark },
                ),
                None => end_cycle(cycle, Err(Failure::Persist)),
            }
        },
        (State::ReadingBuilder(cycle, theme, dark), Event::BuilderRead { read }) => {
            if read {
                proceed(
                    State::PersistingBuilder(cycle, dark),
                    Action::PersistBuilder { dark, theme },
                )
            } else {
                end_cycle(cycle, Err(Failure::Persist))
            }
        },
        (State::PersistingBuilder(cycle, dark), Event::BuilderPersisted { persisted }) => {
            if persisted {
                proceed(State::PersistingTheme(cycle), Action::PersistTheme { dark })
            } else {
                end_cycle(cycle, Err(Failure::Persist))
            }
        },
        (State::PersistingTheme(cycle), Event::ThemePersisted { persisted }) => {
            if persisted {
                end_cycle(cycle, Ok(()))
            } else {
                end_cycle(cycle, Err(Failure::Persist))
            }
        },
        (State::Registering, Event::WatchRegistered { registered }) => {
            if registered {
                proceed(State::Watching, Action::Poll { timeout_ms: POLL_TIMEOUT_MS })
            } else {
                proceed(State::Stopped, Action::Exit(Err(Failure::Watch)))
            }
        },
        (State::Watching, Event::Notified(kind)) => {
            if sets_off_cycle(kind) {
                proceed(State::Reading(Cycle::Repeat), Action::ReadFiles)
            } else {
                proceed(State::Watching, Action::Poll { timeout_ms: POLL_TIMEOUT_MS })
            }
        },
        (State::Watching, Event::TimedOut) => proceed(
            State::Watching,
            Action::YieldAndPoll { timeout_ms: POLL_TIMEOUT_MS },
        ),
        (State::Watching, Event::Disconnected) => proceed(
            State::Stopped,
            Action::Exit(Err(Failure::Watch)),
        ),
        _ => None,
    }
}

/// The cycle that is under way in `state`, if one is.
pub open spec fn cycle_of(state: State) -> Option<Cycle> {
    match state {
        State::Reading(cycle) => Some(cycle),
        State::ReadingMode(cycle, _) => Some(cycle),
        State::ReadingBuilder(cycle, _, _) => Some(cycle),
        State::PersistingBuilder(cycle, _) => Some(cycle),
        State::PersistingTheme(cycle) => Some(cycle),
        _ => None,
    }
}

/// Whether `state` is one that the program can be in when it runs as a
/// daemon.
pub open spec fn of_daemon(state: State) -> bool {
    match state {
        State::Idle(mode) => mode is Daemon,
        _ => cycle_of(state) != Some(Cycle::Once),
    }
}

/// An event of the watch that is no modification sets nothing off: no file
/// is read, nothing is written, and the state stays as it was.
pub proof fn lemma_other_events_change_nothing(kind: EventKind)
    requires
        !is_modification(kind),
    ensures
        next(State::Watching, Event::Notified(kind)) == Some(
            go_on(State::Watching, poll()),
        ),
{
}

/// Every modification sets off a cycle of its own, whatever went before.
pub proof fn lemma_modification_sets_off_cycle(kind: EventKind)
    requires
        is_modification(kind),
    ensures
        next(State::Watching, Event::Notified(kind)) == Some(
            go_on(State::Reading(Cycle::Repeat), Action::ReadFiles),
        ),
{
}

/// The theme store is turned to exactly where the palette loads as a whole,
/// and then with the theme that the two files give. Where the palette does
/// not load, the cycle ends at once, with that failure as its report.
pub proof fn lemma_theme_only_of_whole_palette(
    cycle: Cycle,
    palette: Option<String>,
    mapping: Option<String>,
)
    ensures
        next(State::Reading(cycle), Event::FilesRead { palette, mapping }) == Some(
            match load_outcome(text_view(palette)) {
                Ok(colors) => go_on(
                    State::ReadingMode(
                        cycle,
                        resolved_theme(loaded_mapping(text_view(mapping)), colors),
                    ),
                    Action::ReadMode,
                ),
                Err(error) => after_cycle(cycle, Err(Failure::Load(error))),
            },
        ),
{
    reveal(theme_of_files);
}

/// A cycle in which nothing fails asks for these actions, in this order:
/// read the files, read the theme mode, read the builder of that mode, put
/// the resolved theme onto the builder and persist it, build and persist the
/// theme. It ends with success, and the theme that reaches the builder is
/// the one that the files give.
pub proof fn lemma_cycle_runs_in_order(
    cycle: Cycle,
    palette: Option<String>,
    mapping: Option<String>,
    dark: bool,
)
    requires
        theme_of_files(text_view(palette), text_view(mapping)) is Ok,
    ensures
        ({
            let theme = theme_of_files(text_view(palette), text_view(mapping))->Ok_0;
            let first = next(State::Reading(cycle), Event::FilesRead { palette, mapping });
            let second = next(first.unwrap().state, Event::ModeRead { dark: Some(dark) });
            let third = next(second.unwrap().state, Event::BuilderRead { read: true });
            let fourth = next(third.unwrap().state, Event::BuilderPersisted { persisted: true });
            let fifth = next(fourth.unwrap().state, Event::ThemePersisted { persisted: true });
            &&& first matches Some(answer) && answer.action == Action::ReadMode
            &&& second matches Some(answer) && answer.action == Action::ReadBuilder { dark }
            &&& third matches Some(answer) && answer.action == Action::PersistBuilder {
                dark,
                theme,
            }
            &&& fourth matches Some(answer) && answer.action == Action::PersistTheme { dark }
            &&& fifth == Some(after_cycle(cycle, Ok(())))
        }),
{
}

/// Whatever the theme store fails at ends the cycle there, with the failure
/// `Persist`: nothing more is read or written in that cycle.
pub proof fn lemma_store_failure_ends_cycle(cycle: Cycle, theme: ResolvedTheme, dark: bool)
    ensures
        next(State::ReadingMode(cycle, theme), Event::ModeRead { dark: None }) == Some(
            after_cycle(cycle, Err(Failure::Persist)),
        ),
        next(State::ReadingBuilder(cycle, theme, dark), Event::BuilderRead { read: false })
            == Some(after_cycle(cycle, Err(Failure::Persist))),
        next(
            State::PersistingBuilder(cycle, dark),
            Event::BuilderPersisted { persisted: false },
        ) == Some(after_cycle(cycle, Err(Failure::Persist))),
        next(State::PersistingTheme(cycle), Event::ThemePersisted { persisted: false }) == Some(
            after_cycle(cycle, Err(Failure::Persist)),
        ),
{
}

/// Cycles do not overlap: while one is under way the channel is not polled,
/// so that no event of the watch is answered before the cycle has ended.
pub proof fn lemma_cycles_do_not_overlap(state: State, event: Event)
    requires
        cycle_of(state) is Some,
        event is Notified || event is TimedOut || event is Disconnected,
    ensures
        next(state, event) is None,
{
}

/// A state of the daemon is followed by a state of the daemon.
pub proof fn lemma_daemon_stays_daemon(state: State, event: Event)
    requires
        of_daemon(state),
        next(state, event) is Some,
    ensures
        of_daemon(next(state, event).unwrap().state),
{
}

/// The daemon outlives its cycles: it stops on a watch that cannot be
/// registered and on a closed channel, with the failure `Watch`, and on
/// nothing else. A palette that does not load and a theme store that fails
/// leave it watching, or about to.
pub proof fn lemma_daemon_stops_on_watch_failure_only(state: State, event: Event)
    requires
        of_daemon(state),
        next(state, event) is Some,
    ensures
        ({
            let answer = next(state, event).unwrap();
            let fatal = event is Disconnected || event matches Event::WatchRegistered {
                registered: false,
            };
            &&& answer.state is Stopped <==> fatal
            &&& answer.action is Exit <==> fatal
            &&& fatal ==> answer.action == Action::Exit(Err(Failure::Watch))
        }),
{
}

/// A cycle is reported when it ends and not before: an answer carries a
/// report exactly where a cycle was under way and is no longer.
pub proof fn lemma_report_marks_end_of_cycle(state: State, event: Event)
    requires
        next(state, event) is Some,
    ensures
        ({
            let answer = next(state, event).unwrap();
            answer.report is Some <==> cycle_of(state) is Some && cycle_of(answer.state) is None
        }),
{
}

/// A refresh ends with its only cycle, and as that cycle did: with success
/// where the theme was persisted, with the cycle's failure otherwise.
pub proof fn lemma_refresh_ends_as_its_cycle(state: State, event: Event)
    requires
        cycle_of(state) == Some(Cycle::Once),
        next(state, event) is Some,
    ensures
        ({
            let answer = next(state, event).unwrap();
            match answer.report {
                Some(outcome) => answer.state is Stopped && answer.action == Action::Exit(outcome),
                None => cycle_of(answer.state) == Some(Cycle::Once) && !(answer.action is Exit),
            }
        }),
{
}

/// Nothing follows the end of the program.
pub proof fn lemma_stopped_is_final(event: Event)
    ensures
        next(State::Stopped, event) is None,
{
}

} // verus!
