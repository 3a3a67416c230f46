//! The order of a run.
//!
//! A run connects to the database, asks the operating system for the names of
//! the host, asks it for the disks, writes one row and exits. The code that
//! talks to the outside world does each piece of work and says how it went;
//! [`advance`] says what to do next. The first failure ends the run.

use vstd::prelude::*;
use crate::config::{config_of, ConfigError, DbConfig, DbConfigView};
use crate::disk::{
    disk_outcome, law_no_name_match_reports_nothing, name_matches, outcome_view, DiskError, DiskInfo,
    DiskInfoView, DiskRecord,
};
use crate::system::{system_of, SystemInfo, SystemInfoView};
use crate::text::{text_of, text_or_empty};

verus! {

/// Why a run ended without writing its row.
#[derive(Clone, Copy, Debug, PartialEq, Eq, Structural)]
pub enum Failure {
    /// There is nothing to connect with.
    Config(ConfigError),
    /// The database could not be reached, or refused the connection.
    Connection,
    /// The disks could not be reported.
    Disk(DiskError),
    /// The database did not take the row.
    Insert,
    /// Something was reported that the run was not waiting for.
    OutOfTurn,
}

/// What a run is waiting for.
#[derive(Debug, PartialEq, Eq)]
pub enum RunState {
    /// Waiting for the environment to be read.
    Start,
    /// Waiting for the connection to the database.
    Connecting,
    /// Waiting for the names of the host.
    SamplingSystem,
    /// Waiting for the disks, with the names of the host in hand.
    SamplingDisk(SystemInfo),
    /// Waiting for the database to take the row.
    Inserting,
    /// The row is written.
    Done,
    /// The run has failed.
    Failed,
}

/// How a piece of outside work went.
#[derive(Debug, PartialEq, Eq)]
pub enum RunEvent {
    /// The environment was read; each value is `None` where its variable is
    /// not set.
    EnvLoaded { url: Option<String>, auth_token: Option<String> },
    /// The connection is open.
    Connected,
    /// The connection could not be opened.
    ConnectionFailed,
    /// The operating system was asked for its name and for the host's; each
    /// is `None` where it could not tell.
    SystemSampled { name: Option<String>, host_name: Option<String> },
    /// The disks were listed and scanned.
    DiskSampled(Result<Option<DiskInfo>, DiskError>),
    /// The row is written.
    Inserted,
    /// The row could not be written.
    InsertFailed,
}

/// The next piece of work.
#[derive(Debug, PartialEq, Eq)]
pub enum RunAction {
    /// Open one connection to the database.
    Connect(DbConfig),
    /// Ask the operating system for its name and for the host's.
    SampleSystem,
    /// List the disks and scan them.
    SampleDisk,
    /// Write one row with these values.
    Insert(SystemInfo, DiskInfo),
    /// End the run: all is done.
    Exit,
    /// End the run with a failure.
    Abort(Failure),
}

/// A [`RunState`] with its texts as sequences of characters.
pub enum RunStateView {
    Start,
    Connecting,
    SamplingSystem,
    SamplingDisk(SystemInfoView),
    Inserting,
    Done,
    Failed,
}

/// A [`RunEvent`] with its texts as sequences of characters.
pub enum RunEventView {
    EnvLoaded { url: Option<Seq<char>>, auth_token: Option<Seq<char>> },
    Connected,
    ConnectionFailed,
    SystemSampled { name: Option<Seq<char>>, host_name: Option<Seq<char>> },
    DiskSampled(Result<Option<DiskInfoView>, DiskError>),
    Inserted,
    InsertFailed,
}

/// A [`RunAction`] with its texts as sequences of characters.
pub enum RunActionView {
    Connect(DbConfigView),
    SampleSystem,
    SampleDisk,
    Insert(SystemInfoView, DiskInfoView),
    Exit,
    Abort(Failure),
}

impl View for RunState {
    type V = RunStateView;

    open spec fn view(&self) -> RunStateView {
        match *self {
            RunState::Start => RunStateView::Start,
            RunState::Connecting => RunStateView::Connecting,
            RunState::SamplingSystem => RunStateView::SamplingSystem,
            RunState::SamplingDisk(system) => RunStateView::SamplingDisk(system@),
            RunState::Inserting => RunStateView::Inserting,
            RunState::Done => RunStateView::Done,
            RunState::Failed => RunStateView::Failed,
        }
    }
}

impl View for RunEvent {
    type V = RunEventView;

    open spec fn view(&self) -> RunEventView {
        match *self {
            RunEvent::EnvLoaded { url, auth_token } => RunEventView::EnvLoaded {
                url: text_of(url),
                auth_token: text_of(auth_token),
            },
            RunEvent::Connected => RunEventView::Connected,
            RunEvent::ConnectionFailed => RunEventView::ConnectionFailed,
            RunEvent::SystemSampled { name, host_name } => RunEventView::SystemSampled {
                name: text_of(name),
                host_name: text_of(host_name),
            },
            RunEvent::DiskSampled(found) => RunEventView::DiskSampled(outcome_view(found)),
            RunEvent::Inserted => RunEventView::Inserted,
            RunEvent::InsertFailed => RunEventView::InsertFailed,
        }
    }
}

impl View for RunAction {
    type V = RunActionView;

    open spec fn view(&self) -> RunActionView {
        match *self {
            RunAction::Connect(config) => RunActionView::Connect(config@),
            RunAction::SampleSystem => RunActionView::SampleSystem,
            RunAction::SampleDisk => RunActionView::SampleDisk,
            RunAction::Insert(system, disk) => RunActionView::Insert(system@, disk@),
            RunAction::Exit => RunActionView::Exit,
            RunAction::Abort(failure) => RunActionView::Abort(failure),
        }
    }
}

/// The capacity that goes into the row: that of the disk found, and zero
/// throughout where none was found.
pub open spec fn disk_or_zero(found: Option<DiskInfoView>) -> DiskInfoView {
    match found {
        Some(disk) => disk,
        None => DiskInfoView::zero(),
    }
}

/// The run has failed: nothing follows but [`RunAction::Abort`].
pub open spec fn failed_with(failure: Failure) -> (RunStateView, RunActionView) {
    (RunStateView::Failed, RunActionView::Abort(failure))
}

/// What a run in `state` does when `event` is reported: the state it is in
/// afterwards, and the next piece of work.
pub open spec fn advance_spec(state: RunStateView, event: RunEventView) -> (
    RunStateView,
    RunActionView,
) {
    match (state, event) {
        (RunStateView::Start, RunEventView::EnvLoaded { url, auth_token }) => match config_of(
            url,
            auth_token,
        ) {
            Ok(config) => (RunStateView::Connecting, RunActionView::Connect(config)),
            Err(e) => failed_with(Failure::Config(e)),
        },
        (RunStateView::Connecting, RunEventView::Connected) => (
            RunStateView::SamplingSystem,
            RunActionView::SampleSystem,
        ),
        (RunStateView::Connecting, RunEventView::ConnectionFailed) => failed_with(
            Failure::Connection,
        ),
        (RunStateView::SamplingSystem, RunEventView::SystemSampled { name, host_name }) => (
            RunStateView::SamplingDisk(system_of(name, host_name)),
            RunActionView::SampleDisk,
        ),
        (RunStateView::SamplingDisk(system), RunEventView::DiskSampled(Ok(found))) => (
            RunStateView::Inserting,
            RunActionView::Insert(system, disk_or_zero(found)),
        ),
        (RunStateView::SamplingDisk(_), RunEventView::DiskSampled(Err(e))) => failed_with(
            Failure::Disk(e),
        ),
        (RunStateView::Inserting, RunEventView::Inserted) => (
            RunStateView::Done,
            RunActionView::Exit,
        ),
        (RunStateView::Inserting, RunEventView::InsertFailed) => failed_with(Failure::Insert),
        _ => failed_with(Failure::OutOfTurn),
    }
}

/// Says what a run in `state` does when `event` is reported.
///
/// Each state waits for the outcome of one piece of work. The outcome it
/// waits for moves the run on, or fails it where the work failed. Any other
/// event fails the run as out of turn; so does every event once the run is
/// done or has failed. In every row that a run writes, the used bytes are
/// the total less the available ones.
pub fn advance(state: RunState, event: RunEvent) -> (next: (RunState, RunAction))
    ensures
        (next.0@, next.1@) == advance_spec(state@, event@),
        next.1@ matches RunActionView::Insert(_, disk) ==> disk.consistent(),
{
    match (state, event) {
        (RunState::Start, RunEvent::EnvLoaded { url, auth_token }) => {
            match DbConfig::from_env(url, auth_token) {
                Ok(config) => (RunState::Connecting, RunAction::Connect(config)),
                Err(e) => (RunState::Failed, RunAction::Abort(Failure::Config(e))),
            }
        },
        (RunState::Connecting, RunEvent::Connected) => (
            RunState::SamplingSystem,
            RunAction::SampleSystem,
        ),
        (RunState::Connecting, RunEvent::ConnectionFailed) => (
            RunState::Failed,
            RunAction::Abort(Failure::Connection),
        ),
        (RunState::SamplingSystem, RunEvent::SystemSampled { name, host_name }) => (
            RunState::SamplingDisk(SystemInfo::from_sampled(name, host_name)),
            RunAction::SampleDisk,
        ),
        (RunState::SamplingDisk(system), RunEvent::DiskSampled(Ok(found))) => {
            let disk = match found {
                Some(disk) => disk,
                None => DiskInfo::zero(),
            };
            proof {
                use_type_invariant(&disk);
            }
            (RunState::Inserting, RunAction::Insert(system, disk))
        },
        (RunState::SamplingDisk(_), RunEvent::DiskSampled(Err(e))) => (
            RunState::Failed,
            RunAction::Abort(Failure::Disk(e)),
        ),
        (RunState::Inserting, RunEvent::Inserted) => (RunState::Done, RunAction::Exit),
        (RunState::Inserting, RunEvent::InsertFailed) => (
            RunState::Failed,
            RunAction::Abort(Failure::Insert),
        ),
        _ => (RunState::Failed, RunAction::Abort(Failure::OutOfTurn)),
    }
}

/// The state of a run that began in `state` and has seen all of `events`.
pub open spec fn state_after(state: RunStateView, events: Seq<RunEventView>) -> RunStateView
    decreases events.len(),
{
    if events.len() == 0 {
        state
    } else {
        advance_spec(state_after(state, events.drop_last()), events.last()).0
    }
}

/// The piece of work that a run that began in `state` asks for when the
/// event at `at` is reported, the events before it having been reported.
pub open spec fn action_at(state: RunStateView, events: Seq<RunEventView>, at: int) -> RunActionView {
    advance_spec(state_after(state, events.take(at)), events[at]).1
}

/// How far a run has come. No event takes a run back.
pub open spec fn progress(state: RunStateView) -> nat {
    match state {
        RunStateView::Start => 0,
        RunStateView::Connecting => 1,
        RunStateView::SamplingSystem => 2,
        RunStateView::SamplingDisk(_) => 3,
        RunStateView::Inserting => 4,
        RunStateView::Done => 5,
        RunStateView::Failed => 5,
    }
}

/// Every event takes a run further, until it is done or has failed.
pub proof fn lemma_advance_progresses(state: RunStateView, event: RunEventView)
    ensures
        progress(state) < 5 ==> progress(advance_spec(state, event).0) > progress(state),
        progress(state) == 5 ==> advance_spec(state, event) == failed_with(Failure::OutOfTurn),
{
}

/// The state after the first `n + 1` events is the state after the first `n`,
/// advanced by the event at `n`.
pub proof fn lemma_state_after_next(state: RunStateView, events: Seq<RunEventView>, n: int)
    requires
        0 <= n < events.len(),
    ensures
        state_after(state, events.take(n + 1)) == advance_spec(
            state_after(state, events.take(n)),
            events[n],
        ).0,
{
    assert(events.take(n + 1).drop_last() =~= events.take(n));
}

/// The states of a run come in the order of their progress: of two moments
/// of a run, the later is at least as far as the earlier.
pub proof fn lemma_progress_monotonic(
    state: RunStateView,
    events: Seq<RunEventView>,
    earlier: int,
    later: int,
)
    requires
        0 <= earlier <= later <= events.len(),
    ensures
        progress(state_after(state, events.take(earlier))) <= progress(
            state_after(state, events.take(later)),
        ),
    decreases later - earlier,
{
    if earlier < later {
        lemma_progress_monotonic(state, events, earlier, later - 1);
        lemma_state_after_next(state, events, later - 1);
        lemma_advance_progresses(state_after(state, events.take(later - 1)), events[later - 1]);
    }
}

/// The place of a piece of work in a run that goes well: connecting comes
/// first, then the system, the disks, the row and the exit. An abort has no
/// place.
pub open spec fn turn_of(action: RunActionView) -> Option<nat> {
    match action {
        RunActionView::Connect(_) => Some(0),
        RunActionView::SampleSystem => Some(1),
        RunActionView::SampleDisk => Some(2),
        RunActionView::Insert(_, _) => Some(3),
        RunActionView::Exit => Some(4),
        RunActionView::Abort(_) => None,
    }
}

/// A run is asked to abort exactly when it fails. Any other piece of work
/// takes the run one state further and is the one whose turn it is.
pub proof fn lemma_advance_in_turn(state: RunStateView, event: RunEventView)
    ensures
        advance_spec(state, event).1 is Abort <==> advance_spec(state, event).0
            == RunStateView::Failed,
        !(advance_spec(state, event).1 is Abort) ==> ({
            &&& progress(advance_spec(state, event).0) == progress(state) + 1
            &&& turn_of(advance_spec(state, event).1) == Some(progress(state))
        }),
{
}

/// A run that has failed stays failed.
pub proof fn lemma_failed_stays(
    state: RunStateView,
    events: Seq<RunEventView>,
    earlier: int,
    later: int,
)
    requires
        0 <= earlier <= later <= events.len(),
        state_after(state, events.take(earlier)) == RunStateView::Failed,
    ensures
        state_after(state, events.take(later)) == RunStateView::Failed,
    decreases later - earlier,
{
    if earlier < later {
        lemma_failed_stays(state, events, earlier, later - 1);
        lemma_state_after_next(state, events, later - 1);
    }
}

/// A run from the start that has not failed after `n` events is `n` states
/// on.
pub proof fn lemma_on_course(events: Seq<RunEventView>, n: int)
    requires
        0 <= n <= events.len(),
    ensures
        state_after(RunStateView::Start, events.take(n)) == RunStateView::Failed || progress(
            state_after(RunStateView::Start, events.take(n)),
        ) == n,
    decreases n,
{
    if n == 0 {
        assert(events.take(0) =~= Seq::<RunEventView>::empty());
    } else {
        lemma_on_course(events, n - 1);
        lemma_state_after_next(RunStateView::Start, events, n - 1);
        let before = state_after(RunStateView::Start, events.take(n - 1));
        lemma_advance_in_turn(before, events[n - 1]);
        lemma_advance_progresses(before, events[n - 1]);
    }
}

/// The work of a run comes in one order: to connect, to sample the system,
/// to sample the disks, to write the row, to exit. Whatever is reported to a
/// run from its start, a piece of work that it asks for, other than to abort,
/// is the one whose turn it is, and so was every piece of work before it.
pub proof fn law_work_comes_in_order(events: Seq<RunEventView>, before: int, at: int)
    requires
        0 <= before <= at < events.len(),
        !(action_at(RunStateView::Start, events, at) is Abort),
    ensures
        turn_of(action_at(RunStateView::Start, events, at)) == Some(at as nat),
        turn_of(action_at(RunStateView::Start, events, before)) == Some(before as nat),
{
    let start = RunStateView::Start;
    lemma_on_course(events, at);
    lemma_advance_in_turn(state_after(start, events.take(at)), events[at]);
    lemma_advance_progresses(state_after(start, events.take(at)), events[at]);
    if before < at {
        lemma_on_course(events, before);
        lemma_state_after_next(start, events, before);
        lemma_advance_in_turn(state_after(start, events.take(before)), events[before]);
        lemma_advance_progresses(state_after(start, events.take(before)), events[before]);
        if action_at(start, events, before) is Abort {
            lemma_failed_stays(start, events, before + 1, at);
        }
    }
}

/// Without a database URL a run aborts at once, whatever the token is, and
/// asks for no work ever after: no connection, no sampling of the system or
/// of the disks, no row.
pub proof fn law_missing_url_starts_no_work(
    auth_token: Option<Seq<char>>,
    later: Seq<RunEventView>,
    at: int,
)
    requires
        0 <= at <= later.len(),
    ensures
        ({
            let events = seq![RunEventView::EnvLoaded { url: None, auth_token }] + later;
            &&& action_at(RunStateView::Start, events, 0) == RunActionView::Abort(
                Failure::Config(ConfigError::MissingUrl),
            )
            &&& action_at(RunStateView::Start, events, at) is Abort
        }),
{
    let first = RunEventView::EnvLoaded { url: None, auth_token };
    let events = seq![first] + later;
    assert(events.take(0) =~= Seq::<RunEventView>::empty());
    assert(events[0] == first);
    if at > 0 {
        lemma_state_after_next(RunStateView::Start, events, 0);
        assert(state_after(RunStateView::Start, events.take(1)) == RunStateView::Failed);
        lemma_progress_monotonic(RunStateView::Start, events, 1, at);
        lemma_advance_progresses(state_after(RunStateView::Start, events.take(at)), events[at]);
    }
}

/// A URL without a token, or with an empty one, is accepted: the run goes on
/// to connect with that URL and the empty token.
pub proof fn law_missing_token_is_empty(url: Seq<char>, auth_token: Option<Seq<char>>)
    requires
        auth_token is None || auth_token == Some(Seq::<char>::empty()),
    ensures
        advance_spec(
            RunStateView::Start,
            RunEventView::EnvLoaded { url: Some(url), auth_token },
        ) == (
            RunStateView::Connecting,
            RunActionView::Connect(DbConfigView { url, auth_token: Seq::<char>::empty() }),
        ),
{
}

/// Where no disk has a name that holds the name pattern, the scan reports
/// nothing and the row holds zero for each of the three capacities.
pub proof fn law_no_name_match_writes_zeros(system: SystemInfoView, disks: Seq<DiskRecord>)
    requires
        forall|i: int| 0 <= i < disks.len() ==> !name_matches(#[trigger] disks[i]),
    ensures
        disk_outcome(disks) == Ok::<Option<DiskInfoView>, DiskError>(None),
        advance_spec(
            RunStateView::SamplingDisk(system),
            RunEventView::DiskSampled(disk_outcome(disks)),
        ) == (
            RunStateView::Inserting,
            RunActionView::Insert(system, DiskInfoView::zero()),
        ),
{
    law_no_name_match_reports_nothing(disks);
}

/// A run in which every piece of work succeeds connects, samples the system,
/// samples the disks, writes one row of what was sampled, and exits.
pub proof fn law_successful_run(
    url: Seq<char>,
    auth_token: Option<Seq<char>>,
    name: Option<Seq<char>>,
    host_name: Option<Seq<char>>,
    found: Option<DiskInfoView>,
)
    ensures
        ({
            let events = seq![
                RunEventView::EnvLoaded { url: Some(url), auth_token },
                RunEventView::Connected,
                RunEventView::SystemSampled { name, host_name },
                RunEventView::DiskSampled(Ok(found)),
                RunEventView::Inserted,
            ];
            let start = RunStateView::Start;
            &&& action_at(start, events, 0) == RunActionView::Connect(
                DbConfigView { url, auth_token: text_or_empty(auth_token) },
            )
            &&& action_at(start, events, 1) == RunActionView::SampleSystem
            &&& action_at(start, events, 2) == RunActionView::SampleDisk
            &&& action_at(start, events, 3) == RunActionView::Insert(
                system_of(name, host_name),
                disk_or_zero(found),
            )
            &&& action_at(start, events, 4) == RunActionView::Exit
            &&& state_after(start, events) == RunStateView::Done
        }),
{
    let events = seq![
        RunEventView::EnvLoaded { url: Some(url), auth_token },
        RunEventView::Connected,
        RunEventView::SystemSampled { name, host_name },
        RunEventView::DiskSampled(Ok(found)),
        RunEventView::Inserted,
    ];
    let start = RunStateView::Start;
    assert(events.take(0) =~= Seq::<RunEventView>::empty());
    lemma_state_after_next(start, events, 0);
    lemma_state_after_next(start, events, 1);
    lemma_state_after_next(start, events, 2);
    lemma_state_after_next(start, events, 3);
    lemma_state_after_next(start, events, 4);
    assert(events.take(5) =~= events);
}

/// A run opens at most one connection, and only as its first piece of work.
pub proof fn law_connects_at_most_once(events: Seq<RunEventView>, at: int)
    requires
        0 < at < events.len(),
    ensures
        !(action_at(RunStateView::Start, events, at) is Connect),
{
    lemma_progress_monotonic(RunStateView::Start, events, 1, at);
    lemma_state_after_next(RunStateView::Start, events, 0);
    assert(events.take(0) =~= Seq::<RunEventView>::empty());
    lemma_advance_progresses(RunStateView::Start, events[0]);
}

/// A run writes at most one row, whatever state it began in.
pub proof fn law_inserts_at_most_once(
    state: RunStateView,
    events: Seq<RunEventView>,
    first: int,
    second: int,
)
    requires
        0 <= first < second < events.len(),
    ensures
        !(action_at(state, events, first) is Insert && action_at(state, events, second) is Insert),
{
    lemma_state_after_next(state, events, first);
    lemma_advance_progresses(state_after(state, events.take(first)), events[first]);
    lemma_progress_monotonic(state, events, first + 1, second);
}

/// Once a run has failed, every further event is answered with an abort.
pub proof fn law_failure_is_final(
    state: RunStateView,
    events: Seq<RunEventView>,
    failed: int,
    at: int,
)
    requires
        0 <= failed < at < events.len(),
        action_at(state, events, failed) is Abort,
    ensures
        action_at(state, events, at) == RunActionView::Abort(Failure::OutOfTurn),
{
    lemma_state_after_next(state, events, failed);
    lemma_progress_monotonic(state, events, failed + 1, at);
    lemma_advance_progresses(state_after(state, events.take(at)), events[at]);
}

} // verus!
