//! The self-update flow as a state machine.
//!
//! One cycle runs `Idle → Checking → {NoUpdate | UpdateAvailable} →
//! Downloading → Installed → Restarting`. The machine decides; the caller
//! acts. The caller hands in what happened as an event and performs the
//! action that comes back: query the endpoint, start the download, report
//! progress, announce the end of the transfer, restart. An event that does
//! not belong to the current state changes nothing. A cycle never goes back:
//! a new check starts with a new machine.

use vstd::prelude::*;

verus! {

/// What the endpoint said of a new version.
#[derive(Debug, Clone, Copy, PartialEq, Eq)]
pub struct UpdateManifest {
    /// Whether a newer version exists.
    pub available: bool,
    /// Its size in bytes, where the endpoint gave one.
    pub size: Option<u64>,
}

/// One received chunk of a download.
#[derive(Debug, Clone, Copy, PartialEq, Eq)]
pub struct DownloadProgress {
    /// The bytes of this chunk.
    pub chunk_length: usize,
    /// The size of the whole download, where it is known.
    pub content_length: Option<u64>,
}

/// The step of the cycle that failed.
#[derive(Debug, Clone, Copy, PartialEq, Eq)]
pub enum UpdateFault {
    /// The check or the transfer.
    Network,
    /// The install of the transferred artifact.
    Install,
}

/// Where a cycle stands.
#[derive(Debug, Clone, Copy, PartialEq, Eq)]
pub enum UpdateState {
    Idle,
    Checking,
    NoUpdate,
    UpdateAvailable,
    /// `downloaded` is the running total of the chunks received so far;
    /// `transferred` says that the byte transfer has finished.
    Downloading { downloaded: u64, transferred: bool },
    Installed,
    Restarting,
    Failed(UpdateFault),
}

/// What happened outside.
#[derive(Debug, Clone, Copy, PartialEq, Eq)]
pub enum UpdateEvent {
    /// A check was asked for.
    Trigger,
    /// The endpoint answered.
    CheckCompleted(UpdateManifest),
    /// A chunk arrived.
    Chunk(DownloadProgress),
    /// The byte transfer finished.
    TransferFinished,
    /// The install succeeded.
    InstallCompleted,
    /// The restart was issued.
    RestartIssued,
    /// The step in progress failed.
    Failure,
}

/// What the caller does next.
#[derive(Debug, Clone, Copy, PartialEq, Eq)]
pub enum UpdateAction {
    /// Nothing.
    Nothing,
    /// Query the endpoint, once.
    QueryEndpoint,
    /// Start the download, without asking anyone.
    BeginDownload,
    /// Tell the progress callback of this chunk; `downloaded` is the running
    /// total including it.
    ReportProgress { chunk_length: usize, content_length: Option<u64>, downloaded: u64 },
    /// Tell the completion callback that the transfer has finished.
    ReportFinished,
    /// Restart the application.
    Restart,
    /// Log that there is no update.
    LogNoUpdate,
    /// Log the failure; the cycle is over and nothing is restarted.
    LogError(UpdateFault),
}

/// The running total after one more chunk. It stops at the largest value
/// that the counter holds, so it never decreases.
pub open spec fn running_total(downloaded: u64, chunk_length: usize) -> u64 {
    if downloaded + chunk_length > u64::MAX {
        u64::MAX
    } else {
        (downloaded + chunk_length) as u64
    }
}

/// The running total of a state: what has been downloaded in it.
pub open spec fn downloaded_in(state: UpdateState) -> u64 {
    match state {
        UpdateState::Downloading { downloaded, transferred } => downloaded,
        _ => 0,
    }
}

/// Whether the transfer can still receive bytes in this state.
pub open spec fn receiving(state: UpdateState) -> bool {
    match state {
        UpdateState::UpdateAvailable => true,
        UpdateState::Downloading { downloaded, transferred } => !transferred,
        _ => false,
    }
}

/// The transition: the next state and the action to perform.
pub open spec fn next(state: UpdateState, event: UpdateEvent) -> (UpdateState, UpdateAction) {
    match event {
        UpdateEvent::Trigger => if state == UpdateState::Idle {
            (UpdateState::Checking, UpdateAction::QueryEndpoint)
        } else {
            (state, UpdateAction::Nothing)
        },
        UpdateEvent::CheckCompleted(manifest) => if state == UpdateState::Checking {
            if manifest.available {
                (UpdateState::UpdateAvailable, UpdateAction::BeginDownload)
            } else {
                (UpdateState::NoUpdate, UpdateAction::LogNoUpdate)
            }
        } else {
            (state, UpdateAction::Nothing)
        },
        UpdateEvent::Chunk(progress) => if receiving(state) {
            let total = running_total(downloaded_in(state), progress.chunk_length);
            (
                UpdateState::Downloading { downloaded: total, transferred: false },
                UpdateAction::ReportProgress {
                    chunk_length: progress.chunk_length,
                    content_length: progress.content_length,
                    downloaded: total,
                },
            )
        } else {
            (state, UpdateAction::Nothing)
        },
        UpdateEvent::TransferFinished => if receiving(state) {
            (
                UpdateState::Downloading { downloaded: downloaded_in(state), transferred: true },
                UpdateAction::ReportFinished,
            )
        } else {
            (state, UpdateAction::Nothing)
        },
        UpdateEvent::InstallCompleted => match state {
            UpdateState::Downloading { downloaded, transferred: true } => (
                UpdateState::Installed,
                UpdateAction::Restart,
            ),
            _ => (state, UpdateAction::Nothing),
        },
        UpdateEvent::RestartIssued => if state == UpdateState::Installed {
            (UpdateState::Restarting, UpdateAction::Nothing)
        } else {
            (state, UpdateAction::Nothing)
        },
        UpdateEvent::Failure => match state {
            UpdateState::Checking => (
                UpdateState::Failed(UpdateFault::Network),
                UpdateAction::LogError(UpdateFault::Network),
            ),
            UpdateState::UpdateAvailable => (
                UpdateState::Failed(UpdateFault::Network),
                UpdateAction::LogError(UpdateFault::Network),
            ),
            UpdateState::Downloading { downloaded, transferred } => if transferred {
                (
                    UpdateState::Failed(UpdateFault::Install),
                    UpdateAction::LogError(UpdateFault::Install),
                )
            } else {
                (
                    UpdateState::Failed(UpdateFault::Network),
                    UpdateAction::LogError(UpdateFault::Network),
                )
            },
            _ => (state, UpdateAction::Nothing),
        },
    }
}

/// The state after a sequence of events.
pub open spec fn state_after(start: UpdateState, events: Seq<UpdateEvent>) -> UpdateState
    decreases events.len(),
{
    if events.len() == 0 {
        start
    } else {
        next(state_after(start, events.drop_last()), events.last()).0
    }
}

/// The actions that a sequence of events calls for, one for each event.
pub open spec fn actions_for(start: UpdateState, events: Seq<UpdateEvent>) -> Seq<UpdateAction>
    decreases events.len(),
{
    if events.len() == 0 {
        Seq::empty()
    } else {
        actions_for(start, events.drop_last()).push(
            next(state_after(start, events.drop_last()), events.last()).1,
        )
    }
}

/// How far a cycle has come. No transition lowers it.
pub open spec fn stage(state: UpdateState) -> nat {
    match state {
        UpdateState::Idle => 0,
        UpdateState::Checking => 1,
        UpdateState::UpdateAvailable => 2,
        UpdateState::Downloading { downloaded, transferred } => if transferred {
            4
        } else {
            3
        },
        UpdateState::Installed => 5,
        UpdateState::Restarting => 6,
        UpdateState::NoUpdate => 7,
        UpdateState::Failed(_) => 7,
    }
}

/// How often `wanted` stands among the actions.
pub open spec fn count_of(actions: Seq<UpdateAction>, wanted: UpdateAction) -> nat
    decreases actions.len(),
{
    if actions.len() == 0 {
        0
    } else if actions.last() == wanted {
        count_of(actions.drop_last(), wanted) + 1
    } else {
        count_of(actions.drop_last(), wanted)
    }
}

/// How often the completion callback is called for among the actions.
pub open spec fn completions(actions: Seq<UpdateAction>) -> nat {
    count_of(actions, UpdateAction::ReportFinished)
}

/// The sum of the chunk lengths.
pub open spec fn total_length(chunks: Seq<DownloadProgress>) -> nat
    decreases chunks.len(),
{
    if chunks.len() == 0 {
        0
    } else {
        total_length(chunks.drop_last()) + chunks.last().chunk_length as nat
    }
}

/// The bytes that the actions report to the progress callback, summed over
/// the chunks.
pub open spec fn reported_length(actions: Seq<UpdateAction>) -> nat
    decreases actions.len(),
{
    if actions.len() == 0 {
        0
    } else {
        reported_length(actions.drop_last()) + (match actions.last() {
            UpdateAction::ReportProgress { chunk_length, content_length, downloaded } => {
                chunk_length as nat
            },
            _ => 0,
        })
    }
}

/// The chunks as the events that report them.
pub open spec fn chunk_events(chunks: Seq<DownloadProgress>) -> Seq<UpdateEvent> {
    Seq::new(chunks.len(), |i: int| UpdateEvent::Chunk(chunks[i]))
}

/// A byte count held in the counter: itself, or the counter's largest value
/// where it does not fit.
pub open spec fn capped(total: nat) -> u64 {
    if total > u64::MAX {
        u64::MAX
    } else {
        total as u64
    }
}

fn add_chunk(downloaded: u64, chunk_length: usize) -> (total: u64)
    ensures
        total == running_total(downloaded, chunk_length),
{
    let chunk: u64 = chunk_length as u64;
    if chunk > u64::MAX - downloaded {
        u64::MAX
    } else {
        downloaded + chunk
    }
}

/// Takes one event: gives the next state and the action to perform.
pub fn step(state: UpdateState, event: UpdateEvent) -> (res: (UpdateState, UpdateAction))
    ensures
        res == next(state, event),
        stage(res.0) >= stage(state),
        downloaded_in(res.0) >= downloaded_in(state) || !(res.0 is Downloading),
{
    match event {
        UpdateEvent::Trigger => match state {
            UpdateState::Idle => (UpdateState::Checking, UpdateAction::QueryEndpoint),
            _ => (state, UpdateAction::Nothing),
        },
        UpdateEvent::CheckCompleted(manifest) => match state {
            UpdateState::Checking => {
                if manifest.available {
                    (UpdateState::UpdateAvailable, UpdateAction::BeginDownload)
                } else {
                    (UpdateState::NoUpdate, UpdateAction::LogNoUpdate)
                }
            },
            _ => (state, UpdateAction::Nothing),
        },
        UpdateEvent::Chunk(progress) => {
            let before: Option<u64> = match state {
                UpdateState::UpdateAvailable => Some(0),
                UpdateState::Downloading { downloaded, transferred: false } => Some(downloaded),
                _ => None,
            };
            match before {
                Some(downloaded) => {
                    let total = add_chunk(downloaded, progress.chunk_length);
                    (
                        UpdateState::Downloading { downloaded: total, transferred: false },
                        UpdateAction::ReportProgress {
                            chunk_length: progress.chunk_length,
                            content_length: progress.content_length,
                            downloaded: total,
                        },
                    )
                },
                None => (state, UpdateAction::Nothing),
            }
        },
        UpdateEvent::TransferFinished => match state {
            UpdateState::UpdateAvailable => (
                UpdateState::Downloading { downloaded: 0, transferred: true },
                UpdateAction::ReportFinished,
            ),
            UpdateState::Downloading { downloaded, transferred: false } => (
                UpdateState::Downloading { downloaded, transferred: true },
                UpdateAction::ReportFinished,
            ),
            _ => (state, UpdateAction::Nothing),
        },
        UpdateEvent::InstallCompleted => match state {
            UpdateState::Downloading { downloaded, transferred: true } => (
                UpdateState::Installed,
                UpdateAction::Restart,
            ),
            _ => (state, UpdateAction::Nothing),
        },
        UpdateEvent::RestartIssued => match state {
            UpdateState::Installed => (UpdateState::Restarting, UpdateAction::Nothing),
            _ => (state, UpdateAction::Nothing),
        },
        UpdateEvent::Failure => match state {
            UpdateState::Checking => (
                UpdateState::Failed(UpdateFault::Network),
                UpdateAction::LogError(UpdateFault::Network),
            ),
            UpdateState::UpdateAvailable => (
                UpdateState::Failed(UpdateFault::Network),
                UpdateAction::LogError(UpdateFault::Network),
            ),
            UpdateState::Downloading { downloaded, transferred: false } => (
                UpdateState::Failed(UpdateFault::Network),
                UpdateAction::LogError(UpdateFault::Network),
            ),
            UpdateState::Downloading { downloaded, transferred: true } => (
                UpdateState::Failed(UpdateFault::Install),
                UpdateAction::LogError(UpdateFault::Install),
            ),
            _ => (state, UpdateAction::Nothing),
        },
    }
}

/// Takes the events in order: gives the last state and the action of each.
pub fn feed(start: UpdateState, events: &Vec<UpdateEvent>) -> (res: (
    UpdateState,
    Vec<UpdateAction>,
))
    ensures
        res.0 == state_after(start, events@),
        res.1@ == actions_for(start, events@),
{
    let mut state = start;
    let mut actions: Vec<UpdateAction> = Vec::new();
    let mut i: usize = 0;
    assert(events@.take(0) =~= Seq::<UpdateEvent>::empty());
    while i < events.len()
        invariant
            i <= events.len(),
            state == state_after(start, events@.take(i as int)),
            actions@ == actions_for(start, events@.take(i as int)),
        decreases events.len() - i,
    {
        proof {
            let upto = events@.take(i as int + 1);
            assert(upto.drop_last() =~= events@.take(i as int));
            assert(upto.last() == events@[i as int]);
        }
        let (following, action) = step(state, events[i]);
        state = following;
        actions.push(action);
        i = i + 1;
    }
    assert(events@.take(i as int) =~= events@);
    (state, actions)
}

/// The running total never decreases while a download goes on, and no
/// transition takes a cycle back to an earlier stage.
pub proof fn lemma_step_is_monotone(state: UpdateState, event: UpdateEvent)
    ensures
        stage(next(state, event).0) >= stage(state),
        next(state, event).0 is Downloading ==> downloaded_in(next(state, event).0)
            >= downloaded_in(state),
{
}

/// Over any sequence of events the cycle only moves forward.
pub proof fn lemma_stage_never_falls(start: UpdateState, events: Seq<UpdateEvent>)
    ensures
        stage(state_after(start, events)) >= stage(start),
    decreases events.len(),
{
    if events.len() > 0 {
        lemma_stage_never_falls(start, events.drop_last());
        lemma_step_is_monotone(state_after(start, events.drop_last()), events.last());
    }
}

/// The completion callback is called for at most once in a cycle, whatever
/// the events, and not at all once the transfer has finished. A cycle that
/// started before the end of the transfer and has come to the install, the
/// installed state or the restart has called for it exactly once.
pub proof fn lemma_completion_at_most_once(start: UpdateState, events: Seq<UpdateEvent>)
    ensures
        completions(actions_for(start, events)) <= 1,
        stage(start) >= 4 ==> completions(actions_for(start, events)) == 0,
        completions(actions_for(start, events)) == 1 ==> stage(state_after(start, events)) >= 4,
        stage(start) < 4 && 4 <= stage(state_after(start, events)) <= 6 ==> completions(
            actions_for(start, events),
        ) == 1,
    decreases events.len(),
{
    if events.len() > 0 {
        let earlier = events.drop_last();
        lemma_completion_at_most_once(start, earlier);
        lemma_stage_never_falls(start, earlier);
        let actions = actions_for(start, events);
        assert(actions.drop_last() =~= actions_for(start, earlier));
        assert(actions.last() == next(state_after(start, earlier), events.last()).1);
    }
}

/// The endpoint is queried at most once in a cycle, and the application is
/// restarted at most once.
pub proof fn lemma_query_and_restart_at_most_once(start: UpdateState, events: Seq<UpdateEvent>)
    ensures
        count_of(actions_for(start, events), UpdateAction::QueryEndpoint) <= 1,
        count_of(actions_for(start, events), UpdateAction::QueryEndpoint) == 1 ==> stage(
            state_after(start, events),
        ) >= 1,
        count_of(actions_for(start, events), UpdateAction::Restart) <= 1,
        count_of(actions_for(start, events), UpdateAction::Restart) == 1 ==> stage(
            state_after(start, events),
        ) >= 5,
    decreases events.len(),
{
    if events.len() > 0 {
        let earlier = events.drop_last();
        lemma_query_and_restart_at_most_once(start, earlier);
        lemma_step_is_monotone(state_after(start, earlier), events.last());
        let actions = actions_for(start, events);
        assert(actions.drop_last() =~= actions_for(start, earlier));
        assert(actions.last() == next(state_after(start, earlier), events.last()).1);
    }
}

/// A restart is called for only by a successful install after the transfer
/// has finished.
pub proof fn lemma_restart_needs_transfer(state: UpdateState, event: UpdateEvent)
    ensures
        next(state, event).1 == UpdateAction::Restart <==> (event is InstallCompleted && stage(
            state,
        ) == 4),
{
}

/// A cycle that has ended stays as it is: after a restart, without an update
/// or after a failure no event changes the state or calls for an action. In
/// particular a failed install is never followed by a restart.
pub proof fn lemma_ended_cycle_stays(state: UpdateState, event: UpdateEvent)
    requires
        stage(state) >= 6,
    ensures
        next(state, event) == (state, UpdateAction::Nothing),
{
}

/// While chunks arrive, the running total is the sum of their lengths (held
/// in the counter).
pub proof fn lemma_total_while_receiving(chunks: Seq<DownloadProgress>)
    ensures
        state_after(UpdateState::UpdateAvailable, chunk_events(chunks)) == (if chunks.len()
            == 0 {
            UpdateState::UpdateAvailable
        } else {
            UpdateState::Downloading {
                downloaded: capped(total_length(chunks)),
                transferred: false,
            }
        }),
    decreases chunks.len(),
{
    if chunks.len() > 0 {
        let earlier = chunks.drop_last();
        lemma_total_while_receiving(earlier);
        assert(chunk_events(chunks).drop_last() =~= chunk_events(earlier));
        assert(chunk_events(chunks).last() == UpdateEvent::Chunk(chunks.last()));
    }
}

/// Every chunk that arrives while the transfer goes on is reported to the
/// progress callback: once, in order, with its own length and the size that
/// came with it, and with the running total up to and including it.
pub proof fn lemma_progress_per_chunk(chunks: Seq<DownloadProgress>)
    ensures
        actions_for(UpdateState::UpdateAvailable, chunk_events(chunks)).len() == chunks.len(),
        forall|i: int|
            0 <= i < chunks.len() ==> #[trigger] actions_for(
                UpdateState::UpdateAvailable,
                chunk_events(chunks),
            )[i] == (UpdateAction::ReportProgress {
                chunk_length: chunks[i].chunk_length,
                content_length: chunks[i].content_length,
                downloaded: capped(total_length(chunks.take(i + 1))),
            }),
    decreases chunks.len(),
{
    if chunks.len() > 0 {
        let earlier = chunks.drop_last();
        let last = chunks.len() - 1;
        lemma_progress_per_chunk(earlier);
        lemma_total_while_receiving(earlier);
        assert(chunk_events(chunks).drop_last() =~= chunk_events(earlier));
        assert(chunk_events(chunks).last() == UpdateEvent::Chunk(chunks.last()));
        assert(chunks.take(last + 1) =~= chunks);
        let actions = actions_for(UpdateState::UpdateAvailable, chunk_events(chunks));
        assert forall|i: int| 0 <= i < chunks.len() implies #[trigger] actions[i] == (
        UpdateAction::ReportProgress {
            chunk_length: chunks[i].chunk_length,
            content_length: chunks[i].content_length,
            downloaded: capped(total_length(chunks.take(i + 1))),
        }) by {
            if i < last {
                assert(chunks.take(i + 1) =~= earlier.take(i + 1));
                assert(chunks[i] == earlier[i]);
            }
        }
    }
}

/// The chunk lengths reported to the progress callback add up to the sum of
/// the chunk lengths received, and the end of the transfer adds nothing to
/// it. So for a download of known size whose chunks add up to that size, the
/// reported lengths add up to exactly that size once the transfer completes.
pub proof fn lemma_reported_length_is_total(chunks: Seq<DownloadProgress>, size: u64)
    ensures
        reported_length(actions_for(UpdateState::UpdateAvailable, chunk_events(chunks)))
            == total_length(chunks),
        reported_length(
            actions_for(
                UpdateState::UpdateAvailable,
                chunk_events(chunks).push(UpdateEvent::TransferFinished),
            ),
        ) == total_length(chunks),
        total_length(chunks) == size ==> reported_length(
            actions_for(
                UpdateState::UpdateAvailable,
                chunk_events(chunks).push(UpdateEvent::TransferFinished),
            ),
        ) == size,
    decreases chunks.len(),
{
    let start = UpdateState::UpdateAvailable;
    if chunks.len() > 0 {
        let earlier = chunks.drop_last();
        lemma_reported_length_is_total(earlier, size);
        lemma_total_while_receiving(earlier);
        assert(chunk_events(chunks).drop_last() =~= chunk_events(earlier));
        assert(chunk_events(chunks).last() == UpdateEvent::Chunk(chunks.last()));
        assert(actions_for(start, chunk_events(chunks)).drop_last() =~= actions_for(
            start,
            chunk_events(earlier),
        ));
    }
    let events = chunk_events(chunks).push(UpdateEvent::TransferFinished);
    assert(events.drop_last() =~= chunk_events(chunks));
    assert(events.last() == UpdateEvent::TransferFinished);
    lemma_total_while_receiving(chunks);
    let before = state_after(start, chunk_events(chunks));
    assert(receiving(before));
    assert(next(before, UpdateEvent::TransferFinished).1 == UpdateAction::ReportFinished);
    let actions = actions_for(start, events);
    assert(actions == actions_for(start, chunk_events(chunks)).push(
        UpdateAction::ReportFinished,
    ));
    assert(actions.drop_last() =~= actions_for(start, chunk_events(chunks)));
    assert(actions.last() == UpdateAction::ReportFinished);
}

/// Once the transfer of a download completes, the running total is the sum of
/// the chunk lengths that were reported. So where the chunks add up to the
/// known size of the download, the total is exactly that size.
pub proof fn lemma_total_at_completion(chunks: Seq<DownloadProgress>, size: u64)
    ensures
        state_after(
            UpdateState::UpdateAvailable,
            chunk_events(chunks).push(UpdateEvent::TransferFinished),
        ) == (UpdateState::Downloading {
            downloaded: capped(total_length(chunks)),
            transferred: true,
        }),
        total_length(chunks) == size ==> capped(total_length(chunks)) == size,
{
    lemma_total_while_receiving(chunks);
    let events = chunk_events(chunks).push(UpdateEvent::TransferFinished);
    assert(events.drop_last() =~= chunk_events(chunks));
    assert(events.last() == UpdateEvent::TransferFinished);
}

} // verus!
