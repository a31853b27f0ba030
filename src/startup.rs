//! The decisions of one startup attempt, as a state machine: the caller
//! performs each action (bind a socket, publish the address) and reports
//! back what happened.

use vstd::prelude::*;
use crate::config::ServerConfig;
use crate::resolver::MediaSource;

verus! {

/// Why a startup attempt ended without serving.
#[derive(Clone, Copy, Debug, PartialEq, Eq)]
pub enum StartupFailure {
    /// No candidate media directory exists.
    DirectoryNotFound,
    /// The loopback socket could not be bound.
    BindFailure,
}

/// Where a startup attempt stands.
#[derive(Clone, Copy, Debug, PartialEq, Eq)]
pub enum StartupPhase {
    /// Waiting for the media directory to be resolved.
    Resolving,
    /// Waiting for the socket on the configured port to be bound.
    Binding,
    /// Bound and serving; the address has been handed out for publishing.
    Serving,
    /// Ended without serving.
    Stopped(StartupFailure),
}

/// What the caller reports back.
#[derive(Clone, Copy, Debug, PartialEq, Eq)]
pub enum StartupEvent {
    /// The directory resolver finished, with the location found, if any.
    DirectoryResolved(Option<MediaSource>),
    /// The socket was bound.
    BindSucceeded,
    /// Binding the socket failed.
    BindFailed,
}

/// What the caller is to do next.
#[derive(Clone, Copy, Debug, PartialEq, Eq)]
pub enum StartupAction {
    /// Bind `127.0.0.1:<port>` and serve the media directory at `source`.
    Bind { source: MediaSource, port: u16 },
    /// Publish the address of the server listening on `port`.
    Publish { port: u16 },
    /// Give up and report the failure; the application goes on without media.
    Stop(StartupFailure),
    /// The event does not apply in this phase; nothing to do.
    Ignore,
}

/// One decision: the next phase and the action, from the phase, the
/// configuration and the event.
pub open spec fn next(phase: StartupPhase, config: ServerConfig, event: StartupEvent) -> (
    StartupPhase,
    StartupAction,
) {
    match (phase, event) {
        (StartupPhase::Resolving, StartupEvent::DirectoryResolved(found)) => match found {
            Some(source) => (
                StartupPhase::Binding,
                StartupAction::Bind { source, port: config.port },
            ),
            None => (
                StartupPhase::Stopped(StartupFailure::DirectoryNotFound),
                StartupAction::Stop(StartupFailure::DirectoryNotFound),
            ),
        },
        (StartupPhase::Binding, StartupEvent::BindSucceeded) => (
            StartupPhase::Serving,
            StartupAction::Publish { port: config.port },
        ),
        (StartupPhase::Binding, StartupEvent::BindFailed) => (
            StartupPhase::Stopped(StartupFailure::BindFailure),
            StartupAction::Stop(StartupFailure::BindFailure),
        ),
        _ => (phase, StartupAction::Ignore),
    }
}

/// The phase after the events, one after another.
pub open spec fn phase_after(phase: StartupPhase, config: ServerConfig, events: Seq<StartupEvent>) -> StartupPhase
    decreases events.len(),
{
    if events.len() == 0 {
        phase
    } else {
        phase_after(next(phase, config, events[0]).0, config, events.drop_first())
    }
}

/// The actions taken for the events, one after another.
pub open spec fn actions_for(phase: StartupPhase, config: ServerConfig, events: Seq<StartupEvent>) -> Seq<StartupAction>
    decreases events.len(),
{
    if events.len() == 0 {
        Seq::empty()
    } else {
        let (p, a) = next(phase, config, events[0]);
        seq![a] + actions_for(p, config, events.drop_first())
    }
}

/// A startup attempt with its fixed configuration.
pub struct Startup {
    pub config: ServerConfig,
    pub phase: StartupPhase,
}

impl Startup {
    /// A fresh attempt, waiting for the media directory.
    pub fn new(config: ServerConfig) -> (r: Startup)
        ensures
            r.config == config,
            r.phase == StartupPhase::Resolving,
    {
        Startup { config, phase: StartupPhase::Resolving }
    }

    /// Takes in one event and returns what to do next.
    pub fn step(&mut self, event: StartupEvent) -> (r: StartupAction)
        ensures
            final(self).config == old(self).config,
            (final(self).phase, r) == next(old(self).phase, old(self).config, event),
    {
        let (phase, action) = match (self.phase, event) {
            (StartupPhase::Resolving, StartupEvent::DirectoryResolved(found)) => match found {
                Some(source) => (
                    StartupPhase::Binding,
                    StartupAction::Bind { source, port: self.config.port },
                ),
                None => (
                    StartupPhase::Stopped(StartupFailure::DirectoryNotFound),
                    StartupAction::Stop(StartupFailure::DirectoryNotFound),
                ),
            },
            (StartupPhase::Binding, StartupEvent::BindSucceeded) => (
                StartupPhase::Serving,
                StartupAction::Publish { port: self.config.port },
            ),
            (StartupPhase::Binding, StartupEvent::BindFailed) => (
                StartupPhase::Stopped(StartupFailure::BindFailure),
                StartupAction::Stop(StartupFailure::BindFailure),
            ),
            _ => (self.phase, StartupAction::Ignore),
        };
        self.phase = phase;
        action
    }
}

/// A binding or publishing action.
pub open spec fn binds_or_publishes(a: StartupAction) -> bool {
    a is Bind || a is Publish
}

/// A stopped attempt stays stopped and does nothing, whatever is reported.
pub proof fn lemma_stopped_is_final(failure: StartupFailure, config: ServerConfig, events: Seq<StartupEvent>)
    ensures
        phase_after(StartupPhase::Stopped(failure), config, events) == StartupPhase::Stopped(failure),
        forall|i: int| 0 <= i < events.len() ==>
            #[trigger] actions_for(StartupPhase::Stopped(failure), config, events)[i] == StartupAction::Ignore,
        actions_for(StartupPhase::Stopped(failure), config, events).len() == events.len(),
    decreases events.len(),
{
    if events.len() > 0 {
        lemma_stopped_is_final(failure, config, events.drop_first());
        let rest = actions_for(StartupPhase::Stopped(failure), config, events.drop_first());
        let all = actions_for(StartupPhase::Stopped(failure), config, events);
        assert(all == seq![StartupAction::Ignore] + rest);
        assert forall|i: int| 0 <= i < events.len() implies #[trigger] all[i] == StartupAction::Ignore by {
            if i > 0 {
                assert(all[i] == rest[i - 1]);
            }
        }
    }
}

/// When no media directory is found, the attempt stops with
/// `DirectoryNotFound`, and whatever is reported afterwards it never binds a
/// socket nor publishes an address.
pub proof fn lemma_missing_directory_never_binds(config: ServerConfig, later: Seq<StartupEvent>)
    ensures
        ({
            let events = seq![StartupEvent::DirectoryResolved(None)] + later;
            let acts = actions_for(StartupPhase::Resolving, config, events);
            &&& acts[0] == StartupAction::Stop(StartupFailure::DirectoryNotFound)
            &&& phase_after(StartupPhase::Resolving, config, events)
                == StartupPhase::Stopped(StartupFailure::DirectoryNotFound)
            &&& forall|i: int| 0 <= i < acts.len() ==> !binds_or_publishes(#[trigger] acts[i])
        }),
{
    let events = seq![StartupEvent::DirectoryResolved(None)] + later;
    let stopped = StartupPhase::Stopped(StartupFailure::DirectoryNotFound);
    assert(events.drop_first() =~= later);
    lemma_stopped_is_final(StartupFailure::DirectoryNotFound, config, later);
    let acts = actions_for(StartupPhase::Resolving, config, events);
    let rest = actions_for(stopped, config, later);
    assert(acts == seq![StartupAction::Stop(StartupFailure::DirectoryNotFound)] + rest);
    assert forall|i: int| 0 <= i < acts.len() implies !binds_or_publishes(#[trigger] acts[i]) by {
        if i > 0 {
            assert(acts[i] == rest[i - 1]);
        }
    }
}

/// When binding fails, the attempt stops with `BindFailure`, and whatever is
/// reported afterwards it never publishes an address, so the published slot
/// stays empty.
pub proof fn lemma_bind_failure_never_publishes(
    config: ServerConfig,
    source: MediaSource,
    later: Seq<StartupEvent>,
)
    ensures
        ({
            let events = seq![StartupEvent::DirectoryResolved(Some(source)), StartupEvent::BindFailed]
                + later;
            let acts = actions_for(StartupPhase::Resolving, config, events);
            &&& acts[0] == StartupAction::Bind { source, port: config.port }
            &&& acts[1] == StartupAction::Stop(StartupFailure::BindFailure)
            &&& phase_after(StartupPhase::Resolving, config, events)
                == StartupPhase::Stopped(StartupFailure::BindFailure)
            &&& forall|i: int| 0 <= i < acts.len() ==> !(#[trigger] acts[i] is Publish)
        }),
{
    let events = seq![StartupEvent::DirectoryResolved(Some(source)), StartupEvent::BindFailed] + later;
    let stopped = StartupPhase::Stopped(StartupFailure::BindFailure);
    let tail = events.drop_first();
    assert(tail =~= seq![StartupEvent::BindFailed] + later);
    assert(tail.drop_first() =~= later);
    lemma_stopped_is_final(StartupFailure::BindFailure, config, later);
    let rest = actions_for(stopped, config, later);
    let acts = actions_for(StartupPhase::Resolving, config, events);
    let mid = actions_for(StartupPhase::Binding, config, tail);
    assert(mid == seq![StartupAction::Stop(StartupFailure::BindFailure)] + rest);
    assert(acts == seq![StartupAction::Bind { source, port: config.port }] + mid);
    assert(phase_after(StartupPhase::Binding, config, tail) == phase_after(stopped, config, later));
    assert(phase_after(StartupPhase::Resolving, config, events) == phase_after(
        StartupPhase::Binding,
        config,
        tail,
    ));
    assert forall|i: int| 0 <= i < acts.len() implies !(#[trigger] acts[i] is Publish) by {
        if i > 1 {
            assert(acts[i] == mid[i - 1]);
            assert(mid[i - 1] == rest[i - 2]);
        } else if i == 1 {
            assert(acts[1] == mid[0]);
        }
    }
}

} // verus!
