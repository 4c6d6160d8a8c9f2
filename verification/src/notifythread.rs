//! The rules of the filesystem watcher bridge.
//!
//! The bridge owns a recursive watch on a directory and a channel to a consumer. It
//! narrows what the watch reports down to one signal, "this path was written": the
//! paths of events that create something or modify its content are handed on, one by
//! one and in order; everything else is dropped, a rename and a change of metadata too.
//! A modification of which the watch cannot say what it changed may be one of the
//! content, and is handed on. This module decides; the thread that owns the watch and
//! the channel does what is decided here.

use vstd::prelude::*;

verus! {

/// What a modifying event changed.
#[derive(Debug, Clone, Copy, PartialEq, Eq)]
pub enum Modification {
    /// It is not known what.
    Any,
    /// The content.
    Data,
    /// The metadata.
    Metadata,
    /// The name: a rename.
    Name,
    /// Something else.
    Other,
}

/// What a native event reports.
#[derive(Debug, Clone, Copy, PartialEq, Eq)]
pub enum Change {
    /// It is not known what.
    Any,
    /// An access that changes nothing.
    Access,
    /// The creation of a file or directory.
    Create,
    /// A modification.
    Modify(Modification),
    /// A removal.
    Remove,
    /// Something else.
    Other,
}

/// Why the watch could not be acquired.
#[derive(Debug, Clone, Copy, PartialEq, Eq)]
pub enum Refusal {
    /// The directory may not be read.
    PermissionDenied,
    /// Another input or output error.
    Io,
    /// An error of another kind.
    Other,
}

/// Where the bridge stands.
#[derive(Debug, Clone, Copy, PartialEq, Eq)]
pub enum State {
    /// The watch is being acquired.
    Starting,
    /// The watch is held and events are taken in.
    Watching,
    /// The bridge is done; nothing is taken in any more.
    Terminated,
}

/// What reaches the bridge, from the watch or from the channel to the consumer.
#[derive(Debug, Clone, PartialEq, Eq)]
pub enum Signal<P> {
    /// The watch was acquired.
    Acquired,
    /// The watch could not be acquired.
    Refused(Refusal),
    /// The watch reports an event on the paths `paths`.
    Event {
        /// What the event reports.
        change: Change,
        /// The paths that it is about.
        paths: Vec<P>,
    },
    /// The watch reports an error of its own; it goes on.
    Fault,
    /// The watch will deliver nothing more.
    Closed,
    /// The consumer does not listen any more: a path could not be handed on.
    ConsumerGone,
}

/// How grave something worth a log line is.
#[derive(Debug, Clone, Copy, PartialEq, Eq)]
pub enum Severity {
    /// Something failed.
    Error,
    /// Something that the user wants to know.
    Info,
    /// Something for whoever looks for a fault.
    Debug,
    /// The finest detail.
    Trace,
}

/// What the bridge has to say about a signal.
#[derive(Debug, Clone, Copy, PartialEq, Eq)]
pub enum Remark {
    /// The watch is held.
    Launched,
    /// The watch was refused for want of permissions on the target.
    NoPermissions,
    /// The watch was refused with an input or output error.
    IoFailure,
    /// The watch was refused with an error of another kind.
    UnknownFailure,
    /// Paths were written and are handed on.
    Written,
    /// An event that hands paths on came without one.
    WrittenWithoutPath,
    /// An event was dropped.
    Dropped,
    /// The watch reported an error of its own.
    WatchFault,
    /// The watch delivers nothing more.
    WatchClosed,
    /// The consumer is gone.
    ConsumerGone,
}

/// Whether an event that reports `change` has its paths handed on: it creates
/// something, or modifies something other than its name or its metadata.
pub open spec fn qualifies(change: Change) -> bool {
    match change {
        Change::Create => true,
        Change::Modify(what) => !(what is Name) && !(what is Metadata),
        _ => false,
    }
}

/// Where the bridge stands after `signal` reached it in `state`.
pub open spec fn state_after<P>(state: State, signal: Signal<P>) -> State {
    match (state, signal) {
        (State::Terminated, _) => State::Terminated,
        (_, Signal::Closed) => State::Terminated,
        (_, Signal::ConsumerGone) => State::Terminated,
        (State::Starting, Signal::Acquired) => State::Watching,
        (State::Starting, Signal::Refused(_)) => State::Terminated,
        (other, _) => other,
    }
}

/// The paths that the bridge hands on when `signal` reaches it in `state`: those of a
/// qualifying event, each once and in their order, while it is watching.
pub open spec fn handed_on<P>(state: State, signal: Signal<P>) -> Seq<P> {
    match (state, signal) {
        (State::Watching, Signal::Event { change, paths }) => if qualifies(change) {
            paths@
        } else {
            Seq::empty()
        },
        _ => Seq::empty(),
    }
}

/// What the bridge has to say when `signal` reaches it in `state`.
pub open spec fn remark_on<P>(state: State, signal: Signal<P>) -> Option<Remark> {
    match (state, signal) {
        (State::Terminated, _) => None,
        (_, Signal::Closed) => Some(Remark::WatchClosed),
        (_, Signal::ConsumerGone) => Some(Remark::ConsumerGone),
        (State::Starting, Signal::Acquired) => Some(Remark::Launched),
        (State::Starting, Signal::Refused(Refusal::PermissionDenied)) => Some(
            Remark::NoPermissions,
        ),
        (State::Starting, Signal::Refused(Refusal::Io)) => Some(Remark::IoFailure),
        (State::Starting, Signal::Refused(Refusal::Other)) => Some(Remark::UnknownFailure),
        (State::Watching, Signal::Event { change, paths }) => if !qualifies(change) {
            Some(Remark::Dropped)
        } else if paths@.len() == 0 {
            Some(Remark::WrittenWithoutPath)
        } else {
            Some(Remark::Written)
        },
        (State::Watching, Signal::Fault) => Some(Remark::WatchFault),
        _ => None,
    }
}

/// How grave `remark` is.
pub open spec fn severity_of(remark: Remark) -> Severity {
    match remark {
        Remark::Launched => Severity::Trace,
        Remark::Written => Severity::Info,
        Remark::Dropped => Severity::Debug,
        _ => Severity::Error,
    }
}

impl Change {
    /// Whether an event that reports this change has its paths handed on.
    pub fn is_write(&self) -> (yes: bool)
        ensures
            yes == qualifies(*self),
    {
        match self {
            Change::Create => true,
            Change::Modify(Modification::Name) => false,
            Change::Modify(Modification::Metadata) => false,
            Change::Modify(_) => true,
            _ => false,
        }
    }
}

impl Remark {
    /// How grave this remark is.
    pub fn severity(&self) -> (severity: Severity)
        ensures
            severity == severity_of(*self),
    {
        match self {
            Remark::Launched => Severity::Trace,
            Remark::Written => Severity::Info,
            Remark::Dropped => Severity::Debug,
            _ => Severity::Error,
        }
    }
}

/// What the bridge does about a signal.
#[derive(Debug, Clone, PartialEq, Eq)]
pub struct Reaction<P> {
    /// Where the bridge stands from now on.
    pub state: State,
    /// The paths to hand on to the consumer, in this order.
    pub forward: Vec<P>,
    /// What to say of it, if anything.
    pub remark: Option<Remark>,
}

/// Decides what the bridge does when `signal` reaches it in `state`.
pub fn react<P>(state: State, signal: Signal<P>) -> (reaction: Reaction<P>)
    ensures
        reaction.state == state_after(state, signal),
        reaction.forward@ == handed_on(state, signal),
        reaction.remark == remark_on(state, signal),
{
    match state {
        State::Terminated => Reaction { state: State::Terminated, forward: Vec::new(), remark: None },
        State::Starting => match signal {
            Signal::Closed => Reaction {
                state: State::Terminated,
                forward: Vec::new(),
                remark: Some(Remark::WatchClosed),
            },
            Signal::ConsumerGone => Reaction {
                state: State::Terminated,
                forward: Vec::new(),
                remark: Some(Remark::ConsumerGone),
            },
            Signal::Acquired => Reaction {
                state: State::Watching,
                forward: Vec::new(),
                remark: Some(Remark::Launched),
            },
            Signal::Refused(refusal) => {
                let remark = match refusal {
                    Refusal::PermissionDenied => Remark::NoPermissions,
                    Refusal::Io => Remark::IoFailure,
                    Refusal::Other => Remark::UnknownFailure,
                };
                Reaction { state: State::Terminated, forward: Vec::new(), remark: Some(remark) }
            },
            _ => Reaction { state: State::Starting, forward: Vec::new(), remark: None },
        },
        State::Watching => match signal {
            Signal::Closed => Reaction {
                state: State::Terminated,
                forward: Vec::new(),
                remark: Some(Remark::WatchClosed),
            },
            Signal::ConsumerGone => Reaction {
                state: State::Terminated,
                forward: Vec::new(),
                remark: Some(Remark::ConsumerGone),
            },
            Signal::Event { change, paths } => {
                if !change.is_write() {
                    Reaction {
                        state: State::Watching,
                        forward: Vec::new(),
                        remark: Some(Remark::Dropped),
                    }
                } else if paths.len() == 0 {
                    Reaction {
                        state: State::Watching,
                        forward: paths,
                        remark: Some(Remark::WrittenWithoutPath),
                    }
                } else {
                    Reaction { state: State::Watching, forward: paths, remark: Some(Remark::Written) }
                }
            },
            Signal::Fault => Reaction {
                state: State::Watching,
                forward: Vec::new(),
                remark: Some(Remark::WatchFault),
            },
            _ => Reaction { state: State::Watching, forward: Vec::new(), remark: None },
        },
    }
}

/// Where the bridge stands after the signals `signals` reached it, one after another.
pub open spec fn state_after_all<P>(state: State, signals: Seq<Signal<P>>) -> State
    decreases signals.len(),
{
    if signals.len() == 0 {
        state
    } else {
        state_after(state_after_all(state, signals.drop_last()), signals.last())
    }
}

/// All the paths that the bridge hands on while the signals `signals` reach it, one
/// after another, in the order in which it hands them on.
pub open spec fn handed_on_all<P>(state: State, signals: Seq<Signal<P>>) -> Seq<P>
    decreases signals.len(),
{
    if signals.len() == 0 {
        Seq::empty()
    } else {
        handed_on_all(state, signals.drop_last()) + handed_on(
            state_after_all(state, signals.drop_last()),
            signals.last(),
        )
    }
}

/// While the bridge is watching, an event that creates something or changes its
/// content has each of its paths handed on once, in order; the bridge goes on watching.
pub proof fn lemma_write_is_handed_on<P>(change: Change, paths: Vec<P>)
    requires
        change is Create || change == Change::Modify(Modification::Data),
    ensures
        handed_on(State::Watching, Signal::Event { change, paths }) == paths@,
        state_after(State::Watching, Signal::Event { change, paths }) == State::Watching,
{
}

/// A rename is never handed on, nor is a change of metadata, a removal or an access:
/// nothing that leaves the content as it was.
pub proof fn lemma_rename_is_dropped<P>(state: State, change: Change, paths: Vec<P>)
    requires
        change == Change::Modify(Modification::Name) || change == Change::Modify(
            Modification::Metadata,
        ) || change is Remove || change is Access,
    ensures
        handed_on(state, Signal::Event { change, paths }).len() == 0,
{
}

/// Paths are handed on for nothing but an event that reaches the bridge while it is
/// watching and that creates something or modifies it otherwise than in its name or
/// its metadata.
pub proof fn lemma_only_writes_are_handed_on<P>(state: State, signal: Signal<P>)
    requires
        handed_on(state, signal).len() > 0,
    ensures
        state == State::Watching,
        signal matches Signal::Event { change, paths } && handed_on(state, signal) == paths@ && (
        change is Create || change == Change::Modify(Modification::Data) || change
            == Change::Modify(Modification::Any) || change == Change::Modify(Modification::Other)),
{
}

/// Once the consumer is gone the bridge is terminated, whatever it was doing, and it
/// stays so and hands nothing on, whatever reaches it afterwards.
pub proof fn lemma_consumer_gone_ends_bridge<P>(state: State, later: Seq<Signal<P>>)
    ensures
        state_after(state, Signal::<P>::ConsumerGone) == State::Terminated,
        state_after_all(State::Terminated, later) == State::Terminated,
        handed_on_all(State::Terminated, later).len() == 0,
    decreases later.len(),
{
    if later.len() > 0 {
        lemma_consumer_gone_ends_bridge(state, later.drop_last());
    }
}

/// A watch that is refused ends the bridge before it has handed anything on.
pub proof fn lemma_refused_watch_ends_bridge<P>(refusal: Refusal)
    ensures
        state_after(State::Starting, Signal::<P>::Refused(refusal)) == State::Terminated,
        handed_on(State::Starting, Signal::<P>::Refused(refusal)).len() == 0,
        remark_on(State::Starting, Signal::<P>::Refused(refusal)) is Some,
        severity_of(remark_on(State::Starting, Signal::<P>::Refused(refusal))->0)
            == Severity::Error,
{
}

/// Writes are not coalesced: an event that is handed on adds its paths behind all that
/// was handed on before, also where the same paths were handed on already.
pub proof fn lemma_writes_are_not_coalesced<P>(
    earlier: Seq<Signal<P>>,
    change: Change,
    paths: Vec<P>,
)
    requires
        state_after_all(State::Watching, earlier) == State::Watching,
        qualifies(change),
    ensures
        handed_on_all(State::Watching, earlier.push(Signal::Event { change, paths }))
            == handed_on_all(State::Watching, earlier) + paths@,
{
    let all = earlier.push(Signal::Event { change, paths });
    assert(all.drop_last() == earlier);
}

} // verus!
