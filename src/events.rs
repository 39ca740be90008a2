//! Engine events: their kinds, the listeners registered for each kind, and
//! what the dispatcher does with each answer of the engine's wait call.
use vstd::prelude::*;

verus! {

/// The kinds of event that the engine emits.
#[derive(Debug, Clone, Copy, PartialEq, Eq, Structural)]
pub enum MpvEventId {
    /// No event: the wait timed out.
    NoEvent,
    /// The engine is shutting down; no event follows.
    Shutdown,
    /// A log message.
    LogMessage,
    /// Reply to an asynchronous property read.
    GetPropertyReply,
    /// Reply to an asynchronous property write.
    SetPropertyReply,
    /// Reply to an asynchronous command.
    CommandReply,
    /// A file is about to be loaded.
    StartFile,
    /// A file stopped playing.
    EndFile,
    /// A file was loaded and playback begins.
    FileLoaded,
    /// A message from another client.
    ClientMessage,
    /// The video output changed.
    VideoReconfig,
    /// The audio output changed.
    AudioReconfig,
    /// A seek began.
    Seek,
    /// Playback restarted after a seek or a file start.
    PlaybackRestart,
    /// An observed property changed.
    PropertyChange,
    /// The event queue overflowed; events were lost.
    QueueOverflow,
    /// A hook was reached.
    Hook,
}

/// The engine's numeric code for an event kind.
pub open spec fn event_code(e: MpvEventId) -> i32 {
    match e {
        MpvEventId::NoEvent => 0,
        MpvEventId::Shutdown => 1,
        MpvEventId::LogMessage => 2,
        MpvEventId::GetPropertyReply => 3,
        MpvEventId::SetPropertyReply => 4,
        MpvEventId::CommandReply => 5,
        MpvEventId::StartFile => 6,
        MpvEventId::EndFile => 7,
        MpvEventId::FileLoaded => 8,
        MpvEventId::ClientMessage => 16,
        MpvEventId::VideoReconfig => 17,
        MpvEventId::AudioReconfig => 18,
        MpvEventId::Seek => 20,
        MpvEventId::PlaybackRestart => 21,
        MpvEventId::PropertyChange => 22,
        MpvEventId::QueueOverflow => 24,
        MpvEventId::Hook => 25,
    }
}

impl MpvEventId {
    /// The engine's numeric code for this kind.
    pub fn code(&self) -> (r: i32)
        ensures
            r == event_code(*self),
    {
        match self {
            MpvEventId::NoEvent => 0,
            MpvEventId::Shutdown => 1,
            MpvEventId::LogMessage => 2,
            MpvEventId::GetPropertyReply => 3,
            MpvEventId::SetPropertyReply => 4,
            MpvEventId::CommandReply => 5,
            MpvEventId::StartFile => 6,
            MpvEventId::EndFile => 7,
            MpvEventId::FileLoaded => 8,
            MpvEventId::ClientMessage => 16,
            MpvEventId::VideoReconfig => 17,
            MpvEventId::AudioReconfig => 18,
            MpvEventId::Seek => 20,
            MpvEventId::PlaybackRestart => 21,
            MpvEventId::PropertyChange => 22,
            MpvEventId::QueueOverflow => 24,
            MpvEventId::Hook => 25,
        }
    }

    /// The kind with this code, if there is one.
    pub fn from_code(code: i32) -> (r: Option<MpvEventId>)
        ensures
            match r {
                Some(e) => event_code(e) == code,
                None => forall|e: MpvEventId| event_code(e) != code,
            },
    {
        match code {
            0 => Some(MpvEventId::NoEvent),
            1 => Some(MpvEventId::Shutdown),
            2 => Some(MpvEventId::LogMessage),
            3 => Some(MpvEventId::GetPropertyReply),
            4 => Some(MpvEventId::SetPropertyReply),
            5 => Some(MpvEventId::CommandReply),
            6 => Some(MpvEventId::StartFile),
            7 => Some(MpvEventId::EndFile),
            8 => Some(MpvEventId::FileLoaded),
            16 => Some(MpvEventId::ClientMessage),
            17 => Some(MpvEventId::VideoReconfig),
            18 => Some(MpvEventId::AudioReconfig),
            20 => Some(MpvEventId::Seek),
            21 => Some(MpvEventId::PlaybackRestart),
            22 => Some(MpvEventId::PropertyChange),
            24 => Some(MpvEventId::QueueOverflow),
            25 => Some(MpvEventId::Hook),
            _ => {
                proof {
                    assert forall|e: MpvEventId| event_code(e) != code by {
                        match e { _ => {} }
                    }
                }
                None
            },
        }
    }
}
/// One event as the engine reports it; the payload pointer stays with the
/// caller.
#[derive(Debug, Clone, Copy, PartialEq, Eq, Structural)]
pub struct MpvEvent {
    /// The event kind's code.
    pub event_id: i32,
    /// The error code, for replies.
    pub error: i32,
    /// The number that the request carried, for replies.
    pub reply_userdata: u64,
}

/// The positions, in registration order, of the registrations whose kind has
/// the code `code`.
pub open spec fn indices_for(kinds: Seq<i32>, code: i32) -> Seq<usize>
    decreases kinds.len(),
{
    if kinds.len() == 0 {
        Seq::empty()
    } else if kinds.last() == code {
        indices_for(kinds.drop_last(), code).push((kinds.len() - 1) as usize)
    } else {
        indices_for(kinds.drop_last(), code)
    }
}

/// Listeners, each registered for one event kind, in registration order.
/// There is no way to remove one. One `Vec` of registrations keeps that
/// order across kinds, and positions name listeners for `poll`.
pub struct EventListeners<L> {
    entries: Vec<(i32, L)>,
}

impl<L> View for EventListeners<L> {
    type V = Seq<i32>;

    /// The event code of each registration, in order.
    closed spec fn view(&self) -> Seq<i32> {
        self.entries@.map_values(|e: (i32, L)| e.0)
    }
}

impl<L> EventListeners<L> {
    /// The listener of each registration, in order.
    pub closed spec fn listeners(&self) -> Seq<L> {
        self.entries@.map_values(|e: (i32, L)| e.1)
    }

    /// No listener yet.
    pub fn new() -> (r: EventListeners<L>)
        ensures
            r@ == Seq::<i32>::empty(),
            r.listeners() == Seq::<L>::empty(),
    {
        let r = EventListeners { entries: Vec::new() };
        assert(r@ =~= Seq::<i32>::empty());
        assert(r.listeners() =~= Seq::<L>::empty());
        r
    }

    /// The number of registrations.
    pub fn len(&self) -> (r: usize)
        ensures
            r == self@.len(),
            r == self.listeners().len(),
    {
        self.entries.len()
    }

    /// Registers `listener` for events of kind `event_id`, after those
    /// already registered.
    pub fn register(&mut self, event_id: MpvEventId, listener: L)
        ensures
            final(self)@ == old(self)@.push(event_code(event_id)),
            final(self).listeners() == old(self).listeners().push(listener),
    {
        self.entries.push((event_id.code(), listener));
        assert(self@ =~= old(self)@.push(event_code(event_id)));
        assert(self.listeners() =~= old(self).listeners().push(listener));
    }

    /// The listener of registration `i`.
    pub fn listener(&self, i: usize) -> (r: &L)
        requires
            i < self@.len(),
        ensures
            *r == self.listeners()[i as int],
    {
        &self.entries[i].1
    }

    /// The registrations that an event with code `code` reaches, in
    /// registration order.
    pub fn listeners_for(&self, code: i32) -> (r: Vec<usize>)
        ensures
            r@ == indices_for(self@, code),
    {
        let mut out: Vec<usize> = Vec::new();
        let mut i: usize = 0;
        let ghost kinds = self@;
        while i < self.entries.len()
            invariant
                i <= self.entries.len(),
                kinds == self@,
                kinds.len() == self.entries.len(),
                out@ == indices_for(kinds.take(i as int), code),
            decreases self.entries.len() - i,
        {
            proof {
                let next = kinds.take(i + 1);
                assert(next.drop_last() =~= kinds.take(i as int));
                assert(next.last() == kinds[i as int]);
                assert(kinds[i as int] == self.entries@[i as int].0);
            }
            if self.entries[i].0 == code {
                out.push(i);
            }
            i = i + 1;
        }
        proof {
            assert(kinds.take(i as int) =~= kinds);
        }
        out
    }

    /// What the dispatcher does with the engine's answer to a wait: `None`
    /// where the engine answered with no event at all.
    pub fn poll(&self, event: Option<MpvEvent>) -> (r: PollStep)
        ensures
            is_poll_step(self@, event, r),
    {
        match event {
            None => PollStep::Stop,
            Some(e) => {
                if e.event_id == 0 {
                    PollStep::Wait
                } else {
                    let listeners = self.listeners_for(e.event_id);
                    PollStep::Deliver { listeners, last: e.event_id == 1 }
                }
            },
        }
    }
}

/// The dispatcher's next move.
pub enum PollStep {
    /// The wait timed out: wait again.
    Wait,
    /// Call these listeners with the event, in this order, on the
    /// dispatcher's thread; stop after them where `last` is set.
    Deliver { listeners: Vec<usize>, last: bool },
    /// The engine is gone: stop.
    Stop,
}

/// Whether `step` is what the dispatcher does with an answer of the engine's
/// wait, given the event codes of the registrations: nothing at all ends the
/// loop; a timeout waits again; an event reaches the listeners of its kind,
/// in registration order, and a shutdown is the last event handled.
pub open spec fn is_poll_step(kinds: Seq<i32>, event: Option<MpvEvent>, step: PollStep) -> bool {
    match event {
        None => step is Stop,
        Some(e) => if e.event_id == event_code(MpvEventId::NoEvent) {
            step is Wait
        } else {
            match step {
                PollStep::Deliver { listeners, last } => {
                    &&& listeners@ == indices_for(kinds, e.event_id)
                    &&& last == (e.event_id == event_code(MpvEventId::Shutdown))
                },
                _ => false,
            }
        },
    }
}

/// `x` occurs in `s` exactly once.
pub open spec fn occurs_once(s: Seq<usize>, x: usize) -> bool {
    exists|i: int| 0 <= i < s.len() && s[i] == x
        && forall|j: int| 0 <= j < s.len() && s[j] == x ==> j == i
}

proof fn lemma_indices_below(kinds: Seq<i32>, code: i32)
    requires
        kinds.len() <= usize::MAX,
    ensures
        forall|i: int| 0 <= i < indices_for(kinds, code).len()
            ==> (#[trigger] indices_for(kinds, code)[i]) < kinds.len(),
    decreases kinds.len(),
{
    if kinds.len() > 0 {
        lemma_indices_below(kinds.drop_last(), code);
        let prev = indices_for(kinds.drop_last(), code);
        let cur = indices_for(kinds, code);
        if kinds.last() == code {
            assert(cur == prev.push((kinds.len() - 1) as usize));
            assert forall|i: int| 0 <= i < cur.len() implies (#[trigger] cur[i]) < kinds.len() by {
                if i < prev.len() {
                    assert(cur[i] == prev[i]);
                }
            }
        }
    }
}

/// A listener registered for one kind of event is reached exactly once by
/// each event of that kind, and never by an event of any other kind.
pub proof fn lemma_listener_reached<L>(before: EventListeners<L>, after: EventListeners<L>, kind: MpvEventId, code: i32)
    requires
        after@ == before@.push(event_code(kind)),
        after@.len() <= usize::MAX,
    ensures
        code == event_code(kind) ==> occurs_once(indices_for(after@, code), before@.len() as usize),
        code != event_code(kind) ==> !indices_for(after@, code).contains(before@.len() as usize),
{
    let n = before@.len() as usize;
    assert(after@.drop_last() =~= before@);
    lemma_indices_below(before@, code);
    let old_reached = indices_for(before@, code);
    let reached = indices_for(after@, code);
    if code == event_code(kind) {
        assert(reached == old_reached.push(n));
        assert(reached[old_reached.len() as int] == n);
        assert forall|j: int| 0 <= j < reached.len() && reached[j] == n implies j == old_reached.len() by {
            if j < old_reached.len() {
                assert(reached[j] == old_reached[j]);
            }
        }
    } else {
        assert(reached == old_reached);
    }
}

} // verus!
