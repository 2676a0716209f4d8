use vstd::prelude::*;

verus! {

/// Seconds to wait before a stream session that ended is opened again.
pub const RECONNECT_DELAY_SECS: u64 = 10;

/// Seconds between two audits of the quote books.
pub const AUDIT_INTERVAL_SECS: u64 = 60;

/// How many messages the channel between a stream session and its book
/// writer holds.
pub const FEED_CHANNEL_CAPACITY: usize = 1;

/// What a stream session reads next from its socket.
pub enum SocketEvent {
    /// A text frame.
    Text(String),
    /// A binary frame of this many bytes.
    Binary(usize),
    /// A ping frame of this many bytes.
    Ping(usize),
    /// A pong frame of this many bytes.
    Pong(usize),
    /// The peer closed the connection.
    Close,
    /// Reading failed.
    Failed,
    /// A frame of any other kind.
    Other,
    /// The socket has nothing more to read.
    Ended,
}

/// What a stream session does on an event.
pub enum SocketStep {
    /// Hand the text on to the book writer, then read on.
    Forward(String),
    /// Read on.
    Continue,
    /// End the session with this outcome.
    Finish(Result<(), ()>),
}

/// What a stream session does on an event.
pub open spec fn socket_step_of(event: SocketEvent) -> SocketStep {
    match event {
        SocketEvent::Text(t) => SocketStep::Forward(t),
        SocketEvent::Close => SocketStep::Finish(Err(())),
        SocketEvent::Failed => SocketStep::Finish(Err(())),
        SocketEvent::Ended => SocketStep::Finish(Ok(())),
        _ => SocketStep::Continue,
    }
}

/// A frame that a session passes over: binary, ping, pong or of another kind.
pub open spec fn is_quiet(event: SocketEvent) -> bool {
    event is Binary || event is Ping || event is Pong || event is Other
}

/// What a session does with a sequence of events: the texts it hands on, in
/// order, and the outcome it ends with (none if the events run out first).
/// Nothing after the event that ends it counts.
pub open spec fn session_of(events: Seq<SocketEvent>) -> (Seq<String>, Option<Result<(), ()>>)
    decreases events.len(),
{
    if events.len() == 0 {
        (Seq::empty(), None)
    } else {
        match socket_step_of(events[0]) {
            SocketStep::Forward(t) => {
                let rest = session_of(events.drop_first());
                (seq![t] + rest.0, rest.1)
            },
            SocketStep::Continue => session_of(events.drop_first()),
            SocketStep::Finish(r) => (Seq::empty(), Some(r)),
        }
    }
}

/// What a stream session does on an event: text frames are handed on; a
/// close frame or a failed read ends the session with an error; the end of the
/// socket ends it cleanly; every other frame is passed over.
pub fn on_socket_event(event: SocketEvent) -> (step: SocketStep)
    ensures
        step == socket_step_of(event),
        event matches SocketEvent::Text(t) ==> step == SocketStep::Forward(t),
        (event is Close || event is Failed) ==> step == SocketStep::Finish(Err(())),
        event is Ended ==> step == SocketStep::Finish(Ok(())),
        (event is Binary || event is Ping || event is Pong || event is Other) ==> step is Continue,
{
    match event {
        SocketEvent::Text(t) => SocketStep::Forward(t),
        SocketEvent::Close => SocketStep::Finish(Err(())),
        SocketEvent::Failed => SocketStep::Finish(Err(())),
        SocketEvent::Ended => SocketStep::Finish(Ok(())),
        SocketEvent::Binary(_) => SocketStep::Continue,
        SocketEvent::Ping(_) => SocketStep::Continue,
        SocketEvent::Pong(_) => SocketStep::Continue,
        SocketEvent::Other => SocketStep::Continue,
    }
}

proof fn quiet_events_first_do_not_matter(extra: Seq<SocketEvent>, after: Seq<SocketEvent>)
    requires
        forall|i: int| 0 <= i < extra.len() ==> #[trigger] is_quiet(extra[i]),
    ensures
        session_of(extra + after) == session_of(after),
    decreases extra.len(),
{
    if extra.len() > 0 {
        assert(is_quiet(extra[0]));
        assert((extra + after).drop_first() =~= extra.drop_first() + after);
        quiet_events_first_do_not_matter(extra.drop_first(), after);
    } else {
        assert(extra + after =~= after);
    }
}

/// Frames that a session passes over (binary, ping, pong or of another kind),
/// inserted anywhere into what a session reads, or removed from it, change
/// neither the texts it hands on nor the outcome it ends with.
pub proof fn quiet_events_do_not_matter(
    before: Seq<SocketEvent>,
    extra: Seq<SocketEvent>,
    after: Seq<SocketEvent>,
)
    requires
        forall|i: int| 0 <= i < extra.len() ==> #[trigger] is_quiet(extra[i]),
    ensures
        session_of(before + extra + after) == session_of(before + after),
    decreases before.len(),
{
    if before.len() == 0 {
        assert(before + extra + after =~= extra + after);
        assert(before + after =~= after);
        quiet_events_first_do_not_matter(extra, after);
    } else {
        let all = before + extra + after;
        let kept = before + after;
        assert(all[0] == before[0]);
        assert(kept[0] == before[0]);
        assert(all.drop_first() =~= before.drop_first() + extra + after);
        assert(kept.drop_first() =~= before.drop_first() + after);
        quiet_events_do_not_matter(before.drop_first(), extra, after);
    }
}

/// What the book writer receives from the channel of its stream session.
pub enum ChannelEvent {
    /// A message of the stream.
    Message(String),
    /// Every sender is gone.
    Closed,
    /// The writer fell behind and this many messages were dropped.
    Lagged(u64),
}

/// What the book writer does on a channel event.
pub enum ChannelStep {
    /// Decode the message and store its quote, then receive on.
    Handle(String),
    /// Receive on.
    Skip,
    /// Stop writing.
    Stop,
}

/// What the book writer does on a channel event: messages are handled, a
/// closed channel stops it, and dropped messages are passed over.
pub fn on_channel_event(event: ChannelEvent) -> (step: ChannelStep)
    ensures
        event matches ChannelEvent::Message(m) ==> step == ChannelStep::Handle(m),
        event is Closed ==> step is Stop,
        event is Lagged ==> step is Skip,
{
    match event {
        ChannelEvent::Message(m) => ChannelStep::Handle(m),
        ChannelEvent::Closed => ChannelStep::Stop,
        ChannelEvent::Lagged(_) => ChannelStep::Skip,
    }
}

} // verus!
