use vstd::prelude::*;
use vstd::hash_map::StringHashMap;
use tokio::sync::mpsc::UnboundedSender;

verus! {

/// Declares tokio's `UnboundedSender`, the sending half of the channel that
/// feeds a guest's connection; Verus sees nothing inside it.
#[verifier::external_type_specification]
#[verifier::external_body]
#[verifier::reject_recursive_types(T)]
pub struct ExUnboundedSender<T>(UnboundedSender<T>);

/// Calls tokio's `UnboundedSender::send`. Whether the message is accepted
/// depends on whether the receiving half is still open, which nothing here
/// can see; the contract states only that a refused send hands back the very
/// message it was given, as tokio's `send` does by returning
/// `Err(SendError(message))`.
#[verifier::external_body]
fn channel_send(tx: &UnboundedSender<String>, message: String) -> (r: Result<(), String>)
    ensures
        r matches Err(back) ==> back@ == message@,
{
    match tx.send(message) {
        Ok(()) => Ok(()),
        Err(e) => Err(e.0),
    }
}

/// Whether a guest is registered under `path` in the registry `guests`.
pub open spec fn is_registered(guests: Map<Seq<char>, UnboundedSender<String>>, path: Seq<char>) -> bool {
    guests.dom().contains(path)
}

/// What became of a message addressed to a guest.
#[derive(Debug, Clone, PartialEq, Eq)]
pub enum Delivery {
    /// The guest is registered and its channel took the message.
    Sent,
    /// No guest is registered under the path; nothing was sent.
    UnknownGuest,
}

/// The guests connected over Unix sockets, each reachable by the path of its
/// socket through the channel that feeds its connection.
pub struct UnixSocket {
    guests: StringHashMap<UnboundedSender<String>>,
}

impl View for UnixSocket {
    type V = Map<Seq<char>, UnboundedSender<String>>;

    closed spec fn view(&self) -> Map<Seq<char>, UnboundedSender<String>> {
        self.guests@
    }
}

impl UnixSocket {
    /// A registry without guests.
    pub fn new() -> (s: Self)
        ensures
            s@ == Map::<Seq<char>, UnboundedSender<String>>::empty(),
    {
        UnixSocket { guests: StringHashMap::new() }
    }

    /// Registers the channel of the guest connected at `path`; a guest
    /// registered there before is replaced.
    pub fn register(&mut self, path: String, tx: UnboundedSender<String>)
        ensures
            final(self)@ == old(self)@.insert(path@, tx),
    {
        self.guests.insert(path, tx);
    }

    /// Forgets the guest at `path` once its connection is gone.
    pub fn remove(&mut self, path: &str)
        ensures
            final(self)@ == old(self)@.remove(path@),
    {
        self.guests.remove(path);
    }

    /// Whether a guest is registered at `path`.
    pub fn contains(&self, path: &str) -> (r: bool)
        ensures
            r == is_registered(self@, path@),
    {
        self.guests.contains_key(path)
    }

    /// What a message to `path` is handed to: the channel of the guest
    /// registered there and the message itself as an owned string; `None`
    /// when no guest is registered at `path`.
    pub fn delivery_target<'a>(&'a self, path: &str, message: &str) -> (r: Option<
        (&'a UnboundedSender<String>, String),
    >)
        ensures
            r is Some <==> is_registered(self@, path@),
            r matches Some(target) ==> *target.0 == self@[path@] && target.1@ == message@,
    {
        match self.guests.get(path) {
            Some(tx) => Some((tx, message.to_owned())),
            None => None,
        }
    }

    /// Sends `message` to the guest registered at `path`.
    ///
    /// An unknown path sends nothing and is no error (`Ok(UnknownGuest)`);
    /// for a known guest, exactly one send is made: `delivery_target` gives
    /// the guest's channel and the message, and both go unchanged to the
    /// channel; when that channel is closed the refused message comes back
    /// as the error.
    pub fn send(&self, path: &str, message: &str) -> (r: Result<Delivery, String>)
        ensures
            !is_registered(self@, path@) <==> r == Ok::<Delivery, String>(Delivery::UnknownGuest),
            is_registered(self@, path@) ==> (r matches Ok(d) ==> d == Delivery::Sent),
            r matches Err(back) ==> back@ == message@,
    {
        match self.delivery_target(path, message) {
            Some((tx, line)) => match channel_send(tx, line) {
                Ok(()) => Ok(Delivery::Sent),
                Err(back) => Err(back),
            },
            None => Ok(Delivery::UnknownGuest),
        }
    }
}

/// Registering a guest makes it reachable at its path, and leaves every
/// other path as it was.
pub proof fn lemma_register_makes_reachable(
    guests: Map<Seq<char>, UnboundedSender<String>>,
    path: Seq<char>,
    tx: UnboundedSender<String>,
    other: Seq<char>,
)
    ensures
        is_registered(guests.insert(path, tx), path),
        other != path ==> is_registered(guests.insert(path, tx), other) == is_registered(guests, other),
{
}

/// Once a guest's connection is gone and it is removed, messages to its path
/// are no longer delivered; every other path is as it was.
pub proof fn lemma_remove_makes_unreachable(
    guests: Map<Seq<char>, UnboundedSender<String>>,
    path: Seq<char>,
    other: Seq<char>,
)
    ensures
        !is_registered(guests.remove(path), path),
        other != path ==> is_registered(guests.remove(path), other) == is_registered(guests, other),
{
}

/// An event on a guest connection.
#[derive(Debug, Clone, PartialEq, Eq)]
pub enum Message {
    /// A line queued for the guest, to be written to its socket.
    Send(String),
    /// A line that the guest wrote.
    Received(String),
}

/// Whether a source has something ready, as `std::task::Poll` says it.
#[derive(Debug, Clone, PartialEq, Eq)]
pub enum Readiness<T> {
    Pending,
    Ready(T),
}

/// The event that a guest connection yields next, from what its two sources
/// hold: the line queued for the guest (`outbound`), which always goes
/// first, and else what its socket produced (`inbound`: a line, an error, or
/// `None` once the socket is exhausted). `inbound` is only read when nothing
/// is queued.
pub fn guest_event<E>(
    outbound: Option<String>,
    inbound: Readiness<Option<Result<String, E>>>,
) -> (r: Readiness<Option<Result<Message, E>>>)
    ensures
        r == spec_guest_event(outbound, inbound),
        outbound matches Some(line) ==> r == Readiness::<Option<Result<Message, E>>>::Ready(
            Some(Ok(Message::Send(line))),
        ),
        outbound is None ==> (inbound matches Readiness::Ready(Some(Ok(line))) ==> r
            == Readiness::<Option<Result<Message, E>>>::Ready(Some(Ok(Message::Received(line))))),
        outbound is None ==> (inbound matches Readiness::Ready(Some(Err(e))) ==> r
            == Readiness::<Option<Result<Message, E>>>::Ready(Some(Err(e)))),
        outbound is None && inbound == Readiness::<Option<Result<String, E>>>::Ready(None) ==> r
            == Readiness::<Option<Result<Message, E>>>::Ready(None),
        outbound is None && inbound == Readiness::<Option<Result<String, E>>>::Pending ==> r
            == Readiness::<Option<Result<Message, E>>>::Pending,
{
    match outbound {
        Some(v) => Readiness::Ready(Some(Ok(Message::Send(v)))),
        None => match inbound {
            Readiness::Pending => Readiness::Pending,
            Readiness::Ready(None) => Readiness::Ready(None),
            Readiness::Ready(Some(Ok(line))) => Readiness::Ready(Some(Ok(Message::Received(line)))),
            Readiness::Ready(Some(Err(e))) => Readiness::Ready(Some(Err(e))),
        },
    }
}

/// The event of a guest connection given its two sources.
pub open spec fn spec_guest_event<E>(
    outbound: Option<String>,
    inbound: Readiness<Option<Result<String, E>>>,
) -> Readiness<Option<Result<Message, E>>> {
    match outbound {
        Some(v) => Readiness::Ready(Some(Ok(Message::Send(v)))),
        None => match inbound {
            Readiness::Pending => Readiness::Pending,
            Readiness::Ready(None) => Readiness::Ready(None),
            Readiness::Ready(Some(Ok(line))) => Readiness::Ready(Some(Ok(Message::Received(line)))),
            Readiness::Ready(Some(Err(e))) => Readiness::Ready(Some(Err(e))),
        },
    }
}

/// A queued line takes precedence over whatever the socket holds: the
/// event is the queued line, whatever `inbound` is.
pub proof fn lemma_outbound_first<E>(
    line: String,
    inbound: Readiness<Option<Result<String, E>>>,
)
    ensures
        spec_guest_event(Some(line), inbound) == Readiness::<Option<Result<Message, E>>>::Ready(
            Some(Ok(Message::Send(line))),
        ),
{
}

/// The events of a guest connection over a series of polls: at poll `i`
/// the queued line is `outbound[i]` and the socket holds `inbound[i]`.
pub open spec fn guest_events<E>(
    outbound: Seq<Option<String>>,
    inbound: Seq<Readiness<Option<Result<String, E>>>>,
) -> Seq<Readiness<Option<Result<Message, E>>>> {
    Seq::new(outbound.len(), |i: int| spec_guest_event(outbound[i], inbound[i]))
}

/// The lines that were queued for the guest, in the order the polls took
/// them from the queue.
pub open spec fn queued_lines(outbound: Seq<Option<String>>) -> Seq<String>
    decreases outbound.len(),
{
    if outbound.len() == 0 {
        Seq::empty()
    } else {
        let earlier = queued_lines(outbound.drop_last());
        match outbound.last() {
            Some(line) => earlier.push(line),
            None => earlier,
        }
    }
}

/// The lines of the `Send` events among `events`, in order.
pub open spec fn sent_lines<E>(events: Seq<Readiness<Option<Result<Message, E>>>>) -> Seq<String>
    decreases events.len(),
{
    if events.len() == 0 {
        Seq::empty()
    } else {
        let earlier = sent_lines(events.drop_last());
        match events.last() {
            Readiness::Ready(Some(Ok(Message::Send(line)))) => earlier.push(line),
            _ => earlier,
        }
    }
}

/// Over any series of polls of a guest connection, the `Send` events are
/// exactly the lines taken from the queue, each once and in the order they
/// were taken; and the stream ends (`Ready(None)`) only at a poll where
/// nothing was queued and the socket itself had ended, never because the
/// queue is empty or closed.
pub proof fn lemma_guest_stream<E>(
    outbound: Seq<Option<String>>,
    inbound: Seq<Readiness<Option<Result<String, E>>>>,
)
    requires
        outbound.len() == inbound.len(),
    ensures
        sent_lines(guest_events(outbound, inbound)) == queued_lines(outbound),
        forall|i: int|
            0 <= i < outbound.len() && #[trigger] guest_events(outbound, inbound)[i]
                == Readiness::<Option<Result<Message, E>>>::Ready(None) ==> outbound[i] is None
                && inbound[i] == Readiness::<Option<Result<String, E>>>::Ready(None),
    decreases outbound.len(),
{
    let events = guest_events(outbound, inbound);
    if outbound.len() > 0 {
        let n = outbound.len() - 1;
        assert(events.drop_last() =~= guest_events(outbound.drop_last(), inbound.drop_last()));
        lemma_guest_stream(outbound.drop_last(), inbound.drop_last());
        assert(events.last() == spec_guest_event(outbound[n], inbound[n]));
    }
}

/// With nothing queued, whatever the socket produced is reported as it is:
/// a line the guest wrote becomes `Received` with that same line, an error
/// stays that error, the end of the socket ends the stream, and a socket
/// that has nothing yet leaves the connection waiting; only a queued line
/// ever becomes `Send`, and it is that queued line.
pub proof fn lemma_guest_event_reports_socket<E>(line: String, queued: String, e: E)
    ensures
        spec_guest_event(None, Readiness::Ready(Some(Ok::<String, E>(line))))
            == Readiness::<Option<Result<Message, E>>>::Ready(Some(Ok(Message::Received(line)))),
        spec_guest_event(None, Readiness::Ready(Some(Err::<String, E>(e))))
            == Readiness::<Option<Result<Message, E>>>::Ready(Some(Err(e))),
        spec_guest_event(None, Readiness::<Option<Result<String, E>>>::Ready(None))
            == Readiness::<Option<Result<Message, E>>>::Ready(None),
        spec_guest_event(None, Readiness::<Option<Result<String, E>>>::Pending)
            == Readiness::<Option<Result<Message, E>>>::Pending,
        forall|inbound: Readiness<Option<Result<String, E>>>|
            #[trigger] spec_guest_event(Some(queued), inbound)
                == Readiness::<Option<Result<Message, E>>>::Ready(Some(Ok(Message::Send(queued)))),
        forall|inbound: Readiness<Option<Result<String, E>>>|
            !(#[trigger] spec_guest_event(None, inbound) matches Readiness::Ready(
                Some(Ok(Message::Send(_))),
            )),
{
}

/// What a guest connection does with one event.
#[derive(Debug, Clone, PartialEq, Eq)]
pub enum GuestAction<E> {
    /// Write the line to the guest's socket.
    WriteLine(String),
    /// Report a line received from the guest.
    ReportReceived(String),
    /// Report an error of the socket and go on.
    ReportError(E),
    /// The socket is exhausted: the guest is gone and is removed from the
    /// registry.
    Disconnect,
}

/// What a guest connection does with `event`, the next item of its stream
/// (`None` once the stream has ended).
pub open spec fn guest_action_spec<E>(event: Option<Result<Message, E>>) -> GuestAction<E> {
    match event {
        Some(Ok(Message::Send(line))) => GuestAction::WriteLine(line),
        Some(Ok(Message::Received(line))) => GuestAction::ReportReceived(line),
        Some(Err(e)) => GuestAction::ReportError(e),
        None => GuestAction::Disconnect,
    }
}

/// Each event of a guest connection is handled as what it is: a line queued
/// for the guest is written to the guest (never reported as received), a
/// line the guest wrote is reported (never written back), an error is
/// reported, and the end of the stream disconnects; the line is the same
/// line in each case.
pub proof fn lemma_guest_action_by_kind<E>(line: String, e: E)
    ensures
        guest_action_spec(Some(Ok::<Message, E>(Message::Send(line)))) == GuestAction::<E>::WriteLine(line),
        guest_action_spec(Some(Ok::<Message, E>(Message::Received(line))))
            == GuestAction::<E>::ReportReceived(line),
        guest_action_spec(Some(Err::<Message, E>(e))) == GuestAction::<E>::ReportError(e),
        guest_action_spec(None::<Result<Message, E>>) == GuestAction::<E>::Disconnect,
        !(guest_action_spec(Some(Ok::<Message, E>(Message::Send(line)))) is ReportReceived),
        !(guest_action_spec(Some(Ok::<Message, E>(Message::Received(line)))) is WriteLine),
{
}

impl UnixSocket {
    /// Decides what the connection of the guest at `path` does with the
    /// next item of its stream; when the stream has ended the guest is
    /// removed from the registry, and otherwise the registry is unchanged.
    pub fn handle_event<E>(&mut self, path: &str, event: Option<Result<Message, E>>) -> (a: GuestAction<E>)
        ensures
            a == guest_action_spec(event),
            event matches Some(Ok(Message::Send(line))) ==> a == GuestAction::<E>::WriteLine(line),
            event matches Some(Ok(Message::Received(line))) ==> a == GuestAction::<E>::ReportReceived(line),
            event matches Some(Err(e)) ==> a == GuestAction::<E>::ReportError(e),
            event is None ==> a == GuestAction::<E>::Disconnect,
            a is Disconnect ==> final(self)@ == old(self)@.remove(path@),
            !(a is Disconnect) ==> final(self)@ == old(self)@,
    {
        match event {
            Some(Ok(Message::Send(line))) => GuestAction::WriteLine(line),
            Some(Ok(Message::Received(line))) => GuestAction::ReportReceived(line),
            Some(Err(e)) => GuestAction::ReportError(e),
            None => {
                self.remove(path);
                GuestAction::Disconnect
            },
        }
    }
}

} // verus!
