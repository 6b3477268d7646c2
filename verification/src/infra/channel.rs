//! The ends of the unbounded channels that carry console lines between the
//! panel and the game server, each with a record of what went through it.
use crossbeam::channel::{Receiver, Sender};
use vstd::prelude::*;

verus! {

/// `crossbeam::channel::Sender`, the sending end of a channel; opaque here.
#[verifier::external_type_specification]
#[verifier::external_body]
#[verifier::reject_recursive_types(T)]
pub struct ExSender<T>(Sender<T>);

/// `crossbeam::channel::Receiver`, the receiving end of a channel; opaque here.
#[verifier::external_type_specification]
#[verifier::external_body]
#[verifier::reject_recursive_types(T)]
pub struct ExReceiver<T>(Receiver<T>);

/// The sending end of an unbounded channel of lines. `channel` tells which
/// channel it belongs to; `sent` is the record of the lines this end queued,
/// oldest first; `gone` tells that a send through this end was refused,
/// which happens only once every receiving end of the channel is dropped.
pub struct ConsoleSender {
    tx: Sender<String>,
    id: Ghost<int>,
    sent: Ghost<Seq<Seq<char>>>,
    gone: Ghost<bool>,
}

/// The receiving end of an unbounded channel of lines; `channel` tells which
/// channel it belongs to.
pub struct ConsoleReceiver {
    rx: Receiver<String>,
    id: Ghost<int>,
}

impl ConsoleSender {
    /// The channel this end belongs to.
    pub closed spec fn channel(&self) -> int {
        self.id@
    }

    /// The lines this end queued on its channel, oldest first.
    pub closed spec fn sent(&self) -> Seq<Seq<char>> {
        self.sent@
    }

    /// Whether a send through this end was refused: every receiving end of
    /// its channel was dropped by then, and none can come back.
    pub closed spec fn gone(&self) -> bool {
        self.gone@
    }
}

impl ConsoleReceiver {
    /// The channel this end belongs to.
    pub closed spec fn channel(&self) -> int {
        self.id@
    }

    /// The crossbeam end, for the threads that wait on it.
    pub fn end(&self) -> &Receiver<String> {
        &self.rx
    }
}

/// The text `crossbeam`'s `SendError` displays.
pub open spec fn disconnected_text() -> Seq<char> {
    "sending on a disconnected channel"@
}

/// `crossbeam::channel::unbounded`: a new channel without capacity limit,
/// as its sending and its receiving end, which belong to that one channel;
/// nothing was queued through the sending end yet, and no send was refused.
#[verifier::external_body]
pub(crate) fn open_channel() -> (r: (ConsoleSender, ConsoleReceiver))
    ensures
        r.0.channel() == r.1.channel(),
        r.0.sent() == Seq::<Seq<char>>::empty(),
        !r.0.gone(),
{
    let (tx, rx) = crossbeam::channel::unbounded();
    (
        ConsoleSender { tx, id: Ghost(0int), sent: Ghost(Seq::empty()), gone: Ghost(false) },
        ConsoleReceiver { rx, id: Ghost(0int) },
    )
}

/// `crossbeam::channel::Sender::clone`: another sending end of the same
/// channel, with a record of its own that starts empty; it knows what `end`
/// knows of the receiving ends being gone.
#[verifier::external_body]
pub(crate) fn another_sender(end: &ConsoleSender) -> (r: ConsoleSender)
    ensures
        r.channel() == end.channel(),
        r.sent() == Seq::<Seq<char>>::empty(),
        r.gone() == end.gone(),
{
    ConsoleSender { tx: end.tx.clone(), id: Ghost(end.id@), sent: Ghost(Seq::empty()), gone: Ghost(end.gone@) }
}

/// `crossbeam::channel::Sender::send`. The channel is unbounded, since only
/// `open_channel` makes these ends, so the call never blocks: it queues `msg`
/// and succeeds, or, only when every receiving end is dropped (the channel is
/// disconnected), hands `msg` back in an error that displays as `sending on
/// a disconnected channel`. A channel stays disconnected for good, since a
/// receiving end is only made from another one, so after a refused send
/// every later send through the end is refused too. The record of `end`
/// grows by `msg` exactly when the call succeeds, and `gone` is set exactly
/// when it is refused. Whether the receiving ends are still there depends on
/// the other threads, and is not claimed.
#[verifier::external_body]
pub(crate) fn channel_send(end: &mut ConsoleSender, msg: String) -> (r: Result<(), String>)
    ensures
        final(end).channel() == old(end).channel(),
        r is Ok ==> final(end).sent() == old(end).sent().push(msg@),
        r is Err ==> final(end).sent() == old(end).sent(),
        final(end).gone() == (old(end).gone() || r is Err),
        old(end).gone() ==> r is Err,
        r matches Err(e) ==> e@ == disconnected_text(),
{
    end.tx.send(msg).map_err(|e| e.to_string())
}

/// `after` is the sending end `before` after an attempt to queue `line`
/// that succeeded when `ok`, as `channel_send` leaves it: the same channel;
/// the line joins the record exactly when it was queued; a refusal marks the
/// end as gone, and an end that is gone refuses.
pub open spec fn queued(before: ConsoleSender, after: ConsoleSender, line: Seq<char>, ok: bool) -> bool {
    &&& after.channel() == before.channel()
    &&& after.sent() == if ok {
        before.sent().push(line)
    } else {
        before.sent()
    }
    &&& after.gone() == (before.gone() || !ok)
    &&& before.gone() ==> !ok
}

/// A line handed to an end whose receiving side is still there (the end is
/// not gone after the attempt) is queued: the attempt succeeded and the
/// record grew by exactly that line.
pub proof fn lemma_live_channel_queues(before: ConsoleSender, after: ConsoleSender, line: Seq<char>, ok: bool)
    requires
        queued(before, after, line, ok),
        !after.gone(),
    ensures
        ok,
        after.sent() == before.sent().push(line),
        after.sent().last() == line,
{
}

/// Once a send through an end was refused, every later send through it is
/// refused and queues nothing.
pub proof fn lemma_refused_for_good(
    s0: ConsoleSender,
    s1: ConsoleSender,
    s2: ConsoleSender,
    first: Seq<char>,
    ok1: bool,
    second: Seq<char>,
    ok2: bool,
)
    requires
        queued(s0, s1, first, ok1),
        queued(s1, s2, second, ok2),
        !ok1,
    ensures
        !ok2,
        s2.sent() == s0.sent(),
{
}

} // verus!
