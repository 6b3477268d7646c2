//! The state of the game server process as the panel sees it: the process
//! handle and the two channels that carry its console lines.
use crate::infra::channel::{
    another_sender, channel_send, disconnected_text, open_channel, queued, ConsoleReceiver,
    ConsoleSender,
};
use std::sync::Arc;
use vstd::prelude::*;
use vstd::string::*;

verus! {

/// `Arc::clone`: another pointer to the same allocation.
#[verifier::external_body]
fn share<T>(a: &Arc<T>) -> (r: Arc<T>)
    ensures
        r == *a,
{
    Arc::clone(a)
}

/// What `send_data` reports for a hand-over to the console that ended with
/// `sent`: success, or the note `send data err ` followed by the error.
pub fn send_result(sent: Result<(), String>) -> (r: Result<(), String>)
    ensures
        match sent {
            Ok(()) => r is Ok,
            Err(e) => r matches Err(note) && note@ == "send data err "@ + e@,
        },
{
    match sent {
        Ok(()) => Ok(()),
        Err(e) => {
            let mut note = String::from_str("send data err ");
            note.append(e.as_str());
            Err(note)
        },
    }
}

/// What reading the next line of the process's output gave.
pub enum LineRead {
    /// A line, with its line break if it had one.
    Line(String),
    /// The output ended.
    EndOfFile,
    /// The read failed.
    Failed,
}

/// The line that a read of the process's output that gave `read` forwards:
/// the line itself; none once the output ended or the read failed, which ends
/// the pumping.
pub fn output_line(read: LineRead) -> (r: Option<String>)
    ensures
        match read {
            LineRead::Line(l) => r == Some(l),
            _ => r is None,
        },
{
    match read {
        LineRead::Line(l) => Some(l),
        LineRead::EndOfFile => None,
        LineRead::Failed => None,
    }
}

/// One step of the thread that pumps the process's output into `output`, the
/// far end of the game's console-output channel: the line that `output_line`
/// gives for `read` is queued on `output`, and the outcome of that is
/// returned (`None` when there is no line, which ends the pumping). A failed
/// hand-over (the panel's end is gone) queues nothing and does not end it.
pub fn pump_output(output: &mut ConsoleSender, read: LineRead) -> (r: Option<Result<(), String>>)
    ensures
        match read {
            LineRead::Line(l) => r matches Some(sent) && queued(*old(output), *final(output), l@, sent is Ok)
                && (sent matches Err(e) ==> e@ == disconnected_text()),
            _ => r is None && *final(output) == *old(output),
        },
{
    match output_line(read) {
        Some(line) => Some(channel_send(output, line)),
        None => None,
    }
}

/// The ends of the two channels that a started game server hands to the
/// threads that pump its console: `output` carries the lines the process
/// prints, `input` the lines to write to the process.
pub struct ShellPipes {
    pub output: ConsoleSender,
    pub input: ConsoleReceiver,
}

/// What a started game server holds: the process, the panel's end of the
/// console output and its end of the console input.
struct Running<P> {
    shell: P,
    read: Arc<ConsoleReceiver>,
    send: ConsoleSender,
}

/// The game server: once started, the running process `P` and the panel's
/// ends of the channels to and from its console, all together.
pub struct GameServer<P> {
    running: Option<Running<P>>,
}

impl<P> GameServer<P> {
    /// Whether the game was started.
    pub closed spec fn started(&self) -> bool {
        self.running is Some
    }

    /// The process handle, once started.
    pub closed spec fn shell(&self) -> Option<P> {
        match self.running {
            Some(run) => Some(run.shell),
            None => None,
        }
    }

    /// The panel's receiving end of the console output, once started.
    pub closed spec fn receiver(&self) -> Option<Arc<ConsoleReceiver>> {
        match self.running {
            Some(run) => Some(run.read),
            None => None,
        }
    }

    /// The channel that carries the console input, once started.
    pub closed spec fn input_channel(&self) -> int {
        match self.running {
            Some(run) => run.send.channel(),
            None => 0,
        }
    }

    /// Whether a hand-over to the console of the current game was refused:
    /// the process's input side dropped its end of the channel.
    pub closed spec fn console_gone(&self) -> bool {
        match self.running {
            Some(run) => run.send.gone(),
            None => false,
        }
    }

    /// The lines the panel queued on the console input of the current game
    /// since it was started, oldest first (empty before the start).
    pub closed spec fn console_input(&self) -> Seq<Seq<char>> {
        match self.running {
            Some(run) => run.send.sent(),
            None => Seq::empty(),
        }
    }

    /// A game server that was not started.
    pub fn build() -> (g: Self)
        ensures
            !g.started(),
            !g.console_gone(),
            g.console_input() == Seq::<Seq<char>>::empty(),
    {
        GameServer { running: None }
    }

    /// A new pointer to the receiving end of the console output: there is
    /// one exactly when the game was started.
    pub fn get_recv(&self) -> (r: Option<Arc<ConsoleReceiver>>)
        ensures
            r == self.receiver(),
            r is Some == self.started(),
    {
        match &self.running {
            Some(run) => Some(share(&run.read)),
            None => None,
        }
    }

    /// Another sending end of the console input: there is one exactly when
    /// the game was started; it belongs to the game's input channel and has
    /// a record of its own.
    pub fn get_send(&self) -> (r: Option<ConsoleSender>)
        ensures
            r is Some == self.started(),
            r matches Some(s) ==> s.channel() == self.input_channel() && s.sent() == Seq::<
                Seq<char>,
            >::empty() && s.gone() == self.console_gone(),
    {
        match &self.running {
            Some(run) => Some(another_sender(&run.send)),
            None => None,
        }
    }

    /// Hands `data` to the console of the game. Before the game is started
    /// nothing is sent and the call succeeds; once started `data` is queued
    /// on the console input, and the call fails only when the console writer
    /// is gone, with the note `send data err ` and the channel's error.
    pub fn send_data(&mut self, data: &str) -> (r: Result<(), String>)
        ensures
            hands_over(*old(self), *final(self), data@, r is Ok),
            !old(self).started() ==> r is Ok,
            r matches Err(e) ==> e@ == "send data err "@ + disconnected_text(),
    {
        match &mut self.running {
            Some(run) => send_result(channel_send(&mut run.send, String::from_str(data))),
            None => Ok(()),
        }
    }

    /// Takes charge of the freshly spawned process `shell`, opens the two
    /// console channels and keeps the panel's ends; the other ends are
    /// returned for the threads that pump the console: `output` feeds the
    /// receiver the game keeps, `input` drains the sender it keeps. A game
    /// that was already started is replaced.
    pub fn start_game(&mut self, shell: P) -> (pipes: ShellPipes)
        ensures
            final(self).started(),
            final(self).shell() == Some(shell),
            final(self).receiver() matches Some(r) && r.channel() == pipes.output.channel(),
            final(self).input_channel() == pipes.input.channel(),
            pipes.output.sent() == Seq::<Seq<char>>::empty(),
            !pipes.output.gone(),
            final(self).console_input() == Seq::<Seq<char>>::empty(),
            !final(self).console_gone(),
    {
        let (read_tx, read_rx) = open_channel();
        let (send_tx, send_rx) = open_channel();
        self.running = Some(Running { shell, read: Arc::new(read_rx), send: send_tx });
        ShellPipes { output: read_tx, input: send_rx }
    }

    /// Asks the game to save and quit by handing `exit` and a line break to
    /// its console; the result says whether that could be sent.
    pub fn stop_game(&mut self) -> (r: Result<(), String>)
        ensures
            hands_over(*old(self), *final(self), "exit\r\n"@, r is Ok),
            !old(self).started() ==> r is Ok,
            r matches Err(e) ==> e@ == "send data err "@ + disconnected_text(),
    {
        self.send_data("exit\r\n")
    }
}

/// `after` is the game server `before` after an attempt to hand `line` to
/// its console that succeeded when `ok`: the process and the channels stay;
/// before the start nothing is sent and the attempt succeeds; once started
/// the line joins the console record exactly when it was queued, and a
/// refusal marks the console as gone, which only a dropped receiving end
/// causes and which refuses every later line.
pub open spec fn hands_over<P>(before: GameServer<P>, after: GameServer<P>, line: Seq<char>, ok: bool) -> bool {
    &&& after.started() == before.started()
    &&& after.shell() == before.shell()
    &&& after.receiver() == before.receiver()
    &&& after.input_channel() == before.input_channel()
    &&& !before.started() ==> ok
    &&& before.console_gone() ==> !ok
    &&& after.console_gone() == (before.console_gone() || !ok)
    &&& after.console_input() == if before.started() && ok {
        before.console_input().push(line)
    } else {
        before.console_input()
    }
}

/// On a started game whose console was not found gone by a hand-over, the
/// hand-over succeeded and appended exactly its line to the console record:
/// a line is refused only when the process's input side is gone.
pub proof fn lemma_live_console_takes_every_line<P>(
    before: GameServer<P>,
    after: GameServer<P>,
    line: Seq<char>,
    ok: bool,
)
    requires
        hands_over(before, after, line, ok),
        before.started(),
        !after.console_gone(),
    ensures
        ok,
        after.console_input() == before.console_input().push(line),
        after.console_input().last() == line,
        after.console_input().len() == before.console_input().len() + 1,
{
}

/// Once a hand-over to the console was refused, every later one is refused
/// too and leaves the record as it was.
pub proof fn lemma_gone_console_refuses_later_lines<P>(
    g0: GameServer<P>,
    g1: GameServer<P>,
    g2: GameServer<P>,
    first: Seq<char>,
    ok1: bool,
    second: Seq<char>,
    ok2: bool,
)
    requires
        hands_over(g0, g1, first, ok1),
        hands_over(g1, g2, second, ok2),
        !ok1,
    ensures
        !ok2,
        g2.console_input() == g0.console_input(),
{
}

/// A game server holds the process and both channel ends together: all of
/// them once started, none before.
pub proof fn lemma_started_server_holds_everything<P>(g: GameServer<P>)
    ensures
        g.started() == (g.shell() is Some),
        g.started() == (g.receiver() is Some),
        !g.started() ==> g.console_input() == Seq::<Seq<char>>::empty(),
{
}

/// A call that changes a game server, as its history sees it: a start, or an
/// attempt to hand a line to the console that succeeded or not
/// (`send_data`, `stop_game`, and the handlers that use them).
pub enum GameCall {
    Start,
    Hand(Seq<char>, bool),
}

/// What a call does to a game server, by the contract of the function that
/// makes it.
pub open spec fn call_effect<P>(before: GameServer<P>, call: GameCall, after: GameServer<P>) -> bool {
    match call {
        GameCall::Start => after.started() && after.console_input() == Seq::<Seq<char>>::empty(),
        GameCall::Hand(line, ok) => hands_over(before, after, line, ok),
    }
}

/// Whether the calls `calls` hold a start.
pub open spec fn started_by(calls: Seq<GameCall>) -> bool
    decreases calls.len(),
{
    calls.len() > 0 && (calls.last() is Start || started_by(calls.drop_last()))
}

/// The lines queued by the calls `calls`: those handed over successfully
/// after the last start, in call order.
pub open spec fn queued_lines(calls: Seq<GameCall>) -> Seq<Seq<char>>
    decreases calls.len(),
{
    if calls.len() == 0 {
        Seq::empty()
    } else {
        let earlier = calls.drop_last();
        match calls.last() {
            GameCall::Start => Seq::empty(),
            GameCall::Hand(line, ok) => if ok && started_by(earlier) {
                queued_lines(earlier).push(line)
            } else {
                queued_lines(earlier)
            },
        }
    }
}

/// Over any history of a game server that was built and then changed by the
/// calls `calls` (`states[i + 1]` is `states[i]` after `calls[i]`): it is
/// started exactly when one of the calls was a start, and its console record
/// holds, in call order, the lines queued since the last start.
pub proof fn lemma_game_history<P>(states: Seq<GameServer<P>>, calls: Seq<GameCall>)
    requires
        states.len() == calls.len() + 1,
        !states[0].started(),
        states[0].console_input() == Seq::<Seq<char>>::empty(),
        forall|i: int| 0 <= i < calls.len() ==> call_effect(states[i], #[trigger] calls[i], states[i + 1]),
    ensures
        states.last().started() == started_by(calls),
        states.last().console_input() == queued_lines(calls),
    decreases calls.len(),
{
    if calls.len() > 0 {
        let n = calls.len() - 1;
        lemma_game_history(states.drop_last(), calls.drop_last());
        assert(call_effect(states[n], calls[n], states[n + 1]));
    }
}

} // verus!
