//! What the HTTP API answers, given the state of the game and the outcome of
//! the file work the server does around it.
use crate::infra::conf::{
    save_code, save_note, server_config_spec, server_config_text, write_data, SaveOutcome,
};
use crate::infra::channel::disconnected_text;
use crate::infra::game::{hands_over, GameServer, ShellPipes};
use crate::web::model::{EditConfig, GetConfigResp, Response, SendCmdReq};
use vstd::prelude::*;
use vstd::string::*;

verus! {

/// The text that `{:?}` writes for a string with the characters `s`: the
/// characters in double quotes, with quotes, backslashes and characters that
/// are not printable escaped.
pub uninterp spec fn debug_text(s: Seq<char>) -> Seq<char>;

/// `<str as Debug>::fmt`, through `format!("{:?}")`. The result is named by
/// `debug_text` and depends on the characters alone; its escaping rules are
/// not stated.
#[verifier::external_body]
fn debug_string(s: &String) -> (r: String)
    ensures
        r@ == debug_text(s@),
{
    format!("{:?}", s)
}

/// The console line for the command `cmd`: the command and a line break.
pub fn command_line(cmd: &str) -> (line: String)
    ensures
        line@ == cmd@ + "\r\n"@,
{
    let mut line = String::from_str(cmd);
    line.append("\r\n");
    line
}

/// The answer to a console command whose hand-over to the game ended with
/// `sent`: `ok`, or the note `发送命令失败 {}` and the debug rendering of
/// the error.
pub fn send_cmd_answer(sent: Result<(), String>) -> (r: Response<Vec<String>>)
    ensures
        r.data is None,
        match sent {
            Ok(()) => r.code == 0 && r.msg@ == "ok"@,
            Err(e) => r.code == -1 && r.msg@ == "发送命令失败 {}"@ + " "@ + debug_text(e@),
        },
{
    match sent {
        Ok(()) => Response::ok2(),
        Err(e) => {
            let shown = debug_string(&e);
            Response::err2("发送命令失败 {}", shown.as_str())
        },
    }
}

/// Sends the command of `payload`, with a line break, to the console of the
/// game. Before the game is started nothing is sent and the answer is `ok`;
/// the send fails only when the console writer is gone.
pub fn send_cmd<P>(game: &mut GameServer<P>, payload: &SendCmdReq) -> (r: Response<Vec<String>>)
    ensures
        hands_over(*old(game), *final(game), payload.cmd@ + "\r\n"@, r.code == 0),
        r.data is None,
        !old(game).started() ==> r.code == 0 && r.msg@ == "ok"@,
        (r.code == 0 && r.msg@ == "ok"@) || (r.code == -1 && r.msg@ == "发送命令失败 {}"@ + " "@
            + debug_text("send data err "@ + disconnected_text())),
{
    let line = command_line(payload.cmd.as_str());
    let sent = game.send_data(line.as_str());
    send_cmd_answer(sent)
}

/// Starts the game with the freshly spawned process `shell` and records that
/// it runs; the console channels' far ends are returned for the threads that
/// pump them (`output` feeds the game's receiver, `input` drains the game's
/// sender), with the answer `ok`.
pub fn start_game<P>(game: &mut GameServer<P>, status: &mut bool, shell: P) -> (r: (ShellPipes, Response<Vec<String>>))
    ensures
        final(game).started(),
        final(game).shell() == Some(shell),
        final(game).console_input() == Seq::<Seq<char>>::empty(),
        final(game).receiver() matches Some(rc) && rc.channel() == r.0.output.channel(),
        final(game).input_channel() == r.0.input.channel(),
        r.0.output.sent() == Seq::<Seq<char>>::empty(),
        *final(status),
        r.1.code == 0,
        r.1.msg@ == "ok"@,
        r.1.data is None,
{
    let pipes = game.start_game(shell);
    *status = true;
    (pipes, Response::ok2())
}

/// Asks the game to quit and records that it no longer runs; the answer is
/// `ok` whether or not the request reached the console, and the outcome of
/// the hand-over (`GameServer::stop_game`'s result) comes with it.
pub fn stop_game<P>(game: &mut GameServer<P>, status: &mut bool) -> (r: (Response<Vec<String>>, Result<(), String>))
    ensures
        hands_over(*old(game), *final(game), "exit\r\n"@, r.1 is Ok),
        !old(game).started() ==> r.1 is Ok,
        r.1 matches Err(e) ==> e@ == "send data err "@ + disconnected_text(),
        !*final(status),
        r.0.code == 0,
        r.0.msg@ == "ok"@,
        r.0.data is None,
{
    let sent = game.stop_game();
    *status = false;
    (Response::ok2(), sent)
}

/// The answer to a request for the stored settings: the settings `stored`,
/// if they could be read, with whether the game runs; otherwise the note
/// `no conf found`.
pub fn get_config(stored: Option<EditConfig>, game_status: bool) -> (r: Response<GetConfigResp>)
    ensures
        match stored {
            Some(c) => r.code == 0 && r.msg@ == "ok"@ && r.data == Some(
                (GetConfigResp { game_status, config: c }),
            ),
            None => r.code == -1 && r.msg@ == "no conf found"@ && r.data is None,
        },
{
    match stored {
        Some(config) => Response::ok(GetConfigResp { game_status, config }),
        None => Response::err("no conf found"),
    }
}

/// The text to store in the game server's `config.txt` for the new settings
/// `payload`.
pub fn edit_config(payload: &EditConfig) -> (text: String)
    ensures
        text@ == server_config_spec(payload),
{
    server_config_text(payload)
}

/// The step after the attempt to store the game server's `config.txt` ended
/// with `server_config`: when it is on disk the settings are stored next
/// (`None`); otherwise the request is answered with the failure.
pub fn server_config_saved(server_config: SaveOutcome) -> (r: Option<Response<String>>)
    ensures
        match server_config {
            SaveOutcome::Saved => r is None,
            _ => r matches Some(a) && a.code == save_code(server_config) && a.msg@ == save_note(
                server_config,
            ) && a.data is None,
        },
{
    match server_config {
        SaveOutcome::Saved => None,
        failed => Some(write_data(failed)),
    }
}

/// A handler call that sets whether the game runs.
pub enum StatusCall {
    /// `start_game`.
    Start,
    /// `stop_game`.
    Stop,
}

/// Whether the game runs after the handler calls `calls`: exactly when the
/// last of them started it.
pub open spec fn running_after(calls: Seq<StatusCall>) -> bool {
    calls.len() > 0 && calls.last() is Start
}

/// Over any history of the running flag that starts false and is then set by
/// the handler calls `calls` (`statuses[i + 1]` is the flag after `calls[i]`,
/// as `start_game` and `stop_game` leave it): the flag tells whether the last
/// call was a start.
pub proof fn lemma_status_tracks_last_call(statuses: Seq<bool>, calls: Seq<StatusCall>)
    requires
        statuses.len() == calls.len() + 1,
        !statuses[0],
        forall|i: int| 0 <= i < calls.len() ==> statuses[i + 1] == (#[trigger] calls[i] is Start),
    ensures
        statuses.last() == running_after(calls),
{
    if calls.len() > 0 {
        assert(statuses[calls.len() as int] == (calls[calls.len() - 1] is Start));
    }
}

} // verus!
