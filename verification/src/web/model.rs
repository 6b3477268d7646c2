use vstd::prelude::*;
use vstd::string::*;

verus! {

/// The body of every answer of the HTTP API.
///
/// `code` is `0` for success and `-1` for failure; `msg` is a human readable
/// note, and `data` carries the payload of a successful request, if any.
pub struct Response<T> {
    pub code: i32,
    pub data: Option<T>,
    pub msg: String,
}

/// The code of a successful answer.
pub open spec fn ok_code() -> int {
    0
}

/// The code of a failed answer.
pub open spec fn err_code() -> int {
    -1
}

impl<T> Response<T> {
    /// Builds an answer from its three parts.
    pub fn new(code: i32, msg: String, data: Option<T>) -> (r: Self)
        ensures
            r.code == code,
            r.msg@ == msg@,
            r.data == data,
    {
        Response { code, msg, data }
    }

    /// A successful answer that carries `data`.
    pub fn ok(data: T) -> (r: Self)
        ensures
            r.code == ok_code(),
            r.msg@ == "ok"@,
            r.data == Some(data),
    {
        Self::new(0, String::from_str("ok"), Some(data))
    }

    /// A successful answer without payload.
    pub fn ok2() -> (r: Self)
        ensures
            r.code == ok_code(),
            r.msg@ == "ok"@,
            r.data is None,
    {
        Self::new(0, String::from_str("ok"), None)
    }

    /// A failed answer whose note is `msg`.
    pub fn err(msg: &str) -> (r: Self)
        ensures
            r.code == err_code(),
            r.msg@ == msg@,
            r.data is None,
    {
        Self::new(-1, String::from_str(msg), None)
    }

    /// A failed answer whose note is `msg`, a space, and `err`, the debug
    /// rendering of the error that caused it.
    pub fn err2(msg: &str, err: &str) -> (r: Self)
        ensures
            r.code == err_code(),
            r.msg@ == msg@ + " "@ + err@,
            r.data is None,
    {
        let mut note = String::from_str(msg);
        note.append(" ");
        note.append(err);
        Self::new(-1, note, None)
    }
}

/// The settings of the game server that the panel can edit.
#[derive(Debug)]
pub struct EditConfig {
    /// Largest number of players.
    pub max_player: i32,
    /// Port the game listens on.
    pub port: i32,
    /// Password a player must give to join.
    pub password: String,
    /// Size of a newly created world: 1 small, 2 medium, 3 large.
    pub word_size: i32,
    /// Name of the world.
    pub word_name: String,
    /// 0 normal, 1 expert, 2 master, 3 journey.
    pub difficulty: i32,
    /// Message of the day.
    pub message: String,
}

/// The answer to a request for the stored configuration.
#[derive(Debug)]
pub struct GetConfigResp {
    /// Whether the game was started and not stopped since.
    pub game_status: bool,
    pub config: EditConfig,
}

/// A console command to hand to the game server.
#[derive(Debug)]
pub struct SendCmdReq {
    pub cmd: String,
}

} // verus!
