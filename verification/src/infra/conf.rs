//! The two configuration files the panel keeps: the game server's
//! `config.txt` and its own stored copy of the settings.
use crate::text::{
    append_i32, int_text, lemma_int_text_reads_back, lemma_int_text_single_line,
    lemma_single_line_concat, single_line, text_value,
};
use crate::web::model::{EditConfig, Response};
use vstd::prelude::*;
use vstd::string::*;

verus! {

/// The lines of the game server's `config.txt` for the settings `c`, in
/// order and without their line breaks.
pub open spec fn server_config_lines(c: &EditConfig) -> Seq<Seq<char>> {
    seq![
        "# 服务器配置，请不要直接修改"@,
        "world=/home/xiaoyou/game/terraria/world/main.wld"@,
        "maxplayers="@ + int_text(c.max_player as int),
        "port="@ + int_text(c.port as int),
        "password="@ + c.password@,
        "autocreate="@ + int_text(c.word_size as int),
        "worldname="@ + c.word_name@,
        "difficulty="@ + int_text(c.difficulty as int),
        "motd="@ + c.message@,
        "language=zh-Hans"@,
        "upnp=1"@,
    ]
}

/// `lines` joined by line breaks, with none after the last.
pub open spec fn join_lines(lines: Seq<Seq<char>>) -> Seq<char>
    decreases lines.len(),
{
    if lines.len() == 0 {
        Seq::empty()
    } else if lines.len() == 1 {
        lines[0]
    } else {
        join_lines(lines.drop_last()) + "\n"@ + lines.last()
    }
}

/// The text of the game server's `config.txt` for the settings `c`.
pub open spec fn server_config_spec(c: &EditConfig) -> Seq<char> {
    join_lines(server_config_lines(c))
}

/// Renders the game server's `config.txt` for the settings `c`: the world
/// file, the player limit, port, password, world size, name and difficulty,
/// and the message of the day, one `key=value` line each.
pub fn server_config_text(c: &EditConfig) -> (s: String)
    ensures
        s@ == server_config_spec(c),
        s@ == join_lines(server_config_lines(c)),
{
    let mut s = String::from_str("# 服务器配置，请不要直接修改");
    s.append("\n");
    s.append("world=/home/xiaoyou/game/terraria/world/main.wld");
    s.append("\n");
    s.append("maxplayers=");
    append_i32(&mut s, c.max_player);
    s.append("\n");
    s.append("port=");
    append_i32(&mut s, c.port);
    s.append("\n");
    s.append("password=");
    s.append(c.password.as_str());
    s.append("\n");
    s.append("autocreate=");
    append_i32(&mut s, c.word_size);
    s.append("\n");
    s.append("worldname=");
    s.append(c.word_name.as_str());
    s.append("\n");
    s.append("difficulty=");
    append_i32(&mut s, c.difficulty);
    s.append("\n");
    s.append("motd=");
    s.append(c.message.as_str());
    s.append("\n");
    s.append("language=zh-Hans");
    s.append("\n");
    s.append("upnp=1");
    proof {
        reveal_with_fuel(join_lines, 11);
        let lines = server_config_lines(c);
        assert(s@ =~= join_lines(lines));
    }
    s
}

/// With a password, world name and message of one line each, the game
/// server's `config.txt` is eleven lines joined by line breaks, none of which
/// holds a line break itself: the header, the world file, then `maxplayers=`,
/// `port=`, `password=`, `autocreate=`, `worldname=`, `difficulty=` and
/// `motd=` with the settings in that order, then `language=zh-Hans`, and
/// last `upnp=1` without a line break after it.
pub proof fn lemma_server_config_lines(c: &EditConfig)
    requires
        single_line(c.password@),
        single_line(c.word_name@),
        single_line(c.message@),
    ensures
        server_config_spec(c) == join_lines(server_config_lines(c)),
        server_config_lines(c).len() == 11,
        forall|k: int| 0 <= k < 11 ==> single_line(#[trigger] server_config_lines(c)[k]),
        server_config_lines(c)[10] == "upnp=1"@,
{
    reveal_strlit("# 服务器配置，请不要直接修改");
    reveal_strlit("world=/home/xiaoyou/game/terraria/world/main.wld");
    reveal_strlit("maxplayers=");
    reveal_strlit("port=");
    reveal_strlit("password=");
    reveal_strlit("autocreate=");
    reveal_strlit("worldname=");
    reveal_strlit("difficulty=");
    reveal_strlit("motd=");
    reveal_strlit("language=zh-Hans");
    reveal_strlit("upnp=1");
    lemma_int_text_single_line(c.max_player as int);
    lemma_int_text_single_line(c.port as int);
    lemma_int_text_single_line(c.word_size as int);
    lemma_int_text_single_line(c.difficulty as int);
    lemma_single_line_concat("maxplayers="@, int_text(c.max_player as int));
    lemma_single_line_concat("port="@, int_text(c.port as int));
    lemma_single_line_concat("password="@, c.password@);
    lemma_single_line_concat("autocreate="@, int_text(c.word_size as int));
    lemma_single_line_concat("worldname="@, c.word_name@);
    lemma_single_line_concat("difficulty="@, int_text(c.difficulty as int));
    lemma_single_line_concat("motd="@, c.message@);
    let lines = server_config_lines(c);
    assert forall|k: int| 0 <= k < 11 implies single_line(#[trigger] lines[k]) by {
        if k == 0 {
            assert(single_line("# 服务器配置，请不要直接修改"@));
        } else if k == 1 {
            assert(single_line("world=/home/xiaoyou/game/terraria/world/main.wld"@));
        } else if k == 9 {
            assert(single_line("language=zh-Hans"@));
        } else if k == 10 {
            assert(single_line("upnp=1"@));
        }
    }
}

/// Each setting line of the game server's `config.txt` carries its own
/// setting: at its place the line starts with its key, and what follows the
/// key reads back as the setting (a number by its decimal value, a text
/// unchanged).
pub proof fn lemma_config_lines_carry_settings(c: &EditConfig)
    ensures
        server_config_lines(c).len() == 11,
        server_config_lines(c)[2].take(11) == "maxplayers="@,
        text_value(server_config_lines(c)[2].skip(11)) == c.max_player,
        server_config_lines(c)[3].take(5) == "port="@,
        text_value(server_config_lines(c)[3].skip(5)) == c.port,
        server_config_lines(c)[4].take(9) == "password="@,
        server_config_lines(c)[4].skip(9) == c.password@,
        server_config_lines(c)[5].take(11) == "autocreate="@,
        text_value(server_config_lines(c)[5].skip(11)) == c.word_size,
        server_config_lines(c)[6].take(10) == "worldname="@,
        server_config_lines(c)[6].skip(10) == c.word_name@,
        server_config_lines(c)[7].take(11) == "difficulty="@,
        text_value(server_config_lines(c)[7].skip(11)) == c.difficulty,
        server_config_lines(c)[8].take(5) == "motd="@,
        server_config_lines(c)[8].skip(5) == c.message@,
{
    reveal_strlit("maxplayers=");
    reveal_strlit("port=");
    reveal_strlit("password=");
    reveal_strlit("autocreate=");
    reveal_strlit("worldname=");
    reveal_strlit("difficulty=");
    reveal_strlit("motd=");
    lemma_int_text_reads_back(c.max_player as int);
    lemma_int_text_reads_back(c.port as int);
    lemma_int_text_reads_back(c.word_size as int);
    lemma_int_text_reads_back(c.difficulty as int);
    let lines = server_config_lines(c);
    assert(lines[2].take(11) =~= "maxplayers="@);
    assert(lines[2].skip(11) =~= int_text(c.max_player as int));
    assert(lines[3].take(5) =~= "port="@);
    assert(lines[3].skip(5) =~= int_text(c.port as int));
    assert(lines[4].take(9) =~= "password="@);
    assert(lines[4].skip(9) =~= c.password@);
    assert(lines[5].take(11) =~= "autocreate="@);
    assert(lines[5].skip(11) =~= int_text(c.word_size as int));
    assert(lines[6].take(10) =~= "worldname="@);
    assert(lines[6].skip(10) =~= c.word_name@);
    assert(lines[7].take(11) =~= "difficulty="@);
    assert(lines[7].skip(11) =~= int_text(c.difficulty as int));
    assert(lines[8].take(5) =~= "motd="@);
    assert(lines[8].skip(5) =~= c.message@);
}

/// How an attempt to store a file ended. A failure carries the debug
/// rendering of the I/O error.
pub enum SaveOutcome {
    /// The file could not be created.
    CreateFailed(String),
    /// The file was written but could not be flushed to disk.
    SyncFailed(String),
    /// The file is on disk.
    Saved,
}

/// The code of the answer to a store that ended with `o`.
pub open spec fn save_code(o: SaveOutcome) -> int {
    match o {
        SaveOutcome::Saved => 0,
        _ => -1,
    }
}

/// The note of the answer to a store that ended with `o`.
pub open spec fn save_note(o: SaveOutcome) -> Seq<char> {
    match o {
        SaveOutcome::CreateFailed(e) => "文件创建失败"@ + " "@ + e@,
        SaveOutcome::SyncFailed(e) => "写入文件失败"@ + " "@ + e@,
        SaveOutcome::Saved => "ok"@,
    }
}

/// The answer to a request whose store of a file ended with `outcome`: a
/// failure names the step that failed and the error; success is a plain `ok`.
pub fn write_data(outcome: SaveOutcome) -> (r: Response<String>)
    ensures
        r.code == save_code(outcome),
        r.msg@ == save_note(outcome),
        r.data is None,
{
    match outcome {
        SaveOutcome::CreateFailed(e) => Response::err2("文件创建失败", e.as_str()),
        SaveOutcome::SyncFailed(e) => Response::err2("写入文件失败", e.as_str()),
        SaveOutcome::Saved => Response::ok2(),
    }
}

} // verus!
