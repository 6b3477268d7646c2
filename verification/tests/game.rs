use terraria_server::web::websocket::{client_message, relay_step, ClientEvent};
use terraria_server::infra::game::{output_line, pump_output, send_result, GameServer, LineRead};
use terraria_server::web::handle::{command_line, get_config, send_cmd, send_cmd_answer, start_game, stop_game};
use terraria_server::web::model::{EditConfig, SendCmdReq};

#[test]
fn fresh_server_has_no_channels() {
    let g: GameServer<()> = GameServer::build();
    assert!(g.get_recv().is_none());
    assert!(g.get_send().is_none());
}

#[test]
fn sending_before_start_succeeds() {
    let mut g: GameServer<()> = GameServer::build();
    assert_eq!(g.send_data("save\r\n"), Ok(()));
    assert_eq!(g.stop_game(), Ok(()));
}

#[test]
fn started_server_forwards_console_lines() {
    let mut g: GameServer<u32> = GameServer::build();
    let mut pipes = g.start_game(5);
    assert!(g.get_recv().is_some());
    assert!(g.get_send().is_some());
    assert_eq!(g.send_data("time noon\r\n"), Ok(()));
    assert_eq!(pipes.input.end().try_recv().unwrap(), "time noon\r\n");
    assert_eq!(pump_output(&mut pipes.output, LineRead::Line("Server started\n".to_string())), Some(Ok(())));
    assert_eq!(g.get_recv().unwrap().end().try_recv().unwrap(), "Server started\n");
    assert_eq!(g.stop_game(), Ok(()));
    assert_eq!(pipes.input.end().try_recv().unwrap(), "exit\r\n");
}

#[test]
fn sending_to_gone_console_fails() {
    let mut g: GameServer<()> = GameServer::build();
    let pipes = g.start_game(());
    drop(pipes);
    assert_eq!(
        g.send_data("exit\r\n"),
        Err("send data err sending on a disconnected channel".to_string())
    );
}

#[test]
fn command_line_ends_with_line_break() {
    assert_eq!(command_line("say hi"), "say hi\r\n");
    assert_eq!(command_line(""), "\r\n");
}

#[test]
fn send_cmd_reaches_console() {
    let mut g: GameServer<()> = GameServer::build();
    let mut status = false;
    let (pipes, answer) = start_game(&mut g, &mut status, ());
    assert!(status);
    assert_eq!(answer.code, 0);
    assert_eq!(answer.msg, "ok");
    let r = send_cmd(&mut g, &SendCmdReq { cmd: "say hi".to_string() });
    assert_eq!(r.code, 0);
    assert_eq!(r.msg, "ok");
    assert_eq!(pipes.input.end().try_recv().unwrap(), "say hi\r\n");
}

#[test]
fn send_cmd_reports_gone_console() {
    let mut g: GameServer<()> = GameServer::build();
    let mut status = false;
    let (pipes, _) = start_game(&mut g, &mut status, ());
    drop(pipes.input);
    let r = send_cmd(&mut g, &SendCmdReq { cmd: "save".to_string() });
    assert_eq!(r.code, -1);
    assert_eq!(r.msg, "发送命令失败 {} \"send data err sending on a disconnected channel\"");
    assert!(r.data.is_none());
}

#[test]
fn send_cmd_answer_escapes_error() {
    let r = send_cmd_answer(Err("a\"b\n".to_string()));
    assert_eq!(r.code, -1);
    assert_eq!(r.msg, "发送命令失败 {} \"a\\\"b\\n\"");
    let ok = send_cmd_answer(Ok(()));
    assert_eq!(ok.code, 0);
}

#[test]
fn stop_game_clears_status() {
    let mut g: GameServer<()> = GameServer::build();
    let mut status = false;
    let (pipes, _) = start_game(&mut g, &mut status, ());
    let (r, sent) = stop_game(&mut g, &mut status);
    assert!(!status);
    assert_eq!(r.code, 0);
    assert_eq!(r.msg, "ok");
    assert_eq!(sent, Ok(()));
    assert_eq!(pipes.input.end().try_recv().unwrap(), "exit\r\n");
    // the game still holds its channels: stopping only asks the process to quit
    assert!(g.get_send().is_some());
}

#[test]
fn stop_game_before_start_is_ok() {
    let mut g: GameServer<()> = GameServer::build();
    let mut status = true;
    let (r, sent) = stop_game(&mut g, &mut status);
    assert!(!status);
    assert_eq!(r.code, 0);
    assert_eq!(sent, Ok(()));
}

#[test]
fn get_config_reports_settings_and_status() {
    let c = EditConfig {
        max_player: 4,
        port: 7777,
        password: String::new(),
        word_size: 1,
        word_name: "w".to_string(),
        difficulty: 0,
        message: String::new(),
    };
    let r = get_config(Some(c), true);
    assert_eq!(r.code, 0);
    assert_eq!(r.msg, "ok");
    let d = r.data.unwrap();
    assert!(d.game_status);
    assert_eq!(d.config.max_player, 4);
    assert_eq!(d.config.word_name, "w");
}

#[test]
fn get_config_without_file() {
    let r = get_config(None, false);
    assert_eq!(r.code, -1);
    assert_eq!(r.msg, "no conf found");
    assert!(r.data.is_none());
}

#[test]
fn client_text_reaches_console() {
    let mut g: GameServer<()> = GameServer::build();
    let pipes = g.start_game(());
    let mut console = g.get_send().unwrap();
    assert_eq!(client_message(&mut console, ClientEvent::Text("say hi".to_string())), (true, Some(Ok(()))));
    assert_eq!(pipes.input.end().try_recv().unwrap(), "say hi");
    assert_eq!(client_message(&mut console, ClientEvent::NotText), (true, None));
    assert!(pipes.input.end().try_recv().is_err());
    assert_eq!(client_message(&mut console, ClientEvent::Failed), (false, None));
    assert_eq!(client_message(&mut console, ClientEvent::Closed), (false, None));
    drop(pipes);
    drop(g);
    assert_eq!(
        client_message(&mut console, ClientEvent::Text("lost".to_string())),
        (true, Some(Err("sending on a disconnected channel".to_string())))
    );
}

#[test]
fn send_result_prefixes_error() {
    assert_eq!(send_result(Ok(())), Ok(()));
    assert_eq!(send_result(Err("boom".to_string())), Err("send data err boom".to_string()));
}

#[test]
fn relay_step_decides_each_event() {
    assert_eq!(relay_step(ClientEvent::Text("help".to_string())), (Some("help".to_string()), true));
    assert_eq!(relay_step(ClientEvent::NotText), (None, true));
    assert_eq!(relay_step(ClientEvent::Failed), (None, false));
    assert_eq!(relay_step(ClientEvent::Closed), (None, false));
}

#[test]
fn output_line_forwards_lines_until_end() {
    assert_eq!(output_line(LineRead::Line("Terraria Server\n".to_string())), Some("Terraria Server\n".to_string()));
    assert_eq!(output_line(LineRead::EndOfFile), None);
    assert_eq!(output_line(LineRead::Failed), None);
}

#[test]
fn pump_output_reaches_panel() {
    let mut g: GameServer<()> = GameServer::build();
    let mut pipes = g.start_game(());
    let panel = g.get_recv().unwrap();
    assert_eq!(pump_output(&mut pipes.output, LineRead::Line("Listening on port 7777\n".to_string())), Some(Ok(())));
    assert_eq!(panel.end().try_recv().unwrap(), "Listening on port 7777\n");
    assert_eq!(pump_output(&mut pipes.output, LineRead::EndOfFile), None);
    assert_eq!(pump_output(&mut pipes.output, LineRead::Failed), None);
    assert!(panel.end().try_recv().is_err());
    drop(panel);
    drop(g);
    assert_eq!(
        pump_output(&mut pipes.output, LineRead::Line("x\n".to_string())),
        Some(Err("sending on a disconnected channel".to_string()))
    );
}

#[test]
fn start_handler_wires_the_game_channels() {
    let mut g: GameServer<()> = GameServer::build();
    let mut status = false;
    let (mut pipes, _) = start_game(&mut g, &mut status, ());
    assert_eq!(pump_output(&mut pipes.output, LineRead::Line("ready\n".to_string())), Some(Ok(())));
    assert_eq!(g.get_recv().unwrap().end().try_recv().unwrap(), "ready\n");
    assert_eq!(g.send_data("help\r\n"), Ok(()));
    assert_eq!(pipes.input.end().try_recv().unwrap(), "help\r\n");
}
