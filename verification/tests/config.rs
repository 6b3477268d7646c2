use terraria_server::infra::conf::{server_config_text, write_data, SaveOutcome};
use terraria_server::web::handle::{edit_config, server_config_saved};
use terraria_server::web::model::EditConfig;

fn settings() -> EditConfig {
    EditConfig {
        max_player: 8,
        port: 7777,
        password: "secret".to_string(),
        word_size: 2,
        word_name: "大世界".to_string(),
        difficulty: -1,
        message: "hello".to_string(),
    }
}

#[test]
fn server_config_text_is_the_template() {
    let expected = "# 服务器配置，请不要直接修改\nworld=/home/xiaoyou/game/terraria/world/main.wld\nmaxplayers=8\nport=7777\npassword=secret\nautocreate=2\nworldname=大世界\ndifficulty=-1\nmotd=hello\nlanguage=zh-Hans\nupnp=1";
    assert_eq!(server_config_text(&settings()), expected);
}

#[test]
fn server_config_text_matches_format() {
    let c = settings();
    let expected = format!("# 服务器配置，请不要直接修改\nworld=/home/xiaoyou/game/terraria/world/main.wld\nmaxplayers={}\nport={}\npassword={}\nautocreate={}\nworldname={}\ndifficulty={}\nmotd={}\nlanguage=zh-Hans\nupnp=1",
        c.max_player, c.port, c.password, c.word_size, c.word_name, c.difficulty, c.message);
    assert_eq!(server_config_text(&c), expected);
}

#[test]
fn failed_create_is_reported() {
    let r = write_data(SaveOutcome::CreateFailed("Os { code: 13 }".to_string()));
    assert_eq!(r.code, -1);
    assert_eq!(r.msg, "文件创建失败 Os { code: 13 }");
    assert!(r.data.is_none());
}

#[test]
fn failed_sync_is_reported() {
    let r = write_data(SaveOutcome::SyncFailed("E".to_string()));
    assert_eq!(r.code, -1);
    assert_eq!(r.msg, "写入文件失败 E");
}

#[test]
fn saved_file_is_ok() {
    let r = write_data(SaveOutcome::Saved);
    assert_eq!(r.code, 0);
    assert_eq!(r.msg, "ok");
    assert!(r.data.is_none());
}

#[test]
fn edit_config_goes_on_after_saving_server_config() {
    assert!(server_config_saved(SaveOutcome::Saved).is_none());
    let r = server_config_saved(SaveOutcome::CreateFailed("x".to_string())).unwrap();
    assert_eq!(r.code, -1);
    assert_eq!(r.msg, "文件创建失败 x");
}

#[test]
fn edit_config_text_for_settings() {
    let c = EditConfig {
        max_player: 8,
        port: 7777,
        password: "pw".to_string(),
        word_size: 2,
        word_name: "w1".to_string(),
        difficulty: 1,
        message: "hi".to_string(),
    };
    let text = edit_config(&c);
    assert_eq!(text, "# 服务器配置，请不要直接修改\nworld=/home/xiaoyou/game/terraria/world/main.wld\nmaxplayers=8\nport=7777\npassword=pw\nautocreate=2\nworldname=w1\ndifficulty=1\nmotd=hi\nlanguage=zh-Hans\nupnp=1");
    let lines: Vec<&str> = text.split('\n').collect();
    assert_eq!(lines.len(), 11);
    assert_eq!(lines[10], "upnp=1");
    assert_eq!(lines[4], "password=pw");
}
