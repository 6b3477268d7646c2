use terraria_server::text::{chars_of, contains_text, i32_text};
use terraria_server::web::model::Response;

#[test]
fn response_new_keeps_parts() {
    let r: Response<u8> = Response::new(7, "note".to_string(), Some(3));
    assert_eq!(r.code, 7);
    assert_eq!(r.msg, "note");
    assert_eq!(r.data, Some(3));
}

#[test]
fn response_ok_carries_data() {
    let r = Response::ok(vec![1, 2]);
    assert_eq!(r.code, 0);
    assert_eq!(r.msg, "ok");
    assert_eq!(r.data, Some(vec![1, 2]));
}

#[test]
fn response_ok2_has_no_data() {
    let r: Response<String> = Response::ok2();
    assert_eq!(r.code, 0);
    assert_eq!(r.msg, "ok");
    assert!(r.data.is_none());
}

#[test]
fn response_err_keeps_note() {
    let r: Response<String> = Response::err("no conf found");
    assert_eq!(r.code, -1);
    assert_eq!(r.msg, "no conf found");
    assert!(r.data.is_none());
}

#[test]
fn response_err2_joins_note_and_error() {
    let r: Response<String> = Response::err2("文件创建失败", "Os { code: 2 }");
    assert_eq!(r.code, -1);
    assert_eq!(r.msg, "文件创建失败 Os { code: 2 }");
    assert!(r.data.is_none());
}

#[test]
fn decimal_text_matches_to_string() {
    for i in [0, 7, 9, 10, 42, 100, 2019, -1, -5, -10, -7777, i32::MAX, i32::MIN] {
        assert_eq!(i32_text(i), i.to_string());
    }
}

#[test]
fn chars_of_keeps_order() {
    assert_eq!(chars_of("a语b"), vec!['a', '语', 'b']);
    assert!(chars_of("").is_empty());
}

#[test]
fn substring_search() {
    assert!(contains_text("/api/config", "api"));
    assert!(contains_text("/api/ws", "ws"));
    assert!(!contains_text("/", "api"));
    assert!(!contains_text("ap", "api"));
    assert!(contains_text("", ""));
    assert!(contains_text("abc", ""));
    assert!(contains_text("xxapi", "api"));
    assert!(!contains_text("a-p-i", "api"));
    assert!(contains_text("服务api", "api"));
}
