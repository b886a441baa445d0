use erudition::routes::{auth, handle_internal_error, put_item, request_log_line, Response};
use erudition::shared::SessionId;

#[test]
fn auth_answers() {
    assert_eq!(auth(None), Response::Unauthorized);
    assert_eq!(auth(None).status(), 401);
    let id = SessionId("abc".to_string());
    assert_eq!(auth(Some(id.clone())), Response::SessionCookie(id));
}

#[test]
fn internal_error_answers() {
    assert_eq!(handle_internal_error(true), Response::Success);
    assert_eq!(handle_internal_error(true).status(), 200);
    assert_eq!(handle_internal_error(false), Response::InternalServerError);
    assert_eq!(handle_internal_error(false).status(), 500);
}

#[test]
fn put_item_answers() {
    assert_eq!(put_item(None), Response::BadRequest("Index is not valid".to_string()));
    assert_eq!(put_item(None).status(), 400);
    assert_eq!(put_item(Some(true)), Response::Success);
    assert_eq!(put_item(Some(false)), Response::InternalServerError);
}

#[test]
fn request_log_lines() {
    let params = vec![
        ("state".to_string(), "ServerState".to_string()),
        ("index".to_string(), "123".to_string()),
        ("item".to_string(), "Json(x)".to_string()),
    ];
    assert_eq!(
        request_log_line("put", 400, "/item/{index}", &params),
        "\x1b[36mput  400 (/item/{index}) [index: 123] [item: Json(x)]\x1b[0m"
    );
    assert_eq!(request_log_line("post", 200, "/login", &[]), "\x1b[36mpost 200 (/login)\x1b[0m");
    assert_eq!(request_log_line("get", 7, "/", &[]), "\x1b[36mget  7 (/)\x1b[0m");
}
