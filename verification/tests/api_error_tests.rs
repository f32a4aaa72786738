use blog_backend::api_error::{error_chain_contains, ApiError, ErrorKind};

fn chain(messages: &[&str]) -> Vec<String> {
    messages.iter().map(|m| m.to_string()).collect()
}

#[test]
fn each_kind_has_its_status() {
    assert_eq!(ApiError::new(ErrorKind::InvalidCredentials, "x").status_code(), 401);
    assert_eq!(ApiError::new(ErrorKind::AccountLocked { retry_after: 5 }, "x").status_code(), 423);
    assert_eq!(ApiError::new(ErrorKind::InvalidOrExpiredToken, "x").status_code(), 401);
    assert_eq!(ApiError::new(ErrorKind::Unauthenticated, "x").status_code(), 401);
    assert_eq!(ApiError::new(ErrorKind::Forbidden, "x").status_code(), 403);
    assert_eq!(ApiError::new(ErrorKind::Conflict, "x").status_code(), 409);
    assert_eq!(ApiError::new(ErrorKind::NotFound, "x").status_code(), 404);
    assert_eq!(ApiError::new(ErrorKind::ValidationError, "x").status_code(), 400);
    assert_eq!(ApiError::new(ErrorKind::InternalError, "x").status_code(), 500);
}

#[test]
fn responses_hide_causes_of_token_and_internal_errors() {
    let (status, text) = ApiError::new(ErrorKind::InvalidOrExpiredToken, "signature mismatch").into_response();
    assert_eq!(status, 401);
    assert_eq!(text, "认证失败或Token无效");
    let (status, text) = ApiError::new(ErrorKind::InternalError, "connection refused").into_response();
    assert_eq!(status, 500);
    assert_eq!(text, "内部服务器错误,请稍候再试");
    let (status, text) = ApiError::new(ErrorKind::Forbidden, "权限不足").into_response();
    assert_eq!(status, 403);
    assert_eq!(text, "权限不足");
    let (status, text) = ApiError::new(ErrorKind::Conflict, "用户名已被占用").into_response();
    assert_eq!(status, 409);
    assert_eq!(text, "用户名已被占用");
}

#[test]
fn error_text_and_kind_are_kept() {
    let e = ApiError::new(ErrorKind::NotFound, "未找到");
    assert_eq!(e.kind(), ErrorKind::NotFound);
    assert_eq!(e.to_string(), "未找到");
}

#[test]
fn keywords_are_found_in_any_message_of_the_chain() {
    let messages = chain(&["Service 未能创建分类", "Duplicate key: NOT FOUND in index"]);
    assert!(error_chain_contains(&messages, "not found"));
    assert!(error_chain_contains(&messages, "分类"));
    assert!(!error_chain_contains(&messages, "NOT FOUND"));
    assert!(!error_chain_contains(&messages, "permission"));
    assert!(!error_chain_contains(&Vec::new(), "x"));
    assert!(error_chain_contains(&messages, ""));
    assert!(!error_chain_contains(&Vec::new(), ""));
}

#[test]
fn chains_are_classified_in_order() {
    let e = ApiError::from_chain(&chain(&["需要提供Bearer token"]), false);
    assert_eq!(e.kind, ErrorKind::InvalidOrExpiredToken);
    assert_eq!(e.status_code(), 401);

    let e = ApiError::from_chain(&chain(&["无效的 token", "无效或过期的 Token: ExpiredSignature"]), false);
    assert_eq!(e.kind, ErrorKind::InvalidOrExpiredToken);

    let e = ApiError::from_chain(&chain(&["权限不足"]), false);
    assert_eq!(e.kind, ErrorKind::Forbidden);
    assert_eq!(e.message, "权限不足");

    let e = ApiError::from_chain(&chain(&["您只能分享自己的草稿"]), true);
    assert_eq!(e.kind, ErrorKind::Forbidden);
    assert_eq!(e.message, "您只能分享自己的草稿");

    let e = ApiError::from_chain(&chain(&["insert failed"]), true);
    assert_eq!(e.kind, ErrorKind::Conflict);
    assert_eq!(e.message, "记录已存在或与现有数据冲突");

    let e = ApiError::from_chain(&chain(&["用户名 'alice' 已被占用"]), false);
    assert_eq!(e.kind, ErrorKind::Conflict);
    assert_eq!(e.message, "用户名 'alice' 已被占用");

    let e = ApiError::from_chain(&chain(&["未找到 ID 为 7 的帖子"]), false);
    assert_eq!(e.kind, ErrorKind::NotFound);

    let e = ApiError::from_chain(&chain(&["outer", "row Not Found"]), false);
    assert_eq!(e.kind, ErrorKind::NotFound);
    assert_eq!(e.message, "outer");

    let e = ApiError::from_chain(&chain(&["新密码与确认密码不匹配"]), false);
    assert_eq!(e.kind, ErrorKind::ValidationError);

    let e = ApiError::from_chain(&chain(&["无效的分类 ID：9", "未找到"]), false);
    assert_eq!(e.kind, ErrorKind::NotFound);

    let e = ApiError::from_chain(&chain(&["connection reset"]), false);
    assert_eq!(e.kind, ErrorKind::InternalError);

    let e = ApiError::from_chain(&Vec::new(), false);
    assert_eq!(e.kind, ErrorKind::InternalError);
    assert_eq!(e.message, "");
}
