use fetcher::error::OpError;
use fetcher::fetch::{check_status, plan_request, post_body, resolve_method, response_content,
    HttpMethod};

#[test]
fn resolve_method_accepts_post_in_any_case() {
    assert_eq!(resolve_method("POST"), HttpMethod::Post);
    assert_eq!(resolve_method("post"), HttpMethod::Post);
    assert_eq!(resolve_method("Post"), HttpMethod::Post);
    assert_eq!(resolve_method("PoSt"), HttpMethod::Post);
}

#[test]
fn resolve_method_falls_back_to_get() {
    assert_eq!(resolve_method("GET"), HttpMethod::Get);
    assert_eq!(resolve_method("get"), HttpMethod::Get);
    assert_eq!(resolve_method("Get"), HttpMethod::Get);
    assert_eq!(resolve_method(""), HttpMethod::Get);
    assert_eq!(resolve_method("PUT"), HttpMethod::Get);
    assert_eq!(resolve_method("put"), HttpMethod::Get);
    assert_eq!(resolve_method("DELETE"), HttpMethod::Get);
    assert_eq!(resolve_method("POS"), HttpMethod::Get);
    assert_eq!(resolve_method("POSTS"), HttpMethod::Get);
    assert_eq!(resolve_method(" POST"), HttpMethod::Get);
}

#[test]
fn post_body_renders_ids_in_order() {
    let ids: Vec<i32> = vec![1, 2, 3];
    assert_eq!(post_body(&ids), "{\"file_ids\":[1,2,3]}");
}

#[test]
fn post_body_empty_list() {
    let ids: Vec<i32> = vec![];
    assert_eq!(post_body(&ids), "{\"file_ids\":[]}");
}

#[test]
fn post_body_single_id() {
    let ids: Vec<i32> = vec![0];
    assert_eq!(post_body(&ids), "{\"file_ids\":[0]}");
}

#[test]
fn post_body_negative_and_extreme_ids() {
    let ids: Vec<i32> = vec![-5, 0, i32::MIN, i32::MAX];
    assert_eq!(post_body(&ids), "{\"file_ids\":[-5,0,-2147483648,2147483647]}");
}

#[test]
fn post_body_matches_reference_json_encoder() {
    let ids: Vec<i32> = vec![3, -1, 42, 1000];
    let body = post_body(&ids);
    let mut object = serde_json::Map::new();
    let array: Vec<serde_json::Value> = ids.iter().map(|i| serde_json::Value::from(*i)).collect();
    object.insert("file_ids".to_string(), serde_json::Value::Array(array));
    let reference = serde_json::to_string(&serde_json::Value::Object(object)).unwrap();
    assert_eq!(body, reference);
}

#[test]
fn plan_request_non_post_has_no_body() {
    let ids: Vec<i32> = vec![1, 2];
    let plan = plan_request("GET", &ids);
    assert_eq!(plan.method, HttpMethod::Get);
    assert!(plan.body.is_none());
    let plan = plan_request("put", &ids);
    assert_eq!(plan.method, HttpMethod::Get);
    assert!(plan.body.is_none());
}

#[test]
fn plan_request_post_carries_exact_body() {
    let ids: Vec<i32> = vec![7, 8];
    let plan = plan_request("post", &ids);
    assert_eq!(plan.method, HttpMethod::Post);
    assert_eq!(plan.body.unwrap(), "{\"file_ids\":[7,8]}");
}

#[test]
fn check_status_accepts_exactly_the_success_range() {
    assert!(check_status(200).is_ok());
    assert!(check_status(204).is_ok());
    assert!(check_status(299).is_ok());
    assert!(check_status(199).is_err());
    assert!(check_status(300).is_err());
    assert!(check_status(404).is_err());
    assert!(check_status(500).is_err());
    assert!(check_status(0).is_err());
}

#[test]
fn response_content_passes_body_through_on_success() {
    let body: Vec<u8> = vec![0, 159, 146, 150, 255];
    let out = response_content(200, body.clone());
    assert_eq!(out.unwrap(), body);
}

#[test]
fn response_content_rejects_error_status() {
    let out = response_content(404, vec![1, 2, 3]);
    assert!(matches!(out, Err(OpError::Status(404))));
}

#[test]
fn status_error_message_embeds_the_code() {
    let message = OpError::Status(404).message();
    assert!(message.contains("404"));
    assert_eq!(message, "server returned error status 404");
    assert_eq!(OpError::Status(500).message(), "server returned error status 500");
}

#[test]
fn error_messages_by_category() {
    assert_eq!(
        OpError::Transport("connection refused".to_string()).message(),
        "transport error: connection refused"
    );
    assert_eq!(
        OpError::BodyRead("reset by peer".to_string()).message(),
        "failed to read response body: reset by peer"
    );
    assert_eq!(
        OpError::Filesystem("permission denied".to_string()).message(),
        "filesystem error: permission denied"
    );
    assert_eq!(
        OpError::Launch("command not found".to_string()).message(),
        "could not open file browser: command not found"
    );
    assert_eq!(OpError::NotText.message(), "file content is not valid UTF-8 text");
}
