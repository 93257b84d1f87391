use wq_server::app::task::Task;
use wq_server::json::JsonValue;
use wq_server::routes::demo::{new_demo_task, DemoTaskPayload};
use wq_server::routes::openapi::{
    swagger_response, swagger_ui_handler_catch_all, swagger_ui_handler_root,
    swagger_ui_handler_root_redirect, SwaggerFile, SwaggerUICatchAllParams,
};
use wq_server::routes::root;
use wq_server::routes::status::ping;
use wq_server::utils::error::{error_handler, HTTPError};
use wq_server::utils::error_code::{AsStr, ErrorCode};
use wq_server::utils::pavex::{json_response, json_response_with_status, HttpResponse, ResponseBody};

fn is_success(r: &HttpResponse) -> bool {
    match &r.body {
        ResponseBody::Json(JsonValue::Object(entries)) => {
            entries.len() == 1 && entries[0].0 == "success" && matches!(entries[0].1, JsonValue::Bool(true))
        }
        _ => false,
    }
}

#[test]
fn root_answers_success() {
    let r = root();
    assert_eq!(r.status, 200);
    assert!(r.headers.is_empty());
    assert!(is_success(&r));
}

#[test]
fn ping_is_ok() {
    assert_eq!(ping(), 200);
}

#[test]
fn json_responses_carry_status_and_body() {
    let r = json_response_with_status(418, JsonValue::Null);
    assert_eq!(r.status, 418);
    assert!(matches!(r.body, ResponseBody::Json(JsonValue::Null)));
    let r = json_response(JsonValue::Bool(true));
    assert_eq!(r.status, 200);
}

#[test]
fn demo_hands_over_the_message() {
    let (task, answer) = new_demo_task(DemoTaskPayload { msg: "hi".to_string() });
    match &task {
        Task::Demo(m) => assert_eq!(m, "hi"),
    }
    assert_eq!(task.report(), "New Demo Task: hi");
    assert!(is_success(&answer));
}

#[test]
fn error_codes_name_themselves() {
    assert_eq!(ErrorCode::E40001.as_str(), "E40001");
    assert_eq!(ErrorCode::E50001.as_str(), "E50001");
    assert_eq!(ErrorCode::E50002.to_text(), "E50002");
}

#[test]
fn http_error_describes_itself() {
    let e = HTTPError::bad_request(ErrorCode::E40001, "bad input".to_string(), None);
    assert_eq!(e.to_text(), "An error occurred: code=E40001 message=bad input");
}

#[test]
fn error_constructors_set_the_status() {
    let e = HTTPError::bad_request(ErrorCode::E40001, "bad".to_string(), None);
    assert_eq!(e.status, 400);
    let e = HTTPError::internal_server_error(ErrorCode::E50001, "boom".to_string(), Some("cause".to_string()));
    assert_eq!(e.status, 500);
    assert_eq!(e.source.as_deref(), Some("cause"));
    let e = HTTPError::new(503, ErrorCode::E50001, "down".to_string(), None);
    let r = error_handler(&e);
    assert_eq!(r.status, 503);
}

#[test]
fn swagger_redirects_to_its_root() {
    let r = swagger_ui_handler_root_redirect();
    assert_eq!(r.status, 308);
    assert_eq!(r.headers, vec![("Location".to_string(), "/swagger/".to_string())]);
    assert!(matches!(r.body, ResponseBody::Empty));
}

#[test]
fn swagger_root_serves_its_page() {
    let r = swagger_ui_handler_root().ok().expect("served");
    assert_eq!(r.status, 200);
    assert_eq!(r.headers[0].0, "Content-Type");
    assert!(r.headers[0].1.starts_with("text/html"));
    match r.body {
        ResponseBody::Raw(bytes) => assert!(!bytes.is_empty()),
        _ => panic!("raw bytes expected"),
    }
}

#[test]
fn swagger_unknown_file_is_not_found() {
    let r = swagger_ui_handler_catch_all(SwaggerUICatchAllParams { path: "no-such-file.txt".to_string() })
        .ok()
        .expect("answered");
    assert_eq!(r.status, 404);
    assert!(matches!(r.body, ResponseBody::Empty));
}

#[test]
fn swagger_initializer_points_at_the_openapi_document() {
    let r = swagger_ui_handler_catch_all(SwaggerUICatchAllParams { path: "swagger-initializer.js".to_string() })
        .ok()
        .expect("served");
    match r.body {
        ResponseBody::Raw(bytes) => {
            let text = String::from_utf8(bytes).expect("utf-8");
            assert!(text.contains("/openapi.json"));
        }
        _ => panic!("raw bytes expected"),
    }
}

#[test]
fn swagger_failure_is_an_internal_error() {
    let e = swagger_response(Err("broken".to_string())).err().expect("an error");
    assert_eq!(e.status, 500);
    assert!(e.code == ErrorCode::E50002);
    assert_eq!(e.message, "Failed to serve Swagger UI");
    assert_eq!(e.source.as_deref(), Some("swagger error: broken"));
    let r = swagger_response(Ok(Some(SwaggerFile { content_type: "text/css".to_string(), bytes: vec![1, 2] })))
        .ok()
        .expect("served");
    assert_eq!(r.headers, vec![("Content-Type".to_string(), "text/css".to_string())]);
}
