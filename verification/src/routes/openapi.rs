//! The Swagger UI that documents the API.

use vstd::prelude::*;
use crate::utils::error::HTTPError;
use crate::utils::error_code::ErrorCode;
use crate::utils::pavex::{
    headers_view, BodyView, HttpResponse, ResponseBody, STATUS_INTERNAL_SERVER_ERROR,
    STATUS_NOT_FOUND, STATUS_OK, STATUS_PERMANENT_REDIRECT,
};

verus! {

/// Where the Swagger UI lives.
pub open spec fn swagger_root_view() -> Seq<char> {
    "/swagger/"@
}

/// `/swagger`: a permanent redirect (`308`) to `/swagger/`.
pub fn swagger_ui_handler_root_redirect() -> (r: HttpResponse)
    ensures
        r.status == STATUS_PERMANENT_REDIRECT,
        headers_view(r.headers@) == seq![("Location"@, swagger_root_view())],
        r.body@ == BodyView::Empty,
{
    proof {
        reveal_strlit("Location");
        reveal_strlit("/swagger/");
    }
    let mut headers: Vec<(String, String)> = Vec::new();
    headers.push((String::from_str("Location"), String::from_str("/swagger/")));
    assert(headers_view(headers@) =~= seq![("Location"@, swagger_root_view())]);
    HttpResponse { status: STATUS_PERMANENT_REDIRECT, headers, body: ResponseBody::Empty }
}

/// The path under `/swagger/` that a request asks for.
pub struct SwaggerUICatchAllParams {
    pub path: String,
}

/// A file of the Swagger UI: its content type and its bytes.
pub struct SwaggerFile {
    pub content_type: String,
    pub bytes: Vec<u8>,
}

/// What serving a Swagger UI path gives, as plain values: a file (content
/// type and bytes), no file, or the text of an error.
pub type ServedView = Result<Option<(Seq<char>, Seq<u8>)>, Seq<char>>;

/// What `utoipa_swagger_ui::serve` gives for a path with the Swagger UI
/// configured to document the OpenAPI document at `config_url`.
pub uninterp spec fn swagger_ui_served(path: Seq<char>, config_url: Seq<char>) -> ServedView;

/// The plain value of what serving a path gave.
pub open spec fn served_view(served: Result<Option<SwaggerFile>, String>) -> ServedView {
    match served {
        Ok(Some(f)) => Ok(Some((f.content_type@, f.bytes@))),
        Ok(None) => Ok(None),
        Err(e) => Err(e@),
    }
}

/// Calls `utoipa_swagger_ui::serve` with a `utoipa_swagger_ui::Config` made
/// from `config_url`. The embedded Swagger UI files and the configuration
/// are fixed, so what comes back is a function of the two arguments; it is
/// named, not described.
#[verifier::external_body]
fn serve_swagger(path: &str, config_url: &str) -> (r: Result<Option<SwaggerFile>, String>)
    ensures
        served_view(r) == swagger_ui_served(path@, config_url@),
{
    let config = utoipa_swagger_ui::Config::from(config_url);
    match utoipa_swagger_ui::serve(path, std::sync::Arc::new(config)) {
        Ok(Some(file)) => Ok(Some(SwaggerFile { content_type: file.content_type, bytes: file.bytes.to_vec() })),
        Ok(None) => Ok(None),
        Err(e) => Err(e.to_string()),
    }
}

/// Where the Swagger UI finds the OpenAPI document.
pub open spec fn openapi_url_view() -> Seq<char> {
    "/openapi.json"@
}

/// The message of the error that a failure to serve the Swagger UI answers.
pub open spec fn swagger_failure_message() -> Seq<char> {
    "Failed to serve Swagger UI"@
}

/// The source of that error: the failure's text.
pub open spec fn swagger_failure_source(err: Seq<char>) -> Seq<char> {
    "swagger error: "@ + err
}

/// `r` answers what serving a Swagger UI path gave: a file is `200 OK` with
/// its content type and bytes, no file is `404 Not Found`, and a failure is a
/// `500` error of code `E50002`.
pub open spec fn answers_swagger(r: Result<HttpResponse, HTTPError>, served: ServedView) -> bool {
    match served {
        Ok(Some((content_type, bytes))) => r matches Ok(resp) && {
            &&& resp.status == STATUS_OK
            &&& headers_view(resp.headers@) == seq![("Content-Type"@, content_type)]
            &&& resp.body@ == BodyView::Raw(bytes)
        },
        Ok(None) => r matches Ok(resp) && {
            &&& resp.status == STATUS_NOT_FOUND
            &&& resp.headers@.len() == 0
            &&& resp.body@ == BodyView::Empty
        },
        Err(e) => r matches Err(err) && err.has(
            STATUS_INTERNAL_SERVER_ERROR,
            ErrorCode::E50002,
            swagger_failure_message(),
            Some(swagger_failure_source(e)),
        ),
    }
}

/// The answer for what serving a Swagger UI path gave.
pub fn swagger_response(served: Result<Option<SwaggerFile>, String>) -> (r: Result<HttpResponse, HTTPError>)
    ensures
        answers_swagger(r, served_view(served)),
{
    proof {
        reveal_strlit("Content-Type");
        reveal_strlit("Failed to serve Swagger UI");
        reveal_strlit("swagger error: ");
    }
    match served {
        Ok(Some(file)) => {
            let mut headers: Vec<(String, String)> = Vec::new();
            let ghost content_type = file.content_type@;
            headers.push((String::from_str("Content-Type"), file.content_type));
            assert(headers_view(headers@) =~= seq![("Content-Type"@, content_type)]);
            Ok(HttpResponse { status: STATUS_OK, headers, body: ResponseBody::Raw(file.bytes) })
        },
        Ok(None) => Ok(HttpResponse { status: STATUS_NOT_FOUND, headers: Vec::new(), body: ResponseBody::Empty }),
        Err(err) => {
            let mut source = String::from_str("swagger error: ");
            source.append(err.as_str());
            Err(
                HTTPError::internal_server_error(
                    ErrorCode::E50002,
                    String::from_str("Failed to serve Swagger UI"),
                    Some(source),
                ),
            )
        },
    }
}

/// Serves the Swagger UI file at `path`, configured to document `/openapi.json`.
fn swagger_ui_handler(path: &str) -> (r: Result<HttpResponse, HTTPError>)
    ensures
        answers_swagger(r, swagger_ui_served(path@, openapi_url_view())),
        answers_swagger(r, swagger_ui_served(path@, "/openapi.json"@)),
{
    proof {
        reveal_strlit("/openapi.json");
    }
    swagger_response(serve_swagger(path, "/openapi.json"))
}

/// `/swagger/`: the Swagger UI's entry page.
pub fn swagger_ui_handler_root() -> (r: Result<HttpResponse, HTTPError>)
    ensures
        answers_swagger(r, swagger_ui_served(Seq::empty(), openapi_url_view())),
        answers_swagger(r, swagger_ui_served(Seq::empty(), "/openapi.json"@)),
{
    proof {
        reveal_strlit("");
        assert(""@ =~= Seq::<char>::empty());
    }
    swagger_ui_handler("")
}

/// `/swagger/*path`: a file of the Swagger UI.
pub fn swagger_ui_handler_catch_all(params: SwaggerUICatchAllParams) -> (r: Result<HttpResponse, HTTPError>)
    ensures
        answers_swagger(r, swagger_ui_served(params.path@, openapi_url_view())),
        answers_swagger(r, swagger_ui_served(params.path@, "/openapi.json"@)),
{
    swagger_ui_handler(params.path.as_str())
}

} // verus!
