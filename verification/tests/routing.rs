use wq_server::server::{build_router, route_request, HttpMethod, Route};

fn allowed(r: &Route) -> Vec<&'static str> {
    match r {
        Route::Fallback(ms) => ms
            .iter()
            .map(|m| match m {
                HttpMethod::Get => "GET",
                HttpMethod::Post => "POST",
                _ => "OTHER",
            })
            .collect(),
        _ => panic!("not the fallback"),
    }
}

#[test]
fn routes_dispatch_by_path_and_method() {
    let router = build_router();
    assert!(matches!(route_request(&router, "/", &HttpMethod::Get), Route::Root));
    assert!(matches!(route_request(&router, "/api/ingest", &HttpMethod::Post), Route::Ingest));
    assert!(matches!(route_request(&router, "/api/ping", &HttpMethod::Get), Route::Ping));
}

#[test]
fn wrong_method_falls_back_with_the_allowed_one() {
    let router = build_router();
    assert_eq!(allowed(&route_request(&router, "/api/ingest", &HttpMethod::Get)), vec!["POST"]);
    assert_eq!(allowed(&route_request(&router, "/", &HttpMethod::Delete)), vec!["GET"]);
    assert_eq!(
        allowed(&route_request(&router, "/api/ping", &HttpMethod::Extension("BREW".to_string()))),
        vec!["GET"]
    );
}

#[test]
fn unknown_path_falls_back_with_no_method() {
    let router = build_router();
    assert!(allowed(&route_request(&router, "/nope", &HttpMethod::Get)).is_empty());
    assert!(allowed(&route_request(&router, "/api/ping/", &HttpMethod::Get)).is_empty());
    assert!(allowed(&route_request(&router, "", &HttpMethod::Get)).is_empty());
}

#[test]
fn demo_path_is_no_route() {
    let router = build_router();
    assert!(allowed(&route_request(&router, "/demo", &HttpMethod::Post)).is_empty());
    assert!(allowed(&route_request(&router, "/demo", &HttpMethod::Get)).is_empty());
}

#[test]
fn openapi_document_takes_get_only() {
    let router = build_router();
    assert!(matches!(route_request(&router, "/openapi.json", &HttpMethod::Get), Route::OpenApi));
    assert_eq!(allowed(&route_request(&router, "/openapi.json", &HttpMethod::Post)), vec!["GET"]);
}

#[test]
fn swagger_routes_take_any_method() {
    let router = build_router();
    assert!(matches!(route_request(&router, "/swagger", &HttpMethod::Post), Route::SwaggerRedirect));
    assert!(matches!(route_request(&router, "/swagger/", &HttpMethod::Delete), Route::SwaggerRoot));
    match route_request(&router, "/swagger/index.html", &HttpMethod::Get) {
        Route::SwaggerFile(p) => assert_eq!(p, "index.html"),
        _ => panic!("a Swagger UI file"),
    }
    match route_request(&router, "/swagger/a/b.css", &HttpMethod::Put) {
        Route::SwaggerFile(p) => assert_eq!(p, "a/b.css"),
        _ => panic!("a Swagger UI file"),
    }
    assert!(allowed(&route_request(&router, "/swaggerx", &HttpMethod::Get)).is_empty());
}
