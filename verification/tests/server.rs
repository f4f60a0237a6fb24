use rusttp::server::error::{method_not_allowed, not_found, panic_response, AppError, ErrorResponse};
use rusttp::server::middleware::{log_request, request_outcome, trim_trailing_slash};
use rusttp::server::routes::web::{asset_path, content_type, extension, missing_asset_message};
use rusttp::server::routes::{api, rpc};
use rusttp::server::ServerConfig;
use rusttp::telemetry::level::Level;

#[test]
fn server_config_new_sets_host_and_port() {
    let cfg = ServerConfig::new("127.0.0.1", 8080);
    assert_eq!(cfg.host, "127.0.0.1");
    assert_eq!(cfg.port, 8080);
}

#[test]
fn server_config_listen_address() {
    assert_eq!(ServerConfig::new("0.0.0.0", 3080).listen_address(), "0.0.0.0:3080");
    assert_eq!(ServerConfig::new("", 0).listen_address(), ":0");
    assert_eq!(ServerConfig::new("::1", 65535).listen_address(), "::1:65535");
}

#[test]
fn maps_status_to_outcome() {
    assert_eq!(request_outcome(200), "completed");
    assert_eq!(request_outcome(404), "rejected");
    assert_eq!(request_outcome(500), "failed");
}

#[test]
fn outcome_boundaries() {
    assert_eq!(request_outcome(399), "completed");
    assert_eq!(request_outcome(400), "rejected");
    assert_eq!(request_outcome(499), "rejected");
    assert_eq!(request_outcome(u16::MAX), "failed");
}

#[test]
fn log_request_5xx_calls_error() {
    let r = log_request(500);
    assert_eq!(r.level, Level::Error);
    assert_eq!(r.message, "request failed");
}

#[test]
fn log_request_4xx_calls_warn() {
    let r = log_request(400);
    assert_eq!(r.level, Level::Warn);
    assert_eq!(r.outcome, "rejected");
}

#[test]
fn log_request_2xx_calls_info() {
    let r = log_request(200);
    assert_eq!(r.level, Level::Info);
    assert_eq!(r.message, "request completed");
}

#[test]
fn trim_trailing_slash_non_root() {
    assert_eq!(trim_trailing_slash("/api/", None).as_deref(), Some("/api"));
}

#[test]
fn trailing_slash_keeps_query_and_spares_root() {
    assert_eq!(trim_trailing_slash("/a/b/", Some("q=1")).as_deref(), Some("/a/b?q=1"));
    assert_eq!(trim_trailing_slash("/", None), None);
    assert_eq!(trim_trailing_slash("/api", Some("x")), None);
    assert_eq!(trim_trailing_slash("//", None).as_deref(), Some("/"));
}

#[test]
fn error_response_new_creates_correct_detail() {
    let res = ErrorResponse::new(404, "test message".to_string());
    assert_eq!(res.error.status, 404);
    assert_eq!(res.error.message, "test message");
}

#[test]
fn panic_response_returns_500() {
    let res = panic_response();
    assert_eq!(res.error.status, 500);
    assert_eq!(res.error.message, "internal server error");
}

#[test]
fn app_error_bad_request() {
    let err = AppError::BadRequest("bad input".into());
    assert_eq!(err.status(), 400);
    assert_eq!(err.message(), "bad input");
}

#[test]
fn app_error_not_found() {
    let err = AppError::NotFound("missing".into());
    assert_eq!(err.status(), 404);
    assert_eq!(err.message(), "missing");
}

#[test]
fn app_error_internal() {
    let err = AppError::Internal("oops".into());
    assert_eq!(err.status(), 500);
    assert_eq!(err.message(), "oops");
}

#[test]
fn app_error_into_response() {
    let err = AppError::NotFound("gone".into());
    let res = err.to_error_response();
    assert_eq!(res.error.status, 404);
    assert_eq!(res.error.message, "gone");
}

#[test]
fn not_found_and_method_not_allowed_messages() {
    let r = not_found("/api/nope");
    assert_eq!(r.error.status, 404);
    assert_eq!(r.error.message, "route `/api/nope` not found");
    let r = method_not_allowed("POST", "/api/health");
    assert_eq!(r.error.status, 405);
    assert_eq!(r.error.message, "method `POST` not allowed for `/api/health`");
}

#[test]
fn content_type_returns_html_for_html() {
    assert_eq!(content_type("index.html"), "text/html; charset=utf-8");
}

#[test]
fn content_type_returns_js_for_js() {
    assert_eq!(content_type("app.js"), "application/javascript");
}

#[test]
fn content_type_returns_css_for_css() {
    assert_eq!(content_type("style.css"), "text/css; charset=utf-8");
}

#[test]
fn content_type_returns_octet_stream_for_unknown() {
    assert_eq!(content_type("file.xyz"), "application/octet-stream");
}

#[test]
fn content_type_returns_wasm_for_wasm() {
    assert_eq!(content_type("module.wasm"), "application/wasm");
}

#[test]
fn content_type_returns_json_for_json() {
    assert_eq!(content_type("data.json"), "application/json");
}

#[test]
fn content_type_returns_svg_for_svg() {
    assert_eq!(content_type("icon.svg"), "image/svg+xml");
}

#[test]
fn content_type_returns_woff2_for_woff2() {
    assert_eq!(content_type("font.woff2"), "font/woff2");
}

#[test]
fn content_type_returns_png_for_png() {
    assert_eq!(content_type("img.png"), "image/png");
}

#[test]
fn content_type_uses_last_extension_only() {
    assert_eq!(content_type("archive.tar.js"), "application/javascript");
    assert_eq!(content_type("lib.mjs"), "application/javascript");
    assert_eq!(content_type("favicon.ico"), "image/x-icon");
    assert_eq!(content_type("notes.txt"), "text/plain; charset=utf-8");
    assert_eq!(content_type("css"), "text/css; charset=utf-8");
    assert_eq!(content_type("dir.html/file"), "application/octet-stream");
    assert_eq!(extension("a.b.c"), "c");
    assert_eq!(extension("trailing."), "");
    assert_eq!(extension("noext"), "noext");
}

#[test]
fn asset_path_strips_leading_slashes() {
    assert_eq!(asset_path("/app.js"), "app.js");
    assert_eq!(asset_path("///a/b"), "a/b");
    assert_eq!(asset_path("x/"), "x/");
    assert_eq!(asset_path(""), "");
    assert_eq!(missing_asset_message("x.png"), "embedded asset `x.png` not found");
}

#[test]
fn route_bodies() {
    assert_eq!(api::root().message, "rusttp is running");
    assert_eq!(api::health().status, "ok");
    assert_eq!(rpc::index().status, "rpc ready");
}
