use btc_landing::language::Language;
use btc_landing::page::{
    error_message, error_page, get_error_response, index, index_context, index_response,
    intercept, request_context, Config, ConfigError, PageResponse,
};
use btc_landing::render::{text_context, RenderError, TemplateStore};

fn store_with(error_template: bool) -> TemplateStore {
    let mut names = vec!["layout.html", "index.html"];
    if error_template {
        names.push("error.html");
    }
    TemplateStore::load(&names).unwrap()
}

fn response(status: u16) -> PageResponse {
    PageResponse { status, content_type: "text/plain".to_string(), body: "x".to_string() }
}

#[test]
fn watched_statuses_render_error_page() {
    let store = store_with(true);
    for status in [400u16, 404, 500] {
        let r = intercept(Some(&store), response(status));
        assert_eq!(r.status, status);
        assert_eq!(r.content_type, "text/html");
        assert!(!r.body.is_empty());
        assert!(r.body.contains(&status.to_string()));
        assert!(r.body.contains(error_message(status).unwrap()));
        assert!(r.body.contains("lang=\"en\""));
    }
}

#[test]
fn failed_error_render_falls_back_to_text() {
    let store = store_with(false);
    for status in [400u16, 404, 500] {
        let r = intercept(Some(&store), response(status));
        assert_eq!(r.status, status);
        assert_eq!(r.content_type, "text/plain");
        assert_eq!(r.body, error_message(status).unwrap());
        let r = intercept(None, response(status));
        assert_eq!(r.content_type, "text/plain");
        assert_eq!(r.body, error_message(status).unwrap());
    }
}

#[test]
fn message_table() {
    assert_eq!(error_message(404), Some("Page Not Found"));
    assert_eq!(error_message(400), Some("Bad Request"));
    assert_eq!(error_message(500), Some("Ops! Something is wrong, please try again later."));
    assert_eq!(error_message(200), None);
    assert_eq!(error_message(401), None);
}

#[test]
fn unwatched_status_passes_unchanged() {
    let store = store_with(true);
    for status in [200u16, 301, 401, 403, 503] {
        let r = intercept(Some(&store), response(status));
        assert_eq!(r.status, status);
        assert_eq!(r.content_type, "text/plain");
        assert_eq!(r.body, "x");
    }
}

#[test]
fn error_page_from_outcome() {
    let ok = error_page(404, "Page Not Found", Ok("<p>page</p>".to_string()));
    assert_eq!(ok.status, 404);
    assert_eq!(ok.content_type, "text/html");
    assert_eq!(ok.body, "<p>page</p>");
    let failed = error_page(500, "boom", Err(RenderError::TemplateNotFound));
    assert_eq!(failed.status, 500);
    assert_eq!(failed.content_type, "text/plain");
    assert_eq!(failed.body, "boom");
}

#[test]
fn get_error_response_renders_given_message() {
    let store = store_with(true);
    let r = get_error_response(Some(&store), 400, "Bad Request");
    assert_eq!(r.content_type, "text/html");
    assert!(r.body.contains("<h1>400</h1><p>Bad Request</p>"));
}

#[test]
fn rendering_is_deterministic() {
    let store = store_with(true);
    let a = store.render("index.html", &index_context(Language::Spanish, "red")).unwrap();
    let b = store.render("index.html", &index_context(Language::Spanish, "red")).unwrap();
    assert_eq!(a, b);
    assert!(a.contains("<html lang=\"es\">"));
    assert!(a.contains("color: red"));
    assert!(a.contains("Marat&oacute;n Behind the Code"));
}

#[test]
fn render_errors() {
    let store = store_with(true);
    let ctx = text_context(&vec![("lang", "en")]);
    assert!(matches!(store.render("missing.html", &ctx), Err(RenderError::TemplateNotFound)));
    assert!(matches!(store.render("index.html", &ctx), Err(RenderError::RenderFailure(_))));
}

#[test]
fn later_context_pairs_replace_earlier() {
    let store = store_with(true);
    let ctx = text_context(&vec![("lang", "en"), ("error", "x"), ("status_code", "404"), ("error", "y")]);
    let body = store.render("error.html", &ctx).unwrap();
    assert!(body.contains("<p>y</p>"));
    assert!(!body.contains("<p>x</p>"));
}

#[test]
fn page_without_its_layout_is_refused() {
    let r = TemplateStore::load(&vec!["index.html"]);
    assert!(matches!(r, Err(RenderError::RenderFailure(_))));
}

#[test]
fn load_passes_over_unknown_names() {
    let store = TemplateStore::load(&vec!["layout.html", "nope.html"]).unwrap();
    assert!(store.holds("layout.html"));
    assert!(!store.holds("nope.html"));
    assert!(!store.holds("index.html"));
    let site = TemplateStore::site().unwrap();
    for name in ["layout.html", "index.html", "error.html"] {
        assert!(site.holds(name));
    }
}

#[test]
fn request_context_uses_resolved_language() {
    let store = TemplateStore::site().unwrap();
    let config = Config::from_value(Some("teal".to_string())).unwrap();
    let body = store.render("index.html", &request_context(&config, Some("xx"), Some("pt;q=1.0"))).unwrap();
    assert!(body.contains("<html lang=\"pt\">"));
    assert!(body.contains("Maratona Behind the Code"));
    assert!(body.contains("color: teal"));
}

#[test]
fn intercepting_twice_changes_nothing() {
    let store = store_with(true);
    for status in [200u16, 400, 404, 500] {
        let once = intercept(Some(&store), response(status));
        let twice = intercept(Some(&store), once.clone());
        assert_eq!((once.status, &once.content_type, &once.body), (twice.status, &twice.content_type, &twice.body));
    }
}

#[test]
fn index_end_to_end() {
    let store = store_with(true);
    let config = Config::from_value(Some("blue".to_string())).unwrap();
    let r = index(&store, &config, Some("es"), None);
    assert_eq!(r.status, 200);
    assert_eq!(r.content_type, "text/html");
    assert!(r.body.contains("lang=\"es\""));
    assert!(r.body.contains("color: blue"));
    let r = index(&store, &config, None, Some("pt;q=1.0"));
    assert_eq!(r.status, 200);
    assert!(r.body.contains("lang=\"pt\""));
    let r = intercept(Some(&store), response(404));
    assert_eq!(r.status, 404);
    assert!(r.body.contains("Page Not Found"));
}

#[test]
fn index_without_template_is_500() {
    let store = TemplateStore::load(&Vec::new()).unwrap();
    let config = Config::from_value(Some("blue".to_string())).unwrap();
    let r = index(&store, &config, None, None);
    assert_eq!(r.status, 500);
    assert_eq!(r.body, "Internal Server Error");
    let r = index_response(Ok("<p/>".to_string()));
    assert_eq!((r.status, r.content_type.as_str(), r.body.as_str()), (200, "text/html", "<p/>"));
}

#[test]
fn missing_color_is_a_startup_error() {
    assert!(matches!(Config::from_value(None), Err(ConfigError::ConfigurationMissing)));
    let c = Config::from_value(Some("green".to_string())).unwrap();
    assert_eq!(c.color(), "green");
}
