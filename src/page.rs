use vstd::prelude::*;
use crate::language::{code_of, opt_view, resolve, resolved_language, Language};
use crate::render::{
    entries_of, names_of, render_of, rendered_view, text_context, RenderContext, RenderError,
    TemplateStore,
};

verus! {

/// The template of the landing page.
pub const INDEX_TEMPLATE: &'static str = "index.html";

/// The template of the error pages.
pub const ERROR_TEMPLATE: &'static str = "error.html";

/// An HTTP response as the pipeline sees it: status, content type and body.
#[derive(Clone, Debug)]
pub struct PageResponse {
    pub status: u16,
    pub content_type: String,
    pub body: String,
}

impl View for PageResponse {
    type V = (u16, Seq<char>, Seq<char>);

    open spec fn view(&self) -> (u16, Seq<char>, Seq<char>) {
        (self.status, self.content_type@, self.body@)
    }
}

pub open spec fn html() -> Seq<char> {
    "text/html"@
}

pub open spec fn plain_text() -> Seq<char> {
    "text/plain"@
}

/// The statuses whose responses get an error page.
pub open spec fn is_watched(status: u16) -> bool {
    status == 400 || status == 404 || status == 500
}

/// The message shown for a watched status.
pub open spec fn message_of(status: u16) -> Seq<char> {
    if status == 404 {
        "Page Not Found"@
    } else if status == 400 {
        "Bad Request"@
    } else if status == 500 {
        "Ops! Something is wrong, please try again later."@
    } else {
        Seq::empty()
    }
}

/// The decimal text of a watched status.
pub open spec fn status_text_of(status: u16) -> Seq<char> {
    if status == 404 {
        "404"@
    } else if status == 400 {
        "400"@
    } else {
        "500"@
    }
}

/// The error page for `status`: the rendered template as HTML where there is
/// one, else `error` as plain text. The status is kept either way.
pub open spec fn error_page_of(status: u16, error: Seq<char>, rendered: Option<Seq<char>>) -> (
    u16,
    Seq<char>,
    Seq<char>,
) {
    match rendered {
        Some(body) => (status, html(), body),
        None => (status, plain_text(), error),
    }
}

/// The variables of the error template for a status and its message.
pub open spec fn error_vars(status: u16, error: Seq<char>) -> Map<Seq<char>, Seq<char>> {
    map!["lang"@ => "en"@, "error"@ => error, "status_code"@ => status_text_of(status)]
}

/// The variables of the landing page for a language and a color.
pub open spec fn index_vars(lang: Language, color: Seq<char>) -> Map<Seq<char>, Seq<char>> {
    map!["lang"@ => code_of(lang), "color"@ => color]
}

/// The sources of an optional store.
pub open spec fn store_sources(store: Option<&TemplateStore>) -> Option<
    Seq<(Seq<char>, Seq<char>)>,
> {
    match store {
        Some(s) => Some(s.sources()),
        None => None,
    }
}

/// The rendered error page, where there is a store holding the error
/// template and the render succeeds.
pub open spec fn error_rendered(
    sources: Option<Seq<(Seq<char>, Seq<char>)>>,
    status: u16,
    error: Seq<char>,
) -> Option<Seq<char>> {
    match sources {
        Some(src) => if names_of(src).contains(ERROR_TEMPLATE@) {
            render_of(src, ERROR_TEMPLATE@, error_vars(status, error))
        } else {
            None
        },
        None => None,
    }
}

/// A response after interception: the error page for a watched status, the
/// response itself otherwise.
pub open spec fn intercepted(
    sources: Option<Seq<(Seq<char>, Seq<char>)>>,
    response: (u16, Seq<char>, Seq<char>),
) -> (u16, Seq<char>, Seq<char>) {
    if is_watched(response.0) {
        error_page_of(
            response.0,
            message_of(response.0),
            error_rendered(sources, response.0, message_of(response.0)),
        )
    } else {
        response
    }
}

/// The landing page served from `sources` for a request.
pub open spec fn index_served(
    sources: Seq<(Seq<char>, Seq<char>)>,
    color: Seq<char>,
    query: Option<Seq<char>>,
    header: Option<Seq<char>>,
) -> (u16, Seq<char>, Seq<char>) {
    index_page_of(
        if names_of(sources).contains(INDEX_TEMPLATE@) {
            render_of(sources, INDEX_TEMPLATE@, index_vars(resolved_language(query, header), color))
        } else {
            None
        },
    )
}

/// The body of the response a failed landing-page render leaves behind.
pub open spec fn internal_error_text() -> Seq<char> {
    "Internal Server Error"@
}

/// The landing page: the rendered template with status 200, or status 500
/// where it did not render.
pub open spec fn index_page_of(rendered: Option<Seq<char>>) -> (u16, Seq<char>, Seq<char>) {
    match rendered {
        Some(body) => (200, html(), body),
        None => (500, plain_text(), internal_error_text()),
    }
}

/// The message for a watched status; `None` for any other.
pub fn error_message(status: u16) -> (r: Option<&'static str>)
    ensures
        r is Some <==> is_watched(status),
        r matches Some(m) ==> m@ == message_of(status),
{
    if status == 404 {
        Some("Page Not Found")
    } else if status == 400 {
        Some("Bad Request")
    } else if status == 500 {
        Some("Ops! Something is wrong, please try again later.")
    } else {
        None
    }
}

fn status_text(status: u16) -> (r: &'static str)
    requires
        is_watched(status),
    ensures
        r@ == status_text_of(status),
{
    if status == 404 {
        "404"
    } else if status == 400 {
        "400"
    } else {
        "500"
    }
}

/// The variables of the error template: always the default language, the
/// message and the status as text.
pub fn error_context(status: u16, error: &str) -> (r: RenderContext)
    requires
        is_watched(status),
    ensures
        r@ == error_vars(status, error@),
{
    let pairs: Vec<(&str, &str)> = vec![("lang", "en"), ("error", error), ("status_code", status_text(status))];
    let r = text_context(&pairs);
    assert(r@ =~= error_vars(status, error@)) by {
        reveal_with_fuel(entries_of, 4);
        assert(pairs@.drop_last().drop_last().drop_last() =~= Seq::<(&str, &str)>::empty());
    }
    r
}

/// The error page from the outcome of rendering the error template.
pub fn error_page(status: u16, error: &str, outcome: Result<String, RenderError>) -> (r: PageResponse)
    ensures
        r@ == error_page_of(status, error@, rendered_view(outcome)),
{
    match outcome {
        Ok(body) => PageResponse { status, content_type: "text/html".to_owned(), body },
        Err(_) => PageResponse {
            status,
            content_type: "text/plain".to_owned(),
            body: error.to_owned(),
        },
    }
}

/// Renders the error page for a watched status with the given message. With
/// no store, or no error template in it, the page is the plain-text message.
pub fn get_error_response(store: Option<&TemplateStore>, status: u16, error: &str) -> (r: PageResponse)
    requires
        is_watched(status),
    ensures
        r@ == error_page_of(status, error@, error_rendered(store_sources(store), status, error@)),
{
    match store {
        Some(s) => {
            let ctx = error_context(status, error);
            let outcome = s.render(ERROR_TEMPLATE, &ctx);
            error_page(status, error, outcome)
        },
        None => error_page(status, error, Err(RenderError::TemplateNotFound)),
    }
}

/// Rewrites a response whose status is watched into its error page; any other
/// response passes unchanged.
pub fn intercept(store: Option<&TemplateStore>, response: PageResponse) -> (r: PageResponse)
    ensures
        r@ == intercepted(store_sources(store), response@),
{
    match error_message(response.status) {
        Some(msg) => get_error_response(store, response.status, msg),
        None => response,
    }
}

/// The landing page from the outcome of rendering its template.
pub fn index_response(outcome: Result<String, RenderError>) -> (r: PageResponse)
    ensures
        r@ == index_page_of(rendered_view(outcome)),
{
    match outcome {
        Ok(body) => PageResponse { status: 200, content_type: "text/html".to_owned(), body },
        Err(_) => PageResponse {
            status: 500,
            content_type: "text/plain".to_owned(),
            body: "Internal Server Error".to_owned(),
        },
    }
}

/// The variables of the landing-page template.
pub fn index_context(lang: Language, color: &str) -> (r: RenderContext)
    ensures
        r@ == index_vars(lang, color@),
{
    let pairs: Vec<(&str, &str)> = vec![("lang", lang.code()), ("color", color)];
    let r = text_context(&pairs);
    assert(r@ =~= index_vars(lang, color@)) by {
        reveal_with_fuel(entries_of, 3);
        assert(pairs@.drop_last().drop_last() =~= Seq::<(&str, &str)>::empty());
    }
    r
}

/// The settings the landing page needs, checked once at startup.
pub struct Config {
    color: String,
}

/// Why the settings could not be built.
#[derive(Clone, Copy, Debug, PartialEq, Eq, Structural)]
pub enum ConfigError {
    /// The display color was not given.
    ConfigurationMissing,
}

impl Config {
    pub closed spec fn color_view(&self) -> Seq<char> {
        self.color@
    }

    /// Settings from the configured color, which must be present.
    pub fn from_value(color: Option<String>) -> (r: Result<Config, ConfigError>)
        ensures
            color is None ==> r matches Err(ConfigError::ConfigurationMissing),
            color matches Some(c) ==> r matches Ok(cfg) && cfg.color_view() == c@,
    {
        match color {
            Some(c) => Ok(Config { color: c }),
            None => Err(ConfigError::ConfigurationMissing),
        }
    }

    /// The display color.
    pub fn color(&self) -> (r: &str)
        ensures
            r@ == self.color_view(),
    {
        self.color.as_str()
    }
}

/// The variables of the landing page for a request: the language resolved
/// from its `lang` query value and `Accept-Language` header, and the color.
pub fn request_context(config: &Config, query: Option<&str>, header: Option<&str>) -> (r:
    RenderContext)
    ensures
        r@ == index_vars(resolved_language(opt_view(query), opt_view(header)), config.color_view()),
{
    let lang = resolve(query, header);
    index_context(lang, config.color())
}

/// Serves the landing page: resolves the language from the `lang` query value
/// and the `Accept-Language` header (`None` where absent or not text), renders
/// the page template with that language and the configured color, and answers
/// 200 with the HTML, or 500 where the template did not render.
pub fn index(store: &TemplateStore, config: &Config, query: Option<&str>, header: Option<&str>) -> (r:
    PageResponse)
    ensures
        r@ == index_served(store.sources(), config.color_view(), opt_view(query), opt_view(header)),
{
    let ctx = request_context(config, query, header);
    let outcome = store.render(INDEX_TEMPLATE, &ctx);
    index_response(outcome)
}

/// For a watched status the error page keeps the status and has a body: the
/// rendered template as HTML where it rendered to something, else the
/// status's message as plain text.
pub proof fn lemma_error_page_complete(status: u16, rendered: Option<Seq<char>>)
    requires
        is_watched(status),
        rendered matches Some(b) ==> b.len() > 0,
    ensures
        error_page_of(status, message_of(status), rendered).0 == status,
        error_page_of(status, message_of(status), rendered).2.len() > 0,
        rendered is Some ==> error_page_of(status, message_of(status), rendered).1 == html(),
        rendered is None ==> error_page_of(status, message_of(status), rendered).1 == plain_text()
            && error_page_of(status, message_of(status), rendered).2 == message_of(status),
{
    reveal_strlit("Page Not Found");
    reveal_strlit("Bad Request");
    reveal_strlit("Ops! Something is wrong, please try again later.");
}

/// Intercepting a response a second time changes nothing: the error page
/// keeps the status it was made for.
pub proof fn lemma_intercept_idempotent(
    sources: Option<Seq<(Seq<char>, Seq<char>)>>,
    response: (u16, Seq<char>, Seq<char>),
)
    ensures
        intercepted(sources, intercepted(sources, response)) == intercepted(sources, response),
{
}

/// Serving the landing page twice for equal requests from the same store and
/// settings gives the same page.
pub proof fn lemma_index_deterministic(
    sources: Seq<(Seq<char>, Seq<char>)>,
    color: Seq<char>,
    query: Option<Seq<char>>,
    header: Option<Seq<char>>,
    query2: Option<Seq<char>>,
    header2: Option<Seq<char>>,
)
    requires
        query == query2,
        header == header2,
    ensures
        index_served(sources, color, query, header) == index_served(sources, color, query2, header2),
{
}

} // verus!
