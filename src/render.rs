use vstd::prelude::*;
use tera::{Context, Tera};
use crate::language::{same_text, strs_view};

verus! {

#[verifier::external_type_specification]
#[verifier::external_body]
pub struct ExTera(Tera);

#[verifier::external_type_specification]
#[verifier::external_body]
pub struct ExContext(Context);

/// The page frame that the other templates extend.
pub const LAYOUT_SOURCE: &'static str = r#"<!DOCTYPE html>
<html lang="{{ lang }}">
<head><meta charset="utf-8"><title>{% block title %}Behind the Code{% endblock title %}</title>
<link rel="stylesheet" href="/static/style.css"></head>
<body>{% block content %}{% endblock content %}</body>
</html>
"#;

/// The landing page, in the language of `lang`, colored by `color`.
pub const INDEX_SOURCE: &'static str = r#"{% extends "layout.html" %}
{% block content %}
<main style="color: {{ color }}">
{% if lang == "pt" %}<h1>Maratona Behind the Code</h1>
{% elif lang == "es" %}<h1>Marat&oacute;n Behind the Code</h1>
{% else %}<h1>Behind the Code Marathon</h1>{% endif %}
</main>
{% endblock content %}
"#;

/// The error page, showing `status_code` and `error`.
pub const ERROR_SOURCE: &'static str = r#"{% extends "layout.html" %}
{% block title %}{{ status_code }} - {{ error }}{% endblock title %}
{% block content %}<main><h1>{{ status_code }}</h1><p>{{ error }}</p></main>{% endblock content %}
"#;

/// The site's templates as (name, source) pairs.
pub open spec fn site_templates() -> Seq<(Seq<char>, Seq<char>)> {
    seq![
        ("layout.html"@, LAYOUT_SOURCE@),
        ("index.html"@, INDEX_SOURCE@),
        ("error.html"@, ERROR_SOURCE@),
    ]
}

/// Every pair is one of the site's templates.
pub open spec fn from_site(pairs: Seq<(Seq<char>, Seq<char>)>) -> bool {
    forall|i: int| 0 <= i < pairs.len() ==> site_templates().contains(#[trigger] pairs[i])
}

/// The names of a list of (name, source) pairs.
pub open spec fn names_of(pairs: Seq<(Seq<char>, Seq<char>)>) -> Set<Seq<char>> {
    Set::new(|n: Seq<char>| exists|i: int| 0 <= i < pairs.len() && (#[trigger] pairs[i]).0 == n)
}

pub open spec fn pairs_view(v: Seq<(String, String)>) -> Seq<(Seq<char>, Seq<char>)> {
    v.map_values(|p: (String, String)| (p.0@, p.1@))
}

/// The (name, source) pairs a tera instance was loaded from.
pub uninterp spec fn loaded_sources(t: Tera) -> Seq<(Seq<char>, Seq<char>)>;

/// The string values a render context holds, by variable name.
pub uninterp spec fn context_entries(c: Context) -> Map<Seq<char>, Seq<char>>;

/// What tera makes of the template `name` among `sources` with the string
/// variables `vars`: the page, or `None` where evaluation fails.
pub uninterp spec fn render_of(
    sources: Seq<(Seq<char>, Seq<char>)>,
    name: Seq<char>,
    vars: Map<Seq<char>, Seq<char>>,
) -> Option<Seq<char>>;

/// Why a render did not produce a page.
#[derive(Clone, Debug)]
pub enum RenderError {
    /// No template of that name is loaded.
    TemplateNotFound,
    /// The template failed to parse or to evaluate; the text says why.
    RenderFailure(String),
}

/// Relies on tera::Context::new: a context with no variables.
#[verifier::external_body]
fn new_context() -> (r: Context)
    ensures
        context_entries(r).dom().is_empty(),
{
    Context::new()
}

/// Relies on tera::Context::insert: the string `value` under `key`, replacing
/// any earlier value there (a string always serialises).
#[verifier::external_body]
fn insert_text(c: &mut Context, key: &str, value: &str)
    ensures
        context_entries(*final(c)) == context_entries(*old(c)).insert(key@, value@),
{
    c.insert(key, value)
}

/// Relies on tera::Tera::default and tera::Tera::add_raw_templates: loads the
/// pairs, or fails with a message. Only the site's own templates are admitted:
/// they hold no macro, no number literal and no cycle of `extends`, so the
/// parse and the inheritance walk end without a panic.
#[verifier::external_body]
fn compile_templates(templates: Vec<(String, String)>) -> (r: Result<Tera, String>)
    requires
        from_site(pairs_view(templates@)),
    ensures
        r matches Ok(t) ==> loaded_sources(t) == pairs_view(templates@),
{
    let mut tera = Tera::default();
    match tera.add_raw_templates(templates) {
        Ok(()) => Ok(tera),
        Err(e) => Err(e.to_string()),
    }
}

/// Relies on tera::Tera::render: evaluates a loaded template, or fails with a
/// message. Only instances loaded from the site's templates are admitted (see
/// `compile_templates`): these end without a panic and read nothing but their
/// sources and the variables, which a `RenderContext` holds as strings only,
/// so the outcome depends on the sources, the name and the variables alone.
#[verifier::external_body]
fn render_template(tera: &Tera, name: &str, vars: &RenderContext) -> (r: Result<String, String>)
    requires
        from_site(loaded_sources(*tera)),
    ensures
        r is Ok <==> render_of(loaded_sources(*tera), name@, vars@) is Some,
        r matches Ok(body) ==> render_of(loaded_sources(*tera), name@, vars@) == Some(body@),
{
    match tera.render(name, &vars.ctx) {
        Ok(s) => Ok(s),
        Err(e) => Err(e.to_string()),
    }
}

/// A render context holding exactly the given string variables, later pairs
/// replacing earlier ones of the same name.
pub open spec fn entries_of(pairs: Seq<(&str, &str)>) -> Map<Seq<char>, Seq<char>>
    decreases pairs.len(),
{
    if pairs.len() == 0 {
        Map::empty()
    } else {
        entries_of(pairs.drop_last()).insert(pairs.last().0@, pairs.last().1@)
    }
}

/// The variables handed to a template: string values by name, and nothing
/// else.
pub struct RenderContext {
    ctx: Context,
}

impl View for RenderContext {
    type V = Map<Seq<char>, Seq<char>>;

    closed spec fn view(&self) -> Map<Seq<char>, Seq<char>> {
        context_entries(self.ctx)
    }
}

/// The page from the outcome of a render, `None` where it failed.
pub open spec fn rendered_view(outcome: Result<String, RenderError>) -> Option<Seq<char>> {
    match outcome {
        Ok(body) => Some(body@),
        Err(_) => None,
    }
}

/// Builds a render context from (name, value) pairs.
pub fn text_context(pairs: &Vec<(&str, &str)>) -> (r: RenderContext)
    ensures
        r@ == entries_of(pairs@),
{
    let mut c = new_context();
    let mut i: usize = 0;
    assert(pairs@.take(0) =~= Seq::<(&str, &str)>::empty());
    assert(context_entries(c) =~= entries_of(pairs@.take(0)));
    while i < pairs.len()
        invariant
            i <= pairs.len(),
            context_entries(c) == entries_of(pairs@.take(i as int)),
        decreases pairs.len() - i,
    {
        let (k, v) = pairs[i];
        assert(pairs@.take(i + 1).drop_last() =~= pairs@.take(i as int));
        insert_text(&mut c, k, v);
        i = i + 1;
    }
    assert(pairs@.take(i as int) =~= pairs@);
    RenderContext { ctx: c }
}

/// The compiled templates of the site: built once at startup, only read after.
pub struct TemplateStore {
    tera: Tera,
    names: Vec<String>,
}

impl View for TemplateStore {
    type V = Set<Seq<char>>;

    /// The names of the templates the store holds.
    open spec fn view(&self) -> Set<Seq<char>> {
        names_of(self.sources())
    }
}

proof fn lemma_names_push(pairs: Seq<(Seq<char>, Seq<char>)>, p: (Seq<char>, Seq<char>))
    ensures
        forall|n: Seq<char>|
            #[trigger] names_of(pairs.push(p)).contains(n) <==> (names_of(pairs).contains(n)
                || p.0 == n),
{
    let after = pairs.push(p);
    assert forall|n: Seq<char>|
        #[trigger] names_of(after).contains(n) <==> (names_of(pairs).contains(n) || p.0 == n) by {
        if names_of(pairs).contains(n) {
            let j = choose|j: int| 0 <= j < pairs.len() && (#[trigger] pairs[j]).0 == n;
            assert(after[j] == pairs[j]);
        }
        if p.0 == n {
            assert(after[pairs.len() as int] == p);
        }
        if names_of(after).contains(n) {
            let j = choose|j: int| 0 <= j < after.len() && (#[trigger] after[j]).0 == n;
            if j < pairs.len() {
                assert(after[j] == pairs[j]);
            }
        }
    }
}

proof fn lemma_contains_push(v: Seq<Seq<char>>, x: Seq<char>)
    ensures
        forall|n: Seq<char>| #[trigger] v.push(x).contains(n) <==> (v.contains(n) || x == n),
{
    let after = v.push(x);
    assert forall|n: Seq<char>| #[trigger] after.contains(n) <==> (v.contains(n) || x == n) by {
        if v.contains(n) {
            let j = choose|j: int| 0 <= j < v.len() && v[j] == n;
            assert(after[j] == v[j]);
        }
        if x == n {
            assert(after[v.len() as int] == x);
        }
        if after.contains(n) {
            let j = choose|j: int| 0 <= j < after.len() && after[j] == n;
            if j < v.len() {
                assert(after[j] == v[j]);
            }
        }
    }
}

/// The site template named `name`, if there is one.
fn site_source(name: &str) -> (r: Option<&'static str>)
    ensures
        r matches Some(src) ==> site_templates().contains((name@, src@)),
        r is None ==> !names_of(site_templates()).contains(name@),
{
    let ghost site = site_templates();
    assert(site[0] == ("layout.html"@, LAYOUT_SOURCE@));
    assert(site[1] == ("index.html"@, INDEX_SOURCE@));
    assert(site[2] == ("error.html"@, ERROR_SOURCE@));
    if same_text(name, "layout.html") {
        Some(LAYOUT_SOURCE)
    } else if same_text(name, "index.html") {
        Some(INDEX_SOURCE)
    } else if same_text(name, "error.html") {
        Some(ERROR_SOURCE)
    } else {
        None
    }
}

impl TemplateStore {
    /// The (name, source) pairs the store was compiled from.
    pub closed spec fn sources(&self) -> Seq<(Seq<char>, Seq<char>)> {
        loaded_sources(self.tera)
    }

    #[verifier::type_invariant]
    spec fn inv(&self) -> bool {
        &&& from_site(loaded_sources(self.tera))
        &&& self.names@.len() == loaded_sources(self.tera).len()
        &&& forall|j: int|
            0 <= j < self.names@.len() ==> #[trigger] self.names@[j]@ == loaded_sources(
                self.tera,
            )[j].0
    }

    /// Compiles the site templates whose names are listed (other names are
    /// passed over); fails with tera's message where they do not load, as
    /// where a page is listed without the layout it extends.
    pub fn load(names: &Vec<&str>) -> (r: Result<TemplateStore, RenderError>)
        ensures
            r matches Ok(s) ==> forall|n: Seq<char>|
                s@.contains(n) <==> (names_of(site_templates()).contains(n) && strs_view(
                    names@,
                ).contains(n)),
    {
        let mut pairs: Vec<(String, String)> = Vec::new();
        let mut kept: Vec<String> = Vec::new();
        let mut i: usize = 0;
        while i < names.len()
            invariant
                i <= names.len(),
                from_site(pairs_view(pairs@)),
                kept@.len() == pairs@.len(),
                forall|j: int| 0 <= j < kept@.len() ==> #[trigger] kept@[j]@ == pairs@[j].0@,
                forall|n: Seq<char>|
                    #[trigger] names_of(pairs_view(pairs@)).contains(n) <==> (names_of(
                        site_templates(),
                    ).contains(n) && strs_view(names@.take(i as int)).contains(n)),
            decreases names.len() - i,
        {
            let name = names[i];
            let ghost before = pairs_view(pairs@);
            assert(strs_view(names@.take(i + 1)) =~= strs_view(names@.take(i as int)).push(
                name@,
            ));
            match site_source(name) {
                Some(src) => {
                    pairs.push((name.to_owned(), src.to_owned()));
                    kept.push(name.to_owned());
                    assert(pairs_view(pairs@) =~= before.push((name@, src@)));
                    proof {
                        lemma_names_push(before, (name@, src@));
                        lemma_contains_push(strs_view(names@.take(i as int)), name@);
                        let k = choose|k: int| 0 <= k < site_templates().len() && site_templates()[k] == (name@, src@);
                        assert(site_templates()[k].0 == name@);
                        assert(names_of(site_templates()).contains(name@));
                        assert forall|n: Seq<char>|
                            #[trigger] names_of(pairs_view(pairs@)).contains(n) <==> (names_of(
                                site_templates(),
                            ).contains(n) && strs_view(names@.take(i + 1)).contains(n)) by {
                            assert(names_of(before).contains(n) <==> (names_of(site_templates()).contains(n) && strs_view(names@.take(i as int)).contains(n)));
                            assert(names_of(before.push((name@, src@))).contains(n) <==> (names_of(before).contains(n) || name@ == n));
                            assert(strs_view(names@.take(i as int)).push(name@).contains(n) <==> (strs_view(names@.take(i as int)).contains(n) || name@ == n));
                        }
                    }
                },
                None => {
                    proof {
                        lemma_contains_push(strs_view(names@.take(i as int)), name@);
                        assert forall|n: Seq<char>|
                            #[trigger] names_of(pairs_view(pairs@)).contains(n) <==> (names_of(
                                site_templates(),
                            ).contains(n) && strs_view(names@.take(i + 1)).contains(n)) by {
                            assert(names_of(before).contains(n) <==> (names_of(site_templates()).contains(n) && strs_view(names@.take(i as int)).contains(n)));
                            assert(strs_view(names@.take(i as int)).push(name@).contains(n) <==> (strs_view(names@.take(i as int)).contains(n) || name@ == n));
                        }
                    }
                },
            }
            i = i + 1;
        }
        assert(names@.take(i as int) =~= names@);
        match compile_templates(pairs) {
            Ok(tera) => Ok(TemplateStore { tera, names: kept }),
            Err(msg) => Err(RenderError::RenderFailure(msg)),
        }
    }

    /// Compiles all the site templates.
    pub fn site() -> (r: Result<TemplateStore, RenderError>)
        ensures
            r matches Ok(s) ==> s@ == names_of(site_templates()),
    {
        let names: Vec<&str> = vec!["layout.html", "index.html", "error.html"];
        let r = TemplateStore::load(&names);
        if let Ok(s) = &r {
            assert(s@ =~= names_of(site_templates())) by {
                let site = site_templates();
                assert(strs_view(names@)[0] == site[0].0);
                assert(strs_view(names@)[1] == site[1].0);
                assert(strs_view(names@)[2] == site[2].0);
                assert forall|n: Seq<char>| names_of(site).contains(n) implies strs_view(names@).contains(n) by {
                    let j = choose|j: int| 0 <= j < site.len() && (#[trigger] site[j]).0 == n;
                    assert(strs_view(names@)[j] == n);
                }
            }
        }
        r
    }

    /// Whether the store holds a template named `name`.
    pub fn holds(&self, name: &str) -> (r: bool)
        ensures
            r == self@.contains(name@),
    {
        proof {
            use_type_invariant(self);
        }
        let mut j: usize = 0;
        while j < self.names.len()
            invariant
                j <= self.names@.len(),
                self.names@.len() == loaded_sources(self.tera).len(),
                forall|k: int|
                    0 <= k < self.names@.len() ==> #[trigger] self.names@[k]@ == loaded_sources(
                        self.tera,
                    )[k].0,
                forall|k: int| 0 <= k < j ==> loaded_sources(self.tera)[k].0 != name@,
            decreases self.names.len() - j,
        {
            if same_text(self.names[j].as_str(), name) {
                assert(loaded_sources(self.tera)[j as int].0 == name@);
                return true;
            }
            j = j + 1;
        }
        false
    }

    /// Renders the template `name` with `vars`: `TemplateNotFound` exactly where
    /// the store holds no such template; otherwise tera's page, or
    /// `RenderFailure` where it fails.
    pub fn render(&self, name: &str, vars: &RenderContext) -> (r: Result<String, RenderError>)
        ensures
            r matches Err(RenderError::TemplateNotFound) <==> !self@.contains(name@),
            self@.contains(name@) ==> rendered_view(r) == render_of(self.sources(), name@, vars@),
    {
        proof {
            use_type_invariant(self);
        }
        if !self.holds(name) {
            return Err(RenderError::TemplateNotFound);
        }
        match render_template(&self.tera, name, vars) {
            Ok(body) => Ok(body),
            Err(msg) => Err(RenderError::RenderFailure(msg)),
        }
    }
}

/// Rendering a template twice with equal variables gives the same page.
pub proof fn lemma_render_deterministic(
    sources: Seq<(Seq<char>, Seq<char>)>,
    name: Seq<char>,
    first: Map<Seq<char>, Seq<char>>,
    second: Map<Seq<char>, Seq<char>>,
)
    requires
        first == second,
    ensures
        render_of(sources, name, first) == render_of(sources, name, second),
{
}

} // verus!
