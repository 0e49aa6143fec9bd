use vstd::prelude::*;

verus! {

/// The languages the site is written in. English is the default.
#[derive(Clone, Copy, Debug, PartialEq, Eq, Structural)]
pub enum Language {
    English,
    Spanish,
    Portuguese,
}

/// The canonical short code of a language.
pub open spec fn code_of(l: Language) -> Seq<char> {
    match l {
        Language::English => "en"@,
        Language::Spanish => "es"@,
        Language::Portuguese => "pt"@,
    }
}

/// The language whose code is exactly `s`, if any.
pub open spec fn language_of(s: Seq<char>) -> Option<Language> {
    if s == "en"@ {
        Some(Language::English)
    } else if s == "es"@ {
        Some(Language::Spanish)
    } else if s == "pt"@ {
        Some(Language::Portuguese)
    } else {
        None
    }
}

/// The codes offered to header negotiation, in this order.
pub open spec fn supported_codes() -> Seq<Seq<char>> {
    seq!["en"@, "es"@, "pt"@]
}

/// The header text with every space removed.
pub open spec fn without_spaces(s: Seq<char>) -> Seq<char>
    decreases s.len(),
{
    if s.len() == 0 {
        s
    } else if s.last() == ' ' {
        without_spaces(s.drop_last())
    } else {
        without_spaces(s.drop_last()).push(s.last())
    }
}

/// The letters n, a, n (in either case) stand in `s` from position `p` on.
pub open spec fn nan_at(s: Seq<char>, p: int) -> bool {
    0 <= p && p + 3 <= s.len() && (s[p] == 'n' || s[p] == 'N') && (s[p + 1] == 'a' || s[p + 1]
        == 'A') && (s[p + 2] == 'n' || s[p + 2] == 'N')
}

/// A parameter value of the header ends at position `k`.
pub open spec fn value_ends(s: Seq<char>, k: int) -> bool {
    k == s.len() || (0 <= k < s.len() && (s[k] == ',' || s[k] == ';'))
}

pub open spec fn is_delim(ch: char) -> bool {
    ch == ',' || ch == ';'
}

/// Position `c` holds the first `;` of its comma-separated item: the one that
/// opens the item's weight parameter.
pub open spec fn opens_weight(s: Seq<char>, c: int) -> bool {
    &&& 0 <= c < s.len()
    &&& s[c] == ';'
    &&& forall|i: int| 0 <= i < c && #[trigger] s[i] == ';' ==> comma_between(s, i, c)
}

/// A comma stands strictly between positions `i` and `c`.
pub open spec fn comma_between(s: Seq<char>, i: int, c: int) -> bool {
    exists|m: int| i < m < c && #[trigger] s[m] == ','
}

/// The weight parameter opened at `c` runs to `k`, holds its only `=` at `e`,
/// and its value is `nan`, `+nan` or `-nan` (in any case): a weight that
/// parses as not-a-number.
pub open spec fn nan_weight(s: Seq<char>, c: int, e: int, k: int) -> bool {
    &&& opens_weight(s, c)
    &&& c < e < k <= s.len()
    &&& s[e] == '='
    &&& value_ends(s, k)
    &&& forall|i: int| c < i < k ==> !is_delim(#[trigger] s[i]) && (i != e ==> s[i] != '=')
    &&& ((k == e + 4 && nan_at(s, e + 1)) || (k == e + 5 && (s[e + 1] == '+' || s[e + 1] == '-')
        && nan_at(s, e + 2)))
}

/// A header that the negotiation reads: once spaces are removed no item's
/// weight is not-a-number (such a weight leaves the tags without a total
/// order).
pub open spec fn negotiable(header: Seq<char>) -> bool {
    !exists|c: int, e: int, k: int| nan_weight(without_spaces(header), c, e, k)
}

/// The tags of an `Accept-Language` header that are among `supported`, by
/// descending quality weight, ties in the order the header lists them.
pub uninterp spec fn common_languages(header: Seq<char>, supported: Seq<Seq<char>>) -> Seq<
    Seq<char>,
>;

/// The first tag of `tags` that names a language, else English.
pub open spec fn first_supported(tags: Seq<Seq<char>>) -> Language
    decreases tags.len(),
{
    if tags.len() == 0 {
        Language::English
    } else {
        match language_of(tags[0]) {
            Some(l) => l,
            None => first_supported(tags.drop_first()),
        }
    }
}

/// The language a request is answered in, from its `lang` query value and its
/// `Accept-Language` header (`None` where absent or not readable as text).
pub open spec fn resolved_language(query: Option<Seq<char>>, header: Option<Seq<char>>) -> Language {
    match query {
        Some(q) if language_of(q) is Some => language_of(q)->Some_0,
        _ => match header {
            None => Language::English,
            Some(h) => if negotiable(h) {
                first_supported(common_languages(h, supported_codes()))
            } else {
                Language::English
            },
        },
    }
}

pub open spec fn opt_view(o: Option<&str>) -> Option<Seq<char>> {
    match o {
        Some(s) => Some(s@),
        None => None,
    }
}

pub open spec fn strings_view(v: Seq<String>) -> Seq<Seq<char>> {
    v.map_values(|s: String| s@)
}

pub open spec fn strs_view(v: Seq<&str>) -> Seq<Seq<char>> {
    v.map_values(|s: &str| s@)
}

/// Relies on accept_language::intersection: the tags of the header that are
/// among `supported`, and nothing else, depending on its arguments alone. Its
/// sort may panic on a not-a-number weight, which `negotiable` rules out.
#[verifier::external_body]
fn header_intersection(header: &str, supported: Vec<&str>) -> (r: Vec<String>)
    requires
        negotiable(header@),
    ensures
        strings_view(r@) == common_languages(header@, strs_view(supported@)),
        forall|i: int| 0 <= i < r.len() ==> strs_view(supported@).contains(#[trigger] r@[i]@),
{
    accept_language::intersection(header, supported)
}

impl Language {
    /// The canonical short code.
    pub fn code(&self) -> (r: &'static str)
        ensures
            r@ == code_of(*self),
    {
        match self {
            Language::English => "en",
            Language::Spanish => "es",
            Language::Portuguese => "pt",
        }
    }

    /// The language whose code is exactly `s`.
    pub fn from_code(s: &str) -> (r: Option<Language>)
        ensures
            r == language_of(s@),
    {
        if same_text(s, "en") {
            Some(Language::English)
        } else if same_text(s, "es") {
            Some(Language::Spanish)
        } else if same_text(s, "pt") {
            Some(Language::Portuguese)
        } else {
            None
        }
    }
}

/// Whether two strings hold the same characters.
pub fn same_text(a: &str, b: &str) -> (r: bool)
    ensures
        r == (a@ == b@),
{
    let n = a.unicode_len();
    if n != b.unicode_len() {
        return false;
    }
    let mut i: usize = 0;
    while i < n
        invariant
            n == a@.len(),
            n == b@.len(),
            i <= n,
            forall|k: int| 0 <= k < i ==> a@[k] == b@[k],
        decreases n - i,
    {
        if a.get_char(i) != b.get_char(i) {
            return false;
        }
        i = i + 1;
    }
    assert(a@ =~= b@);
    true
}

fn is_n(c: char) -> (r: bool)
    ensures
        r == (c == 'n' || c == 'N'),
{
    c == 'n' || c == 'N'
}

fn is_a(c: char) -> (r: bool)
    ensures
        r == (c == 'a' || c == 'A'),
{
    c == 'a' || c == 'A'
}

fn nan_from(s: &Vec<char>, p: usize) -> (r: bool)
    ensures
        r == nan_at(s@, p as int),
{
    p < s.len() && s.len() - p >= 3 && is_n(s[p]) && is_a(s[p + 1]) && is_n(s[p + 2])
}

/// Whether the `;` at `c` is the first of its item.
fn first_in_item(s: &Vec<char>, c: usize) -> (r: bool)
    requires
        c < s.len(),
        s@[c as int] == ';',
    ensures
        r == opens_weight(s@, c as int),
{
    let mut j: usize = c;
    while j > 0
        invariant
            j <= c < s.len(),
            s@[c as int] == ';',
            forall|i: int| j <= i < c ==> s@[i] != ';' && s@[i] != ',',
        decreases j,
    {
        let ch = s[j - 1];
        if ch == ',' {
            assert forall|i: int|
                0 <= i < c && #[trigger] s@[i] == ';' implies comma_between(s@, i, c as int) by {
                if i >= j {
                    assert(s@[i] != ';');
                }
                assert(i != j - 1);
                let w: int = j - 1;
                assert(i < w < c && s@[w] == ',');
            }
            return true;
        }
        if ch == ';' {
            assert(0 <= j - 1 < c && s@[j - 1] == ';');
            assert(!comma_between(s@, j - 1, c as int));
            return false;
        }
        j = j - 1;
    }
    true
}

/// Whether the weight parameter opened at `c` holds a not-a-number value.
fn nan_weight_from(s: &Vec<char>, c: usize) -> (r: bool)
    requires
        opens_weight(s@, c as int),
    ensures
        r == exists|e: int, k: int| nan_weight(s@, c as int, e, k),
{
    let m = s.len();
    let mut i: usize = c + 1;
    let mut eq: Option<usize> = None;
    let mut twice = false;
    while i < m && !(s[i] == ',' || s[i] == ';')
        invariant
            c < i <= m,
            m == s@.len(),
            opens_weight(s@, c as int),
            forall|j: int| c < j < i ==> !is_delim(#[trigger] s@[j]),
            !twice && eq is None ==> forall|j: int| c < j < i ==> #[trigger] s@[j] != '=',
            !twice && eq is Some ==> c < eq->Some_0 < i && s@[eq->Some_0 as int] == '=' && forall|
                j: int|
                c < j < i && j != eq->Some_0 ==> #[trigger] s@[j] != '=',
            twice ==> exists|a: int, b: int|
                c < a < b < i && #[trigger] s@[a] == '=' && #[trigger] s@[b] == '=',
        decreases m - i,
    {
        if s[i] == '=' {
            match eq {
                None => {
                    eq = Some(i);
                },
                Some(e) => {
                    if !twice {
                        assert(s@[e as int] == '=' && s@[i as int] == '=');
                    }
                    twice = true;
                },
            }
        }
        i = i + 1;
    }
    let k = i;
    assert(value_ends(s@, k as int));
    proof {
        assert forall|e2: int, k2: int| #[trigger] nan_weight(s@, c as int, e2, k2) implies k2
            == k && !twice && eq == Some(e2 as usize) by {
            if k2 < k {
                assert(!is_delim(s@[k2]));
            } else if k2 > k {
                assert(k < m);
                assert(is_delim(s@[k as int]));
            }
            if twice {
                let (a, b) = choose|a: int, b: int|
                    c < a < b < k && #[trigger] s@[a] == '=' && #[trigger] s@[b] == '=';
                assert(s@[a] == '=' && s@[b] == '=');
            }
            if eq is None {
                assert(s@[e2] == '=');
            }
            if eq is Some {
                if e2 != eq->Some_0 as int {
                    assert(s@[e2] == '=');
                }
            }
        }
    }
    if twice {
        return false;
    }
    match eq {
        None => false,
        Some(e) => {
            let plain = k - e == 4 && nan_from(s, e + 1);
            let signed = k - e == 5 && (s[e + 1] == '+' || s[e + 1] == '-') && nan_from(s, e + 2);
            if plain || signed {
                assert(nan_weight(s@, c as int, e as int, k as int));
            }
            plain || signed
        },
    }
}

/// Whether the header can be negotiated on (see `negotiable`).
pub fn is_negotiable(header: &str) -> (r: bool)
    ensures
        r == negotiable(header@),
{
    let n = header.unicode_len();
    let mut kept: Vec<char> = Vec::new();
    let mut i: usize = 0;
    while i < n
        invariant
            n == header@.len(),
            i <= n,
            kept@ == without_spaces(header@.take(i as int)),
        decreases n - i,
    {
        let c = header.get_char(i);
        assert(header@.take(i + 1).drop_last() =~= header@.take(i as int));
        if c != ' ' {
            kept.push(c);
        }
        i = i + 1;
    }
    assert(header@.take(n as int) =~= header@);
    let m = kept.len();
    let mut c: usize = 0;
    while c < m
        invariant
            m == kept@.len(),
            c <= m,
            kept@ == without_spaces(header@),
            forall|q: int, e: int, k: int| 0 <= q < c ==> !#[trigger] nan_weight(kept@, q, e, k),
        decreases m - c,
    {
        if kept[c] == ';' && first_in_item(&kept, c) {
            if nan_weight_from(&kept, c) {
                return false;
            }
        }
        c = c + 1;
    }
    assert forall|q: int, e: int, k: int| !#[trigger] nan_weight(kept@, q, e, k) by {
        if 0 <= q < c {
        }
    }
    true
}

/// The first tag of `tags` that names a language, English where none does.
pub fn choose_language(tags: &Vec<String>) -> (r: Language)
    ensures
        r == first_supported(strings_view(tags@)),
{
    let mut i: usize = 0;
    assert(strings_view(tags@).skip(0) =~= strings_view(tags@));
    while i < tags.len()
        invariant
            i <= tags.len(),
            first_supported(strings_view(tags@)) == first_supported(
                strings_view(tags@).skip(i as int),
            ),
        decreases tags.len() - i,
    {
        let ghost rest = strings_view(tags@).skip(i as int);
        assert(rest[0] == tags@[i as int]@);
        assert(rest.drop_first() =~= strings_view(tags@).skip(i + 1));
        match Language::from_code(tags[i].as_str()) {
            Some(l) => {
                return l;
            },
            None => {},
        }
        i = i + 1;
    }
    assert(strings_view(tags@).skip(i as int).len() == 0);
    Language::English
}

/// Resolves the language of a response: a supported `lang` query value wins;
/// otherwise the most preferred supported tag of the `Accept-Language` header;
/// otherwise English. `header` is `None` where it is absent or not text.
pub fn resolve(query: Option<&str>, header: Option<&str>) -> (r: Language)
    ensures
        r == resolved_language(opt_view(query), opt_view(header)),
{
    if let Some(q) = query {
        if let Some(l) = Language::from_code(q) {
            return l;
        }
    }
    match header {
        None => Language::English,
        Some(h) => {
            if !is_negotiable(h) {
                return Language::English;
            }
            let supported: Vec<&str> = vec!["en", "es", "pt"];
            assert(strs_view(supported@) =~= supported_codes());
            let common = header_intersection(h, supported);
            choose_language(&common)
        },
    }
}

/// A supported `lang` query value decides the language, whatever the header.
pub proof fn lemma_query_decides(l: Language, header: Option<Seq<char>>)
    ensures
        resolved_language(Some(code_of(l)), header) == l,
{
    reveal_strlit("en");
    reveal_strlit("es");
    reveal_strlit("pt");
    assert("en"@[0] != "pt"@[0] && "es"@[0] != "pt"@[0] && "en"@[1] != "es"@[1]);
}

/// Without a readable header, and without a supported query value, the
/// language is English.
pub proof fn lemma_no_header_is_english(query: Option<Seq<char>>)
    requires
        query is None || language_of(query->Some_0) is None,
    ensures
        resolved_language(query, None) == Language::English,
{
}

} // verus!
