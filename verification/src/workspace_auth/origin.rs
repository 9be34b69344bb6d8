//! Where the control plane is.
use vstd::prelude::*;
use vstd::string::*;

use crate::error::{AppError, AppResult};
use crate::ids::{hyphenated, id_digit, id_text};
use crate::text::{holds_text, same_text, Text};

verus! {

/// The control plane that is used unless another is configured.
pub const DEFAULT_CONTROL_PLANE_ORIGIN: &'static str = "https://app.dopedb.dev";

/// The parts of a URL.
#[derive(PartialEq, Eq)]
pub struct UrlParts {
    pub scheme: String,
    pub host: Option<String>,
    pub username: String,
    pub password: Option<String>,
    pub path: String,
    pub query: Option<String>,
    pub fragment: Option<String>,
}

/// The texts of the parts of a URL.
pub struct UrlTexts {
    pub scheme: Seq<char>,
    pub host: Option<Seq<char>>,
    pub username: Seq<char>,
    pub password: Option<Seq<char>>,
    pub path: Seq<char>,
    pub query: Option<Seq<char>>,
    pub fragment: Option<Seq<char>>,
}

/// The text of a part that may be missing.
pub open spec fn optional_text(part: Option<String>) -> Option<Seq<char>> {
    match part {
        Some(text) => Some(text@),
        None => None,
    }
}

impl View for UrlParts {
    type V = UrlTexts;

    open spec fn view(&self) -> UrlTexts {
        UrlTexts {
            scheme: self.scheme@,
            host: optional_text(self.host),
            username: self.username@,
            password: optional_text(self.password),
            path: self.path@,
            query: optional_text(self.query),
            fragment: optional_text(self.fragment),
        }
    }
}

/// The parts that `reqwest::Url::parse` finds in a text, or nothing where the text is not
/// a URL.
pub uninterp spec fn parsed_url(text: Seq<char>) -> Option<UrlTexts>;

/// Calls `reqwest::Url::parse` and hands on the parts of the URL as its accessors give
/// them. Nothing is said of which texts are URLs and how their parts are normalized.
#[verifier::external_body]
fn parse_url(text: &str) -> (r: Option<UrlParts>)
    ensures
        r is Some <==> parsed_url(text@) is Some,
        r is Some ==> r->0@ == parsed_url(text@)->0,
{
    let url = reqwest::Url::parse(text).ok()?;
    Some(
        UrlParts {
            scheme: url.scheme().to_string(),
            host: url.host_str().map(str::to_string),
            username: url.username().to_string(),
            password: url.password().map(str::to_string),
            path: url.path().to_string(),
            query: url.query().map(str::to_string),
            fragment: url.fragment().map(str::to_string),
        },
    )
}

/// Whether a text holds only ASCII letters, digits and hyphens, none of which is ever
/// escaped in a URL.
pub open spec fn is_bare(text: Seq<char>) -> bool {
    forall|i: int|
        0 <= i < text.len() ==> {
            let c = #[trigger] text[i];
            'a' <= c <= 'z' || 'A' <= c <= 'Z' || '0' <= c <= '9' || c == '-'
        }
}

/// Whether a text is a slash and one bare name behind it.
pub open spec fn is_bare_path(path: Seq<char>) -> bool {
    path.len() > 1 && path[0] == '/' && is_bare(path.drop_first())
}

/// What `url` makes of a base, a path, an added query pair and a fragment, or nothing where
/// the base is not a URL.
pub uninterp spec fn composed_url(
    base: Seq<char>,
    path: Seq<char>,
    key: Seq<char>,
    value: Seq<char>,
    fragment: Seq<char>,
) -> Option<Seq<char>>;

/// What `url` makes of a base, a path and a fragment, or nothing where the base is not a URL.
pub uninterp spec fn composed_plain_url(
    base: Seq<char>,
    path: Seq<char>,
    fragment: Seq<char>,
) -> Option<Seq<char>>;

/// Whether a base is an HTTP or HTTPS URL without a query.
pub open spec fn is_web_base(base: Seq<char>) -> bool {
    &&& parsed_url(base) is Some
    &&& parsed_url(base)->0.scheme == "https"@ || parsed_url(base)->0.scheme == "http"@
    &&& parsed_url(base)->0.query is None
}

/// The longest base that a URL is composed on, in characters. A URL grows while it is
/// composed, and its length in bytes has to stay a 32-bit number.
pub const MAX_BASE_CHARS: usize = 67_108_864;

/// The longest part that is put into a URL, in characters.
pub const MAX_PART_CHARS: usize = 1024;

/// Calls `reqwest::Url::parse` on the base, then `set_path`, `query_pairs_mut` with
/// `append_pair`, and `set_fragment`, and prints the URL. On an HTTP or HTTPS base without
/// a query, bare parts are taken over as they are, so that the printed URL has exactly
/// these parts, and the scheme and the host of the base. Nothing is said of parts that
/// have to be escaped.
#[verifier::external_body]
fn compose_url(base: &str, path: &str, key: &str, value: &str, fragment: &str) -> (r: Option<
    String,
>)
    requires
        base@.len() <= MAX_BASE_CHARS,
        path@.len() <= MAX_PART_CHARS,
        key@.len() <= MAX_PART_CHARS,
        value@.len() <= MAX_PART_CHARS,
        fragment@.len() <= MAX_PART_CHARS,
    ensures
        optional_text(r) == composed_url(base@, path@, key@, value@, fragment@),
        r is Some <==> parsed_url(base@) is Some,
        (is_web_base(base@) && is_bare_path(path@) && is_bare(key@) && is_bare(value@) && is_bare(
            fragment@,
        )) ==> r is Some && parsed_url(r->0@) == Some(
            UrlTexts {
                path: path@,
                query: Some(key@ + seq!['='] + value@),
                fragment: Some(fragment@),
                ..parsed_url(base@)->0
            },
        ),
{
    let mut url = reqwest::Url::parse(base).ok()?;
    url.set_path(path);
    url.query_pairs_mut().append_pair(key, value);
    url.set_fragment(Some(fragment));
    Some(url.into())
}

/// Calls `reqwest::Url::parse` on the base, then `set_path` and `set_fragment`, and prints
/// the URL. On an HTTP or HTTPS base without a query, bare parts are taken over as they are,
/// so that the printed URL has exactly these parts, no query, and the scheme and the host of
/// the base. Nothing is said of parts that have to be escaped.
#[verifier::external_body]
fn compose_plain_url(base: &str, path: &str, fragment: &str) -> (r: Option<String>)
    requires
        base@.len() <= MAX_BASE_CHARS,
        path@.len() <= MAX_PART_CHARS,
        fragment@.len() <= MAX_PART_CHARS,
    ensures
        optional_text(r) == composed_plain_url(base@, path@, fragment@),
        r is Some <==> parsed_url(base@) is Some,
        (is_web_base(base@) && is_bare_path(path@) && is_bare(fragment@)) ==> r is Some
            && parsed_url(r->0@) == Some(
            UrlTexts { path: path@, fragment: Some(fragment@), ..parsed_url(base@)->0 },
        ),
{
    let mut url = reqwest::Url::parse(base).ok()?;
    url.set_path(path);
    url.set_fragment(Some(fragment));
    Some(url.into())
}

/// A text without the slashes at its end.
pub open spec fn without_slashes(text: Seq<char>) -> Seq<char>
    decreases text.len(),
{
    if text.len() > 0 && text.last() == '/' {
        without_slashes(text.drop_last())
    } else {
        text
    }
}

/// Computes [`without_slashes`].
fn trim_slashes(text: &str) -> (r: String)
    ensures
        r@ == without_slashes(text@),
{
    let mut end: usize = text.unicode_len();
    assert(text@.subrange(0, text@.len() as int) =~= text@);
    while end > 0 && text.get_char(end - 1) == '/'
        invariant
            end <= text@.len(),
            without_slashes(text@) == without_slashes(text@.subrange(0, end as int)),
        decreases end,
    {
        assert(text@.subrange(0, end as int).drop_last() =~= text@.subrange(0, end - 1));
        end = end - 1;
    }
    text.substring_char(0, end).to_owned()
}

/// Whether the parts are those of an origin: HTTPS, and nothing behind the host. While
/// debugging, plain HTTP to this machine passes too.
pub open spec fn is_origin(url: UrlTexts, debug: bool) -> bool {
    &&& url.scheme == "https"@ || (debug && url.scheme == "http"@ && url.host is Some && (
    url.host->0 == "localhost"@ || url.host->0 == "127.0.0.1"@ || url.host->0 == "[::1]"@))
    &&& url.username == ""@
    &&& url.password is None
    &&& url.path == "/"@
    &&& url.query is None
    &&& url.fragment is None
}

/// What is decided on a configured origin, by the parts that were found in it.
pub open spec fn origin_verdict(parsed: Option<UrlTexts>, debug: bool) -> Option<&'static str> {
    match parsed {
        None => Some("workspace control-plane origin is invalid"),
        Some(url) => if is_origin(url, debug) {
            None
        } else {
            Some("workspace control-plane origin must be an HTTPS origin")
        },
    }
}

/// Checks an origin by the parts that were found in it.
pub fn check_origin(raw: String, parsed: Option<UrlParts>, debug: bool) -> (r: AppResult<String>)
    ensures
        match origin_verdict(
            match parsed {
                Some(url) => Some(url@),
                None => None,
            },
            debug,
        ) {
            None => r == Ok::<String, AppError>(raw),
            Some(reason) => r == Err::<String, AppError>(AppError::Config(Text::Plain(reason))),
        },
{
    let url = match parsed {
        None => {
            return Err(
                AppError::Config(Text::Plain("workspace control-plane origin is invalid")),
            );
        },
        Some(url) => url,
    };
    let local = holds_text(&url.host, "localhost") || holds_text(&url.host, "127.0.0.1")
        || holds_text(&url.host, "[::1]");
    let local_debug_origin = debug && same_text(url.scheme.as_str(), "http") && local;
    if (!same_text(url.scheme.as_str(), "https") && !local_debug_origin) || !same_text(
        url.username.as_str(),
        "",
    ) || url.password.is_some() || !same_text(url.path.as_str(), "/") || url.query.is_some()
        || url.fragment.is_some() {
        return Err(
            AppError::Config(Text::Plain("workspace control-plane origin must be an HTTPS origin")),
        );
    }
    Ok(raw)
}

/// The configured origin, or the default one, without slashes at its end.
pub open spec fn raw_origin(configured: Option<String>) -> Seq<char> {
    match configured {
        Some(text) => without_slashes(text@),
        None => without_slashes(DEFAULT_CONTROL_PLANE_ORIGIN@),
    }
}

/// The origin of the control plane.
pub fn origin(configured: Option<String>, debug: bool) -> (r: AppResult<String>)
    ensures
        match origin_verdict(parsed_url(raw_origin(configured)), debug) {
            None => r is Ok && r->Ok_0@ == raw_origin(configured),
            Some(reason) => r == Err::<String, AppError>(AppError::Config(Text::Plain(reason))),
        },
{
    let raw = match configured {
        Some(text) => trim_slashes(text.as_str()),
        None => trim_slashes(DEFAULT_CONTROL_PLANE_ORIGIN),
    };
    let parsed = parse_url(raw.as_str());
    check_origin(raw, parsed, debug)
}

/// The query that names a workspace.
pub open spec fn workspace_query(workspace_id: Option<u128>) -> Option<Seq<char>> {
    match workspace_id {
        Some(id) => Some("workspace"@ + seq!['='] + hyphenated(id)),
        None => None,
    }
}

/// The page of the console for one workspace, or for the list of them, below this origin.
pub open spec fn console_page(base: Seq<char>, workspace_id: Option<u128>) -> Option<Seq<char>> {
    let fragment = workspace_fragment(workspace_id);
    match workspace_id {
        Some(id) => composed_url(base, "/settings"@, "workspace"@, hyphenated(id), fragment),
        None => composed_plain_url(base, "/settings"@, fragment),
    }
}

/// The fragment that names a workspace, or the list of them.
pub open spec fn workspace_fragment(workspace_id: Option<u128>) -> Seq<char> {
    match workspace_id {
        Some(id) => "workspace-"@ + hyphenated(id),
        None => "workspaces"@,
    }
}

proof fn trimming_slashes_shortens(text: Seq<char>)
    ensures
        without_slashes(text).len() <= text.len(),
    decreases text.len(),
{
    if text.len() > 0 && text.last() == '/' {
        trimming_slashes_shortens(text.drop_last());
    }
}

proof fn raw_origin_is_short(configured: Option<String>)
    requires
        configured is Some ==> configured->0@.len() <= MAX_BASE_CHARS,
    ensures
        raw_origin(configured).len() <= MAX_BASE_CHARS,
{
    match configured {
        Some(text) => {
            trimming_slashes_shortens(text@);
        },
        None => {
            trimming_slashes_shortens(DEFAULT_CONTROL_PLANE_ORIGIN@);
            reveal_strlit("https://app.dopedb.dev");
        },
    }
}

proof fn id_is_bare(id: u128)
    ensures
        is_bare(hyphenated(id)),
        hyphenated(id).len() == 36,
{
    let text = hyphenated(id);
    assert forall|i: int| 0 <= i < text.len() implies {
        let c = #[trigger] text[i];
        'a' <= c <= 'z' || 'A' <= c <= 'Z' || '0' <= c <= '9' || c == '-'
    } by {
        assert(forall|k: int|
            {
                let c = #[trigger] id_digit(id, k);
                'a' <= c <= 'z' || '0' <= c <= '9'
            });
    }
}

proof fn parts_are_bare(workspace_id: Option<u128>)
    ensures
        is_bare_path("/settings"@),
        "/settings"@.len() <= MAX_PART_CHARS,
        is_bare("workspace"@),
        "workspace"@.len() <= MAX_PART_CHARS,
        is_bare(workspace_fragment(workspace_id)),
        workspace_fragment(workspace_id).len() <= MAX_PART_CHARS,
{
    reveal_strlit("/settings");
    reveal_strlit("workspace");
    reveal_strlit("workspace-");
    reveal_strlit("workspaces");
    match workspace_id {
        Some(id) => {
            id_is_bare(id);
        },
        None => {},
    }
}

/// The page of the console for one workspace, or for the list of them.
pub fn console_url(configured: Option<String>, debug: bool, workspace_id: Option<u128>) -> (r:
    AppResult<String>)
    requires
        configured is Some ==> configured->0@.len() <= MAX_BASE_CHARS,
    ensures
        match origin_verdict(parsed_url(raw_origin(configured)), debug) {
            Some(reason) => r == Err::<String, AppError>(AppError::Config(Text::Plain(reason))),
            None => {
                &&& r is Ok
                &&& Some(r->Ok_0@) == console_page(raw_origin(configured), workspace_id)
                &&& parsed_url(r->Ok_0@) == Some(
                    UrlTexts {
                        path: "/settings"@,
                        query: workspace_query(workspace_id),
                        fragment: Some(workspace_fragment(workspace_id)),
                        ..parsed_url(raw_origin(configured))->0
                    },
                )
            },
        },
{
    proof {
        parts_are_bare(workspace_id);
        match workspace_id {
            Some(id) => {
                id_is_bare(id);
            },
            None => {},
        }
        raw_origin_is_short(configured);
    }
    let base = match origin(configured, debug) {
        Ok(base) => base,
        Err(error) => {
            return Err(error);
        },
    };
    let composed = match workspace_id {
        Some(id) => {
            let id = id_text(id);
            let mut fragment = "workspace-".to_owned();
            fragment.append(id.as_str());
            compose_url(
                base.as_str(),
                "/settings",
                "workspace",
                id.as_str(),
                fragment.as_str(),
            )
        },
        None => compose_plain_url(base.as_str(), "/settings", "workspaces"),
    };
    match composed {
        Some(url) => Ok(url),
        None => Err(AppError::Config(Text::Plain("workspace control-plane origin is invalid"))),
    }
}

} // verus!
