//! Deep links (`kiro://…`, `kiro-account-manager://…`) and the routing and
//! logging decisions made when the application starts.
use vstd::prelude::*;
use vstd::string::StrSliceExecFns;
use crate::text::{chars_of, find_char, find_char_from, starts_with, starts_with_chars, string_of, sub_chars};

verus! {

/// What `serde_json::from_str::<Vec<String>>` gives for the text `t`: the
/// strings of a JSON array of strings, or `None` when `t` is not one.
pub uninterp spec fn json_string_list(t: Seq<char>) -> Option<Seq<Seq<char>>>;

/// What `serde_json::from_str::<String>` gives for the text `t`: the value of
/// a JSON string, or `None` when `t` is not one.
pub uninterp spec fn json_string(t: Seq<char>) -> Option<Seq<char>>;

/// `serde_json::from_str::<Vec<String>>`, its error dropped. Claimed: the
/// result is the value named by `json_string_list` for the same text.
#[verifier::external_body]
fn parse_json_string_list(text: &str) -> (r: Option<Vec<String>>)
    ensures
        match r {
            Some(v) => json_string_list(text@) == Some(v@.map_values(|s: String| s@)),
            None => json_string_list(text@) is None,
        },
{
    serde_json::from_str::<Vec<String>>(text).ok()
}

/// `serde_json::from_str::<String>`, its error dropped. Claimed: the result is
/// the value named by `json_string` for the same text.
#[verifier::external_body]
fn parse_json_string(text: &str) -> (r: Option<String>)
    ensures
        match r {
            Some(s) => json_string(text@) == Some(s@),
            None => json_string(text@) is None,
        },
{
    serde_json::from_str::<String>(text).ok()
}

/// A URL that the application handles: one of the schemes `kiro` and
/// `kiro-account-manager`, followed by `://`.
pub open spec fn is_supported_url(u: Seq<char>) -> bool {
    "kiro://"@.is_prefix_of(u) || "kiro-account-manager://"@.is_prefix_of(u)
}

/// The URL schemes registered for the application: the primary one first,
/// then the legacy one.
pub fn compat_deep_link_schemes() -> (r: Vec<&'static str>)
    ensures
        r@.len() == 2,
        r@[0]@ == "kiro"@,
        r@[1]@ == "kiro-account-manager"@,
{
    let mut r: Vec<&'static str> = Vec::new();
    r.push("kiro");
    r.push("kiro-account-manager");
    r
}

/// Whether `url` uses one of the deep-link schemes the application handles.
pub fn is_supported_deep_link(url: &str) -> (r: bool)
    ensures
        r == is_supported_url(url@),
{
    starts_with(url, "kiro://") || starts_with(url, "kiro-account-manager://")
}

/// The arguments of `s` that are supported deep links, in order.
pub open spec fn supported_args(s: Seq<String>) -> Seq<String>
    decreases s.len(),
{
    if s.len() == 0 {
        Seq::empty()
    } else if is_supported_url(s.last()@) {
        supported_args(s.drop_last()).push(s.last())
    } else {
        supported_args(s.drop_last())
    }
}

/// The command-line arguments to handle as deep links, in their order: those
/// of a second instance, or of this process at start-up.
pub fn supported_deep_links(args: &Vec<String>) -> (r: Vec<String>)
    ensures
        r@ == supported_args(args@),
{
    let mut r: Vec<String> = Vec::new();
    let mut i: usize = 0;
    while i < args.len()
        invariant
            i <= args@.len(),
            r@ == supported_args(args@.take(i as int)),
        decreases args@.len() - i,
    {
        proof {
            assert(args@.take(i + 1).drop_last() =~= args@.take(i as int));
            assert(args@.take(i + 1).last() == args@[i as int]);
        }
        if is_supported_deep_link(args[i].as_str()) {
            r.push(args[i].clone());
        }
        i = i + 1;
    }
    proof {
        assert(args@.take(args@.len() as int) =~= args@);
    }
    r
}

/// The first string of the parsed array, or the payload itself when it did
/// not parse as an array of strings or the array is empty.
pub fn first_or_payload(payload: &str, parsed: Option<Vec<String>>) -> (r: String)
    ensures
        r@ == match parsed {
            Some(v) => if v@.len() > 0 {
                v@[0]@
            } else {
                payload@
            },
            None => payload@,
        },
{
    match parsed {
        Some(mut v) => {
            if v.len() > 0 {
                v.remove(0)
            } else {
                payload.to_owned()
            }
        },
        None => payload.to_owned(),
    }
}

/// The parsed JSON string, or the payload itself when it did not parse.
pub fn string_or_payload(payload: &str, parsed: Option<String>) -> (r: String)
    ensures
        r@ == match parsed {
            Some(s) => s@,
            None => payload@,
        },
{
    match parsed {
        Some(s) => s,
        None => payload.to_owned(),
    }
}

/// The URL that a deep-link event carries: its payload is a JSON array
/// whose first string is the URL, a JSON string, or the bare URL.
pub open spec fn payload_url(p: Seq<char>) -> Seq<char> {
    if p.len() > 0 && p[0] == '[' {
        match json_string_list(p) {
            Some(l) => if l.len() > 0 {
                l[0]
            } else {
                p
            },
            None => p,
        }
    } else if p.len() > 0 && p[0] == '"' {
        match json_string(p) {
            Some(t) => t,
            None => p,
        }
    } else {
        p
    }
}

/// The URL carried by the payload of a deep-link event.
pub fn deep_link_url_from_payload(payload: &str) -> (r: String)
    ensures
        r@ == payload_url(payload@),
{
    let n = payload.unicode_len();
    if n > 0 && payload.get_char(0) == '[' {
        let parsed = parse_json_string_list(payload);
        proof {
            if parsed is Some {
                let v = parsed->0;
                if v@.len() > 0 {
                    assert(v@.map_values(|s: String| s@)[0] == v@[0]@);
                }
            }
        }
        first_or_payload(payload, parsed)
    } else if n > 0 && payload.get_char(0) == '"' {
        string_or_payload(payload, parse_json_string(payload))
    } else {
        payload.to_owned()
    }
}

/// The deep link to open for an event payload, if its URL uses a supported
/// scheme; other events are ignored.
pub fn handle_deep_link_event(payload: &str) -> (r: Option<String>)
    ensures
        r matches Some(u) ==> u@ == payload_url(payload@),
        r is Some <==> is_supported_url(payload_url(payload@)),
{
    let url = deep_link_url_from_payload(payload);
    if is_supported_deep_link(url.as_str()) {
        Some(url)
    } else {
        None
    }
}

/// A route split at its first `?` into path and query (`str::split_once`).
pub open spec fn route_parts(route: Seq<char>) -> (Seq<char>, Option<Seq<char>>) {
    let i = find_char(route, '?');
    if i < route.len() {
        (route.take(i), Some(route.skip(i + 1)))
    } else {
        (route, None)
    }
}

/// The path and the query of the front-end route a deep link leads to.
pub fn split_route(route: &str) -> (r: (String, Option<String>))
    ensures
        r.0@ == route_parts(route@).0,
        match r.1 {
            Some(q) => route_parts(route@).1 == Some(q@),
            None => route_parts(route@).1 is None,
        },
{
    let v = chars_of(route);
    let i = find_char_from(&v, '?', 0);
    proof {
        assert(v@.skip(0) =~= v@);
    }
    if i < v.len() {
        let path = sub_chars(&v, 0, i);
        let query = sub_chars(&v, i + 1, v.len());
        proof {
            assert(path@ =~= route@.take(i as int));
            assert(query@ =~= route@.skip(i + 1));
        }
        (string_of(&path), Some(string_of(&query)))
    } else {
        (route.to_owned(), None)
    }
}

/// The levels of logging the application distinguishes.
#[derive(Debug, Clone, Copy, PartialEq, Eq)]
pub enum LogLevel {
    Debug,
    Info,
    Warn,
    Error,
}

/// The level for a configured level name: `info`, `warn` and `error` name
/// their level; any other name, or no configuration, gives `Debug`.
pub open spec fn level_for(configured: Option<Seq<char>>) -> LogLevel {
    match configured {
        Some(n) => if n == "info"@ {
            LogLevel::Info
        } else if n == "warn"@ {
            LogLevel::Warn
        } else if n == "error"@ {
            LogLevel::Error
        } else {
            LogLevel::Debug
        },
        None => LogLevel::Debug,
    }
}

/// Each of the names `info`, `warn` and `error` selects its own level, and
/// only that name does; every other name, and no configuration at all, runs
/// at `Debug`.
pub proof fn law_level_names(n: Seq<char>)
    ensures
        (level_for(Some(n)) == LogLevel::Info) == (n == "info"@),
        (level_for(Some(n)) == LogLevel::Warn) == (n == "warn"@),
        (level_for(Some(n)) == LogLevel::Error) == (n == "error"@),
        (level_for(Some(n)) == LogLevel::Debug) == (n != "info"@ && n != "warn"@ && n
            != "error"@),
        level_for(None) == LogLevel::Debug,
{
    reveal_strlit("info");
    reveal_strlit("warn");
    reveal_strlit("error");
    assert("info"@ != "warn"@ && "info"@ != "error"@ && "warn"@ != "error"@) by {
        assert("info"@[0] != "warn"@[0]);
        assert("info"@[0] != "error"@[0]);
        assert("warn"@[0] != "error"@[0]);
    }
}

/// Whether two texts are equal.
pub fn same_text(a: &str, b: &str) -> (r: bool)
    ensures
        r == (a@ == b@),
{
    let av = chars_of(a);
    let bv = chars_of(b);
    if av.len() != bv.len() {
        return false;
    }
    let r = starts_with_chars(&av, &bv);
    proof {
        if r {
            assert(av@ =~= bv@);
        }
    }
    r
}

/// The log level to run with, from the level name in the gateway
/// configuration (`None` when that could not be loaded).
pub fn log_level_for(configured: Option<&str>) -> (r: LogLevel)
    ensures
        r == level_for(
            match configured {
                Some(n) => Some(n@),
                None => None,
            },
        ),
        configured is None ==> r == LogLevel::Debug,
        configured matches Some(n) ==> ((r == LogLevel::Info) == (n@ == "info"@)),
        configured matches Some(n) ==> ((r == LogLevel::Warn) == (n@ == "warn"@)),
        configured matches Some(n) ==> ((r == LogLevel::Error) == (n@ == "error"@)),
        configured matches Some(n) ==> ((r == LogLevel::Debug) == (n@ != "info"@ && n@
            != "warn"@ && n@ != "error"@)),
{
    proof {
        if let Some(n) = configured {
            law_level_names(n@);
        }
    }
    match configured {
        Some(n) => {
            if same_text(n, "info") {
                LogLevel::Info
            } else if same_text(n, "warn") {
                LogLevel::Warn
            } else if same_text(n, "error") {
                LogLevel::Error
            } else {
                LogLevel::Debug
            }
        },
        None => LogLevel::Debug,
    }
}

/// Whether a log record comes from the application itself (its target starts
/// with `kiro_account_manager`); others are filtered out.
pub fn is_own_log_target(target: &str) -> (r: bool)
    ensures
        r == "kiro_account_manager"@.is_prefix_of(target@),
{
    starts_with(target, "kiro_account_manager")
}

/// Whether the legacy scheme `kiro-account-manager` must be registered besides
/// the primary scheme: when the primary scheme is another one.
pub fn legacy_scheme_needs_registration(primary_scheme: &str) -> (r: bool)
    ensures
        r == (primary_scheme@ != "kiro-account-manager"@),
{
    !same_text(primary_scheme, "kiro-account-manager")
}

} // verus!
