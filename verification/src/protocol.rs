//! The Windows association of the `kiro` URL schemes with this program: what
//! is written to the registry, and when an existing entry must be repaired.
use vstd::prelude::*;
use vstd::string::StringExecFns;
use crate::text::{
    chars_of, contains_text, find_char, find_char_from, is_space, is_space_exec, lower_chars,
    lower_text, string_of, sub_chars, trim, trim_chars, lemma_find_char_at, lemma_trim_end_take,
    lemma_trim_start_skip, trim_start,
};
use crate::text::contains_chars;

verus! {

/// The message when the path given for the protocol handler is empty.
pub open spec fn empty_path_message() -> Seq<char> {
    "鍗忚\u{e185}鏄犲皠璺\u{e21a}緞涓嶈兘涓虹┖"@
}

/// The message when no protocol command is registered for `kiro`.
pub open spec fn no_mapping_message() -> Seq<char> {
    "鏈\u{e045}壘鍒?kiro 鍗忚\u{e185}鏄犲皠"@
}

/// `s` without the leading characters equal to `c`.
pub open spec fn strip_start(s: Seq<char>, c: char) -> Seq<char>
    decreases s.len(),
{
    if s.len() > 0 && s[0] == c {
        strip_start(s.drop_first(), c)
    } else {
        s
    }
}

/// `s` without the trailing characters equal to `c`.
pub open spec fn strip_end(s: Seq<char>, c: char) -> Seq<char>
    decreases s.len(),
{
    if s.len() > 0 && s.last() == c {
        strip_end(s.drop_last(), c)
    } else {
        s
    }
}

/// The handler path as it is written: trimmed of white space, then of the
/// quotes around it (`trim().trim_matches('"')`).
pub open spec fn normalized_path(p: Seq<char>) -> Seq<char> {
    strip_end(strip_start(trim(p), '"'), '"')
}

proof fn lemma_strip_start_skip(s: Seq<char>, c: char, i: int)
    requires
        0 <= i <= s.len(),
        forall|j: int| 0 <= j < i ==> #[trigger] s[j] == c,
        i == s.len() || s[i] != c,
    ensures
        strip_start(s, c) == s.skip(i),
    decreases i,
{
    if i > 0 {
        lemma_strip_start_skip(s.drop_first(), c, i - 1);
        assert(s.drop_first().skip(i - 1) =~= s.skip(i));
    } else {
        assert(s.skip(0) =~= s);
    }
}

proof fn lemma_strip_end_take(s: Seq<char>, c: char, i: int)
    requires
        0 <= i <= s.len(),
        forall|j: int| i <= j < s.len() ==> #[trigger] s[j] == c,
        i == 0 || s[i - 1] != c,
    ensures
        strip_end(s, c) == s.take(i),
    decreases s.len() - i,
{
    if i < s.len() {
        lemma_strip_end_take(s.drop_last(), c, i);
        assert(s.drop_last().take(i) =~= s.take(i));
    } else {
        assert(s.take(i) =~= s);
    }
}

/// `v` without the leading and trailing characters equal to `c`.
fn strip_both(v: &Vec<char>, c: char) -> (r: Vec<char>)
    ensures
        r@ == strip_end(strip_start(v@, c), c),
{
    let n = v.len();
    let mut start: usize = 0;
    while start < n && v[start] == c
        invariant
            n == v@.len(),
            start <= n,
            forall|j: int| 0 <= j < start ==> #[trigger] v@[j] == c,
        decreases n - start,
    {
        start = start + 1;
    }
    proof {
        lemma_strip_start_skip(v@, c, start as int);
    }
    let mut end: usize = n;
    while end > start && v[end - 1] == c
        invariant
            n == v@.len(),
            start <= end <= n,
            forall|j: int| end <= j < n ==> #[trigger] v@[j] == c,
        decreases end,
    {
        end = end - 1;
    }
    let r = sub_chars(v, start, end);
    proof {
        let t = v@.skip(start as int);
        lemma_strip_end_take(t, c, (end - start) as int);
        assert(t.take((end - start) as int) =~= v@.subrange(start as int, end as int));
    }
    r
}

/// `p` is a path as `current_exe` writes it: not empty, with neither white
/// space nor a double quote at its start or its end.
pub open spec fn is_bare_path(p: Seq<char>) -> bool {
    &&& p.len() > 0
    &&& !is_space(p[0]) && p[0] != '"'
    &&& !is_space(p.last()) && p.last() != '"'
}

/// `trim` leaves a text alone whose ends are not white space.
proof fn lemma_trim_keeps(p: Seq<char>)
    requires
        p.len() > 0,
        !is_space(p[0]),
        !is_space(p.last()),
    ensures
        trim(p) == p,
{
    lemma_trim_start_skip(p, 0);
    assert(p.skip(0) =~= p);
    lemma_trim_end_take(p, p.len() as int);
    assert(p.take(p.len() as int) =~= p);
}

/// A bare path is registered exactly as it is given, white space inside it
/// included.
pub proof fn law_bare_path_unchanged(p: Seq<char>)
    requires
        is_bare_path(p),
    ensures
        normalized_path(p) == p,
{
    lemma_trim_keeps(p);
    lemma_strip_start_skip(p, '"', 0);
    assert(p.skip(0) =~= p);
    lemma_strip_end_take(p, '"', p.len() as int);
    assert(p.take(p.len() as int) =~= p);
}

/// A path between one pair of double quotes is registered without them,
/// everything between them kept.
pub proof fn law_quoted_path_unquoted(q: Seq<char>)
    requires
        q.len() > 0,
        q[0] != '"',
        q.last() != '"',
    ensures
        normalized_path(seq!['"'] + q + seq!['"']) == q,
{
    let p = seq!['"'] + q + seq!['"'];
    assert(!is_space('"'));
    assert(p[0] == '"' && p.last() == '"');
    lemma_trim_keeps(p);
    lemma_strip_start_skip(p, '"', 1);
    let s = p.skip(1);
    assert(s =~= q + seq!['"']);
    lemma_strip_end_take(s, '"', q.len() as int);
    assert(s.take(q.len() as int) =~= q);
}

/// White space around a path does not change what is registered.
pub proof fn law_surrounding_space_ignored(w1: Seq<char>, p: Seq<char>, w2: Seq<char>)
    requires
        p.len() > 0,
        !is_space(p[0]),
        !is_space(p.last()),
        forall|i: int| 0 <= i < w1.len() ==> is_space(#[trigger] w1[i]),
        forall|i: int| 0 <= i < w2.len() ==> is_space(#[trigger] w2[i]),
    ensures
        normalized_path(w1 + p + w2) == normalized_path(p),
{
    let s = w1 + p + w2;
    assert forall|j: int| 0 <= j < w1.len() implies is_space(#[trigger] s[j]) by {
        assert(s[j] == w1[j]);
    }
    assert(s[w1.len() as int] == p[0]);
    lemma_trim_start_skip(s, w1.len() as int);
    let t = s.skip(w1.len() as int);
    assert(t =~= p + w2);
    assert forall|j: int| p.len() <= j < t.len() implies is_space(#[trigger] t[j]) by {
        assert(t[j] == w2[j - p.len()]);
    }
    assert(t[p.len() - 1] == p.last());
    lemma_trim_end_take(t, p.len() as int);
    assert(t.take(p.len() as int) =~= p);
    lemma_trim_keeps(p);
}

/// What is registered never begins or ends with a double quote.
pub proof fn law_normalized_path_unquoted(p: Seq<char>)
    ensures
        normalized_path(p).len() > 0 ==> normalized_path(p)[0] != '"'
            && normalized_path(p).last() != '"',
{
    let s = strip_start(trim(p), '"');
    lemma_strip_start_first(trim(p), '"');
    lemma_strip_end_prefix(s, '"');
}

proof fn lemma_strip_start_first(s: Seq<char>, c: char)
    ensures
        strip_start(s, c).len() > 0 ==> strip_start(s, c)[0] != c,
    decreases s.len(),
{
    if s.len() > 0 && s[0] == c {
        lemma_strip_start_first(s.drop_first(), c);
    }
}

proof fn lemma_strip_end_prefix(s: Seq<char>, c: char)
    ensures
        strip_end(s, c).is_prefix_of(s),
        strip_end(s, c).len() > 0 ==> strip_end(s, c).last() != c,
    decreases s.len(),
{
    if s.len() > 0 && s.last() == c {
        lemma_strip_end_prefix(s.drop_last(), c);
    }
}

/// The path to register as the protocol handler, or the error for an empty one.
pub fn normalize_protocol_path(exe_path: &str) -> (r: Result<String, String>)
    ensures
        match r {
            Ok(p) => p@ == normalized_path(exe_path@) && p@.len() > 0,
            Err(e) => normalized_path(exe_path@).len() == 0 && e@ == empty_path_message(),
        },
        is_bare_path(exe_path@) ==> (r matches Ok(p) && p@ == exe_path@),
{
    proof {
        if is_bare_path(exe_path@) {
            law_bare_path_unchanged(exe_path@);
        }
    }
    let v = chars_of(exe_path);
    let t = trim_chars(&v);
    let n = strip_both(&t, '"');
    if n.len() == 0 {
        Err("鍗忚\u{e185}鏄犲皠璺\u{e21a}緞涓嶈兘涓虹┖".to_owned())
    } else {
        Ok(string_of(&n))
    }
}

/// The command registered for the schemes: the quoted handler path, then the
/// quoted URL placeholder (`"<path>" "%1"`).
pub fn protocol_command(exe_path: &str) -> (r: String)
    ensures
        r@ == "\""@ + exe_path@ + "\" \"%1\""@,
{
    let mut r = "\"".to_owned();
    r.append(exe_path);
    r.append("\" \"%1\"");
    r
}

/// The registry key of a scheme under the current user's classes.
pub fn protocol_class_path(scheme: &str) -> (r: String)
    ensures
        r@ == "Software\\Classes\\"@ + scheme@,
{
    let mut r = "Software\\Classes\\".to_owned();
    r.append(scheme);
    r
}

/// The title stored as the default value of a scheme's key.
pub fn protocol_title(scheme: &str) -> (r: String)
    ensures
        r@ == "URL:"@ + scheme@ + " Protocol"@,
{
    let mut r = "URL:".to_owned();
    r.append(scheme);
    r.append(" Protocol");
    r
}

/// The registry key whose default value is a scheme's open command.
pub fn protocol_command_key(scheme: &str) -> (r: String)
    ensures
        r@ == "Software\\Classes\\"@ + scheme@ + "\\shell\\open\\command"@,
{
    let mut r = protocol_class_path(scheme);
    r.append("\\shell\\open\\command");
    r
}

/// The index of the first white-space character of `s`, or `s.len()`.
pub open spec fn find_space(s: Seq<char>) -> int
    decreases s.len(),
{
    if s.len() == 0 {
        0
    } else if is_space(s[0]) {
        0
    } else {
        1 + find_space(s.drop_first())
    }
}

proof fn lemma_find_space_at(s: Seq<char>, i: int)
    requires
        0 <= i <= s.len(),
        forall|k: int| 0 <= k < i ==> !is_space(#[trigger] s[k]),
        i == s.len() || is_space(s[i]),
    ensures
        find_space(s) == i,
    decreases i,
{
    if i > 0 {
        assert forall|k: int| 0 <= k < i - 1 implies !is_space(#[trigger] s.drop_first()[k]) by {
            assert(s.drop_first()[k] == s[k + 1]);
        }
        lemma_find_space_at(s.drop_first(), i - 1);
    }
}

/// The executable that a registered open command runs: the text between the
/// first pair of quotes when the trimmed command starts with a quote (none
/// when the closing quote is missing), else its first white-space separated
/// word (none for a blank command).
pub open spec fn executable_of(command: Seq<char>) -> Option<Seq<char>> {
    let t = trim(command);
    if t.len() > 0 && t[0] == '"' {
        let rest = t.drop_first();
        let e = find_char(rest, '"');
        if e < rest.len() {
            Some(rest.take(e))
        } else {
            None
        }
    } else if t.len() == 0 {
        None
    } else {
        Some(t.take(find_space(t)))
    }
}

/// The executable named by a registered open command.
pub fn extract_executable(command: &str) -> (r: Option<String>)
    ensures
        match r {
            Some(e) => executable_of(command@) == Some(e@),
            None => executable_of(command@) is None,
        },
{
    let v = chars_of(command);
    let t = trim_chars(&v);
    let n = t.len();
    if n > 0 && t[0] == '"' {
        let e = find_char_from(&t, '"', 1);
        proof {
            assert(t@.skip(1) =~= t@.drop_first());
        }
        if e < n {
            let exe = sub_chars(&t, 1, e);
            proof {
                assert(exe@ =~= t@.drop_first().take(e - 1));
            }
            Some(string_of(&exe))
        } else {
            None
        }
    } else if n == 0 {
        None
    } else {
        let mut i: usize = 0;
        while i < n && !is_space_exec(t[i])
            invariant
                n == t@.len(),
                i <= n,
                forall|k: int| 0 <= k < i ==> !is_space(#[trigger] t@[k]),
            decreases n - i,
        {
            i = i + 1;
        }
        proof {
            lemma_find_space_at(t@, i as int);
        }
        let exe = sub_chars(&t, 0, i);
        proof {
            assert(exe@ =~= t@.take(i as int));
        }
        Some(string_of(&exe))
    }
}

/// An existing registration must be rewritten when no executable can be read
/// from it, when it runs an `electron.exe` (any case), or when its executable
/// does not exist.
pub open spec fn needs_repair(existing_exe: Option<Seq<char>>, exe_exists: bool) -> bool {
    match existing_exe {
        Some(e) => contains_text(lower_text(e), "electron.exe"@) || !exe_exists,
        None => true,
    }
}

/// Whether the registered command must be replaced; `existing_exe` is what
/// `extract_executable` read from it and `exe_exists` whether that file exists.
pub fn protocol_needs_repair(existing_exe: Option<String>, exe_exists: bool) -> (r: bool)
    ensures
        r == needs_repair(
            match existing_exe {
                Some(e) => Some(e@),
                None => None,
            },
            exe_exists,
        ),
{
    match existing_exe {
        Some(e) => {
            let v = chars_of(e.as_str());
            let lower = lower_chars(&v);
            let needle = chars_of("electron.exe");
            contains_chars(&lower, &needle) || !exe_exists
        },
        None => true,
    }
}

/// `c` holds a command that is not blank.
pub open spec fn is_command(c: Option<String>) -> bool {
    c matches Some(s) && trim(s@).len() > 0
}

/// The registered `kiro` open command: the current user's when it is not
/// blank, else the one under the classes root when that is not blank.
/// `user_command` and `classes_command` are the values read from the two keys
/// (`None` where a key could not be opened).
pub fn get_protocol_command_inner(user_command: Option<String>, classes_command: Option<String>) -> (r:
    Result<String, String>)
    ensures
        is_command(user_command) ==> r == Ok::<String, String>(user_command->0),
        !is_command(user_command) && is_command(classes_command) ==> r == Ok::<String, String>(
            classes_command->0,
        ),
        !is_command(user_command) && !is_command(classes_command) ==> (r matches Err(e) && e@
            == no_mapping_message()),
{
    if let Some(c) = user_command {
        let v = chars_of(c.as_str());
        if trim_chars(&v).len() > 0 {
            return Ok(c);
        }
    }
    if let Some(c) = classes_command {
        let v = chars_of(c.as_str());
        if trim_chars(&v).len() > 0 {
            return Ok(c);
        }
    }
    Err("鏈\u{e045}壘鍒?kiro 鍗忚\u{e185}鏄犲皠".to_owned())
}

/// The executable read back from the command written for a handler path is
/// that path, when the path holds no double quote; so a command just written
/// for an existing executable is left alone at the next start-up unless the
/// path names an `electron.exe`.
pub proof fn law_written_command_names_its_executable(p: Seq<char>)
    requires
        forall|i: int| 0 <= i < p.len() ==> #[trigger] p[i] != '"',
    ensures
        executable_of("\""@ + p + "\" \"%1\""@) == Some(p),
        needs_repair(executable_of("\""@ + p + "\" \"%1\""@), true) == contains_text(
            lower_text(p),
            "electron.exe"@,
        ),
{
    reveal_strlit("\"");
    reveal_strlit("\" \"%1\"");
    let c = "\""@ + p + "\" \"%1\""@;
    assert(c[0] == '"');
    assert(c.last() == '"');
    lemma_trim_start_skip(c, 0);
    assert(c.skip(0) =~= c);
    assert(trim_start(c) == c);
    lemma_trim_end_take(c, c.len() as int);
    assert(c.take(c.len() as int) =~= c);
    assert(trim(c) == c);
    let rest = c.drop_first();
    assert forall|k: int| 0 <= k < p.len() implies rest[k] != '"' by {
        assert(rest[k] == p[k]);
    }
    assert(rest[p.len() as int] == '"');
    lemma_find_char_at(rest, '"', p.len() as int);
    assert(rest.take(p.len() as int) =~= p);
}

/// Start-up repair is stable: once the command has been written for an
/// executable whose path holds no double quote and names no `electron.exe`,
/// the next start-up, finding that executable in place, leaves the command
/// alone; the key title and the key paths it writes again are the same
/// texts, as `protocol_title`, `protocol_class_path` and
/// `protocol_command_key` depend on the scheme alone.
pub proof fn law_repair_is_stable(p: Seq<char>)
    requires
        forall|i: int| 0 <= i < p.len() ==> #[trigger] p[i] != '"',
        !contains_text(lower_text(p), "electron.exe"@),
    ensures
        !needs_repair(executable_of("\""@ + p + "\" \"%1\""@), true),
{
    law_written_command_names_its_executable(p);
}

} // verus!
