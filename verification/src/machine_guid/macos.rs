//! Machine identifiers on macOS: the identifier Kiro keeps in its data
//! directory, falling back to the hardware UUID that `ioreg` reports, and the
//! telemetry identifiers written next to it. Reading and writing the files
//! and running `ioreg` is left to the caller; this module decides.
use vstd::prelude::*;
use vstd::string::StrSliceExecFns;
use vstd::string::StringExecFns;
use vstd::string::StringSliceAdditionalSpecFns;
use sha2::Digest;

verus! {

use crate::machine_guid::{is_lower_machine_id, is_machine_id, is_valid_machine_id, SystemMachineInfo};
use crate::machine_guid::random::{
    generate_machine_guid, hyphenated, is_v4_id, lower_hex, lower_hex_exec, random_failure_prefix,
    v4_bytes,
};
use crate::text::{
    chars_of, contains_chars, contains_text, find_char, find_char_from, lemma_find_char,
    lower_chars, lower_text, string_of, sub_chars, trim, trim_chars, upper_chars, upper_text,
};

/// The refusal of an identifier that is not a machine identifier.
pub open spec fn invalid_id_message() -> Seq<char> {
    "无效的机器码格式"@
}

/// The error when `ioreg` reports no platform UUID.
pub open spec fn no_platform_uuid_message() -> Seq<char> {
    "无法获取 IOPlatformUUID"@
}

// ------------------------------------------------------------------
// Outside calls
// ------------------------------------------------------------------

/// What `str::to_lowercase` gives for `s` (full Unicode case mapping).
pub uninterp spec fn unicode_lowercase(s: Seq<char>) -> Seq<char>;

/// `str::to_lowercase`. Claimed: the result is `unicode_lowercase` of `s`.
#[verifier::external_body]
fn to_lowercase(s: &str) -> (r: String)
    ensures
        r@ == unicode_lowercase(s@),
{
    s.to_lowercase()
}

/// The SHA-256 digest of `data`.
pub uninterp spec fn sha256(data: Seq<u8>) -> Seq<u8>;

/// `sha2::Sha256::digest`. Claimed: the result is the digest named by `sha256`
/// and has 32 bytes (the output size `U32` of `Sha256`).
#[verifier::external_body]
fn sha256_digest(data: &[u8]) -> (d: Vec<u8>)
    ensures
        d@ == sha256(data@),
        d@.len() == 32,
{
    sha2::Sha256::digest(data).to_vec()
}

// ------------------------------------------------------------------
// Identifiers
// ------------------------------------------------------------------

/// Checks a chosen identifier and gives the form in which it is written:
/// with small letters. The caller writes it to Kiro's files.
pub fn set_custom_machine_guid_inner(new_guid: String) -> (r: Result<String, String>)
    ensures
        is_machine_id(new_guid@) ==> (r matches Ok(g) && g@ == lower_text(new_guid@)),
        !is_machine_id(new_guid@) ==> (r matches Err(e) && e@ == invalid_id_message()),
{
    if !is_valid_machine_id(new_guid.as_str()) {
        return Err("无效的机器码格式".to_owned());
    }
    let v = chars_of(new_guid.as_str());
    let lower = lower_chars(&v);
    Ok(string_of(&lower))
}

/// A new random identifier, in small letters, for the caller to write; or
/// the error when the operating system yields no random bytes.
pub fn reset_machine_guid_inner() -> (r: Result<String, String>)
    ensures
        r matches Ok(g) ==> is_v4_id(g@),
        r matches Ok(g) ==> exists|b: Seq<u8>| b.len() == 16 && g@ == hyphenated(v4_bytes(b)),
        r matches Err(e) ==> random_failure_prefix().is_prefix_of(e@) && e@.len()
            > random_failure_prefix().len(),
{
    let u = match generate_machine_guid() {
        Ok(u) => u,
        Err(e) => return Err(e),
    };
    let v = chars_of(u.as_str());
    let lower = lower_chars(&v);
    proof {
        assert(lower@ =~= u@) by {
            assert forall|i: int| 0 <= i < u@.len() implies lower@[i] == u@[i] by {
                assert(!('A' <= u@[i] && u@[i] <= 'Z'));
            }
        }
    }
    Ok(string_of(&lower))
}

/// The identifier stored in Kiro's `machineid` file, trimmed, if the file
/// could be read and holds a machine identifier.
pub fn machine_guid_from_file(content: Option<String>) -> (r: Option<String>)
    ensures
        match content {
            Some(c) => if is_machine_id(trim(c@)) {
                r matches Some(g) && g@ == trim(c@)
            } else {
                r is None
            },
            None => r is None,
        },
{
    match content {
        Some(c) => {
            let v = chars_of(c.as_str());
            let t = trim_chars(&v);
            let s = string_of(&t);
            if is_valid_machine_id(s.as_str()) {
                Some(s)
            } else {
                None
            }
        },
        None => None,
    }
}

/// What the front end is shown for the identifier `guid` on macOS.
pub open spec fn is_macos_info(info: SystemMachineInfo, guid: Seq<char>) -> bool {
    &&& info.machine_guid matches Some(g) && g@ == guid
    &&& !info.backup_exists
    &&& info.backup_time is None
    &&& info.os_type@ == "macos"@
    &&& info.can_modify
    &&& !info.requires_admin
}

/// The current identifier: the stored one (from `machine_guid_from_file`)
/// when there is one, else the hardware UUID (from `parse_hardware_uuid`,
/// or the error of running `ioreg`); `hardware_uuid` is only consulted when
/// nothing is stored.
pub fn get_system_machine_guid_inner(
    stored: Option<String>,
    hardware_uuid: Result<String, String>,
) -> (r: Result<SystemMachineInfo, String>)
    ensures
        match stored {
            Some(g) => r matches Ok(info) && is_macos_info(info, g@),
            None => match hardware_uuid {
                Ok(g) => r matches Ok(info) && is_macos_info(info, g@),
                Err(e) => r matches Err(e2) && e2@ == e@,
            },
        },
{
    let guid = match stored {
        Some(g) => g,
        None => match hardware_uuid {
            Ok(g) => g,
            Err(e) => return Err(e),
        },
    };
    Ok(
        SystemMachineInfo {
            machine_guid: Some(guid),
            backup_exists: false,
            backup_time: None,
            os_type: "macos".to_owned(),
            can_modify: true,
            requires_admin: false,
        },
    )
}

// ------------------------------------------------------------------
// The hardware UUID in the output of `ioreg`
// ------------------------------------------------------------------

/// A line without the carriage return that ends it, if any.
pub open spec fn without_cr(s: Seq<char>) -> Seq<char> {
    if s.len() > 0 && s.last() == '\r' {
        s.drop_last()
    } else {
        s
    }
}

/// The first line of `s` containing `needle`. Lines are as `str::lines` cuts
/// them: at each `\n`, a `\r` just before it dropped too; a last line without
/// `\n` is kept whole.
pub open spec fn first_line_with(s: Seq<char>, needle: Seq<char>) -> Option<Seq<char>>
    decreases s.len(),
{
    if s.len() == 0 {
        None
    } else {
        let i = find_char(s, '\n');
        let line = if i < s.len() {
            without_cr(s.take(i))
        } else {
            s
        };
        if contains_text(line, needle) {
            Some(line)
        } else if i < s.len() {
            proof {
                lemma_find_char(s, '\n');
            }
            first_line_with(s.skip(i + 1), needle)
        } else {
            None
        }
    }
}

/// Piece `k` (from 0) of `l` cut at every `c` (`l.split(c).nth(k)`).
pub open spec fn split_piece(l: Seq<char>, c: char, k: nat) -> Option<Seq<char>>
    decreases k,
{
    let i = find_char(l, c);
    if k == 0 {
        Some(l.take(i))
    } else if i < l.len() {
        split_piece(l.skip(i + 1), c, (k - 1) as nat)
    } else {
        None
    }
}

/// The platform UUID in the output of `ioreg -rd1 -c IOPlatformExpertDevice`:
/// on the first line mentioning `IOPlatformUUID`, the text after its third
/// double quote up to the next one.
pub open spec fn hardware_uuid_field(output: Seq<char>) -> Option<Seq<char>> {
    match first_line_with(output, "IOPlatformUUID"@) {
        Some(l) => split_piece(l, '"', 3),
        None => None,
    }
}

fn split_piece_exec(l: &Vec<char>, c: char, k: usize) -> (r: Option<Vec<char>>)
    ensures
        match r {
            Some(p) => split_piece(l@, c, k as nat) == Some(p@),
            None => split_piece(l@, c, k as nat) is None,
        },
{
    let n = l.len();
    let mut start: usize = 0;
    let mut j: usize = 0;
    proof {
        assert(l@.skip(0) =~= l@);
    }
    while j < k
        invariant
            n == l@.len(),
            start <= n,
            j <= k,
            split_piece(l@, c, k as nat) == split_piece(l@.skip(start as int), c, (k - j) as nat),
        decreases k - j,
    {
        let i = find_char_from(l, c, start);
        if i >= n {
            return None;
        }
        proof {
            assert(l@.skip(start as int).skip(i - start + 1) =~= l@.skip(i + 1));
        }
        start = i + 1;
        j = j + 1;
    }
    let e = find_char_from(l, c, start);
    let p = sub_chars(l, start, e);
    proof {
        assert(p@ =~= l@.skip(start as int).take(e - start));
    }
    Some(p)
}

/// The platform UUID, in small letters, from the output of `ioreg`.
pub fn parse_hardware_uuid(ioreg_output: &str) -> (r: Result<String, String>)
    ensures
        match hardware_uuid_field(ioreg_output@) {
            Some(f) => r matches Ok(u) && u@ == unicode_lowercase(f),
            None => r matches Err(e) && e@ == no_platform_uuid_message(),
        },
{
    let v = chars_of(ioreg_output);
    let needle = chars_of("IOPlatformUUID");
    let n = v.len();
    let mut pos: usize = 0;
    proof {
        assert(v@.skip(0) =~= v@);
    }
    while pos < n
        invariant
            n == v@.len(),
            v@ == ioreg_output@,
            needle@ == "IOPlatformUUID"@,
            pos <= n,
            first_line_with(v@, needle@) == first_line_with(v@.skip(pos as int), needle@),
        decreases n - pos,
    {
        let ghost t = v@.skip(pos as int);
        let i = find_char_from(&v, '\n', pos);
        let mut line = sub_chars(&v, pos, i);
        proof {
            assert(line@ =~= t.take(i - pos));
        }
        if i < n && line.len() > 0 && line[line.len() - 1] == '\r' {
            line.pop();
        }
        proof {
            if i < n {
                assert(line@ =~= without_cr(t.take(i - pos)));
            } else {
                assert(t.take(i - pos) =~= t);
            }
        }
        if contains_chars(&line, &needle) {
            proof {
                assert(first_line_with(t, needle@) == Some(line@));
            }
            let piece = split_piece_exec(&line, '"', 3);
            match piece {
                Some(p) => {
                    let s = string_of(&p);
                    return Ok(to_lowercase(s.as_str()));
                },
                None => {
                    return Err("无法获取 IOPlatformUUID".to_owned());
                },
            }
        }
        if i < n {
            proof {
                assert(t.skip(i - pos + 1) =~= v@.skip(i + 1));
            }
            pos = i + 1;
        } else {
            proof {
                assert(v@.skip(n as int).len() == 0);
            }
            pos = n;
        }
    }
    Err("无法获取 IOPlatformUUID".to_owned())
}

// ------------------------------------------------------------------
// Telemetry identifiers in Kiro's `storage.json`
// ------------------------------------------------------------------

/// The telemetry machine id derived from a machine identifier: the SHA-256
/// digest of its UTF-8 bytes, in small-letter hexadecimal.
pub fn telemetry_machine_id(machine_id: &str) -> (r: String)
    ensures
        r@ == lower_hex(sha256(machine_id.spec_bytes())),
{
    let bytes = machine_id.as_bytes();
    let digest = sha256_digest(bytes);
    let hex = lower_hex_exec(&digest);
    string_of(&hex)
}

/// A new random device id: a version-4 UUID in small letters.
pub fn new_dev_device_id() -> (r: Result<String, String>)
    ensures
        r matches Ok(d) ==> is_v4_id(d@),
        r matches Ok(d) ==> exists|b: Seq<u8>| b.len() == 16 && d@ == hyphenated(v4_bytes(b)),
        r matches Err(e) ==> random_failure_prefix().is_prefix_of(e@) && e@.len()
            > random_failure_prefix().len(),
{
    reset_machine_guid_inner()
}

/// An SQM id: a version-4 UUID in capital letters between braces.
pub open spec fn is_sqm_id(q: Seq<char>) -> bool {
    &&& q.len() == 38
    &&& q[0] == '{'
    &&& q[37] == '}'
    &&& exists|u: Seq<char>| is_v4_id(u) && #[trigger] upper_text(u) == q.subrange(1, 37)
}

/// The SQM id written for the UUID `u`: `u` in capital letters between
/// braces.
pub fn sqm_id_of(u: &str) -> (r: String)
    ensures
        r@ == seq!['{'] + upper_text(u@) + seq!['}'],
{
    let v = chars_of(u);
    let upper = upper_chars(&v);
    let inner = string_of(&upper);
    let mut r = "{".to_owned();
    r.append(inner.as_str());
    r.append("}");
    proof {
        reveal_strlit("{");
        reveal_strlit("}");
        assert(r@ =~= seq!['{'] + upper_text(u@) + seq!['}']);
    }
    r
}

/// A new random SQM id.
pub fn new_sqm_id() -> (r: Result<String, String>)
    ensures
        r matches Ok(q) ==> is_sqm_id(q@),
        r matches Err(e) ==> random_failure_prefix().is_prefix_of(e@) && e@.len()
            > random_failure_prefix().len(),
{
    let u = match generate_machine_guid() {
        Ok(u) => u,
        Err(e) => return Err(e),
    };
    let r = sqm_id_of(u.as_str());
    proof {
        assert(upper_text(u@) == r@.subrange(1, 37)) by {
            assert(r@.subrange(1, 37) =~= upper_text(u@));
        }
    }
    Ok(r)
}

// ------------------------------------------------------------------
// Kiro's `storage.json`
// ------------------------------------------------------------------

#[verifier::external_type_specification]
#[verifier::external_body]
pub struct ExJsonValue(serde_json::Value);

/// What `serde_json::from_str::<serde_json::Value>` gives for the text `t`:
/// the JSON value, or the message (`Display`) of the error.
pub uninterp spec fn json_parse(t: Seq<char>) -> Result<serde_json::Value, Seq<char>>;

/// The members of a JSON value that is an object, by key; `None` for any
/// other JSON value.
pub uninterp spec fn json_members(v: serde_json::Value) -> Option<Map<Seq<char>, serde_json::Value>>;

/// The JSON string value `serde_json::Value::String(s)`.
pub uninterp spec fn json_string(s: Seq<char>) -> serde_json::Value;

/// The text that `serde_json::to_string_pretty` writes for a JSON value.
pub uninterp spec fn json_pretty(v: serde_json::Value) -> Seq<char>;

/// `serde_json::from_str::<serde_json::Value>`, the error written by its
/// `Display`. Claimed: the outcome named by `json_parse` for the same text.
#[verifier::external_body]
fn parse_json_value(text: &str) -> (r: Result<serde_json::Value, String>)
    ensures
        match r {
            Ok(v) => json_parse(text@) == Ok::<serde_json::Value, Seq<char>>(v),
            Err(e) => json_parse(text@) == Err::<serde_json::Value, Seq<char>>(e@),
        },
{
    serde_json::from_str::<serde_json::Value>(text).map_err(|e| e.to_string())
}

/// `serde_json::Value::is_object`. Claimed: true exactly for a value that has
/// members.
#[verifier::external_body]
fn json_is_object(v: &serde_json::Value) -> (r: bool)
    ensures
        r == json_members(*v) is Some,
{
    v.is_object()
}

/// `Map::insert` on the members of an object (`as_object_mut`), of the key
/// `key` with the JSON string `s`. Claimed: the members are the old ones with
/// that key set to that string, whether or not it was there; an object is
/// determined by its members.
#[verifier::external_body]
fn json_insert_string(v: &mut serde_json::Value, key: &str, s: String)
    requires
        json_members(*old(v)) is Some,
    ensures
        json_members(*final(v)) == Some(json_members(*old(v))->0.insert(key@, json_string(s@))),
        forall|w: serde_json::Value| #[trigger]
            json_members(w) == json_members(*final(v)) ==> w == *final(v),
{
    if let Some(obj) = v.as_object_mut() {
        obj.insert(key.to_string(), serde_json::Value::String(s));
    }
}

/// `serde_json::to_string_pretty`, the error written by its `Display`.
/// Claimed: it succeeds, with the text named by `json_pretty`. Its
/// documentation says it fails only for a failing `Serialize` impl or a map
/// with keys that are not strings; a `Value` has neither.
#[verifier::external_body]
fn json_to_pretty(v: &serde_json::Value) -> (r: Result<String, String>)
    ensures
        r is Ok,
        r matches Ok(t) ==> t@ == json_pretty(*v),
{
    serde_json::to_string_pretty(v).map_err(|e| e.to_string())
}

/// The error for a `storage.json` that is not JSON.
pub open spec fn parse_failure_prefix() -> Seq<char> {
    "解析 storage.json 失败: "@
}

/// The error for a value that cannot be written back.
pub open spec fn write_failure_prefix() -> Seq<char> {
    "序列化 storage.json 失败: "@
}

/// `r` is the pretty text of `v`.
pub open spec fn written_back(v: serde_json::Value, r: Result<String, String>) -> bool {
    r matches Ok(t) && t@ == json_pretty(v)
}

/// The members `m` with the three telemetry identifiers set.
pub open spec fn with_telemetry(
    m: Map<Seq<char>, serde_json::Value>,
    machine_id_hash: Seq<char>,
    dev_device_id: Seq<char>,
    sqm_id: Seq<char>,
) -> Map<Seq<char>, serde_json::Value> {
    m.insert("telemetry.machineId"@, json_string(machine_id_hash)).insert(
        "telemetry.devDeviceId"@,
        json_string(dev_device_id),
    ).insert("telemetry.sqmId"@, json_string(sqm_id))
}

/// The new text of Kiro's `storage.json` after the machine identifier became
/// `machine_id`, with the given device and SQM ids: when the text is a JSON
/// object, its members with `telemetry.machineId` set to the identifier's
/// telemetry id and `telemetry.devDeviceId` and `telemetry.sqmId` set to the
/// given ids, all other members kept; any other JSON value is written back as
/// it is; text that is not JSON is refused.
pub fn storage_json_with_ids(
    content: &str,
    machine_id: &str,
    dev_device_id: &str,
    sqm_id: &str,
) -> (r: Result<String, String>)
    ensures
        match json_parse(content@) {
            Err(m) => r matches Err(e) && e@ == parse_failure_prefix() + m,
            Ok(v0) => match json_members(v0) {
                None => written_back(v0, r),
                Some(m0) => exists|v1: serde_json::Value|
                    #[trigger] json_members(v1) == Some(
                        with_telemetry(
                            m0,
                            lower_hex(sha256(machine_id.spec_bytes())),
                            dev_device_id@,
                            sqm_id@,
                        ),
                    ) && written_back(v1, r),
            },
        },
{
    let mut json = match parse_json_value(content) {
        Ok(v) => v,
        Err(e) => {
            let mut m = "解析 storage.json 失败: ".to_owned();
            m.append(e.as_str());
            return Err(m);
        },
    };
    let ghost v0 = json;
    if json_is_object(&json) {
        let hash = telemetry_machine_id(machine_id);
        let ghost h = hash@;
        json_insert_string(&mut json, "telemetry.machineId", hash);
        json_insert_string(&mut json, "telemetry.devDeviceId", dev_device_id.to_owned());
        json_insert_string(&mut json, "telemetry.sqmId", sqm_id.to_owned());
        proof {
            assert(json_members(json) == Some(
                with_telemetry(json_members(v0)->0, h, dev_device_id@, sqm_id@),
            ));
        }
    }
    match json_to_pretty(&json) {
        Ok(t) => Ok(t),
        Err(e) => {
            let mut m = "序列化 storage.json 失败: ".to_owned();
            m.append(e.as_str());
            Err(m)
        },
    }
}

/// The new text of Kiro's `storage.json` after the machine identifier became
/// `machine_id`, from the outcome of drawing the device and SQM ids: for a
/// JSON object, the error of the draw when it failed, else the object with
/// the drawn ids (see `storage_json_with_ids`); the outcome of the draw does
/// not matter for other text.
pub fn storage_json_with_drawn_ids(
    content: &str,
    machine_id: &str,
    ids: Result<(String, String), String>,
) -> (r: Result<String, String>)
    ensures
        match json_parse(content@) {
            Err(m) => r matches Err(e) && e@ == parse_failure_prefix() + m,
            Ok(v0) => match json_members(v0) {
                None => written_back(v0, r),
                Some(m0) => match ids {
                    Err(x) => r matches Err(e) && e@ == x@,
                    Ok((d, q)) => exists|v1: serde_json::Value|
                        #[trigger] json_members(v1) == Some(
                            with_telemetry(
                                m0,
                                lower_hex(sha256(machine_id.spec_bytes())),
                                d@,
                                q@,
                            ),
                        ) && written_back(v1, r),
                },
            },
        },
{
    let parsed_is_object = match parse_json_value(content) {
        Ok(v) => json_is_object(&v),
        Err(_) => false,
    };
    if !parsed_is_object {
        return storage_json_with_ids(content, machine_id, "", "");
    }
    match ids {
        Ok((d, q)) => storage_json_with_ids(content, machine_id, d.as_str(), q.as_str()),
        Err(e) => Err(e),
    }
}

/// The new text of Kiro's `storage.json` after the machine identifier became
/// `machine_id`, with new random device and SQM ids (see
/// `storage_json_with_ids`), or the error when no random ids can be drawn.
pub fn updated_storage_json(content: &str, machine_id: &str) -> (r: Result<String, String>)
    ensures
        match json_parse(content@) {
            Err(m) => r matches Err(e) && e@ == parse_failure_prefix() + m,
            Ok(v0) => match json_members(v0) {
                None => written_back(v0, r),
                Some(m0) => (r matches Err(e) && random_failure_prefix().is_prefix_of(e@)
                    && e@.len() > random_failure_prefix().len())
                    || exists|v1: serde_json::Value, d: Seq<char>, q: Seq<char>|
                    #![trigger json_members(v1), with_telemetry(m0, lower_hex(sha256(machine_id.spec_bytes())), d, q)]
                    is_v4_id(d) && is_sqm_id(q) && json_members(v1) == Some(
                        with_telemetry(m0, lower_hex(sha256(machine_id.spec_bytes())), d, q),
                    ) && written_back(v1, r),
            },
        },
{
    let parsed_is_object = match parse_json_value(content) {
        Ok(v) => json_is_object(&v),
        Err(_) => false,
    };
    if !parsed_is_object {
        return storage_json_with_ids(content, machine_id, "", "");
    }
    let ids = match new_dev_device_id() {
        Ok(d) => match new_sqm_id() {
            Ok(q) => Ok((d, q)),
            Err(e) => Err(e),
        },
        Err(e) => Err(e),
    };
    storage_json_with_drawn_ids(content, machine_id, ids)
}

// ------------------------------------------------------------------
// Laws
// ------------------------------------------------------------------

/// A chosen identifier, once accepted, is a machine identifier in small
/// letters, and setting it again gives it back unchanged.
pub proof fn law_custom_id_normal_form(s: Seq<char>)
    requires
        is_machine_id(s),
    ensures
        is_lower_machine_id(lower_text(s)),
        lower_text(lower_text(s)) == lower_text(s),
{
    let l = lower_text(s);
    assert forall|i: int| 0 <= i < 36 implies if crate::machine_guid::is_hyphen_position(i) {
        l[i] == '-'
    } else {
        crate::machine_guid::is_hex_digit(#[trigger] l[i])
    } by {
        assert(l[i] == crate::text::ascii_lower(s[i]));
        if !crate::machine_guid::is_hyphen_position(i) {
            assert(crate::machine_guid::is_hex_digit(s[i]));
        }
    }
    assert(lower_text(l) =~= l);
}

/// A reset identifier is accepted as a chosen identifier unchanged.
pub proof fn law_reset_id_accepted_unchanged(r: Seq<char>)
    requires
        is_lower_machine_id(r),
    ensures
        is_machine_id(r),
        lower_text(r) == r,
{
    assert forall|i: int| 0 <= i < r.len() implies lower_text(r)[i] == r[i] by {
        assert(!('A' <= r[i] && r[i] <= 'Z'));
    }
    assert(lower_text(r) =~= r);
}

} // verus!
