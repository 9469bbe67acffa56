//! Random machine identifiers: version-4 UUIDs built from the operating
//! system's random bytes, and the hexadecimal writing they share with
//! digests.
use vstd::prelude::*;
use vstd::string::StringExecFns;

verus! {

use crate::machine_guid::is_lower_machine_id;
use crate::text::string_of;

/// The start of the error when the operating system yields no random bytes.
pub open spec fn random_failure_prefix() -> Seq<char> {
    "could not retrieve random bytes for uuid: "@
}

/// The hexadecimal digit, in small letters, for `n` below 16.
pub open spec fn hex_digit(n: int) -> char {
    if n < 10 {
        (n + 48) as char
    } else {
        (n + 87) as char
    }
}

/// `data` written as two small-letter hexadecimal digits per byte (the `{:x}`
/// form of a digest).
pub open spec fn lower_hex(data: Seq<u8>) -> Seq<char>
    decreases data.len(),
{
    if data.len() == 0 {
        Seq::empty()
    } else {
        lower_hex(data.drop_last()).push(hex_digit((data.last() / 16) as int)).push(
            hex_digit((data.last() % 16) as int),
        )
    }
}

fn hex_digit_exec(n: u8) -> (c: char)
    requires
        n < 16,
    ensures
        c == hex_digit(n as int),
{
    if n < 10 {
        (n + 48) as char
    } else {
        (n + 87) as char
    }
}

/// `data` in small-letter hexadecimal.
pub fn lower_hex_exec(data: &Vec<u8>) -> (r: Vec<char>)
    ensures
        r@ == lower_hex(data@),
{
    let mut r: Vec<char> = Vec::new();
    let mut i: usize = 0;
    while i < data.len()
        invariant
            i <= data@.len(),
            r@ == lower_hex(data@.take(i as int)),
        decreases data@.len() - i,
    {
        let b = data[i];
        r.push(hex_digit_exec(b / 16));
        r.push(hex_digit_exec(b % 16));
        proof {
            assert(data@.take(i + 1).drop_last() =~= data@.take(i as int));
            assert(data@.take(i + 1).last() == b);
        }
        i = i + 1;
    }
    proof {
        assert(data@.take(data@.len() as int) =~= data@);
    }
    r
}

/// Byte `k` of `data` is written at positions `2k` and `2k + 1`.
pub proof fn lemma_lower_hex_index(d: Seq<u8>, k: int)
    requires
        0 <= k < d.len(),
    ensures
        lower_hex(d).len() == 2 * d.len(),
        lower_hex(d)[2 * k] == hex_digit((d[k] / 16) as int),
        lower_hex(d)[2 * k + 1] == hex_digit((d[k] % 16) as int),
    decreases d.len(),
{
    law_lower_hex_shape(d);
    if k < d.len() - 1 {
        lemma_lower_hex_index(d.drop_last(), k);
        law_lower_hex_shape(d.drop_last());
    }
}

/// A digest in hexadecimal has two small-letter hexadecimal digits per byte.
pub proof fn law_lower_hex_shape(d: Seq<u8>)
    ensures
        lower_hex(d).len() == 2 * d.len(),
        forall|i: int|
            0 <= i < lower_hex(d).len() ==> ('0' <= #[trigger] lower_hex(d)[i] && lower_hex(d)[i]
                <= '9') || ('a' <= lower_hex(d)[i] && lower_hex(d)[i] <= 'f'),
    decreases d.len(),
{
    if d.len() > 0 {
        law_lower_hex_shape(d.drop_last());
        let h = lower_hex(d);
        let t = lower_hex(d.drop_last());
        assert forall|i: int| 0 <= i < h.len() implies ('0' <= #[trigger] h[i] && h[i] <= '9') || (
        'a' <= h[i] && h[i] <= 'f') by {
            if i < t.len() {
                assert(h[i] == t[i]);
            }
        }
    }
}

/// Sixteen random bytes with the version (4) and variant (RFC 4122) bits
/// set, as `uuid::Builder::from_random_bytes` sets them.
pub open spec fn v4_bytes(b: Seq<u8>) -> Seq<u8> {
    b.update(6, (b[6] & 0x0f) | 0x40).update(8, (b[8] & 0x3f) | 0x80)
}

/// The hyphenated form, in small letters, of a UUID's sixteen bytes.
pub open spec fn hyphenated(b: Seq<u8>) -> Seq<char> {
    lower_hex(b.subrange(0, 4)) + seq!['-'] + lower_hex(b.subrange(4, 6)) + seq!['-']
        + lower_hex(b.subrange(6, 8)) + seq!['-'] + lower_hex(b.subrange(8, 10)) + seq!['-']
        + lower_hex(b.subrange(10, 16))
}

/// A version-4 UUID in hyphenated form with small letters: the version digit
/// `4` at index 14, and the variant digit `8`, `9`, `a` or `b` at index 19.
pub open spec fn is_v4_id(s: Seq<char>) -> bool {
    &&& is_lower_machine_id(s)
    &&& s[14] == '4'
    &&& (s[19] == '8' || s[19] == '9' || s[19] == 'a' || s[19] == 'b')
}

/// `getrandom::fill` on sixteen bytes, its error written by its `Display`.
/// Claimed: on success, sixteen bytes; nothing is said of which bytes. On
/// failure, a message that is not empty: getrandom's `Display` writes, for an
/// error code of the operating system, the `std::io::Error` message for that
/// code (which names the code), else one of its fixed descriptions, else
/// `Unknown Error: ` and the code.
#[verifier::external_body]
fn random_bytes() -> (r: Result<Vec<u8>, String>)
    ensures
        r matches Ok(b) ==> b@.len() == 16,
        r matches Err(e) ==> e@.len() > 0,
{
    let mut bytes = vec![0u8; 16];
    match getrandom::fill(&mut bytes) {
        Ok(()) => Ok(bytes),
        Err(e) => Err(e.to_string()),
    }
}

/// `uuid::Builder::from_random_bytes(bytes).into_uuid().to_string()`.
/// Claimed: the bytes with the version and variant bits set, in the
/// hyphenated small-letter form that the `Display` impl of `Uuid` writes.
#[verifier::external_body]
fn uuid_v4_text(bytes: &Vec<u8>) -> (s: String)
    requires
        bytes@.len() == 16,
    ensures
        s@ == hyphenated(v4_bytes(bytes@)),
{
    let mut array = [0u8; 16];
    array.copy_from_slice(bytes);
    uuid::Builder::from_random_bytes(array).into_uuid().to_string()
}

/// The text of a version-4 UUID built from any sixteen bytes is a version-4
/// identifier.
pub proof fn law_v4_text_shape(b: Seq<u8>)
    requires
        b.len() == 16,
    ensures
        is_v4_id(hyphenated(v4_bytes(b))),
{
    let a = v4_bytes(b);
    let s = hyphenated(a);
    let p0 = a.subrange(0, 4);
    let p1 = a.subrange(4, 6);
    let p2 = a.subrange(6, 8);
    let p3 = a.subrange(8, 10);
    let p4 = a.subrange(10, 16);
    law_lower_hex_shape(p0);
    law_lower_hex_shape(p1);
    law_lower_hex_shape(p2);
    law_lower_hex_shape(p3);
    law_lower_hex_shape(p4);
    let h0 = lower_hex(p0);
    let h1 = lower_hex(p1);
    let h2 = lower_hex(p2);
    let h3 = lower_hex(p3);
    let h4 = lower_hex(p4);
    assert(s.len() == 36);
    assert forall|i: int| 0 <= i < 36 implies if crate::machine_guid::is_hyphen_position(i) {
        s[i] == '-'
    } else {
        crate::machine_guid::is_hex_digit(#[trigger] s[i])
    } by {
        if i < 8 {
            assert(s[i] == h0[i]);
        } else if i == 8 {
        } else if i < 13 {
            assert(s[i] == h1[i - 9]);
        } else if i == 13 {
        } else if i < 18 {
            assert(s[i] == h2[i - 14]);
        } else if i == 18 {
        } else if i < 23 {
            assert(s[i] == h3[i - 19]);
        } else if i == 23 {
        } else {
            assert(s[i] == h4[i - 24]);
        }
    }
    assert forall|i: int| 0 <= i < s.len() implies !('A' <= #[trigger] s[i] && s[i] <= 'Z') by {
        if i < 8 {
            assert(s[i] == h0[i]);
        } else if i == 8 {
        } else if i < 13 {
            assert(s[i] == h1[i - 9]);
        } else if i == 13 {
        } else if i < 18 {
            assert(s[i] == h2[i - 14]);
        } else if i == 18 {
        } else if i < 23 {
            assert(s[i] == h3[i - 19]);
        } else if i == 23 {
        } else {
            assert(s[i] == h4[i - 24]);
        }
    }
    let x6 = b[6];
    let x8 = b[8];
    assert(((x6 & 0x0f) | 0x40) / 16 == 4) by (bit_vector);
    assert(8 <= ((x8 & 0x3f) | 0x80) / 16 <= 11) by (bit_vector);
    lemma_lower_hex_index(p2, 0);
    lemma_lower_hex_index(p3, 0);
    assert(s[14] == h2[0]);
    assert(s[19] == h3[0]);
    assert(p2[0] == a[6]);
    assert(p3[0] == a[8]);
}

/// The machine identifier made from the outcome of drawing sixteen random
/// bytes: the hyphenated small-letter version-4 UUID of the bytes, or the
/// error that says why no bytes could be drawn.
pub fn machine_guid_from_random_bytes(drawn: Result<Vec<u8>, String>) -> (r: Result<
    String,
    String,
>)
    requires
        drawn matches Ok(b) ==> b@.len() == 16,
    ensures
        drawn matches Ok(b) ==> (r matches Ok(g) && g@ == hyphenated(v4_bytes(b@))),
        drawn matches Err(m) ==> (r matches Err(e) && e@ == random_failure_prefix() + m@),
{
    match drawn {
        Ok(b) => Ok(uuid_v4_text(&b)),
        Err(e) => {
            let mut m = "could not retrieve random bytes for uuid: ".to_owned();
            m.append(e.as_str());
            Err(m)
        },
    }
}

/// A new random machine identifier: a version-4 UUID in small letters made
/// from sixteen random bytes of the operating system, or the error when it
/// yields none.
pub fn generate_machine_guid() -> (r: Result<String, String>)
    ensures
        r matches Ok(g) ==> is_v4_id(g@),
        r matches Ok(g) ==> exists|b: Seq<u8>| b.len() == 16 && g@ == hyphenated(v4_bytes(b)),
        r matches Err(e) ==> random_failure_prefix().is_prefix_of(e@) && e@.len()
            > random_failure_prefix().len(),
{
    let drawn = random_bytes();
    let ghost d = drawn;
    let r = machine_guid_from_random_bytes(drawn);
    proof {
        if let Ok(b) = d {
            law_v4_text_shape(b@);
        }
        if let Err(m) = d {
            assert((random_failure_prefix() + m@).subrange(0, random_failure_prefix().len() as int)
                =~= random_failure_prefix());
        }
    }
    r
}

} // verus!
