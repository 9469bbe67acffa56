//! Machine identifiers: their format, the record the front end shows, and the
//! platform operations on them.
use vstd::prelude::*;
use vstd::string::StrSliceExecFns;

pub mod macos;
pub mod random;
pub mod unsupported;

verus! {

/// What the front end is told about the machine identifier.
#[derive(Debug)]
pub struct SystemMachineInfo {
    pub machine_guid: Option<String>,
    pub backup_exists: bool,
    pub backup_time: Option<String>,
    pub os_type: String,
    pub can_modify: bool,
    pub requires_admin: bool,
}

/// A hexadecimal digit, in either case.
pub open spec fn is_hex_digit(c: char) -> bool {
    ('0' <= c && c <= '9') || ('a' <= c && c <= 'f') || ('A' <= c && c <= 'F')
}

/// The positions of the hyphens in the hyphenated form of a UUID.
pub open spec fn is_hyphen_position(i: int) -> bool {
    i == 8 || i == 13 || i == 18 || i == 23
}

/// A machine identifier: a UUID in hyphenated form, `8-4-4-4-12` hexadecimal
/// digits of either case.
pub open spec fn is_machine_id(s: Seq<char>) -> bool {
    &&& s.len() == 36
    &&& forall|i: int|
        0 <= i < 36 ==> if is_hyphen_position(i) {
            s[i] == '-'
        } else {
            is_hex_digit(#[trigger] s[i])
        }
}

/// A machine identifier with no capital letter.
pub open spec fn is_lower_machine_id(s: Seq<char>) -> bool {
    &&& is_machine_id(s)
    &&& forall|i: int| 0 <= i < s.len() ==> !('A' <= #[trigger] s[i] && s[i] <= 'Z')
}

/// Whether `id` is a machine identifier.
pub fn is_valid_machine_id(id: &str) -> (r: bool)
    ensures
        r == is_machine_id(id@),
{
    let n = id.unicode_len();
    if n != 36 {
        return false;
    }
    let mut i: usize = 0;
    while i < 36
        invariant
            n == id@.len(),
            n == 36,
            i <= 36,
            forall|k: int|
                0 <= k < i ==> if is_hyphen_position(k) {
                    id@[k] == '-'
                } else {
                    is_hex_digit(#[trigger] id@[k])
                },
        decreases 36 - i,
    {
        let c = id.get_char(i);
        if i == 8 || i == 13 || i == 18 || i == 23 {
            if c != '-' {
                return false;
            }
        } else if !(('0' <= c && c <= '9') || ('a' <= c && c <= 'f') || ('A' <= c && c <= 'F')) {
            return false;
        }
        i = i + 1;
    }
    true
}

} // verus!
