//! Machine identifiers on a platform other than Windows, macOS and Linux:
//! every operation is refused.
use vstd::prelude::*;

verus! {

use crate::machine_guid::SystemMachineInfo;

/// The refusal given on an unsupported platform.
pub open spec fn unsupported_message() -> Seq<char> {
    "当前仅支持 Windows、macOS 和 Linux"@
}

fn unsupported_error() -> (e: String)
    ensures
        e@ == unsupported_message(),
{
    "当前仅支持 Windows、macOS 和 Linux".to_owned()
}

/// Refused: reading the machine identifier.
pub fn get_system_machine_guid_inner() -> (r: Result<SystemMachineInfo, String>)
    ensures
        r matches Err(e) && e@ == unsupported_message(),
{
    Err(unsupported_error())
}

/// Refused: giving the machine a new random identifier.
pub fn reset_machine_guid_inner() -> (r: Result<String, String>)
    ensures
        r matches Err(e) && e@ == unsupported_message(),
{
    Err(unsupported_error())
}

/// Refused: setting a chosen identifier.
pub fn set_custom_machine_guid_inner(new_guid: String) -> (r: Result<String, String>)
    ensures
        r matches Err(e) && e@ == unsupported_message(),
{
    Err(unsupported_error())
}

} // verus!
