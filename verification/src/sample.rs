//! The fixed sample tile: a provider build that logs on one built-in test
//! account and shows a labelled tile with three fields, for logon and
//! unlock.

use vstd::prelude::*;
use vstd::string::*;

use crate::com::{
    CPFIS_NONE, CPFS_DISPLAY_IN_BOTH, CPUS_LOGON, CPUS_UNLOCK_WORKSTATION,
    CRED_PACK_PROTECTED_CREDENTIALS, E_NOTIMPL,
};
use crate::credential::{PackRequest, PACK_BUFFER_SIZE};
use crate::provider::serves_scenario;
use crate::wide::{to_wide, wide_nul};

verus! {

/// The label of the sample tile, `Test Provider`.
pub open spec fn sample_label() -> Seq<char> {
    seq!['T', 'e', 's', 't', ' ', 'P', 'r', 'o', 'v', 'i', 'd', 'e', 'r']
}

/// The built-in account, `SUSHI-MAMPFER\test`.
pub open spec fn sample_account() -> Seq<char> {
    seq!['S', 'U', 'S', 'H', 'I', '-', 'M', 'A', 'M', 'P', 'F', 'E', 'R', '\\', 't', 'e', 's', 't']
}

/// The built-in password, `Test`.
pub open spec fn sample_password() -> Seq<char> {
    seq!['T', 'e', 's', 't']
}

/// `SetUsageScenario` of the sample build: logon and unlock are served,
/// nothing else.
pub fn set_usage_scenario(scenario: i32) -> (r: Result<(), i32>)
    ensures
        r == (if serves_scenario(scenario) {
            Ok::<(), i32>(())
        } else {
            Err(E_NOTIMPL)
        }),
{
    if scenario == CPUS_LOGON || scenario == CPUS_UNLOCK_WORKSTATION {
        Ok(())
    } else {
        Err(E_NOTIMPL)
    }
}

/// `GetFieldState` of the sample tile: fields `0`, `1` and `2` are shown on
/// both the selected and the deselected tile and are not focused.
pub fn get_field_state(field_id: u32) -> (r: Result<(i32, i32), i32>)
    ensures
        r == (if field_id < 3 {
            Ok::<(i32, i32), i32>((CPFS_DISPLAY_IN_BOTH, CPFIS_NONE))
        } else {
            Err(E_NOTIMPL)
        }),
{
    if field_id <= 2 {
        Ok((CPFS_DISPLAY_IN_BOTH, CPFIS_NONE))
    } else {
        Err(E_NOTIMPL)
    }
}

/// `GetStringValue` of the sample tile: the label, for every field, as a
/// null-terminated UTF-16 string.
pub fn get_string_value(_field_id: u32) -> (r: Vec<u16>)
    ensures
        r@ == wide_nul(sample_label()),
{
    proof {
        reveal_strlit("Test Provider");
    }
    let s: &str = "Test Provider";
    assert(s@ =~= sample_label());
    to_wide(s)
}

/// The built-in account as a null-terminated UTF-16 string.
pub fn user() -> (r: Vec<u16>)
    ensures
        r@ == wide_nul(sample_account()),
{
    proof {
        reveal_strlit("SUSHI-MAMPFER\\test");
    }
    let s: &str = "SUSHI-MAMPFER\\test";
    assert(s@ =~= sample_account());
    to_wide(s)
}

/// The built-in password as a null-terminated UTF-16 string.
pub fn pasw() -> (r: Vec<u16>)
    ensures
        r@ == wide_nul(sample_password()),
{
    proof {
        reveal_strlit("Test");
    }
    let s: &str = "Test";
    assert(s@ =~= sample_password());
    to_wide(s)
}

/// What to pack for the built-in account.
pub fn pack_request() -> (req: PackRequest)
    ensures
        req.flags == CRED_PACK_PROTECTED_CREDENTIALS,
        req.user@ == wide_nul(sample_account()),
        req.password@ == wide_nul(sample_password()),
        req.buffer_size == PACK_BUFFER_SIZE,
{
    PackRequest {
        flags: CRED_PACK_PROTECTED_CREDENTIALS,
        user: user(),
        password: pasw(),
        buffer_size: PACK_BUFFER_SIZE,
    }
}

} // verus!
