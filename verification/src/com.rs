//! Status codes and identifiers of the COM interfaces the provider answers.

use vstd::prelude::*;

verus! {

/// `S_OK` (`0x00000000`): success.
pub const S_OK: i32 = 0;

/// `S_FALSE` (`0x00000001`): success, with nothing done.
pub const S_FALSE: i32 = 1;

/// `E_NOTIMPL` (`0x80004001`): the method is not implemented.
pub const E_NOTIMPL: i32 = -2147467263;

/// `E_NOINTERFACE` (`0x80004002`): the interface asked for is not offered.
pub const E_NOINTERFACE: i32 = -2147467262;

/// `E_POINTER` (`0x80004003`): a required out pointer is null.
pub const E_POINTER: i32 = -2147467261;

/// `E_INVALIDARG` (`0x80070057`): an argument is invalid.
pub const E_INVALIDARG: i32 = -2147024809;

/// `CLASS_E_NOAGGREGATION` (`0x80040110`): the class cannot be aggregated.
pub const CLASS_E_NOAGGREGATION: i32 = -2147221232;

/// `CLASS_E_CLASSNOTAVAILABLE` (`0x80040111`): the class is not served here.
pub const CLASS_E_CLASSNOTAVAILABLE: i32 = -2147221231;

/// The class id under which the provider is registered,
/// `7d6836a5-c203-47e2-8fe5-eca9159e7d7e`, as the 128-bit value of the GUID.
pub const PROVIDER_CLSID: u128 = 0x7d6836a5_c203_47e2_8fe5_eca9159e7d7e;

/// Interface id of `IClassFactory`, `00000001-0000-0000-c000-000000000046`.
pub const IID_ICLASSFACTORY: u128 = 0x00000001_0000_0000_c000_000000000046;

/// Interface id of `ICredentialProvider`, `d27c3481-5a1c-45b2-8aaa-c20ebbe8229e`.
pub const IID_ICREDENTIALPROVIDER: u128 = 0xd27c3481_5a1c_45b2_8aaa_c20ebbe8229e;

/// Usage scenario `CPUS_LOGON`.
pub const CPUS_LOGON: i32 = 1;

/// Usage scenario `CPUS_UNLOCK_WORKSTATION`.
pub const CPUS_UNLOCK_WORKSTATION: i32 = 2;

/// Serialization response `CPGSR_RETURN_CREDENTIAL_FINISHED`.
pub const CPGSR_RETURN_CREDENTIAL_FINISHED: i32 = 2;

/// Field state `CPFS_DISPLAY_IN_BOTH`.
pub const CPFS_DISPLAY_IN_BOTH: i32 = 3;

/// Field interactive state `CPFIS_NONE`.
pub const CPFIS_NONE: i32 = 0;

/// Packing flag `CRED_PACK_PROTECTED_CREDENTIALS`.
pub const CRED_PACK_PROTECTED_CREDENTIALS: u32 = 1;

/// Win32 error `ERROR_BROKEN_PIPE`.
pub const ERROR_BROKEN_PIPE: u32 = 109;

/// Win32 error `ERROR_NO_DATA`.
pub const ERROR_NO_DATA: u32 = 232;

} // verus!
