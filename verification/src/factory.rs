//! The DLL's entry points and class factory: which requests for the
//! provider's class and interfaces are served, and with which status the
//! others are refused.

use vstd::prelude::*;

use crate::com::{
    CLASS_E_CLASSNOTAVAILABLE, CLASS_E_NOAGGREGATION, E_INVALIDARG, E_NOINTERFACE, E_NOTIMPL,
    E_POINTER, IID_ICLASSFACTORY, IID_ICREDENTIALPROVIDER, PROVIDER_CLSID, S_OK,
};
use crate::provider::{fresh, CredentialProvider};

verus! {

/// The status of `DllGetClassObject` for a request with or without an out
/// pointer, for the class `clsid` and the interface `iid` (`None` where the
/// pointer to them is null). `S_OK` means the class factory is handed out.
pub open spec fn class_object_status(out_present: bool, clsid: Option<u128>, iid: Option<u128>) -> i32 {
    if !out_present {
        E_POINTER
    } else if clsid is None || iid is None {
        E_INVALIDARG
    } else if clsid != Some(PROVIDER_CLSID) {
        CLASS_E_CLASSNOTAVAILABLE
    } else if iid != Some(IID_ICLASSFACTORY) {
        E_NOINTERFACE
    } else {
        S_OK
    }
}

/// The checks of `IClassFactory::CreateInstance` before a provider is made:
/// an out pointer, an interface id, no aggregation, and the
/// `ICredentialProvider` interface.
pub open spec fn instance_check(out_present: bool, iid: Option<u128>, outer_present: bool) -> Result<(), i32> {
    if !out_present {
        Err(E_POINTER)
    } else if iid is None {
        Err(E_INVALIDARG)
    } else if outer_present {
        Err(CLASS_E_NOAGGREGATION)
    } else if iid != Some(IID_ICREDENTIALPROVIDER) {
        Err(E_NOINTERFACE)
    } else {
        Ok(())
    }
}

/// `DllGetClassObject`: the status to return; `S_OK` exactly when the class
/// factory is to be handed out.
pub fn get_class_object(out_present: bool, clsid: Option<u128>, iid: Option<u128>) -> (hr: i32)
    ensures
        hr == class_object_status(out_present, clsid, iid),
{
    if !out_present {
        return E_POINTER;
    }
    match (clsid, iid) {
        (Some(c), Some(i)) => {
            if c != PROVIDER_CLSID {
                CLASS_E_CLASSNOTAVAILABLE
            } else if i != IID_ICLASSFACTORY {
                E_NOINTERFACE
            } else {
                S_OK
            }
        },
        _ => E_INVALIDARG,
    }
}

/// `DllCanUnloadNow`: always `S_OK`.
pub fn can_unload_now() -> (hr: i32)
    ensures
        hr == S_OK,
{
    S_OK
}

/// `IClassFactory::CreateInstance`: a new provider for the computer
/// `computername`, or the status of the refusal. A missing computer name is
/// refused with `E_NOINTERFACE`.
pub fn create_instance<E>(
    out_present: bool,
    iid: Option<u128>,
    outer_present: bool,
    computername: Option<String>,
) -> (r: Result<CredentialProvider<E>, i32>)
    ensures
        match instance_check(out_present, iid, outer_present) {
            Err(code) => r == Err::<CredentialProvider<E>, i32>(code),
            Ok(()) => match computername {
                Some(name) => r matches Ok(p) && p@ == fresh(name@),
                None => r == Err::<CredentialProvider<E>, i32>(E_NOINTERFACE),
            },
        },
{
    if !out_present {
        return Err(E_POINTER);
    }
    let i: u128 = match iid {
        Some(i) => i,
        None => {
            return Err(E_INVALIDARG);
        },
    };
    if outer_present {
        return Err(CLASS_E_NOAGGREGATION);
    }
    if i != IID_ICREDENTIALPROVIDER {
        return Err(E_NOINTERFACE);
    }
    match CredentialProvider::new(computername) {
        Some(p) => Ok(p),
        None => Err(E_NOINTERFACE),
    }
}

/// `IClassFactory::LockServer`: not offered.
pub fn lock_server(_lock: bool) -> (r: Result<(), i32>)
    ensures
        r == Err::<(), i32>(E_NOTIMPL),
{
    Err(E_NOTIMPL)
}

/// The class factory is handed out only for this provider's class and the
/// `IClassFactory` interface, with an out pointer to receive it.
pub proof fn lemma_class_object_served_only_for_provider(
    out_present: bool,
    clsid: Option<u128>,
    iid: Option<u128>,
)
    ensures
        class_object_status(out_present, clsid, iid) == S_OK <==> (out_present && clsid == Some(
            PROVIDER_CLSID,
        ) && iid == Some(IID_ICLASSFACTORY)),
{
}

/// A provider is made only for the `ICredentialProvider` interface, without
/// aggregation, with an out pointer to receive it.
pub proof fn lemma_instance_only_for_provider_interface(
    out_present: bool,
    iid: Option<u128>,
    outer_present: bool,
)
    ensures
        instance_check(out_present, iid, outer_present) is Ok <==> (out_present && !outer_present
            && iid == Some(IID_ICREDENTIALPROVIDER)),
{
}

} // verus!
