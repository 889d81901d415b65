use webauth::com::{
    CLASS_E_CLASSNOTAVAILABLE, CLASS_E_NOAGGREGATION, CPFIS_NONE, CPFS_DISPLAY_IN_BOTH,
    CPGSR_RETURN_CREDENTIAL_FINISHED, CRED_PACK_PROTECTED_CREDENTIALS, E_INVALIDARG,
    E_NOINTERFACE, E_NOTIMPL, E_POINTER, IID_ICLASSFACTORY, IID_ICREDENTIALPROVIDER,
    PROVIDER_CLSID, S_FALSE, S_OK,
};
use webauth::credential::CredentialProviderCredential;
use webauth::factory::{can_unload_now, create_instance, get_class_object, lock_server};
use webauth::provider::CredentialProvider;
use webauth::sample;

fn wide(s: &str) -> Vec<u16> {
    s.encode_utf16().chain([0]).collect()
}

fn provider() -> CredentialProvider<u8> {
    CredentialProvider::new(Some("PC".to_string())).unwrap()
}

#[test]
fn new_needs_computer_name() {
    assert!(CredentialProvider::<u8>::new(None).is_none());
    let p = provider();
    assert_eq!(p.get_credential_count().count, 0);
    assert_eq!(p.get_credential_at(0).err(), Some(E_NOTIMPL));
    assert!(p.event().is_none());
}

#[test]
fn update_offers_one_tile() {
    let mut p = provider();
    assert_eq!(p.update("bob".to_string(), "pw".to_string()), None);
    let c = p.get_credential_count();
    assert_eq!((c.count, c.default, c.autologon_with_default), (1, 0, true));
    let cred = p.get_credential_at(5).ok().unwrap();
    assert_eq!(cred.computername, "PC");
    assert_eq!(cred.username, "bob");
    assert_eq!(cred.password, "pw");
    p.update("eve".to_string(), "x".to_string());
    assert_eq!(p.get_credential_at(0).ok().unwrap().username, "eve");
}

#[test]
fn advised_update_notifies() {
    let mut p = provider();
    assert_eq!(p.advise(Some(7u8), 42), Ok(()));
    assert_eq!(p.event(), Some(&7u8));
    assert_eq!(p.update("bob".to_string(), "pw".to_string()), Some(42));
    assert_eq!(p.unadvise(), Ok(()));
    assert!(p.event().is_none());
    assert_eq!(p.update("bob".to_string(), "pw".to_string()), None);
    assert_eq!(p.advise(None, 3), Ok(()));
    assert_eq!(p.update("bob".to_string(), "pw".to_string()), None);
}

#[test]
fn usage_scenarios() {
    let p = provider();
    assert_eq!(p.set_usage_scenario(1, 0), Ok(()));
    assert_eq!(p.set_usage_scenario(2, 0), Ok(()));
    assert_eq!(p.set_usage_scenario(3, 0), Err(E_NOTIMPL));
    assert_eq!(p.set_usage_scenario(0, 0), Err(E_NOTIMPL));
    assert_eq!(p.set_serialization(), Err(S_FALSE));
    assert_eq!(p.get_field_descriptor_count(), Ok(0));
    assert_eq!(p.get_field_descriptor_at(0), Err(E_NOTIMPL));
}

#[test]
fn credential_wide_strings() {
    let c = CredentialProviderCredential {
        computername: "PC".to_string(),
        username: "bob".to_string(),
        password: "pä".to_string(),
    };
    assert_eq!(c.user(), wide("PC\\bob"));
    assert_eq!(c.pasw(), wide("pä"));
    let req = c.pack_request();
    assert_eq!(req.flags, CRED_PACK_PROTECTED_CREDENTIALS);
    assert_eq!(req.buffer_size, 1024);
    assert_eq!(req.user, wide("PC\\bob"));
    assert_eq!(req.password, wide("pä"));
}

#[test]
fn serialization_outcomes() {
    let c = CredentialProviderCredential {
        computername: "PC".to_string(),
        username: "bob".to_string(),
        password: "pw".to_string(),
    };
    let ok = c.get_serialization(Ok(96));
    assert_eq!(ok.response, CPGSR_RETURN_CREDENTIAL_FINISHED);
    let s = ok.serialization.ok().unwrap();
    assert_eq!((s.authentication_package, s.provider_clsid, s.size), (0, PROVIDER_CLSID, 96));
    let err = c.get_serialization(Err(E_INVALIDARG));
    assert_eq!(err.response, 2);
    assert_eq!(err.serialization.err(), Some(E_INVALIDARG));
}

#[test]
fn credential_answers() {
    let c = CredentialProviderCredential {
        computername: String::new(),
        username: String::new(),
        password: String::new(),
    };
    assert_eq!(c.advise(), Err(E_NOTIMPL));
    assert_eq!(c.unadvise(), Err(E_NOTIMPL));
    assert_eq!(c.set_selected(), Ok(false));
    assert_eq!(c.set_deselected(), Ok(()));
    assert_eq!(c.get_field_state(0), Err(E_NOTIMPL));
    assert_eq!(c.get_string_value(0), Err(E_NOTIMPL));
    assert_eq!(c.get_bitmap_value(0), Err(E_NOTIMPL));
    assert_eq!(c.get_checkbox_value(0), Err(E_NOTIMPL));
    assert_eq!(c.get_submit_button_value(0), Ok(1));
    assert_eq!(c.get_combo_box_value_count(0), Ok((0, 0)));
    assert_eq!(c.get_combo_box_value_at(0, 0), Err(E_NOTIMPL));
    assert_eq!(c.set_string_value(0), Err(E_NOTIMPL));
    assert_eq!(c.set_checkbox_value(0, true), Err(E_NOTIMPL));
    assert_eq!(c.set_combo_box_selected_value(0, 0), Err(E_NOTIMPL));
    assert_eq!(c.command_link_clicked(0), Err(E_NOTIMPL));
    assert_eq!(c.report_result(0, 0), Ok(()));
}

#[test]
fn class_object_statuses() {
    let ours = Some(PROVIDER_CLSID);
    let factory = Some(IID_ICLASSFACTORY);
    assert_eq!(get_class_object(false, ours, factory), E_POINTER);
    assert_eq!(get_class_object(true, None, factory), E_INVALIDARG);
    assert_eq!(get_class_object(true, ours, None), E_INVALIDARG);
    assert_eq!(get_class_object(true, Some(1), factory), CLASS_E_CLASSNOTAVAILABLE);
    assert_eq!(get_class_object(true, ours, Some(IID_ICREDENTIALPROVIDER)), E_NOINTERFACE);
    assert_eq!(get_class_object(true, ours, factory), S_OK);
    assert_eq!(PROVIDER_CLSID, 0x7d6836a5_c203_47e2_8fe5_eca9159e7d7e);
    assert_eq!(can_unload_now(), S_OK);
    assert_eq!(lock_server(true), Err(E_NOTIMPL));
    assert_eq!(E_NOTIMPL as u32, 0x80004001);
    assert_eq!(E_POINTER as u32, 0x80004003);
    assert_eq!(E_INVALIDARG as u32, 0x80070057);
    assert_eq!(CLASS_E_CLASSNOTAVAILABLE as u32, 0x80040111);
    assert_eq!(CLASS_E_NOAGGREGATION as u32, 0x80040110);
    assert_eq!(E_NOINTERFACE as u32, 0x80004002);
}

#[test]
fn create_instance_statuses() {
    let iid = Some(IID_ICREDENTIALPROVIDER);
    let name = || Some("PC".to_string());
    assert_eq!(create_instance::<u8>(false, iid, false, name()).err(), Some(E_POINTER));
    assert_eq!(create_instance::<u8>(true, None, false, name()).err(), Some(E_INVALIDARG));
    assert_eq!(create_instance::<u8>(true, iid, true, name()).err(), Some(CLASS_E_NOAGGREGATION));
    assert_eq!(
        create_instance::<u8>(true, Some(IID_ICLASSFACTORY), false, name()).err(),
        Some(E_NOINTERFACE)
    );
    assert_eq!(create_instance::<u8>(true, iid, false, None).err(), Some(E_NOINTERFACE));
    let p = create_instance::<u8>(true, iid, false, name()).ok().unwrap();
    assert_eq!(p.get_credential_count().count, 0);
}

#[test]
fn sample_tile() {
    assert_eq!(sample::set_usage_scenario(1), Ok(()));
    assert_eq!(sample::set_usage_scenario(2), Ok(()));
    assert_eq!(sample::set_usage_scenario(3), Err(E_NOTIMPL));
    for id in 0..3 {
        assert_eq!(sample::get_field_state(id), Ok((CPFS_DISPLAY_IN_BOTH, CPFIS_NONE)));
    }
    assert_eq!(sample::get_field_state(3), Err(E_NOTIMPL));
    assert_eq!(sample::get_string_value(1), wide("Test Provider"));
    assert_eq!(sample::user(), wide("SUSHI-MAMPFER\\test"));
    assert_eq!(sample::pasw(), wide("Test"));
    let req = sample::pack_request();
    assert_eq!(req.user, wide("SUSHI-MAMPFER\\test"));
    assert_eq!(req.buffer_size, 1024);
}

#[test]
fn count_stays_one_and_tile_matches_count() {
    let mut p = provider();
    assert_eq!(p.get_credential_count().count, 0);
    assert!(p.get_credential_at(0).is_err());
    assert_eq!(p.advise(Some(1u8), 9), Ok(()));
    assert_eq!(p.get_credential_count().count, 0);
    assert_eq!(p.update("bob".to_string(), "pw".to_string()), Some(9));
    assert_eq!(p.unadvise(), Ok(()));
    assert_eq!(p.advise(None, 10), Ok(()));
    assert_eq!(p.update("eve".to_string(), "x".to_string()), None);
    assert_eq!(p.get_credential_count().count, 1);
    assert!(p.get_credential_at(0).is_ok());
}
