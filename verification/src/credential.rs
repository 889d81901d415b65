//! The credential tile the provider hands to the logon UI: a computer name,
//! a user name and a password, packed for the system when the user logs on.

use vstd::prelude::*;
use vstd::string::*;

use crate::com::{
    CPGSR_RETURN_CREDENTIAL_FINISHED, CRED_PACK_PROTECTED_CREDENTIALS, E_NOTIMPL,
    PROVIDER_CLSID,
};
use crate::wide::{to_wide, wide_nul};

verus! {

/// One credential: the account `computername\username` and its password.
pub struct CredentialProviderCredential {
    pub computername: String,
    pub username: String,
    pub password: String,
}

/// The account name `computername\username`.
pub open spec fn account_name(computername: Seq<char>, username: Seq<char>) -> Seq<char> {
    computername + seq!['\\'] + username
}

/// The size of the buffer offered for the packed credentials.
pub const PACK_BUFFER_SIZE: u32 = 1024;

/// What to hand to `CredPackAuthenticationBufferW`.
pub struct PackRequest {
    /// The packing flags.
    pub flags: u32,
    /// The null-terminated UTF-16 account name.
    pub user: Vec<u16>,
    /// The null-terminated UTF-16 password.
    pub password: Vec<u16>,
    /// The size of the buffer that receives the packed credentials.
    pub buffer_size: u32,
}

/// The serialization handed to the logon UI; the buffer itself stays with
/// the caller.
pub struct Serialization {
    /// The authentication package, `0`.
    pub authentication_package: u32,
    /// The class id of this provider.
    pub provider_clsid: u128,
    /// The number of bytes of packed credentials in the buffer.
    pub size: u32,
}

/// The answer to `GetSerialization`: the response code, always set, and the
/// serialization or the packing error.
pub struct SerializationOutcome {
    pub response: i32,
    pub serialization: Result<Serialization, i32>,
}

impl CredentialProviderCredential {
    /// The null-terminated UTF-16 account name `computername\username`.
    pub fn user(&self) -> (res: Vec<u16>)
        ensures
            res@ == wide_nul(account_name(self.computername@, self.username@)),
    {
        let mut name: String = self.computername.clone();
        proof {
            reveal_strlit("\\");
        }
        name.append("\\");
        name.append(self.username.as_str());
        assert(name@ =~= account_name(self.computername@, self.username@));
        to_wide(name.as_str())
    }

    /// The null-terminated UTF-16 password.
    pub fn pasw(&self) -> (res: Vec<u16>)
        ensures
            res@ == wide_nul(self.password@),
    {
        to_wide(self.password.as_str())
    }

    /// What to pack for this credential: protected credentials, the account
    /// name and password, into a buffer of [`PACK_BUFFER_SIZE`] bytes.
    pub fn pack_request(&self) -> (req: PackRequest)
        ensures
            req.flags == CRED_PACK_PROTECTED_CREDENTIALS,
            req.user@ == wide_nul(account_name(self.computername@, self.username@)),
            req.password@ == wide_nul(self.password@),
            req.buffer_size == PACK_BUFFER_SIZE,
    {
        PackRequest {
            flags: CRED_PACK_PROTECTED_CREDENTIALS,
            user: self.user(),
            password: self.pasw(),
            buffer_size: PACK_BUFFER_SIZE,
        }
    }

    /// `GetSerialization`, given what packing gave: the packed size, or the
    /// error status. The response is always "credential finished"; the
    /// serialization names package `0` and this provider.
    pub fn get_serialization(&self, packed: Result<u32, i32>) -> (out: SerializationOutcome)
        ensures
            out.response == CPGSR_RETURN_CREDENTIAL_FINISHED,
            match packed {
                Ok(size) => out.serialization matches Ok(s) && s.authentication_package == 0
                    && s.provider_clsid == PROVIDER_CLSID && s.size == size,
                Err(code) => out.serialization == Err::<Serialization, i32>(code),
            },
    {
        let serialization = match packed {
            Ok(size) => Ok(
                Serialization {
                    authentication_package: 0,
                    provider_clsid: PROVIDER_CLSID,
                    size,
                },
            ),
            Err(code) => Err(code),
        };
        SerializationOutcome { response: CPGSR_RETURN_CREDENTIAL_FINISHED, serialization }
    }

    /// `Advise`: not offered.
    pub fn advise(&self) -> (r: Result<(), i32>)
        ensures
            r == Err::<(), i32>(E_NOTIMPL),
    {
        Err(E_NOTIMPL)
    }

    /// `UnAdvise`: not offered.
    pub fn unadvise(&self) -> (r: Result<(), i32>)
        ensures
            r == Err::<(), i32>(E_NOTIMPL),
    {
        Err(E_NOTIMPL)
    }

    /// `SetSelected`: selecting the tile does not log on by itself.
    pub fn set_selected(&self) -> (r: Result<bool, i32>)
        ensures
            r == Ok::<bool, i32>(false),
    {
        Ok(false)
    }

    /// `SetDeselected`: accepted.
    pub fn set_deselected(&self) -> (r: Result<(), i32>)
        ensures
            r == Ok::<(), i32>(()),
    {
        Ok(())
    }

    /// `GetFieldState`: the tile has no fields.
    pub fn get_field_state(&self, _field_id: u32) -> (r: Result<(i32, i32), i32>)
        ensures
            r == Err::<(i32, i32), i32>(E_NOTIMPL),
    {
        Err(E_NOTIMPL)
    }

    /// `GetStringValue`: the tile has no fields.
    pub fn get_string_value(&self, _field_id: u32) -> (r: Result<Vec<u16>, i32>)
        ensures
            r == Err::<Vec<u16>, i32>(E_NOTIMPL),
    {
        Err(E_NOTIMPL)
    }

    /// `GetBitmapValue`: the tile has no image.
    pub fn get_bitmap_value(&self, _field_id: u32) -> (r: Result<(), i32>)
        ensures
            r == Err::<(), i32>(E_NOTIMPL),
    {
        Err(E_NOTIMPL)
    }

    /// `GetCheckboxValue`: the tile has no check box.
    pub fn get_checkbox_value(&self, _field_id: u32) -> (r: Result<(bool, Vec<u16>), i32>)
        ensures
            r == Err::<(bool, Vec<u16>), i32>(E_NOTIMPL),
    {
        Err(E_NOTIMPL)
    }

    /// `GetSubmitButtonValue`: the submit button sits next to field `1`.
    pub fn get_submit_button_value(&self, _field_id: u32) -> (r: Result<u32, i32>)
        ensures
            r == Ok::<u32, i32>(1),
    {
        Ok(1)
    }

    /// `GetComboBoxValueCount`: no items, none selected.
    pub fn get_combo_box_value_count(&self, _field_id: u32) -> (r: Result<(u32, u32), i32>)
        ensures
            r == Ok::<(u32, u32), i32>((0, 0)),
    {
        Ok((0, 0))
    }

    /// `GetComboBoxValueAt`: the tile has no combo box.
    pub fn get_combo_box_value_at(&self, _field_id: u32, _item: u32) -> (r: Result<Vec<u16>, i32>)
        ensures
            r == Err::<Vec<u16>, i32>(E_NOTIMPL),
    {
        Err(E_NOTIMPL)
    }

    /// `SetStringValue`: the tile has no editable field.
    pub fn set_string_value(&self, _field_id: u32) -> (r: Result<(), i32>)
        ensures
            r == Err::<(), i32>(E_NOTIMPL),
    {
        Err(E_NOTIMPL)
    }

    /// `SetCheckboxValue`: the tile has no check box.
    pub fn set_checkbox_value(&self, _field_id: u32, _checked: bool) -> (r: Result<(), i32>)
        ensures
            r == Err::<(), i32>(E_NOTIMPL),
    {
        Err(E_NOTIMPL)
    }

    /// `SetComboBoxSelectedValue`: the tile has no combo box.
    pub fn set_combo_box_selected_value(&self, _field_id: u32, _item: u32) -> (r: Result<(), i32>)
        ensures
            r == Err::<(), i32>(E_NOTIMPL),
    {
        Err(E_NOTIMPL)
    }

    /// `CommandLinkClicked`: the tile has no command link.
    pub fn command_link_clicked(&self, _field_id: u32) -> (r: Result<(), i32>)
        ensures
            r == Err::<(), i32>(E_NOTIMPL),
    {
        Err(E_NOTIMPL)
    }

    /// `ReportResult`: accepted, whatever the outcome of the logon.
    pub fn report_result(&self, _status: i32, _substatus: i32) -> (r: Result<(), i32>)
        ensures
            r == Ok::<(), i32>(()),
    {
        Ok(())
    }
}

/// The account name holds the whole computer name, then one `\`, then the
/// whole user name.
pub proof fn lemma_account_name_parts(computername: Seq<char>, username: Seq<char>)
    ensures
        account_name(computername, username).len() == computername.len() + 1 + username.len(),
        account_name(computername, username).take(computername.len() as int) == computername,
        account_name(computername, username)[computername.len() as int] == '\\',
        account_name(computername, username).skip(computername.len() + 1int) == username,
{
    let a = account_name(computername, username);
    assert(a.take(computername.len() as int) =~= computername);
    assert(a.skip(computername.len() + 1int) =~= username);
}

} // verus!
