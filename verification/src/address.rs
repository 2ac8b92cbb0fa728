//! The identities that the treasury deals with: accounts and contracts.

use vstd::prelude::*;
use vstd::std_specs::cmp::PartialEqSpecImpl;

verus! {

/// The identity of an account or a contract, held in its textual form.
///
/// Two addresses are the same identity exactly when their texts are equal;
/// the library reads nothing else from an address.
#[derive(Debug)]
pub struct Address {
    strkey: String,
}

impl View for Address {
    type V = Seq<char>;

    closed spec fn view(&self) -> Seq<char> {
        self.strkey@
    }
}

impl DeepView for Address {
    type V = Seq<char>;

    open spec fn deep_view(&self) -> Seq<char> {
        self@
    }
}

impl Address {
    /// The address written as `strkey`.
    pub fn from_str(strkey: &str) -> (address: Address)
        ensures
            address@ == strkey@,
    {
        Address { strkey: String::from_str(strkey) }
    }

    /// The address written as `strkey`.
    pub fn from_string(strkey: String) -> (address: Address)
        ensures
            address@ == strkey@,
    {
        Address { strkey }
    }

    /// The text of the address.
    pub fn as_str(&self) -> (strkey: &str)
        ensures
            strkey@ == self@,
    {
        self.strkey.as_str()
    }
}

impl Clone for Address {
    fn clone(&self) -> (copy: Address)
        ensures
            copy@ == self@,
    {
        Address { strkey: self.strkey.clone() }
    }
}

impl PartialEq for Address {
    fn eq(&self, other: &Address) -> (same: bool) {
        self.strkey == other.strkey
    }
}

impl Eq for Address {}

impl PartialEqSpecImpl for Address {
    open spec fn obeys_eq_spec() -> bool {
        true
    }

    open spec fn eq_spec(&self, other: &Address) -> bool {
        self@ == other@
    }
}

} // verus!
