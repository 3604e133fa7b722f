//! The list of alternative names that a user puts together, one at a time.

use vstd::prelude::*;
use vstd::utf8::encode_utf8;
use crate::alt_name::{AltName, AltNameType, GeneralName, GeneralNameView};
use crate::ip::ip_spec;

verus! {

/// What a user can do to the list.
#[derive(Debug)]
pub enum SANListMessage {
    /// Choose the kind of the name that is added next.
    UpdateToAddType(AltNameType),
    /// Change the text of the name that is added next.
    UpdateToAddValue(String),
    /// Add the name that kind and text make.
    Add,
    /// Remove the name at an index.
    Remove(usize),
}

/// The list, and the kind and text of the name that is added next.
#[derive(Debug)]
pub struct SANList {
    /// The names, in the order in which they were added.
    pub list: Vec<AltName>,
    /// The kind of the name that is added next.
    pub to_add_type: AltNameType,
    /// The text of the name that is added next.
    pub to_add_value: String,
}

impl SANList {
    /// The list that starts with `list`, to add a DNS name with no text yet.
    pub fn create(list: Vec<AltName>) -> (state: SANList)
        ensures
            state.list == list,
            state.to_add_type == AltNameType::DNS,
            state.to_add_value@ == Seq::<char>::empty(),
    {
        SANList { list, to_add_type: AltNameType::DNS, to_add_value: String::new() }
    }

    /// What is added to the list, if anything: the name that kind and text
    /// make. Nothing is added where the kind is an IP address and the text
    /// writes none.
    pub open spec fn to_add_spec(&self) -> Option<GeneralNameView> {
        match self.to_add_type {
            AltNameType::DNS => Some(GeneralNameView::DnsName(self.to_add_value@)),
            AltNameType::IP => match ip_spec(encode_utf8(self.to_add_value@)) {
                Some(octets) => Some(GeneralNameView::IpAddress(octets)),
                None => None,
            },
        }
    }

    /// Does to the list what `msg` says, and returns whether the list
    /// changed. To remove a name, its index must be in the list.
    pub fn update(&mut self, msg: SANListMessage) -> (changed: bool)
        requires
            msg matches SANListMessage::Remove(index) ==> index < old(self).list@.len(),
        ensures
            match msg {
                SANListMessage::UpdateToAddType(kind) => {
                    &&& !changed
                    &&& final(self).list == old(self).list
                    &&& final(self).to_add_type == kind
                    &&& final(self).to_add_value == old(self).to_add_value
                },
                SANListMessage::UpdateToAddValue(text) => {
                    &&& !changed
                    &&& final(self).list == old(self).list
                    &&& final(self).to_add_type == old(self).to_add_type
                    &&& final(self).to_add_value == text
                },
                SANListMessage::Add => {
                    &&& final(self).to_add_type == old(self).to_add_type
                    &&& final(self).to_add_value == old(self).to_add_value
                    &&& changed == old(self).to_add_spec() is Some
                    &&& match old(self).to_add_spec() {
                        Some(name) => {
                            &&& final(self).list@.len() == old(self).list@.len() + 1
                            &&& final(self).list@.drop_last() == old(self).list@
                            &&& GeneralName::of_spec(final(self).list@.last()) == name
                        },
                        None => final(self).list == old(self).list,
                    }
                },
                SANListMessage::Remove(index) => {
                    &&& changed
                    &&& final(self).list@ == old(self).list@.remove(index as int)
                    &&& final(self).to_add_type == old(self).to_add_type
                    &&& final(self).to_add_value == old(self).to_add_value
                },
            },
    {
        match msg {
            SANListMessage::UpdateToAddType(kind) => {
                self.to_add_type = kind;
                false
            },
            SANListMessage::UpdateToAddValue(text) => {
                self.to_add_value = text;
                false
            },
            SANListMessage::Add => match AltName::parse(
                self.to_add_type,
                self.to_add_value.as_str(),
            ) {
                Ok(name) => {
                    self.list.push(name);
                    assert(self.list@.drop_last() =~= old(self).list@);
                    true
                },
                Err(_) => false,
            },
            SANListMessage::Remove(index) => {
                self.list.remove(index);
                true
            },
        }
    }
}

} // verus!
