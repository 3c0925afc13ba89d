//! Creating a channel.

use vstd::prelude::*;

use crate::api::http::Method;
use crate::api::json::{str_texts, texts};
use crate::api::methods::base::{APIMethod, MethodModel};
use crate::api::methods::payload::{Payload, PayloadValue, PayloadValueView, PayloadView};
use crate::api::settings::Settings;

verus! {

/// The endpoint `channels.create`. Only the name is required.
#[derive(Debug)]
pub struct ChannelCreateMethod<'a> {
    pub settings: &'a Settings,
    pub name: String,
    pub members: Option<Vec<String>>,
    pub read_only: Option<bool>,
}

/// The names in an optional list of members.
pub open spec fn names_of(members: Option<Vec<String>>) -> Option<Seq<Seq<char>>> {
    match members {
        Some(names) => Some(texts(names@)),
        None => None,
    }
}

/// The field `members` with the list, where there is one.
pub open spec fn optional_members(members: Option<Seq<Seq<char>>>) -> PayloadView {
    match members {
        Some(names) => seq![("members"@, PayloadValueView::ListOfString(names))],
        None => Seq::empty(),
    }
}

/// The field `readOnly` with the flag, where there is one.
pub open spec fn optional_read_only(read_only: Option<bool>) -> PayloadView {
    match read_only {
        Some(flag) => seq![("readOnly"@, PayloadValueView::Bool(flag))],
        None => Seq::empty(),
    }
}

/// The payload of a new channel: the name, then each optional field that is
/// set.
pub open spec fn channel_create_payload(
    name: Seq<char>,
    members: Option<Seq<Seq<char>>>,
    read_only: Option<bool>,
) -> PayloadView {
    seq![("name"@, PayloadValueView::String(name))] + optional_members(members)
        + optional_read_only(read_only)
}

/// The three field names differ from each other.
pub proof fn lemma_channel_create_names()
    ensures
        "name"@ != "members"@,
        "name"@ != "readOnly"@,
        "members"@ != "readOnly"@,
{
    reveal_strlit("name");
    reveal_strlit("members");
    reveal_strlit("readOnly");
    assert("members"@.len() == 7);
    assert("readOnly"@.len() == 8);
}

/// The strings of `items`, borrowed.
fn borrowed<'a>(items: &'a Vec<String>) -> (r: Vec<&'a str>)
    ensures
        str_texts(r@) == texts(items@),
{
    let mut out: Vec<&'a str> = Vec::new();
    let mut i: usize = 0;
    while i < items.len()
        invariant
            i <= items.len(),
            out@.len() == i,
            forall|k: int| 0 <= k < i ==> (#[trigger] out@[k])@ == items@[k]@,
        decreases items.len() - i,
    {
        out.push(items[i].as_str());
        i += 1;
    }
    out
}

impl<'a> ChannelCreateMethod<'a> {
    /// A channel without a list of members that is open for writing.
    pub fn new(settings: &'a Settings, name: String) -> (m: Self)
        ensures
            m.settings == settings,
            m.name == name,
            m.members is None,
            m.read_only == Some(false),
    {
        ChannelCreateMethod { settings, name, members: None, read_only: Some(false) }
    }
}

impl<'a> APIMethod for ChannelCreateMethod<'a> {
    open spec fn model(&self) -> MethodModel {
        MethodModel {
            settings: self.settings@,
            endpoint: "/api/v1/channels.create"@,
            method: Method::Post,
            payload: channel_create_payload(self.name@, names_of(self.members), self.read_only),
        }
    }

    fn settings(&self) -> (s: &Settings) {
        self.settings
    }

    fn endpoint(&self) -> (e: &str) {
        "/api/v1/channels.create"
    }

    fn method(&self) -> (m: Method) {
        Method::Post
    }

    fn json_payload(&self) -> (p: Payload<'_>) {
        proof {
            lemma_channel_create_names();
        }
        let mut payload = Payload::new();
        payload.insert(String::from_str("name"), PayloadValue::String(self.name.as_str()));
        if let Some(members) = &self.members {
            let names = borrowed(members);
            payload.insert(String::from_str("members"), PayloadValue::ListOfString(names));
        }
        if let Some(read_only) = &self.read_only {
            payload.insert(String::from_str("readOnly"), PayloadValue::Bool(read_only));
        }
        payload
    }
}

} // verus!
