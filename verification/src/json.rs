//! A JSON document, held as what can be read of it without going into its
//! values: its members, where it is an object, and its own text.
//!
//! Parsing and rendering are done by the `serde_json` crate. What it makes of
//! a body is named by `json_document`; the wrapper at the end of this file is
//! the only place where the crate is called, and its contract is believed, not
//! proved.

use vstd::prelude::*;
use crate::text::{str_eq, view_of};

verus! {

/// A member of a JSON object.
#[derive(Clone, PartialEq, Eq, Debug)]
pub struct Member {
    /// The key of the member.
    pub key: String,
    /// The value of the member, where it is a string.
    pub text: Option<String>,
    /// The value of the member, rendered compactly.
    pub rendered: String,
}

/// The mathematical value of a `Member`.
pub struct MemberView {
    pub key: Seq<char>,
    pub text: Option<Seq<char>>,
    pub rendered: Seq<char>,
}

impl View for Member {
    type V = MemberView;

    open spec fn view(&self) -> MemberView {
        MemberView { key: self.key@, text: view_of(self.text), rendered: self.rendered@ }
    }
}

/// A JSON document.
#[derive(Clone, PartialEq, Eq, Debug)]
pub struct Document {
    /// The members of the document, where it is an object.
    pub members: Option<Vec<Member>>,
    /// The whole document, rendered compactly.
    pub rendered: String,
}

/// The mathematical value of a `Document`.
pub struct DocumentView {
    pub members: Option<Seq<MemberView>>,
    pub rendered: Seq<char>,
}

/// The views of some members, in their order.
pub open spec fn members_view(members: Seq<Member>) -> Seq<MemberView> {
    Seq::new(members.len(), |i: int| members[i]@)
}

impl View for Document {
    type V = DocumentView;

    open spec fn view(&self) -> DocumentView {
        DocumentView {
            members: match self.members {
                Some(members) => Some(members_view(members@)),
                None => None,
            },
            rendered: self.rendered@,
        }
    }
}

/// The first of `members` that has the key `key`, from position `from` on.
pub open spec fn member_from(members: Seq<MemberView>, key: Seq<char>, from: int) -> Option<
    MemberView,
>
    decreases members.len() - from,
{
    if from < 0 || from >= members.len() {
        None
    } else if members[from].key == key {
        Some(members[from])
    } else {
        member_from(members, key, from + 1)
    }
}

/// The member of `document` that has the key `key`: none where the document
/// is no object or has no such member.
pub open spec fn member_of(document: DocumentView, key: Seq<char>) -> Option<MemberView> {
    match document.members {
        Some(members) => member_from(members, key, 0),
        None => None,
    }
}

/// What `serde_json` makes of `body`. Where `serde_json::from_slice` rejects
/// the body as JSON: the message of its error. Else the document: where the
/// value is an object, its members as the object lists them, each with its
/// key, with its value where that is a string, and with the `to_string` of
/// its value; and the `to_string` of the whole value.
pub uninterp spec fn json_document(body: Seq<u8>) -> Result<DocumentView, Seq<char>>;

/// The view of what parsing a body gives: the document, or the parser's message.
pub open spec fn document_result(r: Result<Document, String>) -> Result<DocumentView, Seq<char>> {
    match r {
        Ok(document) => Ok(document@),
        Err(reason) => Err(reason@),
    }
}

impl Document {
    /// The member that has the key `key`, if the document is an object and
    /// has one.
    pub fn get(&self, key: &str) -> (r: Option<&Member>)
        ensures
            match r {
                Some(member) => member_of(self@, key@) == Some(member@),
                None => member_of(self@, key@) is None,
            },
    {
        match &self.members {
            None => None,
            Some(members) => {
                let ghost views = members_view(members@);
                let mut at: usize = 0;
                while at < members.len()
                    invariant
                        at <= members@.len(),
                        views == members_view(members@),
                        self@.members == Some(views),
                        member_from(views, key@, 0) == member_from(views, key@, at as int),
                    decreases members@.len() - at,
                {
                    assert(views[at as int] == members@[at as int]@);
                    if str_eq(members[at].key.as_str(), key) {
                        return Some(&members[at]);
                    }
                    at += 1;
                }
                None
            },
        }
    }
}

/// Calls `serde_json::from_slice` for a `serde_json::Value`. On the value:
/// `to_string`, and `as_object` with, for each member that the object lists,
/// the key, `as_str` of the value and `to_string` of the value. On the error:
/// `to_string`. Believed: all of these are functions of the body alone.
#[verifier::external_body]
pub(crate) fn parse_json(body: &[u8]) -> (r: Result<Document, String>)
    ensures
        document_result(r) == json_document(body@),
{
    let value = serde_json::from_slice::<serde_json::Value>(body).map_err(|e| e.to_string())?;
    let members = value.as_object().map(
        |object| object.iter().map(
            |(key, value)| Member {
                key: key.clone(),
                text: value.as_str().map(|text| text.to_owned()),
                rendered: value.to_string(),
            },
        ).collect(),
    );
    Ok(Document { members, rendered: value.to_string() })
}

} // verus!
