//! A JSON document as a plain tree, and the lookups a reply is read with.

use vstd::prelude::*;

verus! {

/// A JSON value. A number is held as the text that `serde_json::Number`
/// prints for it; an object holds its members as a list of names and
/// values, and a lookup by name finds the first member of that name.
#[derive(Debug, PartialEq, Eq)]
pub enum Json {
    Null,
    Bool(bool),
    Number(String),
    Text(String),
    Array(Vec<Json>),
    Object(Vec<(String, Json)>),
}

/// `serde_json::Value`, as a type whose values are only carried.
#[verifier::external_type_specification]
#[verifier::external_body]
pub struct ExValue(serde_json::Value);

/// The tree that `serde_json::from_str` reads from `text` as a
/// `serde_json::Value`, or `None` where it reports an error.
pub uninterp spec fn parsed(text: Seq<char>) -> Option<Json>;

/// A `serde_json::Value` as a tree, variant by variant. Trusted: it only
/// moves what the value holds; a number becomes the text that
/// `serde_json::Number` prints.
#[verifier::external_body]
fn tree_of(value: serde_json::Value) -> Json {
    match value {
        serde_json::Value::Null => Json::Null,
        serde_json::Value::Bool(b) => Json::Bool(b),
        serde_json::Value::Number(n) => Json::Number(n.to_string()),
        serde_json::Value::String(s) => Json::Text(s),
        serde_json::Value::Array(items) => Json::Array(items.into_iter().map(tree_of).collect()),
        serde_json::Value::Object(members) => Json::Object(
            members.into_iter().map(|(k, v)| (k, tree_of(v))).collect(),
        ),
    }
}

/// `serde_json::from_str` on a `serde_json::Value`, handed back as a tree.
/// Trusted: the contract only names the result.
#[verifier::external_body]
pub(crate) fn parse(text: &str) -> (r: Option<Json>)
    ensures
        r == parsed(text@),
{
    match serde_json::from_str::<serde_json::Value>(text) {
        Ok(value) => Some(tree_of(value)),
        Err(_) => None,
    }
}

/// The value of the first member of `members` that is named `name`.
pub open spec fn first_member(members: Seq<(String, Json)>, name: Seq<char>) -> Option<Json>
    decreases members.len(),
{
    if members.len() == 0 {
        None
    } else if members[0].0@ == name {
        Some(members[0].1)
    } else {
        first_member(members.drop_first(), name)
    }
}

impl Json {
    /// The member `name` of an object; `None` for anything but an object and
    /// for an object without such a member.
    pub open spec fn member_of(self, name: Seq<char>) -> Option<Json> {
        match self {
            Json::Object(members) => first_member(members@, name),
            _ => None,
        }
    }

    /// The element at `index` of an array; `None` for anything but an array
    /// and for an index past its end.
    pub open spec fn element_of(self, index: int) -> Option<Json> {
        match self {
            Json::Array(items) => if 0 <= index < items@.len() {
                Some(items@[index])
            } else {
                None
            },
            _ => None,
        }
    }

    /// The characters of a string; `None` for anything but a string.
    pub open spec fn text_of(self) -> Option<Seq<char>> {
        match self {
            Json::Text(text) => Some(text@),
            _ => None,
        }
    }

    /// The member `name` of an object, if this is an object that has one.
    pub fn member(&self, name: &str) -> (r: Option<&Json>)
        ensures
            match r {
                Some(found) => self.member_of(name@) == Some(*found),
                None => self.member_of(name@) is None,
            },
    {
        match self {
            Json::Object(members) => {
                let mut i: usize = 0;
                proof {
                    assert(members@.skip(0) =~= members@);
                }
                while i < members.len()
                    invariant
                        i <= members.len(),
                        self.member_of(name@) == first_member(members@, name@),
                        first_member(members@, name@) == first_member(
                            members@.skip(i as int),
                            name@,
                        ),
                    decreases members.len() - i,
                {
                    proof {
                        assert(members@.skip(i as int).drop_first() =~= members@.skip(i + 1));
                        assert(members@.skip(i as int)[0] == members@[i as int]);
                    }
                    if crate::text::same_text(members[i].0.as_str(), name) {
                        return Some(&members[i].1);
                    }
                    i += 1;
                }
                None
            },
            _ => None,
        }
    }

    /// The element at `index` of an array, if this is an array that long.
    pub fn element(&self, index: usize) -> (r: Option<&Json>)
        ensures
            match r {
                Some(found) => self.element_of(index as int) == Some(*found),
                None => self.element_of(index as int) is None,
            },
    {
        match self {
            Json::Array(items) => if index < items.len() {
                Some(&items[index])
            } else {
                None
            },
            _ => None,
        }
    }

    /// The characters of a string, if this is a string.
    pub fn as_text(&self) -> (r: Option<&str>)
        ensures
            match r {
                Some(text) => self.text_of() == Some(text@),
                None => self.text_of() is None,
            },
    {
        match self {
            Json::Text(text) => Some(text.as_str()),
            _ => None,
        }
    }
}

} // verus!
