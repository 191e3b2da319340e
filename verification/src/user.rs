//! What the user service reads and writes as JSON.

use vstd::prelude::*;
use crate::codec::{member_text, member_text_from, object1, object1_value};
use crate::json::{
    array_value, json_parse, json_tree, json_trees, shallow, text_value, value_from_text,
    value_to_text, JsonTree,
};

verus! {

/// The request to add a user.
pub struct UserData {
    username: String,
    pwd: String,
}

/// Mathematical value of [`UserData`].
pub struct UserDataView {
    pub username: Seq<char>,
    pub pwd: Seq<char>,
}

impl View for UserData {
    type V = UserDataView;

    closed spec fn view(&self) -> UserDataView {
        UserDataView { username: self.username@, pwd: self.pwd@ }
    }
}

/// The request that a document stands for: an object with a string under
/// `username` and one under `pwd`.
pub open spec fn user_data_of_tree(tree: JsonTree) -> Option<UserDataView> {
    match (member_text(tree, "username"@), member_text(tree, "pwd"@)) {
        (Some(username), Some(pwd)) => Some(UserDataView { username, pwd }),
        _ => None,
    }
}

/// The request that `text` spells.
pub open spec fn decode_user_data(text: Seq<char>) -> Option<UserDataView> {
    match json_parse(text) {
        Some(tree) => user_data_of_tree(tree),
        None => None,
    }
}

/// The value of an optional request.
pub open spec fn user_data_view(data: Option<UserData>) -> Option<UserDataView> {
    match data {
        Some(d) => Some(d@),
        None => None,
    }
}

/// The documents for a list of names.
pub open spec fn name_trees(names: Seq<String>) -> Seq<JsonTree> {
    Seq::new(names.len(), |i: int| JsonTree::Text(names[i]@))
}

impl UserData {
    /// A request to add the user `username` with the password `pwd`.
    pub fn new(username: String, pwd: String) -> (r: Self)
        ensures
            r@ == (UserDataView { username: username@, pwd: pwd@ }),
    {
        UserData { username, pwd }
    }

    /// The name of the user to add.
    pub fn username(&self) -> (r: &str)
        ensures
            r@ == self@.username,
    {
        self.username.as_str()
    }

    /// The password of the user to add.
    pub fn pwd(&self) -> (r: &str)
        ensures
            r@ == self@.pwd,
    {
        self.pwd.as_str()
    }

    /// Reads a request from JSON text: `None` where the text is no JSON
    /// document or the document lacks one of the two strings.
    pub fn from_json(text: &str) -> (r: Option<UserData>)
        ensures
            user_data_view(r) == decode_user_data(text@),
    {
        match value_from_text(text) {
            Some(value) => {
                let username = member_text_from(&value, "username");
                let pwd = member_text_from(&value, "pwd");
                match (username, pwd) {
                    (Some(username), Some(pwd)) => Some(UserData { username, pwd }),
                    _ => None,
                }
            },
            None => None,
        }
    }
}

/// The answer to the question for one user: an object with the name under
/// `username`.
pub fn username_json(name: &str) -> (r: String)
    ensures
        json_parse(r@) == Some(object1("username"@, JsonTree::Text(name@))),
{
    let value = object1_value("username", text_value(name.to_owned()));
    proof {
        reveal_with_fuel(shallow, 3);
        assert(shallow(json_tree(value), 16));
    }
    value_to_text(&value)
}

/// The answer to the question for all users: the array of their names.
pub fn usernames_json(names: &Vec<String>) -> (r: String)
    ensures
        json_parse(r@) == Some(JsonTree::Array(name_trees(names@))),
{
    let mut items: Vec<serde_json::Value> = Vec::new();
    let mut i: usize = 0;
    while i < names.len()
        invariant
            i <= names@.len(),
            items@.len() == i,
            forall|k: int| 0 <= k < i ==> json_tree(#[trigger] items@[k]) == JsonTree::Text(names@[k]@),
        decreases names@.len() - i,
    {
        items.push(text_value(names[i].clone()));
        i += 1;
    }
    assert(json_trees(items@) =~= name_trees(names@));
    let value = array_value(items);
    proof {
        reveal_with_fuel(shallow, 3);
        assert(shallow(json_tree(value), 16));
    }
    value_to_text(&value)
}

} // verus!
