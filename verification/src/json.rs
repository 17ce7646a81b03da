//! JSON documents as trees, and their text.

use vstd::prelude::*;

verus! {

/// A JSON document. Numbers are whole numbers that fit 64 signed bits; any
/// other number is kept as `OtherNumber`, without its value. An object keeps
/// its members in order.
#[derive(Debug)]
pub enum JsonValue {
    Null,
    Bool(bool),
    Int(i64),
    OtherNumber,
    Text(String),
    List(Vec<JsonValue>),
    Object(Vec<(String, JsonValue)>),
}

/// The mathematical reading of a [`JsonValue`].
pub enum JsonTree {
    Null,
    Bool(bool),
    Int(i64),
    OtherNumber,
    Text(Seq<char>),
    List(Seq<JsonTree>),
    Object(Seq<(Seq<char>, JsonTree)>),
}

/// The tree that a document stands for.
pub open spec fn tree_of(value: JsonValue) -> JsonTree
    decreases value,
{
    match value {
        JsonValue::Null => JsonTree::Null,
        JsonValue::Bool(b) => JsonTree::Bool(b),
        JsonValue::Int(i) => JsonTree::Int(i),
        JsonValue::OtherNumber => JsonTree::OtherNumber,
        JsonValue::Text(t) => JsonTree::Text(t@),
        JsonValue::List(items) => JsonTree::List(
            Seq::new(
                items@.len(),
                |i: int|
                    if 0 <= i < items@.len() {
                        tree_of(items@[i])
                    } else {
                        JsonTree::Null
                    },
            ),
        ),
        JsonValue::Object(members) => JsonTree::Object(
            Seq::new(
                members@.len(),
                |i: int|
                    if 0 <= i < members@.len() {
                        (members@[i].0@, tree_of(members@[i].1))
                    } else {
                        (Seq::empty(), JsonTree::Null)
                    },
            ),
        ),
    }
}

/// The members of an object as contracts see them.
pub open spec fn members_of(members: Seq<(String, JsonValue)>) -> Seq<(Seq<char>, JsonTree)> {
    Seq::new(members.len(), |i: int| (members[i].0@, tree_of(members[i].1)))
}

/// The items of a list as contracts see them.
pub open spec fn items_of(items: Seq<JsonValue>) -> Seq<JsonTree> {
    Seq::new(items.len(), |i: int| tree_of(items[i]))
}

/// An object stands for its members, a list for its items.
pub proof fn lemma_tree_of_parts(value: JsonValue)
    ensures
        value matches JsonValue::Object(members) ==> tree_of(value) == JsonTree::Object(
            members_of(members@),
        ),
        value matches JsonValue::List(items) ==> tree_of(value) == JsonTree::List(items_of(items@)),
{
    match value {
        JsonValue::Object(members) => {
            assert(tree_of(value)->Object_0 =~= members_of(members@));
        },
        JsonValue::List(items) => {
            assert(tree_of(value)->List_0 =~= items_of(items@));
        },
        _ => {},
    }
}

/// The first member of that name, if there is one.
pub open spec fn member(members: Seq<(Seq<char>, JsonTree)>, name: Seq<char>) -> Option<JsonTree>
    decreases members.len(),
{
    if members.len() == 0 {
        None
    } else if members[0].0 == name {
        Some(members[0].1)
    } else {
        member(members.drop_first(), name)
    }
}

impl View for JsonValue {
    type V = JsonTree;

    open spec fn view(&self) -> JsonTree {
        tree_of(*self)
    }
}

/// What `serde_json::from_str` makes of a text: the document it reads, or
/// nothing where the text is not one JSON document.
pub uninterp spec fn json_parse(text: Seq<char>) -> Option<JsonTree>;

/// The compact text that `serde_json::to_string` prints for a document.
pub uninterp spec fn json_text(tree: JsonTree) -> Seq<char>;

/// A document of `serde_json`. Nothing inside it is visible here: it only
/// passes between the two conversions below and the crate's reader and
/// printer.
#[verifier::external_type_specification]
#[verifier::external_body]
pub struct ExValue(serde_json::Value);

impl JsonValue {
    /// An object with the given members.
    pub fn object(members: Vec<(String, JsonValue)>) -> (r: JsonValue)
        ensures
            r@ == JsonTree::Object(members_of(members@)),
    {
        let r = JsonValue::Object(members);
        proof {
            lemma_tree_of_parts(r);
        }
        r
    }

    /// A list with the given items.
    pub fn list(items: Vec<JsonValue>) -> (r: JsonValue)
        ensures
            r@ == JsonTree::List(items_of(items@)),
    {
        let r = JsonValue::List(items);
        proof {
            lemma_tree_of_parts(r);
        }
        r
    }

    /// A text.
    pub fn text(text: String) -> (r: JsonValue)
        ensures
            r@ == JsonTree::Text(text@),
    {
        JsonValue::Text(text)
    }

    /// The members of the document, if it is an object.
    pub fn as_object(&self) -> (r: Option<&Vec<(String, JsonValue)>>)
        ensures
            match r {
                Some(members) => self@ == JsonTree::Object(members_of(members@)),
                None => !(self@ is Object),
            },
    {
        proof {
            lemma_tree_of_parts(*self);
        }
        match self {
            JsonValue::Object(members) => Some(members),
            _ => None,
        }
    }

    /// The items of the document, if it is a list.
    pub fn as_list(&self) -> (r: Option<&Vec<JsonValue>>)
        ensures
            match r {
                Some(items) => self@ == JsonTree::List(items_of(items@)),
                None => !(self@ is List),
            },
    {
        proof {
            lemma_tree_of_parts(*self);
        }
        match self {
            JsonValue::List(items) => Some(items),
            _ => None,
        }
    }

    /// The first member of that name among `members`, if there is one.
    pub fn find<'a>(members: &'a Vec<(String, JsonValue)>, name: &str) -> (r: Option<&'a JsonValue>)
        ensures
            match r {
                Some(v) => member(members_of(members@), name@) == Some(v@),
                None => member(members_of(members@), name@) is None,
            },
    {
        let key = crate::text::owned(name);
        let ghost all = members_of(members@);
        let mut i: usize = 0;
        assert(all.skip(0) =~= all);
        while i < members.len()
            invariant
                i <= members.len(),
                key@ == name@,
                all == members_of(members@),
                member(all, name@) == member(all.skip(i as int), name@),
            decreases members.len() - i,
        {
            proof {
                assert(all.skip(i as int)[0] == all[i as int]);
                assert(all.skip(i as int).drop_first() =~= all.skip(i + 1));
            }
            if members[i].0 == key {
                return Some(&members[i].1);
            }
            i += 1;
        }
        None
    }

    /// Reads one JSON document from a text.
    pub fn parse(text: &str) -> (r: Option<JsonValue>)
        ensures
            r matches Some(v) ==> json_parse(text@) == Some(v@),
            r is None ==> json_parse(text@) is None,
    {
        read_json(text)
    }

    /// The compact text of the document.
    pub fn to_text(&self) -> (r: String)
        ensures
            r@ == json_text(self@),
    {
        print_json(self)
    }
}

/// Calls `serde_json::from_str` for a `serde_json::Value` and converts what
/// it reads, node by node. Claims only that the outcome is the one named by
/// `json_parse`.
#[verifier::external_body]
fn read_json(text: &str) -> (r: Option<JsonValue>)
    ensures
        r matches Some(v) ==> json_parse(text@) == Some(v@),
        r is None ==> json_parse(text@) is None,
{
    match serde_json::from_str::<serde_json::Value>(text) {
        Ok(value) => Some(import_value(value)),
        Err(_) => None,
    }
}

/// Converts the document and calls `serde_json::to_string` on it. Claims
/// only that the text is the one named by `json_text`.
#[verifier::external_body]
fn print_json(value: &JsonValue) -> (r: String)
    ensures
        r@ == json_text(value@),
{
    serde_json::to_string(&export_value(value)).unwrap_or_default()
}

/// Converts a `serde_json::Value` node by node. A number that
/// `serde_json::Number::as_i64` does not give becomes `OtherNumber`.
#[verifier::external_body]
fn import_value(value: serde_json::Value) -> (r: JsonValue) {
    match value {
        serde_json::Value::Null => JsonValue::Null,
        serde_json::Value::Bool(b) => JsonValue::Bool(b),
        serde_json::Value::Number(n) => match n.as_i64() {
            Some(i) => JsonValue::Int(i),
            None => JsonValue::OtherNumber,
        },
        serde_json::Value::String(t) => JsonValue::Text(t),
        serde_json::Value::Array(items) => JsonValue::List(
            items.into_iter().map(import_value).collect(),
        ),
        serde_json::Value::Object(members) => JsonValue::Object(
            members.into_iter().map(|(k, v)| (k, import_value(v))).collect(),
        ),
    }
}

/// Converts a document to a `serde_json::Value` node by node. `OtherNumber`,
/// which holds no value, becomes `null`.
#[verifier::external_body]
fn export_value(value: &JsonValue) -> (r: serde_json::Value) {
    match value {
        JsonValue::Null | JsonValue::OtherNumber => serde_json::Value::Null,
        JsonValue::Bool(b) => serde_json::Value::Bool(*b),
        JsonValue::Int(i) => serde_json::Value::from(*i),
        JsonValue::Text(t) => serde_json::Value::String(t.clone()),
        JsonValue::List(items) => serde_json::Value::Array(items.iter().map(export_value).collect()),
        JsonValue::Object(members) => serde_json::Value::Object(
            members.iter().map(|(k, v)| (k.clone(), export_value(v))).collect(),
        ),
    }
}

} // verus!
