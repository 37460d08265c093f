//! JSON values as `serde_json` holds them, and the tree that each of them stands for.

use vstd::prelude::*;

verus! {

/// What a JSON value holds.
pub enum JsonTree {
    Null,
    Bool(bool),
    /// A number, by the text that it is written as.
    Number(Seq<char>),
    Text(Seq<char>),
    Array(Seq<JsonTree>),
    Object(Map<Seq<char>, JsonTree>),
}

impl JsonTree {
    /// The member `key` of an object, if there is one.
    pub open spec fn member(self, key: Seq<char>) -> Option<JsonTree> {
        match self {
            JsonTree::Object(members) => if members.contains_key(key) {
                Some(members[key])
            } else {
                None
            },
            _ => None,
        }
    }

    /// The characters of a string.
    pub open spec fn text(self) -> Option<Seq<char>> {
        match self {
            JsonTree::Text(chars) => Some(chars),
            _ => None,
        }
    }

    /// The characters of the member `key`, if there is one and it is a string.
    pub open spec fn text_member(self, key: Seq<char>) -> Option<Seq<char>> {
        match self.member(key) {
            Some(tree) => tree.text(),
            None => None,
        }
    }

    /// Null, a boolean or a string.
    pub open spec fn is_plain(self) -> bool {
        self is Null || self is Bool || self is Text
    }

    /// An object in which every member is null, a boolean or a string and no key is reserved.
    pub open spec fn is_flat(self) -> bool {
        self matches JsonTree::Object(members) && forall|key: Seq<char>| #[trigger]
            members.contains_key(key) ==> members[key].is_plain() && !is_reserved(key)
    }
}

/// The keys that `serde_json`, depending on its features, reads as a mark of something other than
/// an object: of raw JSON text, and of a number of any precision.
pub open spec fn is_reserved(key: Seq<char>) -> bool {
    key == "$serde_json::private::RawValue"@ || key == "$serde_json::private::Number"@
}

/// `serde_json::Value`, of which Verus sees nothing but `json_tree`.
#[verifier::external_type_specification]
#[verifier::external_body]
pub struct ExValue(serde_json::Value);

/// `serde_json::Map`, of which Verus sees nothing but `json_members`.
#[verifier::external_type_specification]
#[verifier::external_body]
#[verifier::reject_recursive_types(K)]
#[verifier::reject_recursive_types(V)]
pub struct ExMap<K, V>(serde_json::Map<K, V>);

/// `serde_json::Error`, which is carried and never looked into.
#[verifier::external_type_specification]
#[verifier::external_body]
pub struct ExError(serde_json::Error);

/// What a `serde_json::Value` holds.
pub uninterp spec fn json_tree(value: serde_json::Value) -> JsonTree;

/// What a `serde_json::Map` holds: the tree of each member under its key.
pub uninterp spec fn json_members(
    object: serde_json::Map<String, serde_json::Value>,
) -> Map<Seq<char>, JsonTree>;

/// What `serde_json::from_str` makes of a text: the tree of the value, or nothing where the text
/// is refused.
pub uninterp spec fn json_parse(text: Seq<char>) -> Option<JsonTree>;

/// The compact text that `serde_json` writes for a value with that tree.
pub uninterp spec fn json_text(tree: JsonTree) -> Seq<char>;

/// `serde_json::Value::String`: a string with the characters of `text`.
#[verifier::external_body]
pub(crate) fn json_string(text: &str) -> (r: serde_json::Value)
    ensures
        json_tree(r) == JsonTree::Text(text@),
{
    serde_json::Value::String(text.to_string())
}

/// `serde_json::Value::Bool`: the boolean `b`.
#[verifier::external_body]
pub(crate) fn json_bool(b: bool) -> (r: serde_json::Value)
    ensures
        json_tree(r) == JsonTree::Bool(b),
{
    serde_json::Value::Bool(b)
}

/// `serde_json::Value::Null`.
#[verifier::external_body]
pub(crate) fn json_null() -> (r: serde_json::Value)
    ensures
        json_tree(r) == JsonTree::Null,
{
    serde_json::Value::Null
}

/// `serde_json::Value::Array`: the array of `items`, in their order.
#[verifier::external_body]
pub(crate) fn json_array(items: Vec<serde_json::Value>) -> (r: serde_json::Value)
    ensures
        json_tree(r) == JsonTree::Array(items@.map_values(|v: serde_json::Value| json_tree(v))),
{
    serde_json::Value::Array(items)
}

/// `serde_json::Value::Object`: the object with the members of `object`.
#[verifier::external_body]
pub(crate) fn json_object(
    object: serde_json::Map<String, serde_json::Value>,
) -> (r: serde_json::Value)
    ensures
        json_tree(r) == JsonTree::Object(json_members(object)),
{
    serde_json::Value::Object(object)
}

/// `serde_json::Map::new`: no member.
#[verifier::external_body]
pub(crate) fn json_no_members() -> (r: serde_json::Map<String, serde_json::Value>)
    ensures
        json_members(r) =~= map![],
{
    serde_json::Map::new()
}

/// `serde_json::Map::insert`: afterwards `key` has `value`, and every other member is as before.
/// The earlier value of `key`, if there was one, is given back.
#[verifier::external_body]
pub(crate) fn json_insert(
    object: &mut serde_json::Map<String, serde_json::Value>,
    key: &str,
    value: serde_json::Value,
) -> (r: Option<serde_json::Value>)
    ensures
        json_members(*final(object)) == json_members(*old(object)).insert(key@, json_tree(value)),
        r is Some <==> json_members(*old(object)).contains_key(key@),
        r matches Some(before) ==> json_tree(before) == json_members(*old(object))[key@],
{
    object.insert(key.to_string(), value)
}

/// `serde_json::Value::get` with a string index: the member `key`, where `value` is an object that
/// has one.
#[verifier::external_body]
pub(crate) fn json_get<'a>(
    value: &'a serde_json::Value,
    key: &str,
) -> (r: Option<&'a serde_json::Value>)
    ensures
        (match r {
            Some(found) => json_tree(*value).member(key@) == Some(json_tree(*found)),
            None => json_tree(*value).member(key@) is None,
        }),
{
    value.get(key)
}

/// `serde_json::Value::as_str`: the characters, where `value` is a string.
#[verifier::external_body]
pub(crate) fn json_as_str(value: &serde_json::Value) -> (r: Option<&str>)
    ensures
        (match r {
            Some(chars) => json_tree(*value).text() == Some(chars@),
            None => json_tree(*value).text() is None,
        }),
{
    value.as_str()
}

/// `serde_json::from_str` into a `Value`. Whether it succeeds, and the tree of what it reads, follow
/// from the text alone.
#[verifier::external_body]
pub(crate) fn json_from_str(text: &str) -> (r: Result<serde_json::Value, serde_json::Error>)
    ensures
        (match r {
            Ok(value) => json_parse(text@) == Some(json_tree(value)),
            Err(_) => json_parse(text@) is None,
        }),
{
    serde_json::from_str(text)
}

/// `serde_json::Value::to_string`: the compact text of a flat object. It follows from the tree alone
/// because members are written in the order of their keys, and `serde_json::from_str` reads the
/// same tree from it. That would not hold of an object with a reserved key, which `from_str` may
/// read as something else; a flat object has none.
#[verifier::external_body]
pub(crate) fn json_to_string(value: &serde_json::Value) -> (r: String)
    requires
        json_tree(*value).is_flat(),
    ensures
        r@ == json_text(json_tree(*value)),
        json_parse(r@) == Some(json_tree(*value)),
{
    value.to_string()
}

} // verus!
