//! YAML documents as plain values, and the lookups that `serde_yaml`'s
//! `Value` offers on them. Parsing the text, and printing a value the way
//! `serde_yaml`'s `Debug` does, are left to `serde_yaml`.

use vstd::prelude::*;
use serde_yaml::Value as SV;
use serde_yaml::value::{Tag, TaggedValue};

verus! {

/// A YAML value, as `serde_yaml::Value` holds it.
#[derive(Debug)]
pub enum YamlValue {
    Null,
    Bool(bool),
    /// A number, held as the text `serde_yaml` prints it as.
    Number(String),
    String(String),
    Sequence(Vec<YamlValue>),
    /// The entries of a mapping, in document order.
    Mapping(Vec<(YamlValue, YamlValue)>),
    /// A value with a `!tag`; the tag is held with its leading `!`.
    Tagged(String, Box<YamlValue>),
}

#[verifier::external_type_specification]
#[verifier::external_body]
pub struct ExSerdeYamlValue(serde_yaml::Value);

/// The value under any number of tags (`serde_yaml`'s `untag_ref`).
pub open spec fn untag(v: YamlValue) -> YamlValue
    decreases v,
{
    match v {
        YamlValue::Tagged(_, inner) => untag(*inner),
        _ => v,
    }
}

/// Every tag in `v` is non-empty, as in every value `serde_yaml` parses.
pub open spec fn tags_valid(v: YamlValue) -> bool
    decreases v,
{
    match v {
        YamlValue::Sequence(items) => forall|i: int|
            0 <= i < items@.len() ==> tags_valid(#[trigger] items@[i]),
        YamlValue::Mapping(entries) => forall|i: int|
            0 <= i < entries@.len() ==> tags_valid(#[trigger] entries@[i].0) && tags_valid(
                entries@[i].1,
            ),
        YamlValue::Tagged(tag, inner) => tag@.len() > 0 && tags_valid(*inner),
        _ => true,
    }
}

/// The first entry, at or after `i`, whose key is the plain string `key`.
pub open spec fn lookup_str_from(entries: Seq<(YamlValue, YamlValue)>, key: Seq<char>, i: int) -> Option<
    YamlValue,
>
    decreases entries.len() - i,
{
    if i < 0 || i >= entries.len() {
        None
    } else {
        match entries[i].0 {
            YamlValue::String(k) => if k@ == key {
                Some(entries[i].1)
            } else {
                lookup_str_from(entries, key, i + 1)
            },
            _ => lookup_str_from(entries, key, i + 1),
        }
    }
}

/// The first entry, at or after `i`, whose key is the boolean `key`.
pub open spec fn lookup_bool_from(entries: Seq<(YamlValue, YamlValue)>, key: bool, i: int) -> Option<
    YamlValue,
>
    decreases entries.len() - i,
{
    if i < 0 || i >= entries.len() {
        None
    } else {
        match entries[i].0 {
            YamlValue::Bool(k) => if k == key {
                Some(entries[i].1)
            } else {
                lookup_bool_from(entries, key, i + 1)
            },
            _ => lookup_bool_from(entries, key, i + 1),
        }
    }
}

/// `Value::get` with a string index: the entry under the string key `key`
/// when `v` is (a tagged) mapping.
pub open spec fn get_str(v: YamlValue, key: Seq<char>) -> Option<YamlValue> {
    match untag(v) {
        YamlValue::Mapping(entries) => lookup_str_from(entries@, key, 0),
        _ => None,
    }
}

/// `Value::get` with a boolean index.
pub open spec fn get_bool(v: YamlValue, key: bool) -> Option<YamlValue> {
    match untag(v) {
        YamlValue::Mapping(entries) => lookup_bool_from(entries@, key, 0),
        _ => None,
    }
}

/// `Value::as_str`.
pub open spec fn as_str(v: YamlValue) -> Option<Seq<char>> {
    match untag(v) {
        YamlValue::String(s) => Some(s@),
        _ => None,
    }
}

/// `Value::as_bool`.
pub open spec fn as_bool(v: YamlValue) -> Option<bool> {
    match untag(v) {
        YamlValue::Bool(b) => Some(b),
        _ => None,
    }
}

/// `Value::as_sequence`.
pub open spec fn as_sequence(v: YamlValue) -> Option<Seq<YamlValue>> {
    match untag(v) {
        YamlValue::Sequence(items) => Some(items@),
        _ => None,
    }
}

/// `Value::is_null`.
pub open spec fn is_null(v: YamlValue) -> bool {
    untag(v) is Null
}

/// Untagging keeps tags valid.
pub proof fn lemma_untag_valid(v: YamlValue)
    requires
        tags_valid(v),
    ensures
        tags_valid(untag(v)),
    decreases v,
{
    if let YamlValue::Tagged(_, inner) = v {
        lemma_untag_valid(*inner);
    }
}

/// A value found under a string key of a mapping with valid tags has valid
/// tags.
pub proof fn lemma_lookup_str_valid(entries: Seq<(YamlValue, YamlValue)>, key: Seq<char>, i: int)
    requires
        forall|k: int| 0 <= k < entries.len() ==> tags_valid(#[trigger] entries[k].1),
    ensures
        lookup_str_from(entries, key, i) matches Some(x) ==> tags_valid(x),
    decreases entries.len() - i,
{
    if 0 <= i < entries.len() {
        lemma_lookup_str_valid(entries, key, i + 1);
    }
}

/// A value found under a boolean key of a mapping with valid tags has valid
/// tags.
pub proof fn lemma_lookup_bool_valid(entries: Seq<(YamlValue, YamlValue)>, key: bool, i: int)
    requires
        forall|k: int| 0 <= k < entries.len() ==> tags_valid(#[trigger] entries[k].1),
    ensures
        lookup_bool_from(entries, key, i) matches Some(x) ==> tags_valid(x),
    decreases entries.len() - i,
{
    if 0 <= i < entries.len() {
        lemma_lookup_bool_valid(entries, key, i + 1);
    }
}

/// A value found by `get_bool` in a value with valid tags has valid tags.
pub proof fn lemma_get_bool_valid(v: YamlValue, key: bool)
    requires
        tags_valid(v),
    ensures
        get_bool(v, key) matches Some(x) ==> tags_valid(x),
{
    lemma_untag_valid(v);
    if let YamlValue::Mapping(entries) = untag(v) {
        assert forall|k: int| 0 <= k < entries@.len() implies tags_valid(#[trigger] entries@[k].1) by {
            assert(tags_valid(entries@[k].0) && tags_valid(entries@[k].1));
        }
        lemma_lookup_bool_valid(entries@, key, 0);
    }
}

/// A value found by `get_str` in a value with valid tags has valid tags.
pub proof fn lemma_get_str_valid(v: YamlValue, key: Seq<char>)
    requires
        tags_valid(v),
    ensures
        get_str(v, key) matches Some(x) ==> tags_valid(x),
{
    lemma_untag_valid(v);
    if let YamlValue::Mapping(entries) = untag(v) {
        assert forall|k: int| 0 <= k < entries@.len() implies tags_valid(#[trigger] entries@[k].1) by {
            assert(tags_valid(entries@[k].0) && tags_valid(entries@[k].1));
        }
        lemma_lookup_str_valid(entries@, key, 0);
    }
}

/// The value under any number of tags.
pub fn untag_ref(v: &YamlValue) -> (r: &YamlValue)
    ensures
        *r == untag(*v),
    decreases v,
{
    match v {
        YamlValue::Tagged(_, inner) => untag_ref(inner),
        _ => v,
    }
}

/// The entry under the plain string key `key` among `entries`.
pub fn lookup_str<'a>(entries: &'a Vec<(YamlValue, YamlValue)>, key: &str) -> (r: Option<&'a YamlValue>)
    ensures
        match r {
            Some(x) => lookup_str_from(entries@, key@, 0) == Some(*x),
            None => lookup_str_from(entries@, key@, 0) is None,
        },
{
    let mut i: usize = 0;
    while i < entries.len()
        invariant
            i <= entries@.len(),
            lookup_str_from(entries@, key@, 0) == lookup_str_from(entries@, key@, i as int),
        decreases entries@.len() - i,
    {
        if let YamlValue::String(k) = &entries[i].0 {
            if k.as_str().to_owned() == key.to_owned() {
                return Some(&entries[i].1);
            }
        }
        i = i + 1;
    }
    None
}

/// The entry under the boolean key `key` among `entries`.
pub fn lookup_bool<'a>(entries: &'a Vec<(YamlValue, YamlValue)>, key: bool) -> (r: Option<&'a YamlValue>)
    ensures
        match r {
            Some(x) => lookup_bool_from(entries@, key, 0) == Some(*x),
            None => lookup_bool_from(entries@, key, 0) is None,
        },
{
    let mut i: usize = 0;
    while i < entries.len()
        invariant
            i <= entries@.len(),
            lookup_bool_from(entries@, key, 0) == lookup_bool_from(entries@, key, i as int),
        decreases entries@.len() - i,
    {
        if let YamlValue::Bool(k) = &entries[i].0 {
            if *k == key {
                return Some(&entries[i].1);
            }
        }
        i = i + 1;
    }
    None
}

impl YamlValue {
    /// `Value::get` with a string index.
    pub fn get(&self, key: &str) -> (r: Option<&YamlValue>)
        ensures
            match r {
                Some(x) => get_str(*self, key@) == Some(*x),
                None => get_str(*self, key@) is None,
            },
    {
        match untag_ref(self) {
            YamlValue::Mapping(entries) => lookup_str(entries, key),
            _ => None,
        }
    }

    /// `Value::get` with a boolean index.
    pub fn get_bool(&self, key: bool) -> (r: Option<&YamlValue>)
        ensures
            match r {
                Some(x) => get_bool(*self, key) == Some(*x),
                None => get_bool(*self, key) is None,
            },
    {
        match untag_ref(self) {
            YamlValue::Mapping(entries) => lookup_bool(entries, key),
            _ => None,
        }
    }

    /// `Value::as_str`.
    pub fn as_str(&self) -> (r: Option<&str>)
        ensures
            match r {
                Some(s) => as_str(*self) == Some(s@),
                None => as_str(*self) is None,
            },
    {
        match untag_ref(self) {
            YamlValue::String(s) => Some(s.as_str()),
            _ => None,
        }
    }

    /// `Value::as_bool`.
    pub fn as_bool(&self) -> (r: Option<bool>)
        ensures
            r == as_bool(*self),
    {
        match untag_ref(self) {
            YamlValue::Bool(b) => Some(*b),
            _ => None,
        }
    }

    /// `Value::as_sequence`.
    pub fn as_sequence(&self) -> (r: Option<&Vec<YamlValue>>)
        ensures
            match r {
                Some(items) => as_sequence(*self) == Some(items@),
                None => as_sequence(*self) is None,
            },
    {
        match untag_ref(self) {
            YamlValue::Sequence(items) => Some(items),
            _ => None,
        }
    }

    /// `Value::is_null`.
    pub fn is_null(&self) -> (r: bool)
        ensures
            r == is_null(*self),
    {
        match untag_ref(self) {
            YamlValue::Null => true,
            _ => false,
        }
    }
}

/// What `serde_yaml::from_str::<Value>` gives for a text: the document, or
/// the text of the error.
pub uninterp spec fn yaml_parse(text: Seq<char>) -> Result<YamlValue, Seq<char>>;

/// What `serde_yaml` prints for a value with `{:?}`.
pub uninterp spec fn yaml_debug(v: YamlValue) -> Seq<char>;

/// Turns a `serde_yaml::Value` into a [`YamlValue`], variant by variant:
/// a number becomes its printed text, a tag its printed text (`!name`).
#[verifier::external_body]
fn yaml_from_serde(v: SV) -> YamlValue {
    match v {
        SV::Null => YamlValue::Null,
        SV::Bool(b) => YamlValue::Bool(b),
        SV::Number(n) => YamlValue::Number(n.to_string()),
        SV::String(s) => YamlValue::String(s),
        SV::Sequence(s) => YamlValue::Sequence(s.into_iter().map(yaml_from_serde).collect()),
        SV::Mapping(m) => YamlValue::Mapping(m.into_iter().map(|(k, v)| (yaml_from_serde(k), yaml_from_serde(v))).collect()),
        SV::Tagged(t) => YamlValue::Tagged(t.tag.to_string(), Box::new(yaml_from_serde(t.value))),
    }
}

/// Turns a [`YamlValue`] back into a `serde_yaml::Value`, variant by
/// variant: a number is read back from its text, a tag from its text.
/// `Tag::new` panics on an empty tag, hence the requirement.
#[verifier::external_body]
fn yaml_to_serde(v: &YamlValue) -> SV
    requires
        tags_valid(*v),
{
    match v {
        YamlValue::Null => SV::Null,
        YamlValue::Bool(b) => SV::Bool(*b),
        YamlValue::Number(n) => n.parse().map(SV::Number).unwrap_or(SV::Null),
        YamlValue::String(s) => SV::String(s.clone()),
        YamlValue::Sequence(s) => SV::Sequence(s.iter().map(yaml_to_serde).collect()),
        YamlValue::Mapping(m) => SV::Mapping(m.iter().map(|(k, v)| (yaml_to_serde(k), yaml_to_serde(v))).collect()),
        YamlValue::Tagged(t, inner) => SV::Tagged(Box::new(TaggedValue { tag: Tag::new(t.clone()), value: yaml_to_serde(inner) })),
    }
}

/// Calls `serde_yaml::from_str::<serde_yaml::Value>` and turns the value
/// into a [`YamlValue`] or the error into its text. The contract names the
/// outcome ([`yaml_parse`]), and states that every tag of a parsed value is
/// non-empty: `serde_yaml` prints a tag with a leading `!`.
#[verifier::external_body]
pub(crate) fn parse_yaml(text: &str) -> (r: Result<YamlValue, String>)
    ensures
        match r {
            Ok(v) => yaml_parse(text@) == Ok::<YamlValue, Seq<char>>(v) && tags_valid(v),
            Err(e) => yaml_parse(text@) == Err::<YamlValue, Seq<char>>(e@),
        },
{
    match serde_yaml::from_str::<serde_yaml::Value>(text) {
        Ok(v) => Ok(yaml_from_serde(v)),
        Err(e) => Err(e.to_string()),
    }
}

/// Formats a value with `serde_yaml`'s `Debug` (`format!("{:?}", ..)`) after
/// turning it back into a `serde_yaml::Value`. `Tag::new` panics on an empty
/// tag, hence the requirement.
#[verifier::external_body]
pub(crate) fn yaml_debug_text(v: &YamlValue) -> (r: String)
    requires
        tags_valid(*v),
    ensures
        r@ == yaml_debug(*v),
{
    format!("{:?}", yaml_to_serde(v))
}

} // verus!
