//! The boundary to the reader of intermediate documents: YAML values of
//! the yaml-rust crate. The type is declared here, what its accessors
//! answer is given names, and every call into the crate goes through one of
//! the functions below, whose contracts are taken on trust.

use vstd::prelude::*;

verus! {

/// `yaml_rust::Yaml`, a YAML value. What its accessors answer is named
/// below; nothing else is known of it.
#[verifier::external_type_specification]
#[verifier::external_body]
pub struct ExYaml(yaml_rust::Yaml);

/// The documents that a text holds, where it is well-formed YAML: what
/// `YamlLoader::load_from_str` answers.
pub uninterp spec fn yaml_documents(text: Seq<char>) -> Option<Seq<yaml_rust::Yaml>>;

/// What a value answers when indexed by a key: the entry of a table under
/// that key, and the bad value for a missing key or for what is no table.
pub uninterp spec fn yaml_entry(value: yaml_rust::Yaml, key: Seq<char>) -> yaml_rust::Yaml;

/// The text of a value that is a string: what `Yaml::as_str` answers.
pub uninterp spec fn yaml_text(value: yaml_rust::Yaml) -> Option<Seq<char>>;

/// The number of a value that is an integer: what `Yaml::as_i64` answers.
pub uninterp spec fn yaml_integer(value: yaml_rust::Yaml) -> Option<i64>;

/// The items of a value that is a list: what `Yaml::as_vec` answers.
pub uninterp spec fn yaml_items(value: yaml_rust::Yaml) -> Option<Seq<yaml_rust::Yaml>>;

/// No two of the keys are the same.
pub open spec fn distinct_keys(entries: Seq<(String, yaml_rust::Yaml)>) -> bool {
    forall|i: int, j: int|
        0 <= i < j < entries.len() ==> (#[trigger] entries[i]).0@ != (#[trigger] entries[j]).0@
}

/// Reads the documents of a YAML text with `YamlLoader::load_from_str`;
/// `None` stands for the scanner's error. The contract only names the
/// result. The loader descends once for each level of nested block
/// collections, so the depth it can read is bounded by the stack.
#[verifier::external_body]
pub(crate) fn load_documents(text: &str) -> (documents: Option<Vec<yaml_rust::Yaml>>)
    ensures
        match documents {
            Some(found) => yaml_documents(text@) == Some(found@),
            None => yaml_documents(text@) is None,
        },
{
    yaml_rust::YamlLoader::load_from_str(text).ok()
}

/// The entry of a value under a key, from the crate's `Index<&str>` for
/// `Yaml`; the contract only names the result.
#[verifier::external_body]
pub(crate) fn yaml_get<'a>(value: &'a yaml_rust::Yaml, key: &str) -> (entry: &'a yaml_rust::Yaml)
    ensures
        *entry == yaml_entry(*value, key@),
{
    &value[key]
}

/// The text of a string value, from `Yaml::as_str`; the contract only
/// names the result.
#[verifier::external_body]
pub(crate) fn yaml_as_str<'a>(value: &'a yaml_rust::Yaml) -> (text: Option<&'a str>)
    ensures
        match text {
            Some(t) => yaml_text(*value) == Some(t@),
            None => yaml_text(*value) is None,
        },
{
    value.as_str()
}

/// The number of an integer value, from `Yaml::as_i64`; the contract only
/// names the result.
#[verifier::external_body]
pub(crate) fn yaml_as_i64(value: &yaml_rust::Yaml) -> (number: Option<i64>)
    ensures
        number == yaml_integer(*value),
{
    value.as_i64()
}

/// The items of a list value, from `Yaml::as_vec`; the contract only names
/// the result.
#[verifier::external_body]
pub(crate) fn yaml_as_vec<'a>(value: &'a yaml_rust::Yaml) -> (items: Option<
    &'a Vec<yaml_rust::Yaml>,
>)
    ensures
        match items {
            Some(found) => yaml_items(*value) == Some(found@),
            None => yaml_items(*value) is None,
        },
{
    value.as_vec()
}

/// A string value, built with the variant `Yaml::String`: `as_str` gives
/// its text back.
#[verifier::external_body]
pub(crate) fn yaml_from_text(text: &str) -> (value: yaml_rust::Yaml)
    ensures
        yaml_text(value) == Some(text@),
{
    yaml_rust::Yaml::String(text.to_string())
}

/// An integer value, built with the variant `Yaml::Integer`: `as_i64` gives
/// its number back.
#[verifier::external_body]
pub(crate) fn yaml_from_integer(number: i64) -> (value: yaml_rust::Yaml)
    ensures
        yaml_integer(value) == Some(number),
{
    yaml_rust::Yaml::Integer(number)
}

/// A list value, built with the variant `Yaml::Array`: `as_vec` gives its
/// items back.
#[verifier::external_body]
pub(crate) fn yaml_from_items(items: Vec<yaml_rust::Yaml>) -> (value: yaml_rust::Yaml)
    ensures
        yaml_items(value) == Some(items@),
{
    yaml_rust::Yaml::Array(items)
}

/// A table value, built with the variant `Yaml::Hash` from entries with
/// string keys, inserted in order: indexing by one of the keys gives the
/// value that was entered under it.
#[verifier::external_body]
pub(crate) fn yaml_from_entries(entries: Vec<(String, yaml_rust::Yaml)>) -> (value:
    yaml_rust::Yaml)
    requires
        distinct_keys(entries@),
    ensures
        forall|i: int|
            0 <= i < entries@.len() ==> yaml_entry(value, (#[trigger] entries@[i]).0@)
                == entries@[i].1,
{
    let keyed = entries.into_iter().map(|(key, entry)| (yaml_rust::Yaml::String(key), entry));
    yaml_rust::Yaml::Hash(keyed.collect())
}

} // verus!
