//! The configuration file's YAML document, as a tree of plain values.
//!
//! The YAML text itself is parsed by the strict-yaml-rust crate; its
//! document is carried over node for node into `YamlNode`, which the
//! verified configuration parser walks. A strict-YAML scalar is always a
//! string; maps keep their insertion order, and a map with a repeated key
//! does not load.

use vstd::prelude::*;
use crate::search::{spec_find_first, lemma_find_first_at, lemma_find_first_none};
use crate::text::str_eq;

verus! {

/// One node of a loaded YAML document.
#[derive(Debug)]
pub enum YamlNode {
    /// A scalar: in strict YAML every scalar is a string.
    Str(String),
    /// A sequence of nodes.
    Array(Vec<YamlNode>),
    /// A mapping, in document order, keys unrepeated.
    Mapping(Vec<YamlEntry>),
    /// A node the loader could not give a value.
    Bad,
}

/// One key-value entry of a YAML mapping.
#[derive(Debug)]
pub struct YamlEntry {
    pub key: YamlNode,
    pub value: YamlNode,
}

/// Declares strict-yaml-rust's node type so that the loader's result can
/// be carried over; the type stays opaque here.
#[verifier::external_type_specification]
#[verifier::external_body]
pub struct ExStrictYaml(strict_yaml_rust::StrictYaml);

/// Carries a loaded strict-yaml-rust node over into the crate's own node
/// tree, variant for variant; only the types change.
#[verifier::external_body]
fn yaml_node_of(node: &strict_yaml_rust::StrictYaml) -> YamlNode {
    match node {
        strict_yaml_rust::StrictYaml::String(s) => YamlNode::Str(s.clone()),
        strict_yaml_rust::StrictYaml::Array(items) => YamlNode::Array(
            items.iter().map(yaml_node_of).collect(),
        ),
        strict_yaml_rust::StrictYaml::Hash(entries) => YamlNode::Mapping(
            entries.iter().map(
                |(k, v)| YamlEntry { key: yaml_node_of(k), value: yaml_node_of(v) },
            ).collect(),
        ),
        strict_yaml_rust::StrictYaml::BadValue => YamlNode::Bad,
    }
}

/// The first document that the given YAML text loads to, or nothing when
/// the text does not parse or holds no document. The strict-YAML grammar
/// is a function of the text alone.
pub uninterp spec fn yaml_doc_of(text: Seq<char>) -> Option<YamlNode>;

/// Relies on StrictYamlLoader::load_from_str: what a YAML text parses to
/// depends on the text alone, and a scan error means no document.
#[verifier::external_body]
pub fn load_yaml_doc(text: &str) -> (r: Option<YamlNode>)
    ensures
        r == yaml_doc_of(text@),
{
    match strict_yaml_rust::StrictYamlLoader::load_from_str(text) {
        Ok(docs) => match docs.first() {
            Some(doc) => Some(yaml_node_of(doc)),
            None => None,
        },
        Err(_) => None,
    }
}

pub open spec fn key_pred(name: Seq<char>) -> spec_fn(YamlEntry) -> bool {
    |entry: YamlEntry|
        match entry.key {
            YamlNode::Str(s) => s@ == name,
            _ => false,
        }
}

/// The value under a string key in a mapping, if any: the value of the
/// first entry whose key is that string.
pub open spec fn spec_yaml_get(entries: Seq<YamlEntry>, name: Seq<char>) -> Option<YamlNode> {
    match spec_find_first(entries, key_pred(name)) {
        Some(i) => Some(entries[i].value),
        None => None,
    }
}

/// Look a string key up in a mapping's entries.
pub fn yaml_get<'a>(entries: &'a Vec<YamlEntry>, name: &str) -> (r: Option<&'a YamlNode>)
    ensures
        match spec_yaml_get(entries@, name@) {
            Some(v) => r matches Some(node) && *node == v,
            None => r is None,
        },
{
    let n = entries.len();
    let mut i: usize = 0;
    while i < n
        invariant
            0 <= i <= n,
            n == entries@.len(),
            forall|j: int| 0 <= j < i ==> !key_pred(name@)(#[trigger] entries@[j]),
        decreases n - i,
    {
        let matched = match &entries[i].key {
            YamlNode::Str(s) => str_eq(s.as_str(), name),
            _ => false,
        };
        if matched {
            proof {
                lemma_find_first_at(entries@, key_pred(name@), i as int);
            }
            return Some(&entries[i].value);
        }
        i = i + 1;
    }
    proof {
        lemma_find_first_none(entries@, key_pred(name@));
    }
    None
}

} // verus!
