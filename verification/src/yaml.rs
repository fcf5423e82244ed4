use vstd::prelude::*;

use crate::error::ConfigError;

verus! {

/// A parsed YAML document, reduced to the shapes the configuration schema
/// reads: null, booleans, unsigned integers, strings, sequences, and
/// mappings with string keys in document order.
///
/// Values the schema has no use for (floats, negative integers, tagged
/// values, mappings with a non-string key) are collapsed into `Other`; a
/// required field of that shape is a schema violation, while an ignored
/// extra field may hold anything.
#[derive(Debug)]
pub enum Yaml {
    Null,
    Bool(bool),
    UInt(u64),
    Str(String),
    List(Vec<Yaml>),
    Mapping(Vec<(String, Yaml)>),
    Other,
}

/// The first value stored under `k` among the entries `es`, if any.
pub open spec fn lookup_key(es: Seq<(String, Yaml)>, k: Seq<char>) -> Option<Yaml>
    decreases es.len(),
{
    if es.len() == 0 {
        None
    } else if es[0].0@ == k {
        Some(es[0].1)
    } else {
        lookup_key(es.drop_first(), k)
    }
}

/// The value stored under `k` in the mapping `y`; `None` when `y` is not a
/// mapping or has no entry with that key.
pub open spec fn field(y: Yaml, k: Seq<char>) -> Option<Yaml> {
    if y is Mapping {
        lookup_key(y->Mapping_0@, k)
    } else {
        None
    }
}

/// Relies on `str`'s `==`: true exactly when the two strings consist of
/// the same characters.
#[verifier::external_body]
pub(crate) fn str_eq(a: &str, b: &str) -> (r: bool)
    ensures
        r == (a@ == b@),
{
    a == b
}

/// Find the first entry with the given key in a mapping's entries.
pub fn lookup<'a>(es: &'a Vec<(String, Yaml)>, key: &str) -> (r: Option<&'a Yaml>)
    ensures
        match r {
            Some(v) => lookup_key(es@, key@) == Some(*v),
            None => lookup_key(es@, key@) is None,
        },
{
    let mut i: usize = 0;
    proof {
        assert(es@.skip(0) =~= es@);
    }
    while i < es.len()
        invariant
            i <= es@.len(),
            lookup_key(es@, key@) == lookup_key(es@.skip(i as int), key@),
        decreases es@.len() - i,
    {
        proof {
            assert(es@.skip(i as int)[0] == es@[i as int]);
            assert(es@.skip(i as int).drop_first() =~= es@.skip(i as int + 1));
        }
        if str_eq(es[i].0.as_str(), key) {
            return Some(&es[i].1);
        }
        i += 1;
    }
    None
}

#[verifier::external_type_specification]
#[verifier::external_body]
pub struct ExValue(serde_yaml::Value);

#[verifier::external_type_specification]
#[verifier::external_body]
pub struct ExNumber(serde_yaml::Number);

/// The document tree that YAML text denotes: `Some` exactly when the text
/// is a single well-formed YAML document, and then the parsed tree with
/// every value reshaped as a `Yaml` node. Parsing depends on the text
/// alone, so this is a function of the characters.
pub uninterp spec fn raw_doc_of(s: Seq<char>) -> Option<Yaml>;

/// Relies on matching the variants of `serde_yaml::Value`: each arm only
/// moves the variant's payload across. `serde_yaml::Mapping`'s `into_iter`
/// hands a mapping out as its entries in document order, and
/// `serde_yaml::Number::as_u64` is `Some` exactly when the number is an
/// unsigned integer that fits in 64 bits; numbers of any other shape, tagged
/// values, and mappings with a non-string key become `Other`.
#[verifier::external_body]
fn reshape(v: serde_yaml::Value) -> (r: Yaml) {
    match v {
        serde_yaml::Value::Null => Yaml::Null,
        serde_yaml::Value::Bool(b) => Yaml::Bool(b),
        serde_yaml::Value::Number(n) => n.as_u64().map_or(Yaml::Other, Yaml::UInt),
        serde_yaml::Value::String(s) => Yaml::Str(s),
        serde_yaml::Value::Sequence(vs) => Yaml::List(vs.into_iter().map(reshape).collect()),
        serde_yaml::Value::Mapping(m) => m.into_iter()
            .map(|(k, c)| match k {
                serde_yaml::Value::String(key) => Some((key, reshape(c))),
                _ => None,
            })
            .collect::<Option<Vec<(String, Yaml)>>>().map_or(Yaml::Other, Yaml::Mapping),
        serde_yaml::Value::Tagged(_) => Yaml::Other,
    }
}

/// Relies on `serde_yaml::from_str`: it parses YAML text by the text alone,
/// `Err` exactly when the text is not a single well-formed YAML document;
/// the parsed tree, reshaped node by node, is the document the text denotes.
#[verifier::external_body]
fn parse_text(text: &str) -> (r: Option<Yaml>)
    ensures
        r == raw_doc_of(text@),
{
    match serde_yaml::from_str::<serde_yaml::Value>(text) {
        Ok(v) => Some(reshape(v)),
        Err(_) => None,
    }
}

/// Parse YAML text into the library's document tree.
///
/// Returns the document the text denotes, and the parse failure exactly
/// when the text is not a single well-formed YAML document.
pub fn parse_document(text: &str) -> (r: Result<Yaml, ConfigError>)
    ensures
        r == (match raw_doc_of(text@) {
            Some(d) => Ok::<Yaml, ConfigError>(d),
            None => Err::<Yaml, ConfigError>(ConfigError::Parse),
        }),
{
    match parse_text(text) {
        Some(d) => Ok(d),
        None => Err(ConfigError::Parse),
    }
}

} // verus!
