use vstd::prelude::*;
use yaml_rust::{Yaml, YamlLoader};
use crate::error::Error;

verus! {

#[verifier::external_type_specification]
#[verifier::external_body]
pub struct ExYaml(Yaml);

/// The number of YAML documents in a text, or nothing when the text is not YAML.
pub uninterp spec fn yaml_document_count(text: Seq<char>) -> Option<nat>;

/// Relies on yaml_rust::YamlLoader::load_from_str: it parses a text into its
/// documents and fails on text that is not YAML.
#[verifier::external_body]
fn load_yaml(text: &str) -> (r: Option<Vec<Yaml>>)
    ensures
        r is Some <==> yaml_document_count(text@) is Some,
        r matches Some(d) ==> yaml_document_count(text@) == Some(d@.len()),
{
    YamlLoader::load_from_str(text).ok()
}

/// Relies on yaml_rust's `Yaml` indexing by a key and on Yaml::as_str: the string
/// held under `key` when `doc` is a mapping that holds one there.
#[verifier::external_body]
fn yaml_str_field(doc: &Yaml, key: &str) -> (r: Option<String>) {
    doc[key].as_str().map(|s| s.to_owned())
}

/// The error that reading the configuration's one document gives, if any.
pub open spec fn config_doc_error(text: Seq<char>) -> Option<Error> {
    match yaml_document_count(text) {
        None => Some(Error::ConfigParse),
        Some(n) => if n == 1 {
            None
        } else {
            Some(Error::DocumentCount(n as usize))
        },
    }
}

/// Parses the local configuration, which must hold exactly one YAML document.
pub fn get_config(text: &str) -> (r: Result<Yaml, Error>)
    ensures
        r is Ok <==> config_doc_error(text@) is None,
        r matches Err(e) ==> config_doc_error(text@) == Some(e),
{
    let mut docs = match load_yaml(text) {
        Some(d) => d,
        None => return Err(Error::ConfigParse),
    };
    if docs.len() != 1 {
        return Err(Error::DocumentCount(docs.len()));
    }
    Ok(docs.remove(0))
}

/// The string under `key` in the configuration, or an error that names the key.
fn config_field(text: &str, key: &str) -> (r: Result<String, Error>)
    ensures
        r is Ok ==> config_doc_error(text@) is None,
        r matches Err(e) ==> (match config_doc_error(text@) {
            Some(d) => e == d,
            None => e is InvalidConfig,
        }),
{
    let config = get_config(text)?;
    match yaml_str_field(&config, key) {
        Some(s) => Ok(s),
        None => Err(Error::InvalidConfig(key.to_owned())),
    }
}

/// Gets the RPC url for the cluster that the configuration names.
pub fn get_rpc_url(config_text: &str) -> (r: Result<String, Error>)
    ensures
        r is Ok ==> config_doc_error(config_text@) is None,
        r matches Err(e) ==> (match config_doc_error(config_text@) {
            Some(d) => e == d,
            None => e is InvalidConfig,
        }),
{
    config_field(config_text, "json_rpc_url")
}

/// Gets the path of the local wallet's keypair file that the configuration names.
pub fn get_keypair_path(config_text: &str) -> (r: Result<String, Error>)
    ensures
        r is Ok ==> config_doc_error(config_text@) is None,
        r matches Err(e) ==> (match config_doc_error(config_text@) {
            Some(d) => e == d,
            None => e is InvalidConfig,
        }),
{
    config_field(config_text, "keypair_path")
}

} // verus!
