//! The configuration: a YAML mapping whose `blogs` field lists the source
//! identifiers to process, in order.

use crate::matter::opt_views;
use vstd::prelude::*;

verus! {

/// What the YAML loader makes of a text, read for the sequence under `key`: `None`
/// where the text is not YAML; `Some(None)` where the first document has no
/// sequence under `key`; else each element's string value (`None` for an element
/// that is no string), in order.
pub uninterp spec fn yaml_list_of(text: Seq<char>, key: Seq<char>) -> Option<
    Option<Seq<Option<Seq<char>>>>,
>;

/// Relies on yaml_rust's `YamlLoader::load_from_str`, `Index<&str>` for `Yaml`,
/// `Yaml::as_vec` and `Yaml::as_str`: the elements of the first document's sequence
/// under `key`, converted one for one.
#[verifier::external_body]
fn load_list(text: &str, key: &str) -> (r: Option<Option<Vec<Option<String>>>>)
    ensures
        yaml_list_of(text@, key@) == match r {
            None => None,
            Some(None) => Some(None),
            Some(Some(v)) => Some(Some(opt_views(v@))),
        },
{
    let docs = yaml_rust::YamlLoader::load_from_str(text).ok()?;
    Some(docs.first().and_then(|doc| doc[key].as_vec()).map(
        |list| list.iter().map(|y| y.as_str().map(|s| s.to_string())).collect(),
    ))
}

/// Why a configuration gives no list of sources.
#[derive(Clone, Copy, Debug, PartialEq, Eq, Structural)]
pub enum ConfigError {
    /// The text is not YAML.
    InvalidYaml,
    /// The first document has no `blogs` list.
    MissingSources,
    /// An entry of the list is not a string.
    InvalidSource,
}

impl ConfigError {
    /// A short description for an operator.
    pub fn message(&self) -> (r: &'static str)
        ensures
            r@ == config_message(*self),
    {
        match self {
            ConfigError::InvalidYaml => "the configuration is not valid YAML",
            ConfigError::MissingSources => "the configuration has no list of blogs",
            ConfigError::InvalidSource => "a blog entry is not a string",
        }
    }
}

/// The operator's description of each error.
pub open spec fn config_message(e: ConfigError) -> Seq<char> {
    match e {
        ConfigError::InvalidYaml => "the configuration is not valid YAML"@,
        ConfigError::MissingSources => "the configuration has no list of blogs"@,
        ConfigError::InvalidSource => "a blog entry is not a string"@,
    }
}

/// The sources that a list of entries gives: all of them where every entry is a
/// string, else `InvalidSource`.
pub open spec fn sources_outcome(entries: Seq<Option<Seq<char>>>) -> Result<Seq<Seq<char>>, ConfigError> {
    if forall|i: int| 0 <= i < entries.len() ==> (#[trigger] entries[i]) is Some {
        Ok(entries.map_values(|o: Option<Seq<char>>| o->Some_0))
    } else {
        Err(ConfigError::InvalidSource)
    }
}

pub open spec fn sources_view(r: Result<Vec<String>, ConfigError>) -> Result<Seq<Seq<char>>, ConfigError> {
    match r {
        Ok(v) => Ok(crate::post::views(v@)),
        Err(e) => Err(e),
    }
}

/// The sources, given each entry of the list as a string where it is one; fails with
/// `InvalidSource` where an entry is not.
pub fn sources_from_entries(entries: &Vec<Option<String>>) -> (r: Result<Vec<String>, ConfigError>)
    ensures
        sources_view(r) == sources_outcome(opt_views(entries@)),
{
    let ghost e = opt_views(entries@);
    let mut out: Vec<String> = Vec::new();
    let mut i: usize = 0;
    while i < entries.len()
        invariant
            e == opt_views(entries@),
            i <= entries@.len(),
            out@.len() == i,
            forall|j: int| 0 <= j < i ==> (#[trigger] e[j]) is Some,
            forall|j: int| 0 <= j < i ==> (#[trigger] out@[j])@ == e[j]->Some_0,
        decreases entries@.len() - i,
    {
        match &entries[i] {
            Some(s) => out.push(s.clone()),
            None => {
                assert(e[i as int] is None);
                return Err(ConfigError::InvalidSource);
            },
        }
        i += 1;
    }
    assert(crate::post::views(out@) =~= e.map_values(|o: Option<Seq<char>>| o->Some_0));
    Ok(out)
}

/// Reads the list of source identifiers from configuration text: the `blogs`
/// sequence of its first document.
pub fn source_list(text: &str) -> (r: Result<Vec<String>, ConfigError>)
    ensures
        sources_view(r) == match yaml_list_of(text@, "blogs"@) {
            None => Err(ConfigError::InvalidYaml),
            Some(None) => Err(ConfigError::MissingSources),
            Some(Some(entries)) => sources_outcome(entries),
        },
{
    match load_list(text, "blogs") {
        None => Err(ConfigError::InvalidYaml),
        Some(None) => Err(ConfigError::MissingSources),
        Some(Some(entries)) => sources_from_entries(&entries),
    }
}

} // verus!
