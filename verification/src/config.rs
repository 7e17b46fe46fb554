//! Names and lines for the persisted configuration store.
//!
//! The store itself (get/set/unset of a string under the tool's namespace,
//! locally or globally) belongs to the version-control engine; the logic
//! here only fixes the names the tool uses in it and the text of a listed
//! entry.

use vstd::prelude::*;
use vstd::string::*;

use crate::cli::ConfigKey;

verus! {

/// The short name a key carries inside the tool's namespace.
pub open spec fn spec_config_key_name(key: ConfigKey) -> Seq<char> {
    match key {
        ConfigKey::BasePath => "base-path"@,
    }
}

/// The namespace prefix of every configuration name of this tool.
pub fn config_prefix() -> (r: String)
    ensures
        r@ == "gt."@,
{
    String::from_str("gt.")
}

/// The full configuration name of a key: the tool's prefix, then the
/// key's short name.
pub fn get_config_name(key: &ConfigKey) -> (r: String)
    ensures
        r@ == "gt."@ + spec_config_key_name(*key),
{
    let prefix = config_prefix();
    match key {
        ConfigKey::BasePath => prefix.concat("base-path"),
    }
}

/// The text of one listed configuration entry: `name=value`.
pub fn format_config_entry(name: &String, value: &String) -> (r: String)
    ensures
        r@ == name@ + "="@ + value@,
{
    let mut line = name.clone();
    line.append("=");
    line.append(value.as_str());
    line
}

} // verus!
