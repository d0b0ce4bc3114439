//! Where the daemon looks for its configuration file.

use vstd::prelude::*;
use vstd::string::StringExecFns;
use crate::text::texts;

verus! {

/// A place in the file system: a base path, and the names to descend by
/// from there.
#[derive(Debug, Clone, PartialEq, Eq)]
pub struct ConfigFileLocation {
    pub base: String,
    pub components: Vec<String>,
}

/// A place in the file system as contracts see it.
pub struct LocationView {
    pub base: Seq<char>,
    pub components: Seq<Seq<char>>,
}

impl View for ConfigFileLocation {
    type V = LocationView;

    open spec fn view(&self) -> LocationView {
        LocationView { base: self.base@, components: texts(self.components@) }
    }
}

/// The place of the configuration file: the one that the command line
/// names; else `splinterd.toml` in the configuration directory that the
/// environment names; else `conf/splinterd.toml` under the home that the
/// environment names; else the system-wide file.
pub open spec fn config_file_location(
    argument: Option<Seq<char>>,
    config_dir: Option<Seq<char>>,
    home: Option<Seq<char>>,
) -> LocationView {
    if argument is Some {
        LocationView { base: argument.unwrap(), components: seq![] }
    } else if config_dir is Some {
        LocationView { base: config_dir.unwrap(), components: seq!["splinterd.toml"@] }
    } else if home is Some {
        LocationView { base: home.unwrap(), components: seq!["conf"@, "splinterd.toml"@] }
    } else {
        LocationView { base: "/etc/splinter/splinterd.toml"@, components: seq![] }
    }
}

/// What an optional text holds, as characters.
pub open spec fn given(text: Option<&str>) -> Option<Seq<char>> {
    match text {
        Some(t) => Some(t@),
        None => None,
    }
}

/// Decides where the configuration file is looked for, from the value of
/// the `--config` argument and of the environment variables
/// `SPLINTER_CONFIG_DIR` and `SPLINTER_HOME`, as far as they are set.
pub fn get_config_file(
    argument: Option<&str>,
    config_dir: Option<&str>,
    home: Option<&str>,
) -> (location: ConfigFileLocation)
    ensures
        location@ == config_file_location(given(argument), given(config_dir), given(home)),
{
    if let Some(value) = argument {
        let location = ConfigFileLocation { base: value.to_owned(), components: Vec::new() };
        assert(location@.components =~= seq![]);
        return location;
    }
    if let Some(value) = config_dir {
        let mut components: Vec<String> = Vec::new();
        components.push(String::from_str("splinterd.toml"));
        let location = ConfigFileLocation { base: value.to_owned(), components };
        assert(location@.components =~= seq!["splinterd.toml"@]);
        return location;
    }
    if let Some(value) = home {
        let mut components: Vec<String> = Vec::new();
        components.push(String::from_str("conf"));
        components.push(String::from_str("splinterd.toml"));
        let location = ConfigFileLocation { base: value.to_owned(), components };
        assert(location@.components =~= seq!["conf"@, "splinterd.toml"@]);
        return location;
    }
    let location = ConfigFileLocation {
        base: String::from_str("/etc/splinter/splinterd.toml"),
        components: Vec::new(),
    };
    assert(location@.components =~= seq![]);
    location
}

} // verus!
