//! The resolved configuration the batch run consumes: which scripts to
//! load and where the music tree is rooted. Reading and writing the
//! configuration document on disk is the caller's business; the library
//! only fixes the record's shape, its defaults and the supported revision.

use vstd::prelude::*;

use crate::errors::ConfigError;

verus! {

/// The supported revision of the configuration document.
pub const CONFIG_VERSION: u32 = 1;

/// The resolved configuration: script paths to load, in order, and the
/// root of the directory tree to scan.
#[derive(Debug)]
pub struct Config {
    pub scripts: Vec<String>,
    pub root: String,
}

impl Default for Config {
    /// One script beside the configuration, music under `./music/`.
    fn default() -> (r: Self)
        ensures
            r.scripts@.len() == 1,
            r.scripts@[0]@ == "./script.lua"@,
            r.root@ == "./music/"@,
    {
        let script: &str = "./script.lua";
        let root: &str = "./music/";
        let mut scripts: Vec<String> = Vec::new();
        scripts.push(script.to_owned());
        Config { scripts, root: root.to_owned() }
    }
}

/// Accepts exactly the supported document revision; any other is the
/// unsupported-version error.
pub fn check_version(version: u32) -> (r: Result<(), ConfigError>)
    ensures
        version == CONFIG_VERSION ==> r == Ok::<(), ConfigError>(()),
        version != CONFIG_VERSION ==> r == Err::<(), ConfigError>(ConfigError::UnsupportedVersion),
{
    if version == CONFIG_VERSION {
        Ok(())
    } else {
        Err(ConfigError::UnsupportedVersion)
    }
}

} // verus!
