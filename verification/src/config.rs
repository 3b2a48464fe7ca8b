//! The project configuration that the command-line layer reads.
//!
//! The configuration file sits at the root of a project under a fixed name;
//! the layer around this crate reads and decodes it, and this module holds
//! the decoded shape, the file's place, and the defaults for the
//! directories the build walks.

use vstd::prelude::*;
use vstd::string::StringExecFns;
use crate::cli_errors::CliError;

verus! {

/// The decoded project configuration.
#[derive(Debug, Clone, PartialEq)]
pub struct Config {
    pub title: String,
    pub version: String,
    pub build: BuildConfig,
}

/// The build section of the configuration; both directories are optional.
#[derive(Debug, Clone, PartialEq)]
pub struct BuildConfig {
    pub source_dir: Option<String>,
    pub target_dir: Option<String>,
}

impl BuildConfig {
    /// The directory holding the sources: the configured one, or `src`.
    pub fn source_dir_or_default(&self) -> (r: String)
        ensures
            match self.source_dir {
                Some(d) => r@ == d@,
                None => r@ == "src"@,
            },
    {
        match &self.source_dir {
            Some(d) => d.clone(),
            None => "src".to_owned(),
        }
    }

    /// The directory receiving build outputs: the configured one, or
    /// `target`.
    pub fn target_dir_or_default(&self) -> (r: String)
        ensures
            match self.target_dir {
                Some(d) => r@ == d@,
                None => r@ == "target"@,
            },
    {
        match &self.target_dir {
            Some(d) => d.clone(),
            None => "target".to_owned(),
        }
    }
}

/// Where the configuration file stands under a project directory.
pub fn get_config_file_path(current_directory: &str) -> (r: String)
    ensures
        r@ == current_directory@ + "/Rune.toml"@,
{
    let mut p = current_directory.to_owned();
    p.append("/Rune.toml");
    p
}

/// Whether a required folder is present: the caller looks on disk and hands
/// the answer in; absence is an error naming the folder.
pub fn folder_exists(name: &str, exists: bool) -> (r: Result<(), CliError>)
    ensures
        exists ==> r is Ok,
        !exists ==> (r matches Err(e) && e@ == crate::cli_errors::CliErrorModel::IOError(
            "Folder "@ + name@ + " does not exist!"@,
        )),
{
    if exists {
        Ok(())
    } else {
        let mut m = "Folder ".to_owned();
        m.append(name);
        m.append(" does not exist!");
        proof {
            assert(m@ =~= "Folder "@ + name@ + " does not exist!"@);
        }
        Err(CliError::IOError(m))
    }
}

/// A small fixed lookup table kept for the command-line layer.
pub fn get_something(key: usize) -> (r: Option<i32>)
    ensures
        key < 7 ==> (r matches Some(v) && v as int == key + 1),
        key >= 7 ==> r is None,
{
    let values: Vec<i32> = vec![1, 2, 3, 4, 5, 6, 7];
    if key < values.len() {
        Some(values[key])
    } else {
        None
    }
}

} // verus!
