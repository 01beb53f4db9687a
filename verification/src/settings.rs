//! Layering of settings: what the command line and the environment give
//! goes over what a settings file gives, and a settings file is read only if
//! it exists and is of a known kind.

use vstd::prelude::*;

verus! {

/// Why a settings file is not read.
#[derive(Clone, Copy, Debug, PartialEq, Eq, Structural)]
pub enum ConfigFileError {
    /// Nothing exists at the path.
    PathInvalid,
    /// The file's extension is missing or not a known one.
    InvalidExtension,
}

/// The extensions a settings file may have, spelled exactly so: `toml`,
/// `json`, and `yaml)` with its closing bracket. A bare `yaml` is not among
/// them.
pub open spec fn is_config_extension(extension: Seq<char>) -> bool {
    extension == "toml"@ || extension == "json"@ || extension == "yaml)"@
}

/// Whether a settings file is read: the path has to exist, and then its
/// extension has to be a known one.
pub open spec fn config_file_verdict(exists: bool, extension: Option<Seq<char>>) -> Result<
    (),
    ConfigFileError,
> {
    if !exists {
        Err(ConfigFileError::PathInvalid)
    } else if extension matches Some(e) && is_config_extension(e) {
        Ok(())
    } else {
        Err(ConfigFileError::InvalidExtension)
    }
}

/// A setting after an overriding source was applied: the overriding value
/// where there is one, else the value as it was.
pub fn overridden<T>(current: Option<T>, incoming: Option<T>) -> (merged: Option<T>)
    ensures
        merged == if incoming is Some {
            incoming
        } else {
            current
        },
{
    match incoming {
        Some(value) => Some(value),
        None => current,
    }
}

/// Whether `extension` is one a settings file may have.
pub fn config_extension_supported(extension: &str) -> (supported: bool)
    ensures
        supported == is_config_extension(extension@),
{
    let given: String = extension.to_owned();
    given == "toml".to_owned() || given == "json".to_owned() || given == "yaml)".to_owned()
}

/// Decides whether the settings file at a path is read, from whether the
/// path exists and from the extension of its file name.
pub fn check_config_file(exists: bool, extension: Option<&str>) -> (verdict: Result<
    (),
    ConfigFileError,
>)
    ensures
        verdict == config_file_verdict(
            exists,
            match extension {
                Some(e) => Some(e@),
                None => None,
            },
        ),
{
    if !exists {
        return Err(ConfigFileError::PathInvalid);
    }
    match extension {
        Some(e) => {
            if config_extension_supported(e) {
                Ok(())
            } else {
                Err(ConfigFileError::InvalidExtension)
            }
        },
        None => Err(ConfigFileError::InvalidExtension),
    }
}

} // verus!
