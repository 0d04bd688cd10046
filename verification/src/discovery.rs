//! Where the wasmtime TOML configuration is read from.
//!
//! Discovery order: the path in the `WASMTIME_CONFIG` environment variable
//! when it is set and not empty; otherwise the default path when a file
//! exists there; otherwise no file, and the shim's defaults apply.
use vstd::prelude::*;
use vstd::slice::slice_to_vec;
use vstd::string::StringSliceAdditionalSpecFns;

verus! {

/// The environment variable that names the TOML config file.
pub const WASMTIME_CONFIG_ENV: &'static str = "WASMTIME_CONFIG";

/// Default path of the TOML config file.
pub const DEFAULT_CONFIG_PATH: &'static str = "/etc/runwasi/wasmtime.toml";

/// The environment variable names a config file: it is set and not empty.
pub open spec fn env_names_file(env_value: Option<Vec<u8>>) -> bool {
    env_value is Some && env_value->0@.len() > 0
}

/// Selects the config file to read, from the raw bytes of `WASMTIME_CONFIG`
/// (`None` when unset; any byte string is a path, UTF-8 or not) and a check
/// whether the default path exists, which is consulted only when the
/// variable names no file. The result is the path's bytes; `None` means no
/// file: use the defaults.
pub fn config_path(env_value: Option<Vec<u8>>, default_path_exists: impl FnOnce() -> bool) -> (path:
    Option<Vec<u8>>)
    requires
        !env_names_file(env_value) ==> call_requires(default_path_exists, ()),
    ensures
        env_names_file(env_value) ==> path == env_value,
        !env_names_file(env_value) ==> exists|found: bool|
            {
                &&& call_ensures(default_path_exists, (), found)
                &&& if found {
                    path is Some && path->0@ == DEFAULT_CONFIG_PATH.spec_bytes()
                } else {
                    path is None
                }
            },
{
    if let Some(p) = env_value {
        if p.len() > 0 {
            return Some(p);
        }
    }
    let found = default_path_exists();
    if found {
        Some(slice_to_vec(DEFAULT_CONFIG_PATH.as_bytes()))
    } else {
        None
    }
}

} // verus!
