use vstd::prelude::*;
use crate::availability::names;
use crate::framework::opt_view;

verus! {

/// Where the default registry is fetched from.
pub const DEFAULT_REGISTRY_URL: &'static str =
    "https://raw.githubusercontent.com/meihapps/treetest/refs/heads/main/src/frameworks.json";

/// The directory of this application under the configuration root.
pub const APP_DIR: &'static str = "treetest";

/// The registry file's name.
pub const REGISTRY_FILE: &'static str = "frameworks.json";

/// The name of the configuration directory under a home directory.
pub const CONFIG_DIR: &'static str = ".config";

/// Why the registry's location could not be found.
#[derive(Debug, Clone, Copy, PartialEq, Eq, Structural)]
pub enum ConfigError {
    /// On Windows, `APPDATA` is not set.
    AppDataUnset,
    /// Elsewhere, neither `XDG_CONFIG_HOME` nor `HOME` is set.
    HomeUnset,
}

/// The components of the registry path, from the values of the environment
/// variables that locate the configuration root.
pub open spec fn config_parts(
    windows: bool,
    appdata: Option<Seq<char>>,
    xdg: Option<Seq<char>>,
    home: Option<Seq<char>>,
) -> Result<Seq<Seq<char>>, ConfigError> {
    if windows {
        match appdata {
            Some(a) => Ok(seq![a, APP_DIR@, REGISTRY_FILE@]),
            None => Err(ConfigError::AppDataUnset),
        }
    } else {
        match xdg {
            Some(x) => Ok(seq![x, APP_DIR@, REGISTRY_FILE@]),
            None => match home {
                Some(h) => Ok(seq![h, CONFIG_DIR@, APP_DIR@, REGISTRY_FILE@]),
                None => Err(ConfigError::HomeUnset),
            },
        }
    }
}

/// The registry path, as the components to join in order: under `APPDATA` on
/// Windows; elsewhere under `XDG_CONFIG_HOME`, or else under `.config` in
/// `HOME`. Each argument is the variable's value, `None` when it is unset.
pub fn config_path_parts(
    windows: bool,
    appdata: Option<String>,
    xdg: Option<String>,
    home: Option<String>,
) -> (r: Result<Vec<String>, ConfigError>)
    ensures
        match (r, config_parts(windows, opt_view(appdata), opt_view(xdg), opt_view(home))) {
            (Ok(v), Ok(p)) => names(v@) == p,
            (Err(e), Err(f)) => e == f,
            _ => false,
        },
{
    let base: Vec<String> = if windows {
        match appdata {
            Some(a) => vec![a],
            None => return Err(ConfigError::AppDataUnset),
        }
    } else {
        match xdg {
            Some(x) => vec![x],
            None => match home {
                Some(h) => vec![h, CONFIG_DIR.to_string()],
                None => return Err(ConfigError::HomeUnset),
            },
        }
    };
    let mut parts = base;
    parts.push(APP_DIR.to_string());
    parts.push(REGISTRY_FILE.to_string());
    assert(names(parts@) =~= config_parts(windows, opt_view(appdata), opt_view(xdg), opt_view(home))->Ok_0);
    Ok(parts)
}

} // verus!
