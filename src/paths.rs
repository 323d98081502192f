//! Where the preset store and the host application's settings files live.
use crate::errors::AppError;
use vstd::prelude::*;

verus! {

/// The text of a path extended by one more segment (`Path::join`).
pub uninterp spec fn path_joined(base: Seq<char>, segment: Seq<char>) -> Seq<char>;

/// Relies on `std::path::Path::join`: the result depends on the two texts
/// alone. Both are UTF-8, so the joined path converts back without loss.
#[verifier::external_body]
fn join_path(base: &str, segment: &str) -> (r: String)
    ensures
        r@ == path_joined(base@, segment@),
{
    std::path::Path::new(base).join(segment).to_string_lossy().into_owned()
}

/// The locations of the files that the tool reads and writes.
#[derive(Debug, Clone)]
pub struct AppPaths {
    pub config_path: String,
    pub claude_home: String,
    pub settings_path: String,
    pub settings_local_path: String,
}

/// A home directory: the override where one is given, else the default
/// directory under the user's home, `None` where neither is known.
pub open spec fn home_dir(override_dir: Option<String>, home: Option<String>, suffix: Seq<char>) -> Option<Seq<char>> {
    match override_dir {
        Some(o) => Some(o@),
        None => match home {
            Some(h) => Some(path_joined(h@, suffix)),
            None => None,
        },
    }
}

/// Resolves one home directory; see `home_dir`.
pub fn resolve_home_path(override_dir: Option<String>, home: Option<String>, default_suffix: &str) -> (r:
    Result<String, AppError>)
    ensures
        match home_dir(override_dir, home, default_suffix@) {
            Some(d) => r matches Ok(p) && p@ == d,
            None => r matches Err(AppError::MissingHomeDirectory),
        },
{
    match override_dir {
        Some(dir) => Ok(dir),
        None => match home {
            Some(h) => Ok(join_path(h.as_str(), default_suffix)),
            None => Err(AppError::MissingHomeDirectory),
        },
    }
}

impl AppPaths {
    /// The file locations, from the two directory overrides and the user's
    /// home directory, each as looked up by the caller (`None` where unset).
    /// `host_dir_name` is the name of the host application's directory under
    /// the home directory, used where its override is unset.
    pub fn resolve(
        switcher_home_override: Option<String>,
        claude_home_override: Option<String>,
        home: Option<String>,
        host_dir_name: &str,
    ) -> (r: Result<AppPaths, AppError>)
        ensures
            match (
                home_dir(switcher_home_override, home, ".claudecode-switcher"@),
                home_dir(claude_home_override, home, host_dir_name@),
            ) {
                (Some(s), Some(c)) => r matches Ok(p) && p.config_path@ == path_joined(
                    s,
                    "config.json"@,
                ) && p.claude_home@ == c && p.settings_path@ == path_joined(c, "settings.json"@)
                    && p.settings_local_path@ == path_joined(c, "settings.local.json"@),
                _ => r matches Err(AppError::MissingHomeDirectory),
            },
    {
        let home_copy = match &home {
            Some(h) => Some(h.clone()),
            None => None,
        };
        let switcher_home = resolve_home_path(switcher_home_override, home_copy, ".claudecode-switcher")?;
        let claude_home = resolve_home_path(claude_home_override, home, host_dir_name)?;
        let config_path = join_path(switcher_home.as_str(), "config.json");
        let settings_path = join_path(claude_home.as_str(), "settings.json");
        let settings_local_path = join_path(claude_home.as_str(), "settings.local.json");
        Ok(AppPaths { config_path, claude_home, settings_path, settings_local_path })
    }
}

} // verus!
