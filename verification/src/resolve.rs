//! The resolution logic proper: given an [`AppEnv`] assembled once at
//! startup, each accessor computes the location of one directory or file of
//! the application, exactly as its spec function states.

use crate::error::DirError;
use crate::lookup;
use crate::path_util::{join_path, parent_dir, spec_join, spec_parent};
use crate::platform::Platform;
use vstd::prelude::*;

verus! {

/// The application's directory name on non-Windows platforms and the stem
/// of its title-cased Windows directory name.
pub open spec fn spec_app_name() -> Seq<char> {
    "clash-nyanpasu"@
}

/// The directory name of the application this one superseded; legacy paths
/// keep using it.
pub open spec fn spec_previous_app_name() -> Seq<char> {
    "clash-verge"@
}

/// The version the application reports.
pub open spec fn spec_app_version() -> Seq<char> {
    "1.6.0"@
}

/// The application's directory name.
pub fn app_name() -> (r: &'static str)
    ensures
        r@ == spec_app_name(),
{
    "clash-nyanpasu"
}

/// The superseded application's directory name.
pub fn previous_app_name() -> (r: &'static str)
    ensures
        r@ == spec_previous_app_name(),
{
    "clash-verge"
}

/// The version the application reports.
pub fn get_app_version() -> (r: &'static str)
    ensures
        r@ == spec_app_version(),
{
    "1.6.0"
}

/// The name of the directory the application claims inside OS-provided base
/// directories: the title-cased application name on Windows (for example
/// `Clash Nyanpasu` under `AppData/Roaming`), the plain name elsewhere
/// (for example `clash-nyanpasu` under `~/.config`).
pub open spec fn spec_placeholder(platform: Platform) -> Seq<char> {
    if platform is Windows {
        lookup::title_case_of(spec_app_name())
    } else {
        spec_app_name()
    }
}

/// The directory-name placeholder for the given platform.
pub fn app_dir_placeholder(platform: Platform) -> (r: String)
    ensures
        r@ == spec_placeholder(platform),
{
    if platform == Platform::Windows {
        lookup::title_case(app_name())
    } else {
        app_name().to_owned()
    }
}

/// Everything resolution depends on, gathered once at startup: the platform,
/// the set-once portable flag, and each raw candidate location the OS (or
/// the surrounding application shell) offered. Resolution is a pure function
/// of this value, so every accessor is stable for the lifetime of it.
#[derive(Debug)]
pub struct AppEnv {
    /// The platform resolution is made for.
    pub platform: Platform,
    /// Whether the application runs as a portable install (Windows only).
    pub portable: bool,
    /// The directory-name placeholder for `platform`.
    pub placeholder: String,
    /// The user's home directory, if it could be determined.
    pub home_dir: Option<String>,
    /// The OS-suggested configuration directory for this application
    /// (base config directory with the placeholder appended), if any.
    pub config_base: Option<String>,
    /// The OS-suggested data directory for this application, if any.
    pub data_base: Option<String>,
    /// The OS-provided base cache directory (without the placeholder), if any.
    pub cache_base: Option<String>,
    /// The directory holding the application executable, if it could be
    /// determined.
    pub install_dir: Option<String>,
    /// The install directory recorded in the Windows registry, if any.
    pub registry_app_dir: Option<String>,
    /// The OS-provided local data directory (used on macOS), if any.
    pub local_data_dir: Option<String>,
    /// The application shell's resource base directory, if available.
    pub resource_base: Option<String>,
}

impl AppEnv {
    /// Well-formedness: the portable flag and the registry lookup exist only
    /// on Windows, and the placeholder is the one for the platform.
    pub open spec fn wf(self) -> bool {
        &&& (self.platform !is Windows ==> !self.portable)
        &&& (self.platform !is Windows ==> self.registry_app_dir is None)
        &&& self.placeholder@ == spec_placeholder(self.platform)
    }
}

/// The view of an accessor result: the resolved path's text, or the error.
pub open spec fn res_view(r: Result<String, DirError>) -> Result<Seq<char>, DirError> {
    match r {
        Ok(s) => Ok(s@),
        Err(e) => Err(e),
    }
}

/// The portable flag recorded in the environment.
pub fn get_portable_flag(env: &AppEnv) -> (r: bool)
    ensures
        r == env.portable,
{
    env.portable
}

/// The value of the portable flag at startup: set exactly when the platform
/// is Windows and the portable marker file is present in the install
/// directory. On every other platform the flag is false.
pub fn init_portable_flag(platform: Platform, portable_marker_exists: bool) -> (r: bool)
    ensures
        r == (platform is Windows && portable_marker_exists),
{
    platform == Platform::Windows && portable_marker_exists
}

/// Where the portable marker file lives: `.config/PORTABLE` under the
/// install directory.
pub fn portable_marker_path(install_dir: &str) -> (r: String)
    ensures
        r@ == spec_join(spec_join(install_dir@, ".config"@), "PORTABLE"@),
{
    let base = join_path(install_dir, ".config");
    join_path(base.as_str(), "PORTABLE")
}

/// Where the application's configuration lives. A Windows portable install
/// keeps it beside the executable under `.config` and the previous
/// application name; a regular Windows install prefers the directory
/// recorded in the registry; everywhere else (and as the Windows fallback)
/// the OS-suggested configuration directory is used.
pub open spec fn spec_app_config_dir(env: AppEnv) -> Result<Seq<char>, DirError> {
    if env.platform is Windows && env.portable {
        match env.install_dir {
            Some(d) => Ok(spec_join(spec_join(d@, ".config"@), spec_previous_app_name())),
            None => Err(DirError::InstallDirNotFound),
        }
    } else if env.platform is Windows && env.registry_app_dir is Some {
        match env.registry_app_dir {
            Some(d) => Ok(d@),
            None => Err(DirError::ConfigDirNotFound),
        }
    } else {
        match env.config_base {
            Some(d) => Ok(d@),
            None => Err(DirError::ConfigDirNotFound),
        }
    }
}

/// Resolve the configuration directory.
pub fn app_config_dir(env: &AppEnv) -> (r: Result<String, DirError>)
    ensures
        res_view(r) == spec_app_config_dir(*env),
{
    if env.platform == Platform::Windows && env.portable {
        match &env.install_dir {
            Some(d) => {
                let base = join_path(d.as_str(), ".config");
                Ok(join_path(base.as_str(), previous_app_name()))
            },
            None => Err(DirError::InstallDirNotFound),
        }
    } else {
        if env.platform == Platform::Windows {
            if let Some(d) = &env.registry_app_dir {
                return Ok(d.clone());
            }
        }
        match &env.config_base {
            Some(d) => Ok(d.clone()),
            None => Err(DirError::ConfigDirNotFound),
        }
    }
}

/// Where the application's profile and runtime data live. A Windows
/// portable install keeps it beside the executable under `.data` and the
/// previous application name; everywhere else the OS-suggested data
/// directory is used.
pub open spec fn spec_app_data_dir(env: AppEnv) -> Result<Seq<char>, DirError> {
    if env.platform is Windows && env.portable {
        match env.install_dir {
            Some(d) => Ok(spec_join(spec_join(d@, ".data"@), spec_previous_app_name())),
            None => Err(DirError::InstallDirNotFound),
        }
    } else {
        match env.data_base {
            Some(d) => Ok(d@),
            None => Err(DirError::DataDirNotFound),
        }
    }
}

/// Resolve the data directory.
pub fn app_data_dir(env: &AppEnv) -> (r: Result<String, DirError>)
    ensures
        res_view(r) == spec_app_data_dir(*env),
{
    if env.platform == Platform::Windows && env.portable {
        match &env.install_dir {
            Some(d) => {
                let base = join_path(d.as_str(), ".data");
                Ok(join_path(base.as_str(), previous_app_name()))
            },
            None => Err(DirError::InstallDirNotFound),
        }
    } else {
        match &env.data_base {
            Some(d) => Ok(d.clone()),
            None => Err(DirError::DataDirNotFound),
        }
    }
}

/// Where the superseded application kept its home directory: under
/// `.config` and the previous application name, beside the executable for a
/// Windows portable install and inside the user's home directory otherwise.
pub open spec fn spec_old_app_home_dir(env: AppEnv) -> Result<Seq<char>, DirError> {
    if env.platform is Windows && env.portable {
        match env.install_dir {
            Some(d) => Ok(spec_join(spec_join(d@, ".config"@), spec_previous_app_name())),
            None => Err(DirError::InstallDirNotFound),
        }
    } else {
        match env.home_dir {
            Some(h) => Ok(spec_join(spec_join(h@, ".config"@), spec_previous_app_name())),
            None => Err(
                if env.platform is Windows {
                    DirError::OldHomeDirNotFound
                } else {
                    DirError::HomeDirNotFound
                },
            ),
        }
    }
}

/// Resolve the legacy (previous-install) home directory.
pub fn old_app_home_dir(env: &AppEnv) -> (r: Result<String, DirError>)
    ensures
        res_view(r) == spec_old_app_home_dir(*env),
{
    if env.platform == Platform::Windows && env.portable {
        match &env.install_dir {
            Some(d) => {
                let base = join_path(d.as_str(), ".config");
                Ok(join_path(base.as_str(), previous_app_name()))
            },
            None => Err(DirError::InstallDirNotFound),
        }
    } else {
        match &env.home_dir {
            Some(h) => {
                let base = join_path(h.as_str(), ".config");
                Ok(join_path(base.as_str(), previous_app_name()))
            },
            None => {
                if env.platform == Platform::Windows {
                    Err(DirError::OldHomeDirNotFound)
                } else {
                    Err(DirError::HomeDirNotFound)
                }
            },
        }
    }
}

/// Where the current application keeps its home directory: beside the
/// executable for a Windows portable install; for a regular Windows install
/// the registry-recorded directory when present, else under the user's home
/// directory; under the user's home directory on every other platform, in
/// each case under `.config` and the current application name.
pub open spec fn spec_app_home_dir(env: AppEnv) -> Result<Seq<char>, DirError> {
    if env.platform is Windows && env.portable {
        match env.install_dir {
            Some(d) => Ok(spec_join(spec_join(d@, ".config"@), spec_app_name())),
            None => Err(DirError::InstallDirNotFound),
        }
    } else if env.platform is Windows && env.registry_app_dir is Some {
        match env.registry_app_dir {
            Some(d) => Ok(d@),
            None => Err(DirError::HomeDirNotFound),
        }
    } else {
        match env.home_dir {
            Some(h) => Ok(spec_join(spec_join(h@, ".config"@), spec_app_name())),
            None => Err(DirError::HomeDirNotFound),
        }
    }
}

/// Resolve the current home directory.
pub fn app_home_dir(env: &AppEnv) -> (r: Result<String, DirError>)
    ensures
        res_view(r) == spec_app_home_dir(*env),
{
    if env.platform == Platform::Windows && env.portable {
        match &env.install_dir {
            Some(d) => {
                let base = join_path(d.as_str(), ".config");
                Ok(join_path(base.as_str(), app_name()))
            },
            None => Err(DirError::InstallDirNotFound),
        }
    } else {
        if env.platform == Platform::Windows {
            if let Some(d) = &env.registry_app_dir {
                return Ok(d.clone());
            }
        }
        match &env.home_dir {
            Some(h) => {
                let base = join_path(h.as_str(), ".config");
                Ok(join_path(base.as_str(), app_name()))
            },
            None => Err(DirError::HomeDirNotFound),
        }
    }
}

/// Where bundled resources live: `resources` under the application shell's
/// resource base directory.
pub open spec fn spec_app_resources_dir(env: AppEnv) -> Result<Seq<char>, DirError> {
    match env.resource_base {
        Some(b) => Ok(spec_join(b@, "resources"@)),
        None => Err(DirError::ResourceDirNotFound),
    }
}

/// Resolve the resource directory.
pub fn app_resources_dir(env: &AppEnv) -> (r: Result<String, DirError>)
    ensures
        res_view(r) == spec_app_resources_dir(*env),
{
    match &env.resource_base {
        Some(b) => Ok(join_path(b.as_str(), "resources")),
        None => Err(DirError::ResourceDirNotFound),
    }
}

/// Where cached assets live (safe to clean up): the placeholder under the
/// OS-provided cache base, with one more `cache` level on Windows.
pub open spec fn spec_cache_dir(env: AppEnv) -> Result<Seq<char>, DirError> {
    match env.cache_base {
        Some(c) => if env.platform is Windows {
            Ok(spec_join(spec_join(c@, env.placeholder@), "cache"@))
        } else {
            Ok(spec_join(c@, env.placeholder@))
        },
        None => Err(DirError::CacheDirNotFound),
    }
}

/// Resolve the cache directory.
pub fn cache_dir(env: &AppEnv) -> (r: Result<String, DirError>)
    ensures
        res_view(r) == spec_cache_dir(*env),
{
    match &env.cache_base {
        Some(c) => {
            let base = join_path(c.as_str(), env.placeholder.as_str());
            if env.platform == Platform::Windows {
                Ok(join_path(base.as_str(), "cache"))
            } else {
                Ok(base)
            }
        },
        None => Err(DirError::CacheDirNotFound),
    }
}

/// Resolve the install directory: the directory holding the application
/// executable, whose path is given. The path is first brought to canonical
/// absolute form, so on success the result is the parent of some non-empty
/// canonical path; when the executable path cannot be resolved or has no
/// parent, resolution fails.
pub fn app_install_dir(exe_path: &str) -> (r: Result<String, DirError>)
    ensures
        r matches Ok(d) ==> exists|c: Seq<char>|
            c.len() > 0 && #[trigger] spec_parent(c) == Some(d@),
        r matches Err(e) ==> e == DirError::InstallDirNotFound,
{
    match lookup::canonicalize_path(exe_path) {
        Some(canon) => match parent_dir(canon.as_str()) {
            Some(d) => {
                proof {
                    assert(canon@.len() > 0 && spec_parent(canon@) == Some(d@));
                }
                Ok(d)
            },
            None => Err(DirError::InstallDirNotFound),
        },
        None => Err(DirError::InstallDirNotFound),
    }
}

/// A configuration or data accessor result with one more component joined
/// onto a successful resolution; the error passes through unchanged.
pub open spec fn spec_joined(
    base: Result<Seq<char>, DirError>,
    name: Seq<char>,
) -> Result<Seq<char>, DirError> {
    match base {
        Ok(d) => Ok(spec_join(d, name)),
        Err(e) => Err(e),
    }
}

/// Where profile files live: `profiles` under the configuration directory.
pub fn app_profiles_dir(env: &AppEnv) -> (r: Result<String, DirError>)
    ensures
        res_view(r) == spec_joined(spec_app_config_dir(*env), "profiles"@),
{
    match app_config_dir(env) {
        Ok(d) => Ok(join_path(d.as_str(), "profiles")),
        Err(e) => Err(e),
    }
}

/// Where log files live: `logs` under the data directory.
pub fn app_logs_dir(env: &AppEnv) -> (r: Result<String, DirError>)
    ensures
        res_view(r) == spec_joined(spec_app_data_dir(*env), "logs"@),
{
    match app_data_dir(env) {
        Ok(d) => Ok(join_path(d.as_str(), "logs")),
        Err(e) => Err(e),
    }
}

/// The guard-override file: `clash-guard-overrides.yaml` under the
/// configuration directory.
pub fn clash_guard_overrides_path(env: &AppEnv) -> (r: Result<String, DirError>)
    ensures
        res_view(r) == spec_joined(spec_app_config_dir(*env), "clash-guard-overrides.yaml"@),
{
    match app_config_dir(env) {
        Ok(d) => Ok(join_path(d.as_str(), "clash-guard-overrides.yaml")),
        Err(e) => Err(e),
    }
}

/// The application configuration file: `nyanpasu-config.yaml` under the
/// configuration directory.
pub fn nyanpasu_config_path(env: &AppEnv) -> (r: Result<String, DirError>)
    ensures
        res_view(r) == spec_joined(spec_app_config_dir(*env), "nyanpasu-config.yaml"@),
{
    match app_config_dir(env) {
        Ok(d) => Ok(join_path(d.as_str(), "nyanpasu-config.yaml")),
        Err(e) => Err(e),
    }
}

/// The profile index file: `profiles.yaml` under the configuration
/// directory.
pub fn profiles_path(env: &AppEnv) -> (r: Result<String, DirError>)
    ensures
        res_view(r) == spec_joined(spec_app_config_dir(*env), "profiles.yaml"@),
{
    match app_config_dir(env) {
        Ok(d) => Ok(join_path(d.as_str(), "profiles.yaml")),
        Err(e) => Err(e),
    }
}

/// The storage database: `storage.db` under the data directory.
pub fn storage_path(env: &AppEnv) -> (r: Result<String, DirError>)
    ensures
        res_view(r) == spec_joined(spec_app_data_dir(*env), "storage.db"@),
{
    match app_data_dir(env) {
        Ok(d) => Ok(join_path(d.as_str(), "storage.db")),
        Err(e) => Err(e),
    }
}

/// The proxy core's pid file: `clash.pid` under the data directory.
pub fn clash_pid_path(env: &AppEnv) -> (r: Result<String, DirError>)
    ensures
        res_view(r) == spec_joined(spec_app_data_dir(*env), "clash.pid"@),
{
    match app_data_dir(env) {
        Ok(d) => Ok(join_path(d.as_str(), "clash.pid")),
        Err(e) => Err(e),
    }
}

/// Where the background service lives: `service` under the home directory.
pub fn service_dir(env: &AppEnv) -> (r: Result<String, DirError>)
    ensures
        res_view(r) == spec_joined(spec_app_home_dir(*env), "service"@),
{
    match app_home_dir(env) {
        Ok(d) => Ok(join_path(d.as_str(), "service")),
        Err(e) => Err(e),
    }
}

/// The service executable: `clash-verge-service.exe` under the service
/// directory.
pub fn service_path(env: &AppEnv) -> (r: Result<String, DirError>)
    ensures
        res_view(r) == spec_joined(
            spec_joined(spec_app_home_dir(*env), "service"@),
            "clash-verge-service.exe"@,
        ),
{
    match service_dir(env) {
        Ok(d) => Ok(join_path(d.as_str(), "clash-verge-service.exe")),
        Err(e) => Err(e),
    }
}

/// A service log file name: the timestamp with `.log` appended.
pub open spec fn spec_log_name(stamp: Seq<char>) -> Seq<char> {
    stamp + ".log"@
}

/// Append the log suffix to a timestamp.
pub fn log_file_name(stamp: &str) -> (r: String)
    ensures
        r@ == spec_log_name(stamp@),
{
    let mut s: String = stamp.to_owned();
    s.append(".log");
    s
}

/// A service log file: a file named after the current local time, with the
/// `.log` suffix, inside `service` under the logs directory. The timestamp
/// comes from the clock, so the result is pinned only up to it: on success
/// the file lies in the service log directory and carries the suffix.
pub fn service_log_file(env: &AppEnv) -> (r: Result<String, DirError>)
    ensures
        r is Ok <==> spec_app_data_dir(*env) is Ok,
        r matches Err(e) ==> spec_app_data_dir(*env) == Err::<Seq<char>, DirError>(e),
        r matches Ok(p) ==> (spec_joined(
            spec_joined(spec_app_data_dir(*env), "logs"@),
            "service"@,
        ) matches Ok(d) && exists|stamp: Seq<char>| p@ == spec_join(d, #[trigger] spec_log_name(stamp))),
{
    match app_logs_dir(env) {
        Ok(logs) => {
            let log_dir = join_path(logs.as_str(), "service");
            let stamp = lookup::local_timestamp();
            let name = log_file_name(stamp.as_str());
            let p = join_path(log_dir.as_str(), name.as_str());
            proof {
                assert(p@ == spec_join(log_dir@, spec_log_name(stamp@)));
            }
            Ok(p)
        },
        Err(e) => Err(e),
    }
}

/// The name under which exactly one instance of the application registers:
/// the application name itself, except on macOS, where it is the
/// application name under the OS-provided local data directory.
pub open spec fn spec_single_instance_placeholder(env: AppEnv) -> Seq<char> {
    if env.platform is MacOs {
        match env.local_data_dir {
            Some(d) => spec_join(d@, spec_app_name()),
            None => spec_app_name(),
        }
    } else {
        spec_app_name()
    }
}

/// The single-instance placeholder for this environment. On macOS the
/// local data directory must have been determined.
pub fn get_single_instance_placeholder(env: &AppEnv) -> (r: String)
    requires
        env.platform is MacOs ==> env.local_data_dir is Some,
    ensures
        r@ == spec_single_instance_placeholder(*env),
{
    if env.platform == Platform::MacOs {
        match &env.local_data_dir {
            Some(d) => join_path(d.as_str(), app_name()),
            None => app_name().to_owned(),
        }
    } else {
        app_name().to_owned()
    }
}

/// Assemble the environment once at startup. The platform, the portable
/// flag and the values only the surrounding shell can supply are handed in;
/// the OS-provided candidates are looked up here. The suggested
/// configuration and data directories are the OS base directories with the
/// platform's placeholder appended.
pub fn detect_env(
    platform: Platform,
    portable: bool,
    install_dir: Option<String>,
    registry_app_dir: Option<String>,
    resource_base: Option<String>,
) -> (env: AppEnv)
    requires
        platform !is Windows ==> !portable && registry_app_dir is None,
    ensures
        env.wf(),
        env.platform == platform,
        env.portable == portable,
        env.install_dir == install_dir,
        env.registry_app_dir == registry_app_dir,
        env.resource_base == resource_base,
        env.config_base matches Some(c) ==> exists|b: Seq<char>|
            c@ == #[trigger] spec_join(b, spec_placeholder(platform)),
        env.data_base matches Some(d) ==> exists|b: Seq<char>|
            d@ == #[trigger] spec_join(b, spec_placeholder(platform)),
{
    let placeholder = app_dir_placeholder(platform);
    let config_base = match lookup::os_config_dir() {
        Some(c) => Some(join_path(c.as_str(), placeholder.as_str())),
        None => None,
    };
    let data_base = match lookup::os_data_dir() {
        Some(d) => Some(join_path(d.as_str(), placeholder.as_str())),
        None => None,
    };
    AppEnv {
        platform,
        portable,
        placeholder,
        home_dir: lookup::os_home_dir(),
        config_base,
        data_base,
        cache_base: lookup::os_cache_dir(),
        install_dir,
        registry_app_dir,
        local_data_dir: lookup::os_local_data_dir(),
        resource_base,
    }
}

} // verus!
