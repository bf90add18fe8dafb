//! Resolution of the filesystem locations used by the Clash Nyanpasu desktop
//! application: configuration, profile data, cached assets, logs, the install
//! directory and the legacy install paths.
//!
//! All resolution logic is a pure function of an environment value that is
//! assembled once at startup, so for a fixed platform and portable-mode
//! setting every accessor returns the same path on every call within a
//! process run. Paths are plain UTF-8 strings whose components are joined
//! with `/`. Directory creation is left to the caller; this crate only
//! decides where each directory and file belongs.

pub mod error;
pub mod laws;
pub mod lookup;
pub mod path_util;
pub mod platform;
pub mod resolve;

pub use error::DirError;
pub use path_util::{join_path, parent_dir, path_to_str};
pub use platform::Platform;
pub use resolve::{
    app_config_dir, app_data_dir, app_dir_placeholder, app_home_dir, app_install_dir,
    app_logs_dir, app_name, app_profiles_dir, app_resources_dir, cache_dir,
    clash_guard_overrides_path, clash_pid_path, detect_env, get_app_version, get_portable_flag,
    get_single_instance_placeholder, init_portable_flag, log_file_name, nyanpasu_config_path,
    old_app_home_dir, portable_marker_path, previous_app_name, profiles_path, service_dir,
    service_log_file, service_path, storage_path, AppEnv,
};
