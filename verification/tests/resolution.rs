use nyanpasu_dirs::{
    app_config_dir, app_data_dir, app_dir_placeholder, app_home_dir, app_install_dir,
    app_logs_dir, app_profiles_dir, app_resources_dir, cache_dir, clash_guard_overrides_path,
    clash_pid_path, detect_env, get_app_version, get_portable_flag,
    get_single_instance_placeholder, init_portable_flag, join_path, nyanpasu_config_path,
    old_app_home_dir, parent_dir, path_to_str, portable_marker_path, profiles_path, service_dir,
    service_log_file, service_path, storage_path, AppEnv, DirError, Platform,
};

fn linux_env() -> AppEnv {
    AppEnv {
        platform: Platform::Linux,
        portable: false,
        placeholder: "clash-nyanpasu".to_string(),
        home_dir: Some("/home/u".to_string()),
        config_base: Some("/home/u/.config/clash-nyanpasu".to_string()),
        data_base: Some("/home/u/.local/share/clash-nyanpasu".to_string()),
        cache_base: Some("/home/u/.cache".to_string()),
        install_dir: Some("/opt/app".to_string()),
        registry_app_dir: None,
        local_data_dir: None,
        resource_base: Some("/opt/app/res".to_string()),
    }
}

fn windows_env(portable: bool, registry: Option<&str>) -> AppEnv {
    AppEnv {
        platform: Platform::Windows,
        portable,
        placeholder: "Clash Nyanpasu".to_string(),
        home_dir: Some("C:/Users/u".to_string()),
        config_base: Some("C:/Users/u/AppData/Roaming/Clash Nyanpasu".to_string()),
        data_base: Some("C:/Users/u/AppData/Roaming/Clash Nyanpasu".to_string()),
        cache_base: Some("C:/Users/u/AppData/Local".to_string()),
        install_dir: Some("C:/Program Files/Nyanpasu".to_string()),
        registry_app_dir: registry.map(|s| s.to_string()),
        local_data_dir: None,
        resource_base: None,
    }
}

#[test]
fn test_dir_placeholder() {
    let placeholder = app_dir_placeholder(Platform::Windows);
    assert_eq!(placeholder, "Clash Nyanpasu");
    let placeholder = app_dir_placeholder(Platform::Linux);
    assert_eq!(placeholder, "clash-nyanpasu");
}

#[test]
fn config_dir_linux_uses_suggestion() {
    let env = linux_env();
    assert_eq!(
        app_config_dir(&env),
        Ok("/home/u/.config/clash-nyanpasu".to_string())
    );
}

#[test]
fn config_dir_windows_portable_sits_beside_executable() {
    let env = windows_env(true, None);
    assert_eq!(
        app_config_dir(&env),
        Ok("C:/Program Files/Nyanpasu/.config/clash-verge".to_string())
    );
}

#[test]
fn config_dir_windows_prefers_registry() {
    let env = windows_env(false, Some("D:/NyanpasuData"));
    assert_eq!(app_config_dir(&env), Ok("D:/NyanpasuData".to_string()));
}

#[test]
fn config_dir_windows_falls_back_to_suggestion() {
    let env = windows_env(false, None);
    assert_eq!(
        app_config_dir(&env),
        Ok("C:/Users/u/AppData/Roaming/Clash Nyanpasu".to_string())
    );
}

#[test]
fn config_dir_error_when_nothing_resolves() {
    let mut env = linux_env();
    env.config_base = None;
    assert_eq!(app_config_dir(&env), Err(DirError::ConfigDirNotFound));
}

#[test]
fn config_dir_windows_portable_needs_install_dir() {
    let mut env = windows_env(true, None);
    env.install_dir = None;
    assert_eq!(app_config_dir(&env), Err(DirError::InstallDirNotFound));
}

#[test]
fn data_dir_linux_uses_suggestion() {
    let env = linux_env();
    assert_eq!(
        app_data_dir(&env),
        Ok("/home/u/.local/share/clash-nyanpasu".to_string())
    );
}

#[test]
fn data_dir_windows_portable_sits_beside_executable() {
    let env = windows_env(true, None);
    assert_eq!(
        app_data_dir(&env),
        Ok("C:/Program Files/Nyanpasu/.data/clash-verge".to_string())
    );
}

#[test]
fn data_dir_error_when_nothing_resolves() {
    let mut env = linux_env();
    env.data_base = None;
    assert_eq!(app_data_dir(&env), Err(DirError::DataDirNotFound));
}

#[test]
fn home_dirs_differ_by_rename_only() {
    let env = linux_env();
    assert_eq!(
        old_app_home_dir(&env),
        Ok("/home/u/.config/clash-verge".to_string())
    );
    assert_eq!(
        app_home_dir(&env),
        Ok("/home/u/.config/clash-nyanpasu".to_string())
    );
}

#[test]
fn home_dirs_windows_portable() {
    let env = windows_env(true, None);
    assert_eq!(
        old_app_home_dir(&env),
        Ok("C:/Program Files/Nyanpasu/.config/clash-verge".to_string())
    );
    assert_eq!(
        app_home_dir(&env),
        Ok("C:/Program Files/Nyanpasu/.config/clash-nyanpasu".to_string())
    );
}

#[test]
fn home_dir_windows_registry_wins() {
    let env = windows_env(false, Some("D:/NyanpasuData"));
    assert_eq!(app_home_dir(&env), Ok("D:/NyanpasuData".to_string()));
}

#[test]
fn home_dir_errors_without_home() {
    let mut env = linux_env();
    env.home_dir = None;
    assert_eq!(app_home_dir(&env), Err(DirError::HomeDirNotFound));
    assert_eq!(old_app_home_dir(&env), Err(DirError::HomeDirNotFound));
    let mut wenv = windows_env(false, None);
    wenv.home_dir = None;
    assert_eq!(old_app_home_dir(&wenv), Err(DirError::OldHomeDirNotFound));
}

#[test]
fn resolution_is_stable_across_calls() {
    let env = linux_env();
    assert_eq!(app_config_dir(&env), app_config_dir(&env));
    assert_eq!(app_data_dir(&env), app_data_dir(&env));
    assert_eq!(app_home_dir(&env), app_home_dir(&env));
    assert_eq!(cache_dir(&env), cache_dir(&env));
}

#[test]
fn cache_dir_linux() {
    let env = linux_env();
    assert_eq!(
        cache_dir(&env),
        Ok("/home/u/.cache/clash-nyanpasu".to_string())
    );
}

#[test]
fn cache_dir_windows_adds_cache_level() {
    let env = windows_env(false, None);
    assert_eq!(
        cache_dir(&env),
        Ok("C:/Users/u/AppData/Local/Clash Nyanpasu/cache".to_string())
    );
}

#[test]
fn cache_dir_error_without_base() {
    let mut env = linux_env();
    env.cache_base = None;
    assert_eq!(cache_dir(&env), Err(DirError::CacheDirNotFound));
}

#[test]
fn resources_dir_joins_resources() {
    let env = linux_env();
    assert_eq!(app_resources_dir(&env), Ok("/opt/app/res/resources".to_string()));
    let mut env = linux_env();
    env.resource_base = None;
    assert_eq!(app_resources_dir(&env), Err(DirError::ResourceDirNotFound));
}

#[test]
fn file_paths_join_fixed_names() {
    let env = linux_env();
    let config = "/home/u/.config/clash-nyanpasu";
    let data = "/home/u/.local/share/clash-nyanpasu";
    assert_eq!(app_profiles_dir(&env), Ok(format!("{config}/profiles")));
    assert_eq!(app_logs_dir(&env), Ok(format!("{data}/logs")));
    assert_eq!(
        clash_guard_overrides_path(&env),
        Ok(format!("{config}/clash-guard-overrides.yaml"))
    );
    assert_eq!(
        nyanpasu_config_path(&env),
        Ok(format!("{config}/nyanpasu-config.yaml"))
    );
    assert_eq!(profiles_path(&env), Ok(format!("{config}/profiles.yaml")));
    assert_eq!(storage_path(&env), Ok(format!("{data}/storage.db")));
    assert_eq!(clash_pid_path(&env), Ok(format!("{data}/clash.pid")));
}

#[test]
fn service_paths_join_home_dir() {
    let env = windows_env(true, None);
    let home = "C:/Program Files/Nyanpasu/.config/clash-nyanpasu";
    assert_eq!(service_dir(&env), Ok(format!("{home}/service")));
    assert_eq!(
        service_path(&env),
        Ok(format!("{home}/service/clash-verge-service.exe"))
    );
}

#[test]
fn service_log_file_is_timestamped() {
    let env = linux_env();
    let p = service_log_file(&env).unwrap();
    assert!(p.starts_with("/home/u/.local/share/clash-nyanpasu/logs/service/"));
    assert!(p.ends_with(".log"));
    let mut env = linux_env();
    env.data_base = None;
    assert_eq!(service_log_file(&env), Err(DirError::DataDirNotFound));
}

#[test]
fn install_dir_is_parent_of_executable() {
    assert_eq!(app_install_dir("/tmp"), Ok("/".to_string()));
    assert_eq!(
        app_install_dir("/no/such/path/anywhere"),
        Err(DirError::InstallDirNotFound)
    );
}

#[test]
fn parent_dir_strips_last_component() {
    assert_eq!(parent_dir("/usr/bin/app"), Some("/usr/bin".to_string()));
    assert_eq!(parent_dir("/app"), Some("/".to_string()));
    assert_eq!(parent_dir("/"), None);
    assert_eq!(parent_dir("plain"), None);
}

#[test]
fn join_path_inserts_separator() {
    assert_eq!(join_path("/a", "b"), "/a/b".to_string());
    assert_eq!(join_path("", "b"), "/b".to_string());
}

#[test]
fn portable_marker_sits_in_install_config() {
    assert_eq!(
        portable_marker_path("C:/Program Files/Nyanpasu"),
        "C:/Program Files/Nyanpasu/.config/PORTABLE".to_string()
    );
}

#[test]
fn portable_flag_set_only_on_windows_with_marker() {
    assert!(init_portable_flag(Platform::Windows, true));
    assert!(!init_portable_flag(Platform::Windows, false));
    assert!(!init_portable_flag(Platform::Linux, true));
    assert!(!init_portable_flag(Platform::MacOs, true));
    let env = windows_env(true, None);
    assert!(get_portable_flag(&env));
    assert!(!get_portable_flag(&linux_env()));
}

#[test]
fn single_instance_placeholder_per_platform() {
    assert_eq!(get_single_instance_placeholder(&linux_env()), "clash-nyanpasu");
    let mut env = linux_env();
    env.platform = Platform::MacOs;
    env.local_data_dir = Some("/Users/u/Library/Application Support".to_string());
    assert_eq!(
        get_single_instance_placeholder(&env),
        "/Users/u/Library/Application Support/clash-nyanpasu"
    );
}

#[test]
fn app_version_is_reported() {
    assert_eq!(get_app_version(), "1.6.0");
}

#[test]
fn path_to_str_returns_text_unchanged() {
    let p = "/home/u/.config".to_string();
    assert_eq!(path_to_str(&p), Ok("/home/u/.config"));
}

#[test]
fn error_messages_name_the_category() {
    assert_eq!(
        DirError::ConfigDirNotFound.message(),
        "failed to get the app config dir"
    );
    assert_eq!(
        DirError::DataDirNotFound.message(),
        "failed to get the app data dir"
    );
    assert_eq!(
        DirError::HomeDirNotFound.message(),
        "failed to get the app home dir"
    );
    assert_eq!(
        DirError::OldHomeDirNotFound.message(),
        "failed to check old app home dir"
    );
    assert_eq!(
        DirError::InstallDirNotFound.message(),
        "failed to get the app install dir"
    );
    assert_eq!(DirError::CacheDirNotFound.message(), "failed to get the cache dir");
    assert_eq!(
        DirError::ResourceDirNotFound.message(),
        "failed to get the resource dir"
    );
    assert_eq!(DirError::InvalidPath.message(), "failed to get path");
}

#[test]
fn detect_env_fills_injected_values() {
    let env = detect_env(
        Platform::Linux,
        false,
        Some("/opt/app".to_string()),
        None,
        Some("/opt/app/res".to_string()),
    );
    assert_eq!(env.placeholder, "clash-nyanpasu");
    assert!(!env.portable);
    assert_eq!(env.install_dir, Some("/opt/app".to_string()));
    assert_eq!(env.registry_app_dir, None);
    assert_eq!(env.resource_base, Some("/opt/app/res".to_string()));
    if let Some(c) = &env.config_base {
        assert!(c.ends_with("/clash-nyanpasu"));
    }
    if let Some(d) = &env.data_base {
        assert!(d.ends_with("/clash-nyanpasu"));
    }
}
