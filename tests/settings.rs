use wallow::config::{
    default_categories, default_purity, default_resolution, default_sorting, default_source,
    expand_path, resolve_options, resolve_setting, search_options, AppConfig, CommonConfig,
    ConfigFile, ScheduleConfig, SearchDefaults, SearchOverrides, SourceConfigs, StoredSearch,
};
use wallow::error::EngineError;

fn empty_stored() -> StoredSearch {
    StoredSearch { query: None, resolution: None, categories: None, purity: None, sorting: None }
}

fn no_overrides() -> SearchOverrides {
    SearchOverrides { query: None, resolution: None, categories: None, purity: None, sorting: None }
}

fn file(wallpaper_dir: Option<&str>, converted: Vec<&str>, source: &str) -> ConfigFile {
    ConfigFile {
        common: CommonConfig {
            wallpaper_dir: wallpaper_dir.map(|s| s.to_string()),
            converted_dirs: converted.into_iter().map(|s| s.to_string()).collect(),
            source: source.to_string(),
            theme: Some("nord".to_string()),
            search: empty_stored(),
        },
        source: SourceConfigs { wallhaven_api_key: Some("filekey".to_string()), unsplash_access_key: None },
        schedule: ScheduleConfig { cron: None },
    }
}

#[test]
fn setting_priority_explicit_then_stored_then_builtin() {
    assert_eq!(resolve_setting(Some("x"), Some("y"), "b"), "x");
    assert_eq!(resolve_setting(None, Some("y"), "b"), "y");
    assert_eq!(resolve_setting(None, None, "b"), "b");
}

#[test]
fn builtin_defaults() {
    assert_eq!(default_resolution(), "3840x2160");
    assert_eq!(default_categories(), "111");
    assert_eq!(default_purity(), "100");
    assert_eq!(default_sorting(), "random");
    assert_eq!(default_source(), "wallhaven");
    let d = SearchDefaults::default();
    assert!(d.query.is_none());
    assert_eq!(d.sorting, "random");
}

#[test]
fn one_field_overridden_others_inherited() {
    let stored = StoredSearch {
        query: Some("anime".into()),
        resolution: Some("1920x1080".into()),
        categories: None,
        purity: None,
        sorting: Some("toplist".into()),
    };
    let mut over = no_overrides();
    over.sorting = Some("date_added".into());
    let o = search_options(&over, &stored);
    assert_eq!(o.query.as_deref(), Some("anime"));
    assert_eq!(o.resolution, "1920x1080");
    assert_eq!(o.categories, "111");
    assert_eq!(o.purity, "100");
    assert_eq!(o.sorting, "date_added");
    let all_builtin = search_options(&no_overrides(), &empty_stored());
    assert!(all_builtin.query.is_none());
    assert_eq!(all_builtin.resolution, "3840x2160");
    let mut q = no_overrides();
    q.query = Some("sea".into());
    let d = SearchDefaults::from_stored(&stored);
    assert_eq!(resolve_options(&q, &d).query.as_deref(), Some("sea"));
}

#[test]
fn defaults_set_by_key() {
    let mut d = SearchDefaults::default();
    assert!(d.set_value("query", "anime").is_ok());
    assert_eq!(d.query.as_deref(), Some("anime"));
    assert!(d.set_value("res", "1920x1080").is_ok());
    assert_eq!(d.resolution, "1920x1080");
    assert!(d.set_value("resolution", "2560x1440").is_ok());
    assert_eq!(d.resolution, "2560x1440");
    assert!(d.set_value("sorting", "views").is_ok());
    assert_eq!(d.sorting, "views");
    match d.set_value("purity", "111") {
        Err(EngineError::UnknownConfigKey(k)) => assert_eq!(k, "purity"),
        _ => panic!("expected an unknown key"),
    }
    assert_eq!(d.purity, "100");
}

#[test]
fn tilde_and_relative_dirs_are_taken_from_home() {
    assert_eq!(expand_path("~/walls", "/home/u"), "/home/u/walls");
    assert_eq!(expand_path("~", "/home/u"), "/home/u");
    assert_eq!(expand_path("walls", "/home/u"), "/home/u/walls");
    assert_eq!(expand_path("/srv/walls", "/home/u"), "/srv/walls");
    assert_eq!(expand_path("~other/w", "/home/u"), "/home/u/~other/w");
}

#[test]
fn app_config_from_environment_and_file() {
    let c = AppConfig::new("/home/u", None, Some("envkey".into()), file(None, vec![], ""));
    assert_eq!(c.config_path, "/home/u/.config/wallow/config.toml");
    assert_eq!(c.wallpaper_dir, "/home/u/Pictures/wallow");
    assert_eq!(c.converted_dirs, vec!["/home/u/Pictures/wallow/converted"]);
    assert_eq!(c.default_source, "wallhaven");
    assert_eq!(c.api_key.as_deref(), Some("filekey"));
    assert_eq!(c.unsplash_access_key.as_deref(), Some("envkey"));
    assert_eq!(c.converted_dir(), "/home/u/Pictures/wallow/converted");
    let c2 = AppConfig::new("/home/u", Some("env".into()), None, file(Some("~/w"), vec!["c1", "/abs"], "unsplash"));
    assert_eq!(c2.wallpaper_dir, "/home/u/w");
    assert_eq!(c2.converted_dirs, vec!["/home/u/c1", "/abs"]);
    assert_eq!(c2.default_source, "unsplash");
    assert_eq!(c2.api_key.as_deref(), Some("env"));
}

#[test]
fn cron_is_recorded_and_stored_back() {
    let mut c = AppConfig::new("/home/u", None, None, file(None, vec![], ""));
    c.set_cron("0 8 * * *".to_string());
    assert_eq!(c.schedule.cron.as_deref(), Some("0 8 * * *"));
    let f = c.to_config_file();
    assert_eq!(f.schedule.cron.as_deref(), Some("0 8 * * *"));
    assert_eq!(f.common.wallpaper_dir.as_deref(), Some("/home/u/Pictures/wallow"));
    assert_eq!(f.common.search.resolution.as_deref(), Some("3840x2160"));
    assert_eq!(f.source.wallhaven_api_key.as_deref(), Some("filekey"));
}
