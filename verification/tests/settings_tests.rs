use spool::settings::{Settings, SettingsStore};

fn sample_stored() -> Settings {
    Settings {
        theme: Some("dark".to_string()),
        concurrency: Some(5),
        url_history: vec!["https://a".to_string()],
        window_w: Some(1200),
        ..Settings::default()
    }
}

#[test]
fn defaults_have_documented_values() {
    let d = Settings::defaults_for(Some("/home/alice/Downloads".to_string()));
    assert_eq!(d.theme.as_deref(), Some("system"));
    assert_eq!(d.locale.as_deref(), Some("en"));
    assert_eq!(d.output_dir.as_deref(), Some("/home/alice/Downloads"));
    assert_eq!(d.default_format.as_deref(), Some("1080p"));
    assert_eq!(d.concurrency, Some(3));
    assert_eq!(d.filename_template.as_deref(), Some("%(title)s [%(id)s].%(ext)s"));
    assert_eq!(d.auto_clear_days, Some(0));
    assert_eq!(d.remember_history, Some(true));
    assert_eq!(d.playlist_mode.as_deref(), Some("single"));
    assert_eq!(d.write_subtitles, Some(false));
    assert_eq!(d.subtitle_langs.as_deref(), Some("en.*"));
    assert_eq!(d.cookies_from_browser.as_deref(), Some(""));
    assert_eq!(d.rate_limit.as_deref(), Some(""));
    assert_eq!(d.retries, Some(10));
    assert_eq!(d.extra_args.as_deref(), Some(""));
    assert!(d.url_history.is_empty() && d.output_dir_history.is_empty());
    assert_eq!((d.window_w, d.window_h), (Some(960), Some(640)));
    assert!(d.jobs_snapshot.is_none());
}

#[test]
fn default_is_all_missing() {
    let s = Settings::default();
    assert!(s.theme.is_none() && s.concurrency.is_none() && s.window_w.is_none());
    assert!(s.url_history.is_empty() && s.jobs_snapshot.is_none());
}

#[test]
fn merge_keeps_stored_and_fills_missing() {
    let d = Settings::defaults_for(None);
    let m = sample_stored().merge_defaults(d);
    assert_eq!(m.theme.as_deref(), Some("dark"));
    assert_eq!(m.concurrency, Some(5));
    assert_eq!(m.window_w, Some(1200));
    assert_eq!(m.window_h, Some(640));
    assert_eq!(m.locale.as_deref(), Some("en"));
    assert_eq!(m.url_history, vec!["https://a".to_string()]);
    assert!(m.output_dir.is_none());
}

#[test]
fn merge_twice_is_merge_once() {
    let d = || Settings::defaults_for(Some("D".to_string()));
    let once = sample_stored().merge_defaults(d());
    let twice = once.clone().merge_defaults(d());
    assert_eq!(format!("{:?}", once), format!("{:?}", twice));
}

#[test]
fn load_without_file_gives_defaults() {
    let store = SettingsStore::load("settings.json".to_string(), None);
    assert_eq!(store.path(), "settings.json");
    let s = store.get();
    assert_eq!(s.theme.as_deref(), Some("system"));
    assert_eq!(s.concurrency, Some(3));
}

#[test]
fn load_merges_stored() {
    let store = SettingsStore::load("x/settings.json".to_string(), Some(sample_stored()));
    let s = store.get();
    assert_eq!(s.theme.as_deref(), Some("dark"));
    assert_eq!(s.concurrency, Some(5));
    assert_eq!(s.retries, Some(10));
    assert_eq!(s.url_history, vec!["https://a".to_string()]);
}

#[test]
fn saved_settings_come_back_unchanged() {
    let saved = SettingsStore::load("s.json".to_string(), Some(sample_stored())).get().clone();
    let reread = SettingsStore::load("s.json".to_string(), Some(saved.clone()));
    assert_eq!(format!("{:?}", reread.get()), format!("{:?}", saved));
}

#[test]
fn new_default_store() {
    let store = SettingsStore::new_default("p".to_string());
    assert_eq!(store.path(), "p");
    assert_eq!(store.get().playlist_mode.as_deref(), Some("single"));
}

#[test]
fn update_then_get() {
    let mut store = SettingsStore::new_default("p".to_string());
    store.update(sample_stored());
    assert_eq!(store.get().theme.as_deref(), Some("dark"));
    assert!(store.get().locale.is_none());
    assert_eq!(store.path(), "p");
}

#[test]
fn record_resize_sets_only_the_size() {
    let mut store = SettingsStore::load("p".to_string(), Some(sample_stored()));
    store.record_resize(1024, 700);
    let s = store.get();
    assert_eq!((s.window_w, s.window_h), (Some(1024), Some(700)));
    assert_eq!(s.theme.as_deref(), Some("dark"));
    assert_eq!(s.initial_window_size(), Some((1024, 700)));
}

#[test]
fn initial_window_size_needs_both() {
    let s = Settings { window_w: Some(800), ..Settings::default() };
    assert_eq!(s.initial_window_size(), None);
    let s = Settings { window_w: Some(800), window_h: Some(600), ..Settings::default() };
    assert_eq!(s.initial_window_size(), Some((800, 600)));
}

#[test]
fn platform_defaults_agree_with_explicit_ones() {
    let d = Settings::defaults();
    let e = Settings::defaults_for(d.output_dir.clone());
    assert_eq!(format!("{:?}", d), format!("{:?}", e));
}

#[test]
fn with_defaults_uses_given_defaults() {
    let d = Settings::defaults_for(Some("E:/Downloads".to_string()));
    let store = SettingsStore::with_defaults("s.json".to_string(), None, d.clone());
    assert_eq!(format!("{:?}", store.get()), format!("{:?}", d));
    let store = SettingsStore::with_defaults("s.json".to_string(), Some(sample_stored()), d);
    let s = store.get();
    assert_eq!(s.output_dir.as_deref(), Some("E:/Downloads"));
    assert_eq!(s.theme.as_deref(), Some("dark"));
    assert_eq!(s.locale.as_deref(), Some("en"));
}
