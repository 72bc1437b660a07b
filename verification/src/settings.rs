//! The user's settings: their defaults, how a stored settings file is completed with
//! them, and the store that holds the current settings.
use vstd::prelude::*;

verus! {

/// The user's settings. Every field may be missing from a stored settings file.
#[derive(Debug, Clone)]
pub struct Settings {
    /// "light", "dark" or "system".
    pub theme: Option<String>,
    /// "en" or "zh-Hant".
    pub locale: Option<String>,
    pub output_dir: Option<String>,
    /// "Best", "1080p", "720p", "480p" or "Audio".
    pub default_format: Option<String>,
    pub concurrency: Option<u32>,
    pub filename_template: Option<String>,
    pub auto_clear_days: Option<u32>,
    pub remember_history: Option<bool>,
    /// "single", "ask" or "all".
    pub playlist_mode: Option<String>,
    pub write_subtitles: Option<bool>,
    pub subtitle_langs: Option<String>,
    pub sponsor_block: Option<bool>,
    pub embed_thumbnail: Option<bool>,
    pub embed_metadata: Option<bool>,
    pub embed_chapters: Option<bool>,
    pub restrict_filenames: Option<bool>,
    pub write_thumbnail: Option<bool>,
    pub write_info_json: Option<bool>,
    pub write_description: Option<bool>,
    /// "", "chrome", "firefox", "edge", "brave", "opera" or "vivaldi".
    pub cookies_from_browser: Option<String>,
    /// Such as "5M".
    pub rate_limit: Option<String>,
    pub retries: Option<u32>,
    /// Keep the video file when extracting audio.
    pub keep_video: Option<bool>,
    /// Arguments passed through to yt-dlp, split at white space.
    pub extra_args: Option<String>,
    pub url_history: Vec<String>,
    pub output_dir_history: Vec<String>,
    pub window_w: Option<u32>,
    pub window_h: Option<u32>,
    /// The download queue as it was last saved, one JSON document per job.
    pub jobs_snapshot: Option<Vec<String>>,
}

/// The first of two optional values that is present.
pub open spec fn or_opt<T>(a: Option<T>, b: Option<T>) -> Option<T> {
    match a {
        Some(x) => Some(x),
        None => b,
    }
}

/// The first of two optional values that is present.
fn or_opt_exec<T>(a: Option<T>, b: Option<T>) -> (r: Option<T>)
    ensures
        r == or_opt(a, b),
{
    match a {
        Some(x) => Some(x),
        None => b,
    }
}

/// Whether `o` holds a string with the text `t`.
pub open spec fn text_is(o: Option<String>, t: Seq<char>) -> bool {
    o matches Some(s) && s@ == t
}

/// The settings of a fresh installation, the download folder apart (it comes from the
/// platform).
pub open spec fn is_default_settings(s: Settings) -> bool {
    &&& text_is(s.theme, "system"@)
    &&& text_is(s.locale, "en"@)
    &&& text_is(s.default_format, "1080p"@)
    &&& s.concurrency == Some(3u32)
    &&& text_is(s.filename_template, "%(title)s [%(id)s].%(ext)s"@)
    &&& s.auto_clear_days == Some(0u32)
    &&& s.remember_history == Some(true)
    &&& text_is(s.playlist_mode, "single"@)
    &&& s.write_subtitles == Some(false)
    &&& text_is(s.subtitle_langs, "en.*"@)
    &&& s.sponsor_block == Some(false)
    &&& s.embed_thumbnail == Some(false)
    &&& s.embed_metadata == Some(false)
    &&& s.embed_chapters == Some(false)
    &&& s.restrict_filenames == Some(false)
    &&& s.write_thumbnail == Some(false)
    &&& s.write_info_json == Some(false)
    &&& s.write_description == Some(false)
    &&& text_is(s.cookies_from_browser, Seq::empty())
    &&& text_is(s.rate_limit, Seq::empty())
    &&& s.retries == Some(10u32)
    &&& s.keep_video == Some(false)
    &&& text_is(s.extra_args, Seq::empty())
    &&& s.url_history@.len() == 0
    &&& s.output_dir_history@.len() == 0
    &&& s.window_w == Some(960u32)
    &&& s.window_h == Some(640u32)
    &&& s.jobs_snapshot is None
}

/// `stored` with every missing field taken from `d`; the histories and the jobs snapshot
/// are always those of `stored`.
pub open spec fn merged(stored: Settings, d: Settings) -> Settings {
    Settings {
        theme: or_opt(stored.theme, d.theme),
        locale: or_opt(stored.locale, d.locale),
        output_dir: or_opt(stored.output_dir, d.output_dir),
        default_format: or_opt(stored.default_format, d.default_format),
        concurrency: or_opt(stored.concurrency, d.concurrency),
        filename_template: or_opt(stored.filename_template, d.filename_template),
        auto_clear_days: or_opt(stored.auto_clear_days, d.auto_clear_days),
        remember_history: or_opt(stored.remember_history, d.remember_history),
        playlist_mode: or_opt(stored.playlist_mode, d.playlist_mode),
        write_subtitles: or_opt(stored.write_subtitles, d.write_subtitles),
        subtitle_langs: or_opt(stored.subtitle_langs, d.subtitle_langs),
        sponsor_block: or_opt(stored.sponsor_block, d.sponsor_block),
        embed_thumbnail: or_opt(stored.embed_thumbnail, d.embed_thumbnail),
        embed_metadata: or_opt(stored.embed_metadata, d.embed_metadata),
        embed_chapters: or_opt(stored.embed_chapters, d.embed_chapters),
        restrict_filenames: or_opt(stored.restrict_filenames, d.restrict_filenames),
        write_thumbnail: or_opt(stored.write_thumbnail, d.write_thumbnail),
        write_info_json: or_opt(stored.write_info_json, d.write_info_json),
        write_description: or_opt(stored.write_description, d.write_description),
        cookies_from_browser: or_opt(stored.cookies_from_browser, d.cookies_from_browser),
        rate_limit: or_opt(stored.rate_limit, d.rate_limit),
        retries: or_opt(stored.retries, d.retries),
        keep_video: or_opt(stored.keep_video, d.keep_video),
        extra_args: or_opt(stored.extra_args, d.extra_args),
        url_history: stored.url_history,
        output_dir_history: stored.output_dir_history,
        window_w: or_opt(stored.window_w, d.window_w),
        window_h: or_opt(stored.window_h, d.window_h),
        jobs_snapshot: stored.jobs_snapshot,
    }
}

/// Whether every field that has a fixed default is present.
pub open spec fn is_complete(s: Settings) -> bool {
    &&& s.theme is Some
    &&& s.locale is Some
    &&& s.default_format is Some
    &&& s.concurrency is Some
    &&& s.filename_template is Some
    &&& s.auto_clear_days is Some
    &&& s.remember_history is Some
    &&& s.playlist_mode is Some
    &&& s.write_subtitles is Some
    &&& s.subtitle_langs is Some
    &&& s.sponsor_block is Some
    &&& s.embed_thumbnail is Some
    &&& s.embed_metadata is Some
    &&& s.embed_chapters is Some
    &&& s.restrict_filenames is Some
    &&& s.write_thumbnail is Some
    &&& s.write_info_json is Some
    &&& s.write_description is Some
    &&& s.cookies_from_browser is Some
    &&& s.rate_limit is Some
    &&& s.retries is Some
    &&& s.keep_video is Some
    &&& s.extra_args is Some
    &&& s.window_w is Some
    &&& s.window_h is Some
}

/// Calls `dirs::download_dir` and turns the path into text with `to_string_lossy`. The
/// result depends on the platform and the user's environment; nothing is claimed of it.
#[verifier::external_body]
fn download_dir() -> Option<String> {
    dirs::download_dir().map(|p| p.to_string_lossy().into_owned())
}

impl Settings {
    /// The settings of a fresh installation, with `download_dir` as the output folder.
    pub fn defaults_for(download_dir: Option<String>) -> (r: Settings)
        ensures
            is_default_settings(r),
            r.output_dir == download_dir,
    {
        Settings {
            theme: Some("system".to_owned()),
            locale: Some("en".to_owned()),
            output_dir: download_dir,
            default_format: Some("1080p".to_owned()),
            concurrency: Some(3),
            filename_template: Some("%(title)s [%(id)s].%(ext)s".to_owned()),
            auto_clear_days: Some(0),
            remember_history: Some(true),
            playlist_mode: Some("single".to_owned()),
            write_subtitles: Some(false),
            subtitle_langs: Some("en.*".to_owned()),
            sponsor_block: Some(false),
            embed_thumbnail: Some(false),
            embed_metadata: Some(false),
            embed_chapters: Some(false),
            restrict_filenames: Some(false),
            write_thumbnail: Some(false),
            write_info_json: Some(false),
            write_description: Some(false),
            cookies_from_browser: Some(String::new()),
            rate_limit: Some(String::new()),
            retries: Some(10),
            keep_video: Some(false),
            extra_args: Some(String::new()),
            url_history: Vec::new(),
            output_dir_history: Vec::new(),
            window_w: Some(960),
            window_h: Some(640),
            jobs_snapshot: None,
        }
    }

    /// The settings of a fresh installation; the output folder is the platform's download
    /// folder, when it has one.
    pub fn defaults() -> (r: Settings)
        ensures
            is_default_settings(r),
    {
        Settings::defaults_for(download_dir())
    }

    /// These settings with every missing field taken from `d`.
    pub fn merge_defaults(self, d: Settings) -> (r: Settings)
        ensures
            r == merged(self, d),
    {
        Settings {
            theme: or_opt_exec(self.theme, d.theme),
            locale: or_opt_exec(self.locale, d.locale),
            output_dir: or_opt_exec(self.output_dir, d.output_dir),
            default_format: or_opt_exec(self.default_format, d.default_format),
            concurrency: or_opt_exec(self.concurrency, d.concurrency),
            filename_template: or_opt_exec(self.filename_template, d.filename_template),
            auto_clear_days: or_opt_exec(self.auto_clear_days, d.auto_clear_days),
            remember_history: or_opt_exec(self.remember_history, d.remember_history),
            playlist_mode: or_opt_exec(self.playlist_mode, d.playlist_mode),
            write_subtitles: or_opt_exec(self.write_subtitles, d.write_subtitles),
            subtitle_langs: or_opt_exec(self.subtitle_langs, d.subtitle_langs),
            sponsor_block: or_opt_exec(self.sponsor_block, d.sponsor_block),
            embed_thumbnail: or_opt_exec(self.embed_thumbnail, d.embed_thumbnail),
            embed_metadata: or_opt_exec(self.embed_metadata, d.embed_metadata),
            embed_chapters: or_opt_exec(self.embed_chapters, d.embed_chapters),
            restrict_filenames: or_opt_exec(self.restrict_filenames, d.restrict_filenames),
            write_thumbnail: or_opt_exec(self.write_thumbnail, d.write_thumbnail),
            write_info_json: or_opt_exec(self.write_info_json, d.write_info_json),
            write_description: or_opt_exec(self.write_description, d.write_description),
            cookies_from_browser: or_opt_exec(self.cookies_from_browser, d.cookies_from_browser),
            rate_limit: or_opt_exec(self.rate_limit, d.rate_limit),
            retries: or_opt_exec(self.retries, d.retries),
            keep_video: or_opt_exec(self.keep_video, d.keep_video),
            extra_args: or_opt_exec(self.extra_args, d.extra_args),
            url_history: self.url_history,
            output_dir_history: self.output_dir_history,
            window_w: or_opt_exec(self.window_w, d.window_w),
            window_h: or_opt_exec(self.window_h, d.window_h),
            jobs_snapshot: self.jobs_snapshot,
        }
    }

    /// The window size to restore at start-up: both dimensions, when both are set.
    pub fn initial_window_size(&self) -> (r: Option<(u32, u32)>)
        ensures
            r == (match (self.window_w, self.window_h) {
                (Some(w), Some(h)) => Some((w, h)),
                _ => None,
            }),
    {
        match (self.window_w, self.window_h) {
            (Some(w), Some(h)) => Some((w, h)),
            _ => None,
        }
    }
}


impl Default for Settings {
    /// Settings with every field missing and empty histories.
    fn default() -> (r: Settings)
        ensures
            r.theme is None && r.locale is None && r.output_dir is None && r.default_format is None,
            r.concurrency is None && r.filename_template is None && r.auto_clear_days is None,
            r.remember_history is None && r.playlist_mode is None && r.write_subtitles is None,
            r.subtitle_langs is None && r.sponsor_block is None && r.embed_thumbnail is None,
            r.embed_metadata is None && r.embed_chapters is None && r.restrict_filenames is None,
            r.write_thumbnail is None && r.write_info_json is None && r.write_description is None,
            r.cookies_from_browser is None && r.rate_limit is None && r.retries is None,
            r.keep_video is None && r.extra_args is None && r.window_w is None && r.window_h is None,
            r.url_history@.len() == 0 && r.output_dir_history@.len() == 0,
            r.jobs_snapshot is None,
    {
        Settings {
            theme: None,
            locale: None,
            output_dir: None,
            default_format: None,
            concurrency: None,
            filename_template: None,
            auto_clear_days: None,
            remember_history: None,
            playlist_mode: None,
            write_subtitles: None,
            subtitle_langs: None,
            sponsor_block: None,
            embed_thumbnail: None,
            embed_metadata: None,
            embed_chapters: None,
            restrict_filenames: None,
            write_thumbnail: None,
            write_info_json: None,
            write_description: None,
            cookies_from_browser: None,
            rate_limit: None,
            retries: None,
            keep_video: None,
            extra_args: None,
            url_history: Vec::new(),
            output_dir_history: Vec::new(),
            window_w: None,
            window_h: None,
            jobs_snapshot: None,
        }
    }
}

/// Law: completing stored settings keeps each field that the file holds and takes each
/// missing field from the defaults, field by field; the histories and the jobs snapshot
/// are always those of the file.
pub proof fn lemma_merge_field_by_field(stored: Settings, d: Settings)
    ensures
        stored.theme is Some ==> merged(stored, d).theme == stored.theme,
        stored.theme is None ==> merged(stored, d).theme == d.theme,
        stored.locale is Some ==> merged(stored, d).locale == stored.locale,
        stored.locale is None ==> merged(stored, d).locale == d.locale,
        stored.output_dir is Some ==> merged(stored, d).output_dir == stored.output_dir,
        stored.output_dir is None ==> merged(stored, d).output_dir == d.output_dir,
        stored.default_format is Some ==> merged(stored, d).default_format == stored.default_format,
        stored.default_format is None ==> merged(stored, d).default_format == d.default_format,
        stored.concurrency is Some ==> merged(stored, d).concurrency == stored.concurrency,
        stored.concurrency is None ==> merged(stored, d).concurrency == d.concurrency,
        stored.filename_template is Some ==> merged(stored, d).filename_template == stored.filename_template,
        stored.filename_template is None ==> merged(stored, d).filename_template == d.filename_template,
        stored.auto_clear_days is Some ==> merged(stored, d).auto_clear_days == stored.auto_clear_days,
        stored.auto_clear_days is None ==> merged(stored, d).auto_clear_days == d.auto_clear_days,
        stored.remember_history is Some ==> merged(stored, d).remember_history == stored.remember_history,
        stored.remember_history is None ==> merged(stored, d).remember_history == d.remember_history,
        stored.playlist_mode is Some ==> merged(stored, d).playlist_mode == stored.playlist_mode,
        stored.playlist_mode is None ==> merged(stored, d).playlist_mode == d.playlist_mode,
        stored.write_subtitles is Some ==> merged(stored, d).write_subtitles == stored.write_subtitles,
        stored.write_subtitles is None ==> merged(stored, d).write_subtitles == d.write_subtitles,
        stored.subtitle_langs is Some ==> merged(stored, d).subtitle_langs == stored.subtitle_langs,
        stored.subtitle_langs is None ==> merged(stored, d).subtitle_langs == d.subtitle_langs,
        stored.sponsor_block is Some ==> merged(stored, d).sponsor_block == stored.sponsor_block,
        stored.sponsor_block is None ==> merged(stored, d).sponsor_block == d.sponsor_block,
        stored.embed_thumbnail is Some ==> merged(stored, d).embed_thumbnail == stored.embed_thumbnail,
        stored.embed_thumbnail is None ==> merged(stored, d).embed_thumbnail == d.embed_thumbnail,
        stored.embed_metadata is Some ==> merged(stored, d).embed_metadata == stored.embed_metadata,
        stored.embed_metadata is None ==> merged(stored, d).embed_metadata == d.embed_metadata,
        stored.embed_chapters is Some ==> merged(stored, d).embed_chapters == stored.embed_chapters,
        stored.embed_chapters is None ==> merged(stored, d).embed_chapters == d.embed_chapters,
        stored.restrict_filenames is Some ==> merged(stored, d).restrict_filenames == stored.restrict_filenames,
        stored.restrict_filenames is None ==> merged(stored, d).restrict_filenames == d.restrict_filenames,
        stored.write_thumbnail is Some ==> merged(stored, d).write_thumbnail == stored.write_thumbnail,
        stored.write_thumbnail is None ==> merged(stored, d).write_thumbnail == d.write_thumbnail,
        stored.write_info_json is Some ==> merged(stored, d).write_info_json == stored.write_info_json,
        stored.write_info_json is None ==> merged(stored, d).write_info_json == d.write_info_json,
        stored.write_description is Some ==> merged(stored, d).write_description == stored.write_description,
        stored.write_description is None ==> merged(stored, d).write_description == d.write_description,
        stored.cookies_from_browser is Some ==> merged(stored, d).cookies_from_browser == stored.cookies_from_browser,
        stored.cookies_from_browser is None ==> merged(stored, d).cookies_from_browser == d.cookies_from_browser,
        stored.rate_limit is Some ==> merged(stored, d).rate_limit == stored.rate_limit,
        stored.rate_limit is None ==> merged(stored, d).rate_limit == d.rate_limit,
        stored.retries is Some ==> merged(stored, d).retries == stored.retries,
        stored.retries is None ==> merged(stored, d).retries == d.retries,
        stored.keep_video is Some ==> merged(stored, d).keep_video == stored.keep_video,
        stored.keep_video is None ==> merged(stored, d).keep_video == d.keep_video,
        stored.extra_args is Some ==> merged(stored, d).extra_args == stored.extra_args,
        stored.extra_args is None ==> merged(stored, d).extra_args == d.extra_args,
        stored.window_w is Some ==> merged(stored, d).window_w == stored.window_w,
        stored.window_w is None ==> merged(stored, d).window_w == d.window_w,
        stored.window_h is Some ==> merged(stored, d).window_h == stored.window_h,
        stored.window_h is None ==> merged(stored, d).window_h == d.window_h,
        merged(stored, d).url_history == stored.url_history,
        merged(stored, d).output_dir_history == stored.output_dir_history,
        merged(stored, d).jobs_snapshot == stored.jobs_snapshot,
{
}

/// Law: a field that an older settings file lacks comes back with its default value; for
/// instance remembering the history is on, and three downloads run at once.
pub proof fn lemma_missing_fields_get_defaults(stored: Settings, d: Settings)
    requires
        is_default_settings(d),
    ensures
        stored.remember_history is None ==> merged(stored, d).remember_history == Some(true),
        stored.concurrency is None ==> merged(stored, d).concurrency == Some(3u32),
        stored.retries is None ==> merged(stored, d).retries == Some(10u32),
        stored.theme is None ==> merged(stored, d).theme == d.theme,
{
}

/// Law: completing settings twice with the same defaults is completing them once.
pub proof fn lemma_merge_idempotent(stored: Settings, d: Settings)
    ensures
        merged(merged(stored, d), d) == merged(stored, d),
{
}

/// Law: completing settings with the defaults leaves no field with a fixed default
/// missing, and keeps the output folder that the stored settings name.
pub proof fn lemma_merge_completes(stored: Settings, d: Settings)
    requires
        is_default_settings(d),
    ensures
        is_complete(merged(stored, d)),
        stored.output_dir is Some ==> merged(stored, d).output_dir == stored.output_dir,
{
}

/// Law: settings that were saved complete come back unchanged when they are read and
/// completed with the defaults; this is what a restart gives back of the last save.
pub proof fn lemma_saved_settings_round_trip(saved: Settings, d: Settings)
    requires
        is_complete(saved),
        saved.output_dir is Some || d.output_dir is None,
    ensures
        merged(saved, d) == saved,
{
}

/// Law: the defaults, completed with themselves, are the defaults.
pub proof fn lemma_defaults_fixed_point(d: Settings)
    ensures
        merged(d, d) == d,
{
}

/// The settings file and the settings currently in effect.
pub struct SettingsStore {
    path: String,
    current: Settings,
}

impl SettingsStore {
    /// The settings currently in effect.
    pub closed spec fn settings(&self) -> Settings {
        self.current
    }

    /// Where the settings are saved.
    pub closed spec fn file_path(&self) -> Seq<char> {
        self.path@
    }

    /// A store for the settings file at `path`, holding the default settings.
    pub fn new_default(path: String) -> (r: Self)
        ensures
            r.file_path() == path@,
            is_default_settings(r.settings()),
    {
        SettingsStore::with_defaults(path, None, Settings::defaults())
    }

    /// A store for the settings file at `path`, given what the file holds (`None` when
    /// there is no file) and the default settings: the defaults when there is no file,
    /// else the stored settings completed with the defaults.
    pub fn with_defaults(path: String, stored: Option<Settings>, defaults: Settings) -> (r: Self)
        ensures
            r.file_path() == path@,
            r.settings() == match stored {
                None => defaults,
                Some(p) => merged(p, defaults),
            },
    {
        match stored {
            None => SettingsStore { path, current: defaults },
            Some(p) => SettingsStore { path, current: p.merge_defaults(defaults) },
        }
    }

    /// A store for the settings file at `path`. `stored` is what the file holds, or
    /// `None` when there is no file: the settings are then the defaults, and otherwise
    /// the stored settings completed with the defaults.
    pub fn load(path: String, stored: Option<Settings>) -> (r: Self)
        ensures
            r.file_path() == path@,
            match stored {
                None => is_default_settings(r.settings()),
                Some(p) => exists|d: Settings|
                    is_default_settings(d) && r.settings() == #[trigger] merged(p, d),
            },
            is_complete(r.settings()),
    {
        let d = Settings::defaults();
        let ghost dg = d;
        let ghost sg = stored;
        let r = SettingsStore::with_defaults(path, stored, d);
        proof {
            if let Some(p) = sg {
                lemma_merge_completes(p, dg);
            }
        }
        r
    }

    /// The settings currently in effect.
    pub fn get(&self) -> (r: &Settings)
        ensures
            *r == self.settings(),
    {
        &self.current
    }

    /// Where the settings are saved.
    pub fn path(&self) -> (r: &str)
        ensures
            r@ == self.file_path(),
    {
        self.path.as_str()
    }

    /// Puts `new` in effect.
    pub fn update(&mut self, new: Settings)
        ensures
            final(self).settings() == new,
            final(self).file_path() == old(self).file_path(),
    {
        self.current = new;
    }

    /// Records the window's new size in the settings in effect.
    pub fn record_resize(&mut self, width: u32, height: u32)
        ensures
            final(self).settings() == (Settings {
                window_w: Some(width),
                window_h: Some(height),
                ..old(self).settings()
            }),
            final(self).file_path() == old(self).file_path(),
    {
        self.current.window_w = Some(width);
        self.current.window_h = Some(height);
    }
}

} // verus!
