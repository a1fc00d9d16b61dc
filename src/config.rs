//! Settings: the three-tier option merging (explicit argument, stored
//! default, built-in constant), the stored search defaults and the
//! application configuration.

use vstd::prelude::*;
use vstd::string::*;
use crate::error::EngineError;
use crate::paths::{is_absolute, join_path, joined, path_is_absolute};
use crate::source::SearchOptions;
use crate::text::str_eq;

verus! {

/// The view of an optional string slice.
pub open spec fn opt_view(o: Option<&str>) -> Option<Seq<char>> {
    match o {
        Some(x) => Some(x@),
        None => None,
    }
}

/// The view of an optional string.
pub open spec fn opt_string_view(o: Option<String>) -> Option<Seq<char>> {
    match o {
        Some(x) => Some(x@),
        None => None,
    }
}

/// Three-tier priority: the explicit value if given, else the stored one if
/// present, else the built-in constant.
pub open spec fn resolve(explicit: Option<Seq<char>>, stored: Option<Seq<char>>, builtin: Seq<char>) -> Seq<char> {
    match explicit {
        Some(x) => x,
        None => match stored {
            Some(y) => y,
            None => builtin,
        },
    }
}

/// Picks one setting by three-tier priority.
pub fn resolve_setting(explicit: Option<&str>, stored: Option<&str>, builtin: &str) -> (r: String)
    ensures
        r@ == resolve(opt_view(explicit), opt_view(stored), builtin@),
{
    match explicit {
        Some(x) => String::from_str(x),
        None => match stored {
            Some(y) => String::from_str(y),
            None => String::from_str(builtin),
        },
    }
}

/// Three-tier priority holds for every setting: an explicit value wins, a
/// stored value is used when no explicit one is given, and the built-in
/// constant only when neither is present.
pub proof fn lemma_three_tier_priority(x: Seq<char>, y: Seq<char>, builtin: Seq<char>, stored: Option<Seq<char>>)
    ensures
        resolve(Some(x), stored, builtin) == x,
        resolve(None, Some(y), builtin) == y,
        resolve(None, None, builtin) == builtin,
{
}

/// The built-in resolution.
pub fn default_resolution() -> (r: String)
    ensures
        r@ == "3840x2160"@,
{
    String::from_str("3840x2160")
}

/// The built-in categories switch: all three categories.
pub fn default_categories() -> (r: String)
    ensures
        r@ == "111"@,
{
    String::from_str("111")
}

/// The built-in purity switch: safe content only.
pub fn default_purity() -> (r: String)
    ensures
        r@ == "100"@,
{
    String::from_str("100")
}

/// The built-in sorting.
pub fn default_sorting() -> (r: String)
    ensures
        r@ == "random"@,
{
    String::from_str("random")
}

/// The built-in provider.
pub fn default_source() -> (r: String)
    ensures
        r@ == "wallhaven"@,
{
    String::from_str("wallhaven")
}

/// The search settings as the configuration file holds them: each may be absent.
pub struct StoredSearch {
    pub query: Option<String>,
    pub resolution: Option<String>,
    pub categories: Option<String>,
    pub purity: Option<String>,
    pub sorting: Option<String>,
}

/// The persisted search defaults, each setting filled in.
pub struct SearchDefaults {
    pub query: Option<String>,
    pub resolution: String,
    pub categories: String,
    pub purity: String,
    pub sorting: String,
}

/// Search settings given explicitly for one call; each may be absent.
pub struct SearchOverrides {
    pub query: Option<String>,
    pub resolution: Option<String>,
    pub categories: Option<String>,
    pub purity: Option<String>,
    pub sorting: Option<String>,
}

fn opt_as_str(o: &Option<String>) -> (r: Option<&str>)
    ensures
        opt_view(r) == opt_string_view(*o),
{
    match o {
        Some(s) => Some(s.as_str()),
        None => None,
    }
}

fn opt_clone(o: &Option<String>) -> (r: Option<String>)
    ensures
        r == *o,
{
    match o {
        Some(s) => Some(s.clone()),
        None => None,
    }
}

impl SearchDefaults {
    /// The built-in defaults: no query, 3840x2160, all categories, safe content, random order.
    pub fn default() -> (r: SearchDefaults)
        ensures
            r.query is None,
            r.resolution@ == "3840x2160"@,
            r.categories@ == "111"@,
            r.purity@ == "100"@,
            r.sorting@ == "random"@,
    {
        SearchDefaults {
            query: None,
            resolution: default_resolution(),
            categories: default_categories(),
            purity: default_purity(),
            sorting: default_sorting(),
        }
    }

    /// The defaults from what the file stores, the built-in value standing in
    /// for each absent setting.
    pub fn from_stored(stored: &StoredSearch) -> (r: SearchDefaults)
        ensures
            opt_string_view(r.query) == opt_string_view(stored.query),
            r.resolution@ == resolve(None, opt_string_view(stored.resolution), "3840x2160"@),
            r.categories@ == resolve(None, opt_string_view(stored.categories), "111"@),
            r.purity@ == resolve(None, opt_string_view(stored.purity), "100"@),
            r.sorting@ == resolve(None, opt_string_view(stored.sorting), "random"@),
    {
        SearchDefaults {
            query: opt_clone(&stored.query),
            resolution: resolve_setting(None, opt_as_str(&stored.resolution), "3840x2160"),
            categories: resolve_setting(None, opt_as_str(&stored.categories), "111"),
            purity: resolve_setting(None, opt_as_str(&stored.purity), "100"),
            sorting: resolve_setting(None, opt_as_str(&stored.sorting), "random"),
        }
    }

    /// What the file stores for these defaults.
    pub fn to_stored(&self) -> (r: StoredSearch)
        ensures
            r.query == self.query,
            r.resolution == Some(self.resolution),
            r.categories == Some(self.categories),
            r.purity == Some(self.purity),
            r.sorting == Some(self.sorting),
    {
        StoredSearch {
            query: opt_clone(&self.query),
            resolution: Some(self.resolution.clone()),
            categories: Some(self.categories.clone()),
            purity: Some(self.purity.clone()),
            sorting: Some(self.sorting.clone()),
        }
    }

    /// Sets one default by its key: `query`, `res` or `resolution`, `sorting`.
    /// Any other key is refused and nothing changes.
    pub fn set_value(&mut self, key: &str, value: &str) -> (r: Result<(), EngineError>)
        ensures
            key@ == "query"@ ==> r is Ok && opt_string_view(final(self).query) == Some(value@)
                && final(self).resolution == old(self).resolution && final(self).sorting == old(self).sorting
                && final(self).categories == old(self).categories && final(self).purity == old(self).purity,
            (key@ == "res"@ || key@ == "resolution"@) ==> r is Ok && final(self).resolution@ == value@
                && final(self).query == old(self).query && final(self).sorting == old(self).sorting
                && final(self).categories == old(self).categories && final(self).purity == old(self).purity,
            key@ == "sorting"@ ==> r is Ok && final(self).sorting@ == value@
                && final(self).query == old(self).query && final(self).resolution == old(self).resolution
                && final(self).categories == old(self).categories && final(self).purity == old(self).purity,
            !(key@ == "query"@ || key@ == "res"@ || key@ == "resolution"@ || key@ == "sorting"@) ==>
                (r matches Err(EngineError::UnknownConfigKey(k)) && k@ == key@) && *final(self) == *old(self),
    {
        proof {
            reveal_strlit("query");
            reveal_strlit("res");
            reveal_strlit("resolution");
            reveal_strlit("sorting");
            assert("query"@ != "res"@ && "query"@ != "resolution"@ && "query"@ != "sorting"@) by {
                assert("query"@.len() == 5 && "res"@.len() == 3 && "resolution"@.len() == 10);
                assert("query"@[0] != "sorting"@[0]);
            }
            assert("sorting"@ != "res"@ && "sorting"@ != "resolution"@) by {
                assert("sorting"@.len() == 7);
            }
        }
        if str_eq(key, "query") {
            self.query = Some(String::from_str(value));
            Ok(())
        } else if str_eq(key, "res") || str_eq(key, "resolution") {
            self.resolution = String::from_str(value);
            Ok(())
        } else if str_eq(key, "sorting") {
            self.sorting = String::from_str(value);
            Ok(())
        } else {
            Err(EngineError::UnknownConfigKey(String::from_str(key)))
        }
    }
}

/// The search parameters of one call: each filter by three-tier priority over
/// the explicit value, the stored default and the built-in constant; the query
/// from the explicit value, else the stored one, else none.
pub fn search_options(explicit: &SearchOverrides, stored: &StoredSearch) -> (r: SearchOptions)
    ensures
        opt_string_view(r.query) == match explicit.query {
            Some(q) => Some(q@),
            None => opt_string_view(stored.query),
        },
        r.resolution@ == resolve(opt_string_view(explicit.resolution), opt_string_view(stored.resolution), "3840x2160"@),
        r.categories@ == resolve(opt_string_view(explicit.categories), opt_string_view(stored.categories), "111"@),
        r.purity@ == resolve(opt_string_view(explicit.purity), opt_string_view(stored.purity), "100"@),
        r.sorting@ == resolve(opt_string_view(explicit.sorting), opt_string_view(stored.sorting), "random"@),
{
    let defaults = SearchDefaults::from_stored(stored);
    resolve_options(explicit, &defaults)
}

/// The search parameters of one call over filled-in defaults: each explicit
/// value wins over the default.
pub fn resolve_options(explicit: &SearchOverrides, defaults: &SearchDefaults) -> (r: SearchOptions)
    ensures
        opt_string_view(r.query) == match explicit.query {
            Some(q) => Some(q@),
            None => opt_string_view(defaults.query),
        },
        r.resolution@ == resolve(opt_string_view(explicit.resolution), None, defaults.resolution@),
        r.categories@ == resolve(opt_string_view(explicit.categories), None, defaults.categories@),
        r.purity@ == resolve(opt_string_view(explicit.purity), None, defaults.purity@),
        r.sorting@ == resolve(opt_string_view(explicit.sorting), None, defaults.sorting@),
{
    let query = match &explicit.query {
        Some(q) => Some(q.clone()),
        None => opt_clone(&defaults.query),
    };
    SearchOptions {
        query,
        resolution: resolve_setting(opt_as_str(&explicit.resolution), None, defaults.resolution.as_str()),
        categories: resolve_setting(opt_as_str(&explicit.categories), None, defaults.categories.as_str()),
        purity: resolve_setting(opt_as_str(&explicit.purity), None, defaults.purity.as_str()),
        sorting: resolve_setting(opt_as_str(&explicit.sorting), None, defaults.sorting.as_str()),
    }
}

/// The schedule settings.
pub struct ScheduleConfig {
    /// The cron expression of the periodic job, if one was set.
    pub cron: Option<String>,
}

/// The configuration file's contents.
pub struct ConfigFile {
    pub common: CommonConfig,
    pub source: SourceConfigs,
    pub schedule: ScheduleConfig,
}

/// The general section of the configuration file.
pub struct CommonConfig {
    /// Where wallpapers are saved; `~` and relative paths are taken from the home directory.
    pub wallpaper_dir: Option<String>,
    /// Where converted wallpapers are written; empty means `<wallpaper_dir>/converted`.
    pub converted_dirs: Vec<String>,
    /// The default provider; empty means the built-in one.
    pub source: String,
    /// The default theme.
    pub theme: Option<String>,
    pub search: StoredSearch,
}

/// The provider credentials of the configuration file.
pub struct SourceConfigs {
    pub wallhaven_api_key: Option<String>,
    pub unsplash_access_key: Option<String>,
}

/// What a leading `~` expands to: the home directory, when the `~` stands
/// alone or before a `/`; any other input is kept.
pub open spec fn tilde_expanded(input: Seq<char>, home: Seq<char>) -> Seq<char> {
    if input.len() > 0 && input[0] == '~' && (input.len() == 1 || input[1] == '/') {
        home + input.drop_first()
    } else {
        input
    }
}

/// Relies on `shellexpand::tilde_with_context`: given the home directory, a
/// leading `~` alone or before `/` is replaced by it, and any other input is
/// returned as it is.
#[verifier::external_body]
fn expand_tilde(input: &str, home: &str) -> (r: String)
    ensures
        r@ == tilde_expanded(input@, home@),
{
    shellexpand::tilde_with_context(input, || Some(home)).into_owned()
}

/// Where a configured directory lies: expanded, and taken from the home
/// directory when relative.
pub open spec fn configured_dir(dir: Seq<char>, home: Seq<char>) -> Seq<char> {
    let p = tilde_expanded(dir, home);
    if is_absolute(p) { p } else { joined(home, p) }
}

/// Where a configured directory lies.
pub fn expand_path(dir: &str, home: &str) -> (r: String)
    ensures
        r@ == configured_dir(dir@, home@),
{
    let p = expand_tilde(dir, home);
    if path_is_absolute(p.as_str()) {
        p
    } else {
        join_path(home, p.as_str())
    }
}

/// The application's settings, resolved.
pub struct AppConfig {
    /// The image-board API key: environment first, then the file.
    pub api_key: Option<String>,
    /// The stock-photo access key: environment first, then the file.
    pub unsplash_access_key: Option<String>,
    pub default_source: String,
    pub default_theme: Option<String>,
    pub wallpaper_dir: String,
    /// Where converted wallpapers go; never empty.
    pub converted_dirs: Vec<String>,
    pub config_path: String,
    pub search_defaults: SearchDefaults,
    pub schedule: ScheduleConfig,
}

/// The configuration file's location under the home directory.
pub open spec fn config_path_spec(home: Seq<char>) -> Seq<char> {
    joined(joined(joined(home, ".config"@), "wallow"@), "config.toml"@)
}

/// The wallpaper directory: the configured one, else `~/Pictures/wallow`.
pub open spec fn wallpaper_dir_spec(configured: Option<String>, home: Seq<char>) -> Seq<char> {
    match configured {
        Some(d) => configured_dir(d@, home),
        None => joined(joined(home, "Pictures"@), "wallow"@),
    }
}

/// Either the override or the stored value.
pub open spec fn first_of(over: Option<String>, stored: Option<String>) -> Option<Seq<char>> {
    match over {
        Some(k) => Some(k@),
        None => opt_string_view(stored),
    }
}

impl AppConfig {
    /// The settings for home directory `home`, the credentials found in the
    /// environment, and the file's contents.
    pub fn new(
        home: &str,
        env_wallhaven_key: Option<String>,
        env_unsplash_key: Option<String>,
        file: ConfigFile,
    ) -> (r: AppConfig)
        ensures
            r.config_path@ == config_path_spec(home@),
            opt_string_view(r.api_key) == first_of(env_wallhaven_key, file.source.wallhaven_api_key),
            opt_string_view(r.unsplash_access_key) == first_of(env_unsplash_key, file.source.unsplash_access_key),
            r.wallpaper_dir@ == wallpaper_dir_spec(file.common.wallpaper_dir, home@),
            file.common.converted_dirs@.len() == 0 ==> r.converted_dirs@.len() == 1
                && r.converted_dirs@[0]@ == joined(r.wallpaper_dir@, "converted"@),
            file.common.converted_dirs@.len() > 0 ==> r.converted_dirs@.len() == file.common.converted_dirs@.len()
                && forall|i: int| 0 <= i < r.converted_dirs@.len() ==>
                    #[trigger] r.converted_dirs@[i]@ == configured_dir(file.common.converted_dirs@[i]@, home@),
            r.default_source@ == if file.common.source@.len() == 0 { "wallhaven"@ } else { file.common.source@ },
            r.default_theme == file.common.theme,
            opt_string_view(r.search_defaults.query) == opt_string_view(file.common.search.query),
            r.search_defaults.resolution@ == resolve(None, opt_string_view(file.common.search.resolution), "3840x2160"@),
            r.search_defaults.categories@ == resolve(None, opt_string_view(file.common.search.categories), "111"@),
            r.search_defaults.purity@ == resolve(None, opt_string_view(file.common.search.purity), "100"@),
            r.search_defaults.sorting@ == resolve(None, opt_string_view(file.common.search.sorting), "random"@),
            r.schedule == file.schedule,
    {
        let config_dir = join_path(home, ".config");
        let config_dir = join_path(config_dir.as_str(), "wallow");
        let config_path = join_path(config_dir.as_str(), "config.toml");
        let api_key = match env_wallhaven_key {
            Some(k) => Some(k),
            None => file.source.wallhaven_api_key,
        };
        let unsplash_access_key = match env_unsplash_key {
            Some(k) => Some(k),
            None => file.source.unsplash_access_key,
        };
        let wallpaper_dir = match &file.common.wallpaper_dir {
            Some(d) => expand_path(d.as_str(), home),
            None => {
                let p = join_path(home, "Pictures");
                join_path(p.as_str(), "wallow")
            },
        };
        let mut converted_dirs: Vec<String> = Vec::new();
        if file.common.converted_dirs.len() == 0 {
            converted_dirs.push(join_path(wallpaper_dir.as_str(), "converted"));
        } else {
            let dirs = &file.common.converted_dirs;
            let mut i: usize = 0;
            while i < dirs.len()
                invariant
                    i <= dirs@.len(),
                    converted_dirs@.len() == i,
                    forall|j: int| 0 <= j < i ==> #[trigger] converted_dirs@[j]@ == configured_dir(dirs@[j]@, home@),
                decreases dirs@.len() - i,
            {
                converted_dirs.push(expand_path(dirs[i].as_str(), home));
                i = i + 1;
            }
        }
        let default_source = if file.common.source.unicode_len() == 0 {
            default_source()
        } else {
            file.common.source
        };
        AppConfig {
            api_key,
            unsplash_access_key,
            default_source,
            default_theme: file.common.theme,
            wallpaper_dir,
            converted_dirs,
            config_path,
            search_defaults: SearchDefaults::from_stored(&file.common.search),
            schedule: file.schedule,
        }
    }

    /// Records a new schedule expression; nothing else changes. Writing the
    /// file is the caller's part.
    pub fn set_cron(&mut self, cron: String)
        ensures
            final(self).schedule.cron == Some(cron),
            final(self).api_key == old(self).api_key,
            final(self).unsplash_access_key == old(self).unsplash_access_key,
            final(self).default_source == old(self).default_source,
            final(self).default_theme == old(self).default_theme,
            final(self).wallpaper_dir == old(self).wallpaper_dir,
            final(self).converted_dirs == old(self).converted_dirs,
            final(self).config_path == old(self).config_path,
            final(self).search_defaults == old(self).search_defaults,
    {
        self.schedule.cron = Some(cron);
    }

    /// The directory that converted wallpapers go to by default: the first
    /// configured one.
    pub fn converted_dir(&self) -> (r: String)
        requires
            self.converted_dirs@.len() > 0,
        ensures
            r == self.converted_dirs@[0],
    {
        self.converted_dirs[0].clone()
    }

    /// The file contents that store these settings.
    pub fn to_config_file(&self) -> (r: ConfigFile)
        ensures
            r.common.wallpaper_dir == Some(self.wallpaper_dir),
            r.common.converted_dirs@.len() == self.converted_dirs@.len(),
            forall|i: int| 0 <= i < r.common.converted_dirs@.len() ==>
                #[trigger] r.common.converted_dirs@[i] == self.converted_dirs@[i],
            r.common.source == self.default_source,
            r.common.theme == self.default_theme,
            r.common.search.query == self.search_defaults.query,
            r.common.search.resolution == Some(self.search_defaults.resolution),
            r.common.search.categories == Some(self.search_defaults.categories),
            r.common.search.purity == Some(self.search_defaults.purity),
            r.common.search.sorting == Some(self.search_defaults.sorting),
            r.source.wallhaven_api_key == self.api_key,
            r.source.unsplash_access_key == self.unsplash_access_key,
            r.schedule.cron == self.schedule.cron,
    {
        let mut dirs: Vec<String> = Vec::new();
        let mut i: usize = 0;
        while i < self.converted_dirs.len()
            invariant
                i <= self.converted_dirs@.len(),
                dirs@.len() == i,
                forall|j: int| 0 <= j < i ==> #[trigger] dirs@[j] == self.converted_dirs@[j],
            decreases self.converted_dirs@.len() - i,
        {
            dirs.push(self.converted_dirs[i].clone());
            i = i + 1;
        }
        ConfigFile {
            common: CommonConfig {
                wallpaper_dir: Some(self.wallpaper_dir.clone()),
                converted_dirs: dirs,
                source: self.default_source.clone(),
                theme: opt_clone(&self.default_theme),
                search: self.search_defaults.to_stored(),
            },
            source: SourceConfigs {
                wallhaven_api_key: opt_clone(&self.api_key),
                unsplash_access_key: opt_clone(&self.unsplash_access_key),
            },
            schedule: ScheduleConfig { cron: opt_clone(&self.schedule.cron) },
        }
    }
}

/// The subcommands of configuration management.
pub enum ConfigAction {
    /// Show a summary of the settings.
    Show,
    /// Print the configuration file's JSON schema.
    Schema,
    /// Print the whole configuration as the file would hold it.
    Dump,
    /// Set one search default.
    SetValue { key: String, value: String },
}

} // verus!
