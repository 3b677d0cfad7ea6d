//! Configuration read once at startup and never mutated afterwards. Loading
//! and parsing the configuration file is done outside this crate; the state
//! machine only carries the resulting plain values.

use vstd::prelude::*;

verus! {

/// Options for the user interface.
#[derive(Debug, Clone)]
pub struct UiConfig {
    /// Colour theme name.
    pub theme: String,
    /// Context lines shown around a diff hunk.
    pub diff_context_lines: usize,
    /// Whether line numbers are shown.
    pub show_line_numbers: bool,
    /// Width of one tab stop.
    pub tab_size: usize,
}

/// Options for the repository defaults.
#[derive(Debug, Clone)]
pub struct GitConfig {
    /// Branch assumed when none is configured.
    pub default_branch: String,
    /// Seconds between automatic fetches.
    pub auto_fetch_interval: u64,
    /// Whether commits are signed.
    pub sign_commits: bool,
    /// Key used for signing, when set.
    pub gpg_key: Option<String>,
}

/// Options that bound how much work is done.
#[derive(Debug, Clone)]
pub struct Performance {
    /// Most commits loaded in one history query.
    pub max_commits_to_load: usize,
    /// Whether caching is enabled.
    pub cache_enabled: bool,
    /// Whether operations may run in parallel.
    pub parallel_operations: bool,
}

/// The full configuration.
#[derive(Debug, Clone)]
pub struct Config {
    /// User-interface options.
    pub ui: UiConfig,
    /// Repository-default options.
    pub git: GitConfig,
    /// Performance options.
    pub performance: Performance,
}

impl Default for Config {
    /// The built-in defaults, used when no configuration file overrides
    /// them.
    fn default() -> (c: Config)
        ensures
            c.ui.theme@ == "dark"@,
            c.ui.diff_context_lines == 3,
            c.ui.show_line_numbers == true,
            c.ui.tab_size == 4,
            c.git.default_branch@ == "main"@,
            c.git.auto_fetch_interval == 300,
            c.git.sign_commits == false,
            c.git.gpg_key is None,
            c.performance.max_commits_to_load == 1000,
            c.performance.cache_enabled == true,
            c.performance.parallel_operations == true,
    {
        Config {
            ui: UiConfig {
                theme: "dark".to_owned(),
                diff_context_lines: 3,
                show_line_numbers: true,
                tab_size: 4,
            },
            git: GitConfig {
                default_branch: "main".to_owned(),
                auto_fetch_interval: 300,
                sign_commits: false,
                gpg_key: None,
            },
            performance: Performance {
                max_commits_to_load: 1000,
                cache_enabled: true,
                parallel_operations: true,
            },
        }
    }
}

} // verus!
