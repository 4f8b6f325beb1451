//! The persisted preferences, held as plain values.  Loading and saving
//! the file they live in happens outside; the library only holds and
//! defaults them.

use vstd::prelude::*;

verus! {

/// The user's preferences: where images are saved, the per-screen and
/// random flags, the color-scheme toggles, and the picker's theme.
#[derive(Clone)]
pub struct WallpaperConfig {
    pub save_folder: String,
    pub multi_monitor: bool,
    pub random: bool,
    pub pywal: bool,
    pub wallust: bool,
    pub theme: String,
}

/// The theme name used when none is configured.
pub fn default_theme() -> (r: String)
    ensures
        r@ == "Dark"@,
{
    String::from_str("Dark")
}

impl Default for WallpaperConfig {
    /// Every flag off, an empty save folder — the application
    /// substitutes its pictures directory for it — and the default
    /// theme.
    fn default() -> (r: Self)
        ensures
            r.save_folder@.len() == 0,
            !r.multi_monitor,
            !r.random,
            !r.pywal,
            !r.wallust,
            r.theme@ == "Dark"@,
    {
        WallpaperConfig {
            save_folder: String::new(),
            multi_monitor: false,
            random: false,
            pywal: false,
            wallust: false,
            theme: default_theme(),
        }
    }
}

} // verus!
