//! Per-project options that a module exports to the host.
use vstd::prelude::*;

verus! {

/// Options of a project.
#[derive(Clone, Debug)]
pub struct Config {
    /// Rebuild and reload when a source file changes.
    pub auto_reload: bool,
    /// How long file events settle before a rebuild, in milliseconds.
    pub debounce_ms: u32,
    /// Command that opens images; the platform's default where absent.
    pub image_viewer: Option<String>,
    /// Command that opens plots; the image viewer where absent.
    pub plot_viewer: Option<String>,
    /// Show how long each cell ran.
    pub show_timings: bool,
    /// Clear the output before each run.
    pub clear_on_run: bool,
}

impl Default for Config {
    fn default() -> (r: Self)
        ensures
            r.auto_reload,
            r.debounce_ms == 500,
            r.image_viewer is None,
            r.plot_viewer is None,
            !r.show_timings,
            !r.clear_on_run,
    {
        Config {
            auto_reload: true,
            debounce_ms: 500,
            image_viewer: None,
            plot_viewer: None,
            show_timings: false,
            clear_on_run: false,
        }
    }
}

impl Config {
    /// Turns reloading on file changes on or off.
    pub fn auto_reload(self, enabled: bool) -> (r: Self)
        ensures
            r == (Config { auto_reload: enabled, ..self }),
    {
        Config { auto_reload: enabled, ..self }
    }

    /// Sets the settling delay of file events.
    pub fn debounce_ms(self, ms: u32) -> (r: Self)
        ensures
            r == (Config { debounce_ms: ms, ..self }),
    {
        Config { debounce_ms: ms, ..self }
    }

    /// Sets the command that opens images.
    pub fn image_viewer(self, cmd: &str) -> (r: Self)
        ensures
            r.image_viewer matches Some(v) && v@ == cmd@,
            r == (Config { image_viewer: r.image_viewer, ..self }),
    {
        Config { image_viewer: Some(String::from_str(cmd)), ..self }
    }

    /// Sets the command that opens plots.
    pub fn plot_viewer(self, cmd: &str) -> (r: Self)
        ensures
            r.plot_viewer matches Some(v) && v@ == cmd@,
            r == (Config { plot_viewer: r.plot_viewer, ..self }),
    {
        Config { plot_viewer: Some(String::from_str(cmd)), ..self }
    }

    /// Turns the display of run times on or off.
    pub fn show_timings(self, enabled: bool) -> (r: Self)
        ensures
            r == (Config { show_timings: enabled, ..self }),
    {
        Config { show_timings: enabled, ..self }
    }

    /// Turns clearing the output before each run on or off.
    pub fn clear_on_run(self, enabled: bool) -> (r: Self)
        ensures
            r == (Config { clear_on_run: enabled, ..self }),
    {
        Config { clear_on_run: enabled, ..self }
    }
}

} // verus!
