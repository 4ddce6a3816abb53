//! The options of a harness: how much detail the recap enumerates, and where
//! and how the recap is written.

use vstd::prelude::*;

verus! {

/// Caps on the number of failed and panicked items whose details are listed.
pub struct KrarkArgs {
    pub max_failed_shown: usize,
    pub max_panicked_shown: usize,
}

impl Default for KrarkArgs {
    fn default() -> (r: Self)
        ensures
            r.max_failed_shown == 10,
            r.max_panicked_shown == 3,
    {
        KrarkArgs { max_failed_shown: 10, max_panicked_shown: 3 }
    }
}

/// Whether the recap is written with colour.
#[derive(Clone, Copy, Debug)]
pub enum ColorSetting {
    /// Colour unless the recap goes to a log file.
    Auto,
    /// Always colour.
    Always,
    /// Never colour.
    Never,
}

/// Where the recap goes and how it is written, as given on the command line.
pub struct TestArgs {
    /// The file that the recap is written to, in place of the standard output.
    pub logfile: Option<String>,
    pub color: Option<ColorSetting>,
}

impl TestArgs {
    /// Whether the recap is written with colour: `Always` and `Never` decide
    /// by themselves; otherwise the recap is coloured unless it goes to a log file.
    pub open spec fn colored(color: Option<ColorSetting>, to_logfile: bool) -> bool {
        match color {
            Some(ColorSetting::Always) => true,
            Some(ColorSetting::Never) => false,
            _ => !to_logfile,
        }
    }

    /// Whether the recap is written with colour.
    pub fn use_color(&self) -> (r: bool)
        ensures
            r == TestArgs::colored(self.color, self.logfile is Some),
    {
        match (&self.color, &self.logfile) {
            (Some(ColorSetting::Always), _) => true,
            (Some(ColorSetting::Never), _) => false,
            (_, logfile) => logfile.is_none(),
        }
    }
}

impl Default for TestArgs {
    fn default() -> (r: Self)
        ensures
            r.logfile is None,
            r.color is None,
    {
        TestArgs { logfile: None, color: None }
    }
}

} // verus!
