//! The application configuration: a value record created once at startup and
//! immutable thereafter.

use vstd::prelude::*;
use vstd::string::StringExecFns;
use crate::numfmt::{dec_digits, u32_to_string};
use crate::paths::{DirPath, display_of, views_of};
use crate::verbosity::{parse_verbosity, verbosity_label, verbosity_of, Verbosity};

verus! {

/// The mathematical content of a configuration.
pub struct ConfigModel {
    pub verbosity: Verbosity,
    pub screen_width: u32,
    pub screen_height: u32,
    pub data_path: Seq<Seq<char>>,
}

/// Holds all application configuration parameters.
pub struct Config {
    verbosity: Verbosity,
    screen_width: u32,
    screen_height: u32,
    data_path: DirPath,
}

impl View for Config {
    type V = ConfigModel;

    closed spec fn view(&self) -> ConfigModel {
        ConfigModel {
            verbosity: self.verbosity,
            screen_width: self.screen_width,
            screen_height: self.screen_height,
            data_path: self.data_path@,
        }
    }
}

/// The exact text of the configuration report, line by line.
pub open spec fn log_lines_of(c: ConfigModel) -> Seq<Seq<char>> {
    seq![
        "application is running with the following parameters:"@,
        "verbosity: "@ + verbosity_label(c.verbosity),
        "data path: "@ + display_of(c.data_path),
        "screen width: "@ + dec_digits(c.screen_width as nat),
        "screen height: "@ + dec_digits(c.screen_height as nat),
    ]
}

impl Config {
    /// Creates a new configuration from the verbosity name given on the
    /// command line (or the default name) and the resolved data directory.
    /// The screen dimensions are the fixed defaults.
    pub fn new(verbosity_name: &str, data_path: DirPath) -> (r: Config)
        ensures
            r@.verbosity == verbosity_of(verbosity_name@),
            r@.screen_width == 1600,
            r@.screen_height == 900,
            r@.data_path == data_path@,
    {
        Config {
            verbosity: parse_verbosity(verbosity_name),
            screen_width: 1600,
            screen_height: 900,
            data_path,
        }
    }

    /// Returns the logging verbosity.
    pub fn verbosity(&self) -> (r: Verbosity)
        ensures
            r == self@.verbosity,
    {
        self.verbosity
    }

    /// Returns the width of the screen in pixels.
    pub fn screen_width(&self) -> (r: u32)
        ensures
            r == self@.screen_width,
    {
        self.screen_width
    }

    /// Returns the height of the screen in pixels.
    pub fn screen_height(&self) -> (r: u32)
        ensures
            r == self@.screen_height,
    {
        self.screen_height
    }

    /// Returns the data path.
    pub fn data_path(&self) -> (r: &DirPath)
        ensures
            r@ == self@.data_path,
    {
        &self.data_path
    }

    /// The configuration report: the lines a caller hands to the logging
    /// collaborator, at informational level, right after logging comes up.
    pub fn log(&self) -> (r: Vec<String>)
        ensures
            views_of(r@) == log_lines_of(self@),
    {
        let mut lines: Vec<String> = Vec::new();
        lines.push(String::from_str("application is running with the following parameters:"));
        let mut verbosity_line = String::from_str("verbosity: ");
        verbosity_line.append(self.verbosity.label());
        lines.push(verbosity_line);
        let mut path_line = String::from_str("data path: ");
        let shown = self.data_path.display_string();
        path_line.append(shown.as_str());
        lines.push(path_line);
        let mut width_line = String::from_str("screen width: ");
        let width_text = u32_to_string(self.screen_width);
        width_line.append(width_text.as_str());
        lines.push(width_line);
        let mut height_line = String::from_str("screen height: ");
        let height_text = u32_to_string(self.screen_height);
        height_line.append(height_text.as_str());
        lines.push(height_line);
        proof {
            assert(views_of(lines@) =~= log_lines_of(self@));
        }
        lines
    }
}

} // verus!
