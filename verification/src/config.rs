//! Explicit configuration handed to each component at construction: the
//! directory that holds the provisioned external tools.  Components take
//! the value as an argument instead of consulting process-wide state, so
//! there is no hidden initialization order.

use vstd::prelude::*;
use crate::text::{join_path, spec_join_path};

verus! {

/// The configuration directory, fixed at startup.
pub struct Config {
    config_dir: String,
}

impl View for Config {
    type V = Seq<char>;

    closed spec fn view(&self) -> Seq<char> {
        self.config_dir@
    }
}

/// Fixes the configuration directory for the process's lifetime.
pub fn init_config_dir(path: String) -> (c: Config)
    ensures
        c@ == path@,
{
    Config { config_dir: path }
}

/// Path of the external tool called `name` inside the configuration
/// directory.
pub fn get_binary_path(config: &Config, name: &str) -> (p: String)
    ensures
        p@ == spec_join_path(config@, name@),
{
    join_path(config.config_dir.as_str(), name)
}

/// The two provisioned external tools.
#[derive(Debug, Clone, Copy, PartialEq, Eq, Structural)]
pub enum Binary {
    Ytdlp,
    Ffmpeg,
}

/// The file name of `b`.
pub open spec fn spec_binary_name(b: Binary) -> Seq<char> {
    match b {
        Binary::Ytdlp => "yt-dlp"@,
        Binary::Ffmpeg => "ffmpeg"@,
    }
}

impl Binary {
    pub fn name(&self) -> (r: &'static str)
        ensures
            r@ == spec_binary_name(*self),
    {
        match self {
            Binary::Ytdlp => "yt-dlp",
            Binary::Ffmpeg => "ffmpeg",
        }
    }

    /// Where this tool lives under the configuration directory.
    pub fn get_path(&self, config: &Config) -> (p: String)
        ensures
            p@ == spec_join_path(config@, spec_binary_name(*self)),
    {
        get_binary_path(config, self.name())
    }
}

/// Failures while provisioning or updating the external tools.
#[derive(Debug)]
pub enum DependencyError {
    Io(String),
    NoConfigDir,
    MissingBinary(String),
    YtDlpUpdateFailed,
    CommandFailed(String),
}

} // verus!
