//! Logging configuration.
use std::path::PathBuf;

use crate::platform::PACKAGE_NAME;
use log::LevelFilter;
use vstd::prelude::*;

verus! {

/// Relies on the declaration of `log::LevelFilter`: an enum of six unit
/// variants, from `Off` (nothing passes) to `Trace` (everything passes).
#[verifier::external_type_specification]
pub struct ExLevelFilter(LevelFilter);

/// A filesystem path of std, carried through as an opaque value.
#[verifier::external_type_specification]
#[verifier::external_body]
pub struct ExPathBuf(PathBuf);

/// The name under which archived logs are prefixed unless configured otherwise.
pub const DEFAULT_PACKAGE_NAME: &'static str = PACKAGE_NAME;

/// The file name of the active log unless configured otherwise.
pub const DEFAULT_LOG_FILE_NAME: &'static str = "latest.log";

/// Where and how verbosely a program logs.
pub struct LoggingConfig {
    log_folder: PathBuf,
    filename: String,
    term_level_filter: LevelFilter,
    file_level_filter: LevelFilter,
    package_name: String,
}

impl LoggingConfig {
    /// The folder that holds the active log and its archives.
    pub closed spec fn spec_log_folder(&self) -> PathBuf {
        self.log_folder
    }

    /// The file name of the active log.
    pub closed spec fn spec_filename(&self) -> Seq<char> {
        self.filename@
    }

    /// The level filter of the terminal sink.
    pub closed spec fn spec_term_level(&self) -> LevelFilter {
        self.term_level_filter
    }

    /// The level filter of the file sink.
    pub closed spec fn spec_file_level(&self) -> LevelFilter {
        self.file_level_filter
    }

    /// The package name that archive names start with; none where empty.
    pub closed spec fn spec_package_name(&self) -> Seq<char> {
        self.package_name@
    }

    /// A configuration for logs kept in `path`, with the defaults: the active
    /// log is `latest.log`, both sinks filter at `Info`, and archives are
    /// prefixed with this library's package name.
    pub fn new(path: PathBuf) -> (r: Self)
        ensures
            r.spec_log_folder() == path,
            r.spec_filename() == DEFAULT_LOG_FILE_NAME@,
            r.spec_term_level() == LevelFilter::Info,
            r.spec_file_level() == LevelFilter::Info,
            r.spec_package_name() == DEFAULT_PACKAGE_NAME@,
    {
        LoggingConfig {
            log_folder: path,
            filename: DEFAULT_LOG_FILE_NAME.to_owned(),
            term_level_filter: LevelFilter::Info,
            file_level_filter: LevelFilter::Info,
            package_name: DEFAULT_PACKAGE_NAME.to_owned(),
        }
    }

    /// The folder that holds the active log and its archives.
    pub fn get_log_folder(&self) -> (r: &PathBuf)
        ensures
            *r == self.spec_log_folder(),
    {
        &self.log_folder
    }

    /// The level filter of the terminal sink.
    pub fn get_term_level_filter(&self) -> (r: LevelFilter)
        ensures
            r == self.spec_term_level(),
    {
        self.term_level_filter
    }

    /// The level filter of the file sink.
    pub fn get_file_level_filter(&self) -> (r: LevelFilter)
        ensures
            r == self.spec_file_level(),
    {
        self.file_level_filter
    }

    /// The configuration with `filename` as the file name of the active log,
    /// everything else unchanged.
    pub fn filename(self, filename: &str) -> (r: Self)
        ensures
            r.spec_filename() == filename@,
            r.spec_log_folder() == self.spec_log_folder(),
            r.spec_term_level() == self.spec_term_level(),
            r.spec_file_level() == self.spec_file_level(),
            r.spec_package_name() == self.spec_package_name(),
    {
        let mut config = self;
        config.filename = filename.to_owned();
        config
    }

    /// The configuration with `level` as the terminal sink's filter,
    /// everything else unchanged.
    pub fn term_level_filter(self, level: LevelFilter) -> (r: Self)
        ensures
            r.spec_term_level() == level,
            r.spec_log_folder() == self.spec_log_folder(),
            r.spec_filename() == self.spec_filename(),
            r.spec_file_level() == self.spec_file_level(),
            r.spec_package_name() == self.spec_package_name(),
    {
        let mut config = self;
        config.term_level_filter = level;
        config
    }

    /// The configuration with `level` as the file sink's filter, everything
    /// else unchanged.
    pub fn file_level_filter(self, level: LevelFilter) -> (r: Self)
        ensures
            r.spec_file_level() == level,
            r.spec_log_folder() == self.spec_log_folder(),
            r.spec_filename() == self.spec_filename(),
            r.spec_term_level() == self.spec_term_level(),
            r.spec_package_name() == self.spec_package_name(),
    {
        let mut config = self;
        config.file_level_filter = level;
        config
    }

    /// The configuration with `name` as the package name that archive names
    /// start with (nothing is prepended where it is empty), everything else
    /// unchanged.
    pub fn package_name(self, name: &str) -> (r: Self)
        ensures
            r.spec_package_name() == name@,
            r.spec_log_folder() == self.spec_log_folder(),
            r.spec_filename() == self.spec_filename(),
            r.spec_term_level() == self.spec_term_level(),
            r.spec_file_level() == self.spec_file_level(),
    {
        let mut config = self;
        config.package_name = name.to_owned();
        config
    }

    /// The file name of the active log.
    pub fn get_filename(&self) -> (r: &str)
        ensures
            r@ == self.spec_filename(),
    {
        self.filename.as_str()
    }

    /// The package name that archive names start with.
    pub fn get_package_name(&self) -> (r: &str)
        ensures
            r@ == self.spec_package_name(),
    {
        self.package_name.as_str()
    }
}

/// How the process-wide logger is set up: a terminal sink and a file sink,
/// each with its own level filter. Both name the thread of each record,
/// never its target module, and tag the thread's level only on errors.
pub struct LoggerSetup {
    pub term_level: LevelFilter,
    pub file_level: LevelFilter,
    /// Records at or above this level carry their thread's level.
    pub thread_level: LevelFilter,
    /// Records at or above this level carry their target module.
    pub target_level: LevelFilter,
    /// The file name of the file sink inside the log folder.
    pub log_file: String,
}

/// The logger setup that `config` asks for.
pub fn logger_setup(config: &LoggingConfig) -> (r: LoggerSetup)
    ensures
        r.term_level == config.spec_term_level(),
        r.file_level == config.spec_file_level(),
        r.thread_level == LevelFilter::Error,
        r.target_level == LevelFilter::Off,
        r.log_file@ == config.spec_filename(),
{
    LoggerSetup {
        term_level: config.get_term_level_filter(),
        file_level: config.get_file_level_filter(),
        thread_level: LevelFilter::Error,
        target_level: LevelFilter::Off,
        log_file: config.get_filename().to_owned(),
    }
}

} // verus!
