//! Run-wide settings. Loading them from the command line or the environment
//! is the caller's business; the library reads the values.

use vstd::prelude::*;
use vstd::string::StringExecFns;

verus! {

/// The settings of one run.
#[derive(Debug)]
pub struct Config {
    /// Number of empty days tolerated for a security before its remaining
    /// days are skipped.
    pub md_day_threshold: i16,
    /// Whether calendar windows are walked backwards in time.
    pub md_reverse: bool,
    /// Whether batches go to JSON files instead of the database.
    pub md_disk: bool,
    /// Root directory of the file sink.
    pub md_path: String,
    /// Database URL.
    pub ch_url: String,
    /// Database user.
    pub ch_user: String,
    /// Database password.
    pub ch_password: String,
    /// Database name.
    pub ch_db: String,
    /// Number of worker threads.
    pub threads: usize,
    /// Number of rows per write to the sink.
    pub chunks: usize,
}

impl Clone for Config {
    fn clone(&self) -> (copy: Self)
        ensures
            copy == *self,
    {
        Config {
            md_day_threshold: self.md_day_threshold,
            md_reverse: self.md_reverse,
            md_disk: self.md_disk,
            md_path: self.md_path.clone(),
            ch_url: self.ch_url.clone(),
            ch_user: self.ch_user.clone(),
            ch_password: self.ch_password.clone(),
            ch_db: self.ch_db.clone(),
            threads: self.threads,
            chunks: self.chunks,
        }
    }
}

impl Default for Config {
    /// The settings in force where nothing is configured: chunks of 1000
    /// rows, fourteen empty days tolerated, forward walk, database sink on
    /// the local host.
    fn default() -> (config: Self)
        ensures
            config.md_day_threshold == 14,
            !config.md_reverse,
            !config.md_disk,
            config.md_path@ == "./"@,
            config.ch_url@ == "http://localhost:8123"@,
            config.ch_user@ == "default"@,
            config.ch_password@ == ""@,
            config.ch_db@ == "md_moex"@,
            config.threads == 1,
            config.chunks == 1000,
    {
        Config {
            md_day_threshold: 14,
            md_reverse: false,
            md_disk: false,
            md_path: String::from_str("./"),
            ch_url: String::from_str("http://localhost:8123"),
            ch_user: String::from_str("default"),
            ch_password: String::from_str(""),
            ch_db: String::from_str("md_moex"),
            threads: 1,
            chunks: 1000,
        }
    }
}

} // verus!
