//! The bridge's configuration and its validation.
use vstd::prelude::*;
use crate::text::{is_blank, is_blank_text};
use crate::urls::{url_accepted, url_parses};

verus! {

/// The settings of the bridge, as read from its configuration file.
pub struct Config {
    /// The socket address the HTTP API listens on, as text (`0.0.0.0:8765`).
    pub listen: String,
    pub epgstation_url: String,
    pub amatsukaze_url: String,
    pub work_dir: String,
    pub parent_directory_name: String,
    pub download_concurrency: usize,
    pub upload_concurrency: usize,
    pub poll_interval_seconds: u64,
    pub encode_timeout_seconds: u64,
    pub request_timeout_seconds: u64,
    pub keep_failed_files: bool,
}

/// Why a configuration was refused.
#[derive(Debug, PartialEq, Eq, Structural)]
pub enum ConfigError {
    /// `epgstation_url is invalid`
    EpgstationUrlInvalid,
    /// `amatsukaze_url is invalid`
    AmatsukazeUrlInvalid,
    /// `work_dir must not be empty`
    WorkDirEmpty,
    /// `parent_directory_name must not be empty`
    ParentDirectoryNameEmpty,
    /// `download_concurrency must be greater than 0`
    DownloadConcurrencyZero,
    /// `upload_concurrency must be greater than 0`
    UploadConcurrencyZero,
    /// `poll_interval_seconds must be greater than 0`
    PollIntervalZero,
    /// `encode_timeout_seconds must be greater than 0`
    EncodeTimeoutZero,
    /// `request_timeout_seconds must be greater than 0`
    RequestTimeoutZero,
}

impl Config {
    /// What `validate` answers: the first check, in this order, that fails.
    pub open spec fn verdict(&self) -> Result<(), ConfigError> {
        if !url_accepted(self.epgstation_url@) {
            Err(ConfigError::EpgstationUrlInvalid)
        } else if !url_accepted(self.amatsukaze_url@) {
            Err(ConfigError::AmatsukazeUrlInvalid)
        } else if is_blank_text(self.work_dir@) {
            Err(ConfigError::WorkDirEmpty)
        } else if is_blank_text(self.parent_directory_name@) {
            Err(ConfigError::ParentDirectoryNameEmpty)
        } else if self.download_concurrency == 0 {
            Err(ConfigError::DownloadConcurrencyZero)
        } else if self.upload_concurrency == 0 {
            Err(ConfigError::UploadConcurrencyZero)
        } else if self.poll_interval_seconds == 0 {
            Err(ConfigError::PollIntervalZero)
        } else if self.encode_timeout_seconds == 0 {
            Err(ConfigError::EncodeTimeoutZero)
        } else if self.request_timeout_seconds == 0 {
            Err(ConfigError::RequestTimeoutZero)
        } else {
            Ok(())
        }
    }

    /// Checks a configuration after it was read.
    pub fn validate(&self) -> (res: Result<(), ConfigError>)
        ensures
            res == self.verdict(),
    {
        if !url_parses(self.epgstation_url.as_str()) {
            return Err(ConfigError::EpgstationUrlInvalid);
        }
        if !url_parses(self.amatsukaze_url.as_str()) {
            return Err(ConfigError::AmatsukazeUrlInvalid);
        }
        if is_blank(self.work_dir.as_str()) {
            return Err(ConfigError::WorkDirEmpty);
        }
        if is_blank(self.parent_directory_name.as_str()) {
            return Err(ConfigError::ParentDirectoryNameEmpty);
        }
        if self.download_concurrency == 0 {
            return Err(ConfigError::DownloadConcurrencyZero);
        }
        if self.upload_concurrency == 0 {
            return Err(ConfigError::UploadConcurrencyZero);
        }
        if self.poll_interval_seconds == 0 {
            return Err(ConfigError::PollIntervalZero);
        }
        if self.encode_timeout_seconds == 0 {
            return Err(ConfigError::EncodeTimeoutZero);
        }
        if self.request_timeout_seconds == 0 {
            return Err(ConfigError::RequestTimeoutZero);
        }
        Ok(())
    }

    /// Whether this is the configuration used for settings the file leaves out.
    pub open spec fn is_default(&self) -> bool {
        &&& self.listen@ == "0.0.0.0:8765"@
        &&& self.epgstation_url@ == "http://127.0.0.1:8888/"@
        &&& self.amatsukaze_url@ == "http://127.0.0.1:32769/"@
        &&& self.work_dir@ == "work"@
        &&& self.parent_directory_name@ == "recorded"@
        &&& self.download_concurrency == 1
        &&& self.upload_concurrency == 1
        &&& self.poll_interval_seconds == 10
        &&& self.encode_timeout_seconds == 10_800
        &&& self.request_timeout_seconds == 30
        &&& self.keep_failed_files
    }
}

impl Default for Config {
    fn default() -> (c: Self)
        ensures
            c.is_default(),
    {
        Config {
            listen: "0.0.0.0:8765".to_owned(),
            epgstation_url: "http://127.0.0.1:8888/".to_owned(),
            amatsukaze_url: "http://127.0.0.1:32769/".to_owned(),
            work_dir: "work".to_owned(),
            parent_directory_name: "recorded".to_owned(),
            download_concurrency: 1,
            upload_concurrency: 1,
            poll_interval_seconds: 10,
            encode_timeout_seconds: 10_800,
            request_timeout_seconds: 30,
            keep_failed_files: true,
        }
    }
}

/// The defaults pass every check but the URL checks, which depend on the URL parser; when it
/// accepts the two default URLs, the default configuration is valid.
pub proof fn law_default_config_is_valid(c: Config)
    requires
        c.is_default(),
        url_accepted(c.epgstation_url@),
        url_accepted(c.amatsukaze_url@),
    ensures
        c.verdict() == Ok::<(), ConfigError>(()),
{
    reveal_strlit("work");
    reveal_strlit("recorded");
    assert(!is_blank_text(c.work_dir@)) by {
        assert(!crate::text::is_unicode_whitespace(c.work_dir@[0]));
    }
    assert(!is_blank_text(c.parent_directory_name@)) by {
        assert(!crate::text::is_unicode_whitespace(c.parent_directory_name@[0]));
    }
}

} // verus!
