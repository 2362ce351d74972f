use encode_bridge::config::{Config, ConfigError};
use encode_bridge::urls::{base_url_path, directory_path, url_parses};

#[test]
fn default_configuration() {
    let c = Config::default();
    assert_eq!(c.listen, "0.0.0.0:8765");
    assert_eq!(c.epgstation_url, "http://127.0.0.1:8888/");
    assert_eq!(c.amatsukaze_url, "http://127.0.0.1:32769/");
    assert_eq!(c.work_dir, "work");
    assert_eq!(c.parent_directory_name, "recorded");
    assert_eq!((c.download_concurrency, c.upload_concurrency), (1, 1));
    assert_eq!(c.poll_interval_seconds, 10);
    assert_eq!(c.encode_timeout_seconds, 10_800);
    assert_eq!(c.request_timeout_seconds, 30);
    assert!(c.keep_failed_files);
    assert_eq!(c.validate(), Ok(()));
}

#[test]
fn each_check_has_its_error() {
    let mut c = Config::default();
    c.epgstation_url = "not a url".to_string();
    assert_eq!(c.validate(), Err(ConfigError::EpgstationUrlInvalid));
    let mut c = Config::default();
    c.amatsukaze_url = "http//missing-colon".to_string();
    assert_eq!(c.validate(), Err(ConfigError::AmatsukazeUrlInvalid));
    let mut c = Config::default();
    c.work_dir = "  ".to_string();
    assert_eq!(c.validate(), Err(ConfigError::WorkDirEmpty));
    let mut c = Config::default();
    c.parent_directory_name = "".to_string();
    assert_eq!(c.validate(), Err(ConfigError::ParentDirectoryNameEmpty));
    let mut c = Config::default();
    c.download_concurrency = 0;
    assert_eq!(c.validate(), Err(ConfigError::DownloadConcurrencyZero));
    let mut c = Config::default();
    c.upload_concurrency = 0;
    assert_eq!(c.validate(), Err(ConfigError::UploadConcurrencyZero));
    let mut c = Config::default();
    c.poll_interval_seconds = 0;
    assert_eq!(c.validate(), Err(ConfigError::PollIntervalZero));
    let mut c = Config::default();
    c.encode_timeout_seconds = 0;
    assert_eq!(c.validate(), Err(ConfigError::EncodeTimeoutZero));
    let mut c = Config::default();
    c.request_timeout_seconds = 0;
    assert_eq!(c.validate(), Err(ConfigError::RequestTimeoutZero));
}

#[test]
fn url_checks() {
    assert!(url_parses("http://192.168.0.16:8888/epg"));
    assert!(!url_parses("192.168.0.16:8888 /x y"));
    assert!(!url_parses(""));
}

#[test]
fn base_paths_end_with_a_slash() {
    assert_eq!(directory_path("/epg"), "/epg/");
    assert_eq!(directory_path("/"), "/");
    assert_eq!(directory_path(""), "/");
}

#[test]
fn base_url_path_ends_with_a_slash() {
    assert_eq!(base_url_path("http://localhost:8888/epg").as_deref(), Some("/epg/"));
    assert_eq!(base_url_path("http://localhost:8888/epg/").as_deref(), Some("/epg/"));
    assert_eq!(base_url_path("http://localhost:8888").as_deref(), Some("/"));
    assert_eq!(base_url_path("not a url"), None);
}
