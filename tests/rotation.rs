use std::io::Read;

use dablenutil::logging::LoggingConfig;
use dablenutil::rotation::{archive_base_name, archive_prefix, rotation_plan, PreviousLog, RotationPlan};
use dablenutil::timestamp::Timestamp;

fn stamp(year: i32, month: u32, day: u32, hour: u32, minute: u32, second: u32) -> Timestamp {
    Timestamp::new(year, month, day, hour, minute, second).unwrap()
}

fn gunzip(bytes: &[u8]) -> (Vec<u8>, Option<Vec<u8>>) {
    let mut decoder = flate2::read::GzDecoder::new(bytes);
    let mut out = Vec::new();
    decoder.read_to_end(&mut out).unwrap();
    let name = decoder.header().and_then(|h| h.filename()).map(|n| n.to_vec());
    (out, name)
}

fn plan_for(config: &LoggingConfig, created: Option<Timestamp>, contents: &[u8]) -> RotationPlan {
    let previous = PreviousLog {
        created,
        now: stamp(2030, 12, 31, 23, 59, 58),
        contents: contents.to_vec(),
    };
    rotation_plan(config, Some(previous))
}

#[test]
fn no_previous_log_means_no_archive() {
    let config = LoggingConfig::new(std::path::PathBuf::from("./logs"));
    let plan = rotation_plan(&config, None);
    assert_eq!(plan.log_file, "latest.log");
    assert!(plan.archive.is_none());
}

#[test]
fn no_previous_log_keeps_configured_file_name() {
    let config = LoggingConfig::new(std::path::PathBuf::from("./logs")).filename("run.log");
    let plan = rotation_plan(&config, None);
    assert_eq!(plan.log_file, "run.log");
    assert!(plan.archive.is_none());
}

#[test]
fn previous_log_is_archived_under_its_creation_time() {
    let config = LoggingConfig::new(std::path::PathBuf::from("./logs")).package_name("myapp");
    let contents = b"first line\nsecond line\n";
    let plan = plan_for(&config, Some(stamp(2024, 3, 7, 9, 5, 1)), contents);
    assert_eq!(plan.log_file, "latest.log");
    let archive = plan.archive.unwrap();
    assert_eq!(archive.file_name, "myapp_2024-03-07_09-05-01.log.gz");
    let (data, name) = gunzip(&archive.bytes);
    assert_eq!(data, contents.to_vec());
    assert_eq!(name, Some(b"myapp_2024-03-07_09-05-01.log".to_vec()));
}

#[test]
fn default_package_name_prefixes_archives() {
    let config = LoggingConfig::new(std::path::PathBuf::from("./logs"));
    let plan = plan_for(&config, Some(stamp(1999, 12, 31, 23, 59, 59)), b"x");
    let archive = plan.archive.unwrap();
    assert_eq!(archive.file_name, "dablenutil_1999-12-31_23-59-59.log.gz");
}

#[test]
fn missing_creation_time_falls_back_to_now() {
    let config = LoggingConfig::new(std::path::PathBuf::from("./logs")).package_name("myapp");
    let plan = plan_for(&config, None, b"hello");
    assert_eq!(plan.archive.unwrap().file_name, "myapp_2030-12-31_23-59-58.log.gz");
}

#[test]
fn empty_package_name_has_no_leading_separator() {
    let config = LoggingConfig::new(std::path::PathBuf::from("./logs")).package_name("");
    let plan = plan_for(&config, Some(stamp(2024, 1, 2, 3, 4, 5)), b"hello");
    let archive = plan.archive.unwrap();
    assert_eq!(archive.file_name, "2024-01-02_03-04-05.log.gz");
    let (_, name) = gunzip(&archive.bytes);
    assert_eq!(name, Some(b"2024-01-02_03-04-05.log".to_vec()));
}

#[test]
fn empty_previous_log_gives_an_empty_archive() {
    let config = LoggingConfig::new(std::path::PathBuf::from("./logs"));
    let plan = plan_for(&config, Some(stamp(2024, 1, 2, 3, 4, 5)), b"");
    let (data, _) = gunzip(&plan.archive.unwrap().bytes);
    assert!(data.is_empty());
}

#[test]
fn recompressing_decompressed_archive_round_trips() {
    let config = LoggingConfig::new(std::path::PathBuf::from("./logs")).package_name("myapp");
    let when = stamp(2024, 6, 15, 12, 0, 0);
    let contents: Vec<u8> = (0..5000u32).map(|i| (i % 251) as u8).collect();
    let first = plan_for(&config, Some(when), &contents).archive.unwrap();
    let (decompressed, _) = gunzip(&first.bytes);
    assert_eq!(decompressed, contents);
    let second = plan_for(&config, Some(when), &decompressed).archive.unwrap();
    let (again, _) = gunzip(&second.bytes);
    assert_eq!(again, contents);
    assert_eq!(second.bytes, first.bytes);
    assert_eq!(second.file_name, first.file_name);
}

#[test]
fn no_previous_log_needs_no_particular_package_name() {
    let config = LoggingConfig::new(std::path::PathBuf::from("./logs")).package_name("odd\0name");
    let plan = rotation_plan(&config, None);
    assert_eq!(plan.log_file, "latest.log");
    assert!(plan.archive.is_none());
}

#[test]
fn archive_prefix_of_names() {
    assert_eq!(archive_prefix(""), "");
    assert_eq!(archive_prefix("pkg"), "pkg_");
}

#[test]
fn archive_base_name_joins_prefix_time_and_extension() {
    assert_eq!(archive_base_name("pkg", &stamp(2001, 7, 8, 0, 34, 59)), "pkg_2001-07-08_00-34-59.log");
    assert_eq!(archive_base_name("", &stamp(2001, 7, 8, 0, 34, 59)), "2001-07-08_00-34-59.log");
}
