//! Log rotation: before a new session starts, the active log of the previous
//! one is compressed into a timestamped gzip archive and then removed.
//!
//! The filesystem work happens outside; this module decides what is written
//! and under which name.
use std::io::Write;

use crate::logging::LoggingConfig;
use crate::timestamp::{digit_char, lemma_digit_char, Timestamp};
use vstd::prelude::*;

verus! {

/// The bytes of one gzip member that stores the file name `name` in its
/// header and holds `data` compressed at the default level.
pub uninterp spec fn gzip_member(name: Seq<char>, data: Seq<u8>) -> Seq<u8>;

/// Relies on flate2's `GzBuilder` (`new`, `filename`, `write` with
/// `Compression::default()`) and its encoder's `write_all` and `finish`: the
/// bytes written are one gzip member of `data` whose header stores `name`,
/// with modification time 0 and operating system byte 255, so they depend on
/// the arguments alone. The encoder writes into a `Vec`, which never fails,
/// so its only errors (those of the inner writer) do not arise. `filename`
/// panics on a name that holds a zero byte.
#[verifier::external_body]
fn gzip_named(name: &str, data: &[u8]) -> (r: Result<Vec<u8>, std::io::Error>)
    requires
        !name@.contains('\0'),
    ensures
        r is Ok,
        r->Ok_0@ == gzip_member(name@, data@),
{
    let mut encoder = flate2::GzBuilder::new().filename(name).write(
        Vec::new(),
        flate2::Compression::default(),
    );
    encoder.write_all(data)?;
    encoder.finish()
}

/// What is prepended to archive names: nothing for an empty package name,
/// else the package name and an underscore.
pub open spec fn spec_archive_prefix(package_name: Seq<char>) -> Seq<char> {
    if package_name.len() == 0 {
        Seq::empty()
    } else {
        package_name + seq!['_']
    }
}

/// `{prefix}{YYYY-MM-DD_HH-MM-SS}.log`: the name stored inside an archive.
pub open spec fn spec_archive_base_name(package_name: Seq<char>, t: Timestamp) -> Seq<char> {
    spec_archive_prefix(package_name) + t.spec_text() + seq!['.', 'l', 'o', 'g']
}

/// `{prefix}{YYYY-MM-DD_HH-MM-SS}.log.gz`: the archive's file name.
pub open spec fn spec_archive_file_name(package_name: Seq<char>, t: Timestamp) -> Seq<char> {
    spec_archive_base_name(package_name, t) + seq!['.', 'g', 'z']
}

/// What is known of the active log that an earlier session left behind.
pub struct PreviousLog {
    /// When the filesystem says the log was created, where it says so.
    pub created: Option<Timestamp>,
    /// The local time now, which stands in for a missing creation time.
    pub now: Timestamp,
    /// The log's whole contents.
    pub contents: Vec<u8>,
}

impl PreviousLog {
    pub open spec fn wf(&self) -> bool {
        &&& self.now.wf()
        &&& self.created matches Some(t) ==> t.wf()
    }

    /// The time the archive is named after.
    pub open spec fn spec_archive_time(&self) -> Timestamp {
        match self.created {
            Some(t) => t,
            None => self.now,
        }
    }
}

/// A compressed copy of a previous log, to be written into the log folder.
pub struct Archive {
    pub file_name: String,
    pub bytes: Vec<u8>,
}

/// What rotation does in the log folder. Where `archive` is present, it is
/// written into the folder first and the active log `log_file` removed after
/// it; either way `log_file` is then free for the new session.
pub struct RotationPlan {
    pub log_file: String,
    pub archive: Option<Archive>,
}

/// The prefix of archive names for `package_name`.
pub fn archive_prefix(package_name: &str) -> (r: String)
    ensures
        r@ == spec_archive_prefix(package_name@),
{
    let mut prefix = String::from_str(package_name);
    if package_name.is_empty() {
        return prefix;
    }
    prefix.append("_");
    proof {
        reveal_strlit("_");
    }
    prefix
}

/// The name stored inside the archive of a log created at `t`.
pub fn archive_base_name(package_name: &str, t: &Timestamp) -> (r: String)
    requires
        t.wf(),
    ensures
        r@ == spec_archive_base_name(package_name@, *t),
{
    let mut name = archive_prefix(package_name);
    let stamp = t.text();
    name.append(stamp.as_str());
    name.append(".log");
    proof {
        reveal_strlit(".log");
    }
    name
}

/// The time an archive of `previous` is named after: its creation time,
/// or the current time where the filesystem reports none.
pub fn archive_time(previous: &PreviousLog) -> (r: Timestamp)
    ensures
        r == previous.spec_archive_time(),
{
    match previous.created {
        Some(t) => t,
        None => previous.now,
    }
}

/// Decides the rotation for `config`, given what is known of the active log
/// left by an earlier session (`None` where there is none).
///
/// Without a previous log nothing is archived. With one, its contents are
/// compressed into `{prefix}{time}.log.gz`, a gzip member that stores
/// `{prefix}{time}.log` as its file name, where `time` is the log's creation
/// time (or now) as `YYYY-MM-DD_HH-MM-SS` and `prefix` is the package name and
/// an underscore, or nothing for an empty package name.
pub fn rotation_plan(config: &LoggingConfig, previous: Option<PreviousLog>) -> (r: RotationPlan)
    requires
        previous matches Some(p) ==> p.wf() && !config.spec_package_name().contains('\0'),
    ensures
        r.log_file@ == config.spec_filename(),
        match previous {
            None => r.archive is None,
            Some(p) => {
                let time = p.spec_archive_time();
                let package_name = config.spec_package_name();
                &&& r.archive is Some
                &&& r.archive->Some_0.file_name@ == spec_archive_file_name(package_name, time)
                &&& r.archive->Some_0.bytes@ == gzip_member(
                    spec_archive_base_name(package_name, time),
                    p.contents@,
                )
            },
        },
{
    let log_file = String::from_str(config.get_filename());
    match previous {
        None => RotationPlan { log_file, archive: None },
        Some(p) => {
            let time = archive_time(&p);
            let base_name = archive_base_name(config.get_package_name(), &time);
            proof {
                assert(!base_name@.contains('\0')) by {
                    lemma_base_name_has_no_nul(config.spec_package_name(), time);
                }
            }
            let bytes = match gzip_named(base_name.as_str(), p.contents.as_slice()) {
                Ok(bytes) => bytes,
                Err(_) => Vec::new(),
            };
            let mut file_name = base_name;
            file_name.append(".gz");
            proof {
                reveal_strlit(".gz");
            }
            RotationPlan { log_file, archive: Some(Archive { file_name, bytes }) }
        },
    }
}

/// The name stored inside an archive holds no NUL character where the
/// package name holds none.
pub proof fn lemma_base_name_has_no_nul(package_name: Seq<char>, t: Timestamp)
    requires
        !package_name.contains('\0'),
    ensures
        !spec_archive_base_name(package_name, t).contains('\0'),
{
    t.lemma_text_shape();
    let name = spec_archive_base_name(package_name, t);
    let prefix = spec_archive_prefix(package_name);
    assert forall|i: int| 0 <= i < name.len() implies name[i] != '\0' by {
        if i < prefix.len() {
            if i < package_name.len() {
                assert(name[i] == package_name[i]);
            }
        } else if i < prefix.len() + t.spec_text().len() {
            assert(name[i] == t.spec_text()[i - prefix.len()]);
        }
    }
}

/// With an empty package name an archive is named by its time alone,
/// `{YYYY-MM-DD_HH-MM-SS}.log.gz`, and its name starts with a digit, not
/// with a separator.
pub proof fn lemma_unprefixed_archive_name(t: Timestamp)
    ensures
        spec_archive_file_name(Seq::empty(), t) == t.spec_text() + seq![
            '.',
            'l',
            'o',
            'g',
            '.',
            'g',
            'z',
        ],
        spec_archive_file_name(Seq::empty(), t)[0] != '_',
{
    t.lemma_text_shape();
    let name = spec_archive_file_name(Seq::empty(), t);
    assert(name =~= t.spec_text() + seq!['.', 'l', 'o', 'g', '.', 'g', 'z']);
    let d = choose|d: nat| d < 10 && t.spec_text()[0] == digit_char(d);
    lemma_digit_char(d);
}

} // verus!
