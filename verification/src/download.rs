//! The checksum download engine: which artifacts are stale, how often a
//! fetch is retried, how a queue is cut into shards for the workers, and
//! how progress is counted.

use vstd::prelude::*;
use crate::notifier::{event_of, InternalNotif, NotificationState, Notifier};
use crate::text::{concat2, concat3, decimal_digits, decimal_string, str_eq};
use crate::utils::{is_balanced_split, shard_views, split_vec_into};

verus! {

/// The lower-case hexadecimal SHA-1 digest of `data`, as `sha1_smol` prints it.
pub uninterp spec fn sha1_hex(data: Seq<u8>) -> Seq<char>;

/// Calls `sha1_smol::Sha1::from(data).digest()` and renders the digest with
/// its `Display` impl. The result is a function of the bytes alone; nothing
/// else is claimed of it.
#[verifier::external_body]
pub(crate) fn sha1_hex_digest(data: &[u8]) -> (hex: String)
    ensures
        hex@ == sha1_hex(data@),
{
    sha1_smol::Sha1::from(data).digest().to_string()
}

/// Why fetching an artifact failed.
#[derive(Debug)]
pub enum DownloadErr {
    /// Every permitted attempt was used and the file is still stale.
    OutOfRetries,
    /// The destination exists and is not a regular file.
    NotAFile,
    /// The destination's metadata could not be read.
    NoFilePerm(String),
    /// The request could not be sent or answered.
    Request(String),
    /// The server answered with a status outside 200..=299.
    Response(u16),
    /// The destination file or its parent directories could not be created.
    FileCreate(String),
    /// The received body could not be written to the destination.
    FileWrite(String),
}

/// What a look at the destination path found.
#[derive(Debug)]
pub enum FileProbe {
    /// Nothing exists at the path.
    Missing,
    /// The metadata could not be read, for a reason other than absence.
    Failed(String),
    /// Something exists at the path.
    Found { is_file: bool, len: u64 },
}

/// One file to fetch and verify.
#[derive(Debug)]
pub struct Download {
    pub sha1: Option<String>,
    pub size: Option<u32>,
    pub path: String,
    pub url: String,
}

/// A [`Download`] by its contents.
pub struct DownloadView {
    pub sha1: Option<Seq<char>>,
    pub size: Option<u32>,
    pub path: Seq<char>,
    pub url: Seq<char>,
}

impl DeepView for Download {
    type V = DownloadView;

    open spec fn deep_view(&self) -> DownloadView {
        DownloadView {
            sha1: self.sha1.deep_view(),
            size: self.size,
            path: self.path@,
            url: self.url@,
        }
    }
}

/// The expected size is absent or equals `len`.
pub open spec fn size_matches(expected: Option<u32>, len: u64) -> bool {
    match expected {
        Some(size) => len == size,
        None => true,
    }
}

/// The expected digest is absent, or the file was read and `digest` is its
/// digest and equals the expected one.
pub open spec fn digest_matches(expected: Option<String>, digest: Option<Seq<char>>) -> bool {
    match expected {
        Some(sha1) => digest == Some(sha1@),
        None => true,
    }
}

/// The digest of the file's contents, when they could be read.
pub open spec fn digest_of(contents: Option<Seq<u8>>) -> Option<Seq<char>> {
    match contents {
        Some(bytes) => Some(sha1_hex(bytes)),
        None => None,
    }
}

/// Whether the artifact has to be fetched, given what is at its destination
/// and the digest of what is there.
pub open spec fn fetch_decision(
    download: Download,
    probe: FileProbe,
    digest: Option<Seq<char>>,
) -> Result<bool, DownloadErr> {
    match probe {
        FileProbe::Missing => Ok(true),
        FileProbe::Failed(reason) => Err(DownloadErr::NoFilePerm(reason)),
        FileProbe::Found { is_file, len } => if !is_file {
            Err(DownloadErr::NotAFile)
        } else {
            Ok(!(size_matches(download.size, len) && digest_matches(download.sha1, digest)))
        },
    }
}

/// Whether the decision depends on the file's contents: it is a regular
/// file of the expected size and a digest is expected.
pub open spec fn contents_needed(download: Download, probe: FileProbe) -> bool {
    match probe {
        FileProbe::Found { is_file, len } => is_file && size_matches(download.size, len)
            && download.sha1 is Some,
        _ => false,
    }
}

impl Clone for Download {
    fn clone(&self) -> (copy: Self)
        ensures
            copy == *self,
    {
        let sha1 = match &self.sha1 {
            Some(s) => Some(s.clone()),
            None => None,
        };
        Download { sha1, size: self.size, path: self.path.clone(), url: self.url.clone() }
    }
}

impl Download {
    /// Describes a file to be stored at `path` from `url`.
    pub fn new(path: String, url: &str, sha1: Option<String>, size: Option<u32>) -> (download: Self)
        ensures
            download.path == path,
            download.url@ == url@,
            download.sha1 == sha1,
            download.size == size,
    {
        Download { sha1, size, path, url: url.to_owned() }
    }

    /// The status text while the artifact is fetched.
    pub fn status_text(&self) -> (text: String)
        ensures
            text@ == "Downloading: "@ + self.url@,
    {
        concat2("Downloading: ", self.url.as_str())
    }

    /// Tells whether `other` has the same destination; artifacts are
    /// identified by where they are stored.
    pub fn same_target(&self, other: &Download) -> (same: bool)
        ensures
            same == (self.path@ == other.path@),
    {
        str_eq(self.path.as_str(), other.path.as_str())
    }

    /// Tells whether the file at the destination has the expected size.
    pub fn size_ok(&self, len: u64) -> (ok: bool)
        ensures
            ok == size_matches(self.size, len),
    {
        match self.size {
            Some(size) => len == size as u64,
            None => true,
        }
    }

    /// Tells whether the caller has to read the file before asking
    /// [`Download::should_download`].
    pub fn wants_contents(&self, probe: &FileProbe) -> (wanted: bool)
        ensures
            wanted == contents_needed(*self, *probe),
    {
        match probe {
            FileProbe::Found { is_file, len } => *is_file && self.size_ok(*len)
                && self.sha1.is_some(),
            _ => false,
        }
    }

    /// Compares an already computed digest with the expected one.
    pub fn digest_ok(&self, digest: Option<&str>) -> (ok: bool)
        ensures
            ok == digest_matches(
                self.sha1,
                match digest {
                    Some(d) => Some(d@),
                    None => None,
                },
            ),
    {
        match &self.sha1 {
            Some(sha1) => match digest {
                Some(d) => str_eq(d, sha1.as_str()),
                None => false,
            },
            None => true,
        }
    }

    /// Tells whether the file's contents have the expected digest. `None`
    /// stands for contents that could not be read.
    pub fn checksum_matches(&self, contents: Option<&[u8]>) -> (ok: bool)
        ensures
            ok == digest_matches(
                self.sha1,
                digest_of(
                    match contents {
                        Some(bytes) => Some(bytes@),
                        None => None,
                    },
                ),
            ),
    {
        if self.sha1.is_none() {
            return true;
        }
        match contents {
            Some(bytes) => {
                let hex = sha1_hex_digest(bytes);
                self.digest_ok(Some(hex.as_str()))
            },
            None => self.digest_ok(None),
        }
    }

    /// Decides from an already computed digest whether the artifact has to
    /// be fetched.
    pub fn should_download_given(&self, probe: FileProbe, digest: Option<&str>) -> (decision:
        Result<bool, DownloadErr>)
        ensures
            decision == fetch_decision(
                *self,
                probe,
                match digest {
                    Some(d) => Some(d@),
                    None => None,
                },
            ),
    {
        match probe {
            FileProbe::Missing => Ok(true),
            FileProbe::Failed(reason) => Err(DownloadErr::NoFilePerm(reason)),
            FileProbe::Found { is_file, len } => {
                if !is_file {
                    Err(DownloadErr::NotAFile)
                } else {
                    Ok(!(self.size_ok(len) && self.digest_ok(digest)))
                }
            },
        }
    }

    /// Decides whether the artifact has to be fetched: it is skipped exactly
    /// when the destination is a regular file whose size and SHA-1 digest are
    /// the expected ones, an absent expectation counting as met. `contents`
    /// is what was read from the destination, `None` where nothing was or
    /// could be read.
    pub fn should_download(&self, probe: FileProbe, contents: Option<&[u8]>) -> (decision: Result<
        bool,
        DownloadErr,
    >)
        ensures
            decision == fetch_decision(
                *self,
                probe,
                digest_of(
                    match contents {
                        Some(bytes) => Some(bytes@),
                        None => None,
                    },
                ),
            ),
    {
        match probe {
            FileProbe::Missing => Ok(true),
            FileProbe::Failed(reason) => Err(DownloadErr::NoFilePerm(reason)),
            FileProbe::Found { is_file, len } => {
                if !is_file {
                    Err(DownloadErr::NotAFile)
                } else {
                    Ok(!(self.size_ok(len) && self.checksum_matches(contents)))
                }
            },
        }
    }
}

/// An artifact with both expectations set is skipped exactly when the file
/// at its destination has the expected size and the expected digest.
pub proof fn lemma_skip_iff_size_and_digest_match(download: Download, len: u64, contents: Seq<u8>)
    requires
        download.size is Some,
        download.sha1 is Some,
    ensures
        fetch_decision(
            download,
            FileProbe::Found { is_file: true, len },
            digest_of(Some(contents)),
        ) == Ok::<bool, DownloadErr>(
            !(len == download.size->0 && sha1_hex(contents) == download.sha1->0@),
        ),
{
}


/// The number of attempts that one artifact is given.
pub const MAX_TRIES: u32 = 8;

/// How one attempt to fetch and store an artifact ended.
#[derive(Debug)]
pub enum AttemptOutcome {
    /// The body was received and written to the destination.
    Stored,
    /// The request could not be sent or answered.
    RequestFailed(String),
    /// The server answered with this status, which is not a success.
    BadStatus(u16),
    /// The destination or its parent directories could not be created.
    CreateFailed(String),
    /// The body could not be written to the destination.
    WriteFailed(String),
}

/// What the caller is to do next for an artifact.
#[derive(Debug)]
pub enum DownloadStep {
    /// The file at the destination is valid.
    Finished,
    /// Fetch the artifact once and report how that ended.
    Attempt,
    /// Give up with this error.
    Failed(DownloadErr),
}

/// The retry state of one artifact: the attempts used so far and the
/// error of the last attempt that failed in transit, kept for diagnostics.
#[derive(Debug)]
pub struct Retry {
    pub tries: u32,
    pub last_failure: Option<DownloadErr>,
}

/// A status in 200..=299.
pub open spec fn is_success_status(status: u16) -> bool {
    200 <= status <= 299
}

/// The step that follows a look at the destination, and the attempts used
/// after it: a valid file ends the work, an error ends it with that error,
/// a stale file costs one attempt as long as one is left.
pub open spec fn check_step(tries: u32, check: Result<bool, DownloadErr>) -> (DownloadStep, u32) {
    match check {
        Ok(false) => (DownloadStep::Finished, tries),
        Err(err) => (DownloadStep::Failed(err), tries),
        Ok(true) => if tries >= MAX_TRIES {
            (DownloadStep::Failed(DownloadErr::OutOfRetries), tries)
        } else {
            (DownloadStep::Attempt, (tries + 1) as u32)
        },
    }
}

/// The error that ends the work after an attempt, if the attempt failed
/// locally; failures in transit end nothing.
pub open spec fn attempt_error(outcome: AttemptOutcome) -> Option<DownloadErr> {
    match outcome {
        AttemptOutcome::CreateFailed(reason) => Some(DownloadErr::FileCreate(reason)),
        AttemptOutcome::WriteFailed(reason) => Some(DownloadErr::FileWrite(reason)),
        _ => None,
    }
}

/// The error of the last attempt that failed in transit, after an attempt
/// with `outcome`: a request that failed and a status that is no success
/// are errors of their attempt.
pub open spec fn attempt_failure(
    outcome: AttemptOutcome,
    before: Option<DownloadErr>,
) -> Option<DownloadErr> {
    match outcome {
        AttemptOutcome::RequestFailed(reason) => Some(DownloadErr::Request(reason)),
        AttemptOutcome::BadStatus(status) => Some(DownloadErr::Response(status)),
        _ => before,
    }
}

/// Counts the attempts made, and gives the step that ends the work, when
/// from `tries` used attempts on every look finds a stale file and every
/// attempt fails in transit.
pub open spec fn failing_run(tries: u32) -> (nat, DownloadStep)
    decreases MAX_TRIES - tries,
{
    let (step, next) = check_step(tries, Ok(true));
    if step is Attempt && tries < next <= MAX_TRIES {
        let rest = failing_run(next);
        (rest.0 + 1, rest.1)
    } else {
        (0, step)
    }
}

/// A download that always fails is attempted exactly eight times and then
/// ends with `OutOfRetries`.
pub proof fn lemma_out_of_retries_after_eight_attempts()
    ensures
        failing_run(0) == (8nat, DownloadStep::Failed(DownloadErr::OutOfRetries)),
{
    reveal_with_fuel(failing_run, 10);
}

/// A failure in transit neither ends the work nor uses an attempt by itself:
/// only the next look at the destination does.
pub proof fn lemma_transit_failures_are_retried(reason: String, status: u16)
    ensures
        attempt_error(AttemptOutcome::RequestFailed(reason)) is None,
        attempt_error(AttemptOutcome::BadStatus(status)) is None,
{
}

impl Retry {
    /// The state before the first attempt.
    pub fn new() -> (retry: Self)
        ensures
            retry.tries == 0,
            retry.last_failure is None,
    {
        Retry { tries: 0, last_failure: None }
    }

    /// Tells whether a response with `status` carries the artifact.
    pub fn accepts(status: u16) -> (ok: bool)
        ensures
            ok == is_success_status(status),
    {
        200 <= status && status <= 299
    }

    /// Takes the result of [`Download::should_download`] and says what to do.
    pub fn on_check(&mut self, check: Result<bool, DownloadErr>) -> (step: DownloadStep)
        ensures
            (step, final(self).tries) == check_step(old(self).tries, check),
            final(self).last_failure == old(self).last_failure,
            old(self).tries <= MAX_TRIES ==> final(self).tries <= MAX_TRIES,
    {
        match check {
            Ok(false) => DownloadStep::Finished,
            Err(err) => DownloadStep::Failed(err),
            Ok(true) => {
                if self.tries >= MAX_TRIES {
                    DownloadStep::Failed(DownloadErr::OutOfRetries)
                } else {
                    self.tries = self.tries + 1;
                    DownloadStep::Attempt
                }
            },
        }
    }

    /// Takes the outcome of an attempt. A local failure ends the work with
    /// its error; after anything else the destination is looked at again.
    pub fn on_attempt(&mut self, outcome: AttemptOutcome) -> (result: Result<(), DownloadErr>)
        ensures
            final(self).tries == old(self).tries,
            final(self).last_failure == attempt_failure(outcome, old(self).last_failure),
            result == match attempt_error(outcome) {
                Some(err) => Err::<(), DownloadErr>(err),
                None => Ok(()),
            },
    {
        match outcome {
            AttemptOutcome::Stored => Ok(()),
            AttemptOutcome::RequestFailed(reason) => {
                self.last_failure = Some(DownloadErr::Request(reason));
                Ok(())
            },
            AttemptOutcome::BadStatus(status) => {
                self.last_failure = Some(DownloadErr::Response(status));
                Ok(())
            },
            AttemptOutcome::CreateFailed(reason) => Err(DownloadErr::FileCreate(reason)),
            AttemptOutcome::WriteFailed(reason) => Err(DownloadErr::FileWrite(reason)),
        }
    }
}

/// `n` as a `u32`, or `u32::MAX` where it does not fit.
pub open spec fn clamp_u32(n: int) -> u32 {
    if n > u32::MAX {
        u32::MAX
    } else if n < 0 {
        0
    } else {
        n as u32
    }
}

/// The progress pair shown while a body is received: kilobytes received
/// and kilobytes announced.
pub fn chunk_progress(received: u64, announced: u64) -> (pair: (u32, u32))
    ensures
        pair == (clamp_u32(received as int / 1000), clamp_u32(announced as int / 1000)),
{
    let cur: u64 = received / 1000;
    let max: u64 = announced / 1000;
    let cur32: u32 = if cur > u32::MAX as u64 { u32::MAX } else { cur as u32 };
    let max32: u32 = if max > u32::MAX as u64 { u32::MAX } else { max as u32 };
    (cur32, max32)
}


/// Calls `fastrand::shuffle`, which swaps elements of the slice among
/// themselves: afterwards the vector holds the same items, each as often
/// as before, in an order that nothing is known of.
#[verifier::external_body]
fn shuffle_items<T>(items: &mut Vec<T>)
    ensures
        final(items)@.to_multiset() == old(items)@.to_multiset(),
{
    fastrand::shuffle(items);
}

/// Copies a list of downloads.
pub fn clone_downloads(items: &Vec<Download>) -> (copy: Vec<Download>)
    ensures
        copy@ == items@,
{
    let mut copy: Vec<Download> = Vec::new();
    let mut i: usize = 0;
    while i < items.len()
        invariant
            i <= items.len(),
            copy@ == items@.take(i as int),
        decreases items.len() - i,
    {
        copy.push(items[i].clone());
        i += 1;
    }
    copy
}

/// A queue of artifacts, the number of workers that fetch them, and the
/// notifier that reports on the work.
#[derive(Debug)]
pub struct Downloader {
    pub downloads: Vec<Download>,
    pub notifier: Notifier,
    pub concurrency: usize,
}

/// One run over a queue: a shard for each worker and the running count of
/// finished artifacts.
#[derive(Debug)]
pub struct DownloadJob {
    pub batches: Vec<Vec<Download>>,
    pub notifier: Notifier,
    pub count: u32,
    pub total: u32,
    pub label: String,
}

/// The status text while a run is under way.
pub open spec fn running_text(label: Seq<char>) -> Seq<char> {
    "Downloading "@ + label + "..."@
}

/// The status text that ends a run.
pub open spec fn finished_text(total: u32, label: Seq<char>) -> Seq<char> {
    "Finished downloading "@ + decimal_digits(total as nat) + " "@ + label
}

impl Downloader {
    /// An empty queue for `concurrent_limit` workers.
    pub fn new(notifier: Notifier, concurrent_limit: usize) -> (downloader: Self)
        ensures
            downloader.downloads@.len() == 0,
            downloader.notifier == notifier,
            downloader.concurrency == concurrent_limit,
    {
        Downloader { downloads: Vec::new(), concurrency: concurrent_limit, notifier }
    }

    /// Puts `download` at the end of the queue.
    pub fn add(&mut self, download: Download)
        ensures
            final(self).downloads@ == old(self).downloads@.push(download),
            final(self).notifier == old(self).notifier,
            final(self).concurrency == old(self).concurrency,
    {
        self.downloads.push(download);
    }

    /// Puts a download with the given parts at the end of the queue.
    pub fn add_from(&mut self, path: String, url: String, sha1: Option<String>, size: Option<u32>)
        ensures
            final(self).downloads@ == old(self).downloads@.push(
                Download { sha1, size, path, url },
            ),
            final(self).notifier == old(self).notifier,
            final(self).concurrency == old(self).concurrency,
    {
        self.downloads.push(Download { sha1, size, path, url });
    }

    /// Starts a run over the queue: shuffles it if asked to, cuts a copy of
    /// it into one shard for each worker, and announces the run. The queue
    /// keeps its items.
    pub fn download_all(&mut self, shuffle: bool, text: &str) -> (started: (
        DownloadJob,
        InternalNotif,
    ))
        ensures
            final(self).downloads@.to_multiset() == old(self).downloads@.to_multiset(),
            !shuffle ==> final(self).downloads@ == old(self).downloads@,
            final(self).notifier == old(self).notifier,
            final(self).concurrency == old(self).concurrency,
            started.0.batches@.len() == old(self).concurrency,
            is_balanced_split(shard_views(started.0.batches@), final(self).downloads@),
            started.0.well_formed(),
            started.0.count == 0,
            started.0.total == clamp_u32(old(self).downloads@.len() as int),
            started.0.label@ == text@,
            started.0.notifier.progress == Some((0u32, started.0.total)),
            event_of(
                started.0.notifier.id,
                started.0.notifier.progress,
                running_text(text@),
                NotificationState::Running,
                started.1,
            ),
    {
        let mut notifier = self.notifier.make_new();
        let len: usize = self.downloads.len();
        let total: u32 = if len > u32::MAX as usize {
            u32::MAX
        } else {
            len as u32
        };
        notifier.set_progress(0, total);
        let message = concat3("Downloading ", text, "...");
        let event = notifier.send_msg(message.as_str());
        if shuffle {
            shuffle_items(&mut self.downloads);
        }
        proof {
            old(self).downloads@.to_multiset_ensures();
            self.downloads@.to_multiset_ensures();
        }
        let batches = split_vec_into(clone_downloads(&self.downloads), self.concurrency);
        (DownloadJob { batches, notifier, count: 0, total, label: text.to_owned() }, event)
    }
}

impl DownloadJob {
    /// No more artifacts are counted as done than the run has.
    pub open spec fn well_formed(&self) -> bool {
        self.count <= self.total
    }

    /// Tells whether every artifact of the run has been reported as done;
    /// the caller then stops waiting for reports.
    pub fn is_complete(&self) -> (complete: bool)
        ensures
            complete == (self.count == self.total),
    {
        self.count == self.total
    }

    /// Counts one finished artifact and gives the status event that shows
    /// the new count. A report beyond the total changes nothing.
    pub fn unit_done(&mut self) -> (event: InternalNotif)
        ensures
            final(self).count == if old(self).count < old(self).total {
                (old(self).count + 1) as u32
            } else {
                old(self).count
            },
            old(self).well_formed() ==> final(self).well_formed(),
            final(self).total == old(self).total,
            final(self).label == old(self).label,
            final(self).batches == old(self).batches,
            final(self).notifier.id == old(self).notifier.id,
            final(self).notifier.progress == Some((final(self).count, final(self).total)),
            event_of(
                final(self).notifier.id,
                final(self).notifier.progress,
                running_text(old(self).label@),
                NotificationState::Running,
                event,
            ),
    {
        if self.count < self.total {
            self.count = self.count + 1;
        }
        self.notifier.set_progress(self.count, self.total);
        let message = concat3("Downloading ", self.label.as_str(), "...");
        self.notifier.send_msg(message.as_str())
    }

    /// Ends the run, once every worker has returned: resets the progress
    /// and gives the event that names the number of artifacts and the label.
    pub fn finish(&mut self) -> (event: InternalNotif)
        ensures
            final(self).count == old(self).count,
            final(self).total == old(self).total,
            final(self).label == old(self).label,
            final(self).batches == old(self).batches,
            final(self).notifier.id == old(self).notifier.id,
            final(self).notifier.progress == Some((0u32, 0u32)),
            event_of(
                final(self).notifier.id,
                final(self).notifier.progress,
                finished_text(old(self).total, old(self).label@),
                NotificationState::Success,
                event,
            ),
    {
        self.notifier.set_progress(0, 0);
        let count = decimal_string(self.total as u64);
        let head = concat3("Finished downloading ", count.as_str(), " ");
        let message = concat2(head.as_str(), self.label.as_str());
        self.notifier.send_success(message.as_str())
    }
}

} // verus!
