//! The shared install-progress record and the byte accounting of a streaming
//! download. The record is overwritten in place by each install step and read
//! by polling; the tracker's reported count never decreases, so the overall
//! install percentage is monotone across both assets.

use vstd::prelude::*;

verus! {

/// Addition that stops at the top of `u64` instead of wrapping.
pub open spec fn sat_add_u64(a: u64, b: u64) -> u64 {
    if a + b > u64::MAX {
        u64::MAX
    } else {
        (a + b) as u64
    }
}

/// Executable saturating addition.
pub fn sat_add(a: u64, b: u64) -> (r: u64)
    ensures
        r == sat_add_u64(a, b),
{
    if b > u64::MAX - a {
        u64::MAX
    } else {
        a + b
    }
}

/// Law: saturating accumulation never decreases the running value, so the
/// downloaded byte count reported to pollers is monotone.
pub proof fn lemma_sat_add_monotone(a: u64, b: u64)
    ensures
        sat_add_u64(a, b) >= a,
{
}

/// The phase of an install, as reported to pollers.
#[derive(Clone, Copy, PartialEq, Eq, Structural, Debug)]
pub enum ProgressStatus {
    Idle,
    Downloading,
    Verifying,
    Complete,
}

impl ProgressStatus {
    /// The label under which the phase is reported.
    pub fn label(&self) -> (r: &'static str)
        ensures
            *self is Idle ==> r@ == "idle"@,
            *self is Downloading ==> r@ == "downloading"@,
            *self is Verifying ==> r@ == "verifying"@,
            *self is Complete ==> r@ == "complete"@,
    {
        match self {
            ProgressStatus::Idle => "idle",
            ProgressStatus::Downloading => "downloading",
            ProgressStatus::Verifying => "verifying",
            ProgressStatus::Complete => "complete",
        }
    }
}

/// The shared install-progress record. No history is kept: every install
/// step overwrites it.
pub struct InstallProgress {
    pub status: ProgressStatus,
    pub phase: String,
    pub downloaded_bytes: u64,
    pub total_bytes: u64,
}

impl InstallProgress {
    /// The record before any install has run.
    pub fn idle() -> (r: Self)
        ensures
            r.status is Idle,
            r.phase@ == Seq::<char>::empty(),
            r.downloaded_bytes == 0,
            r.total_bytes == 0,
    {
        InstallProgress { status: ProgressStatus::Idle, phase: String::new(), downloaded_bytes: 0, total_bytes: 0 }
    }

    /// Overwrites the record with the current step's state.
    pub fn set(&mut self, status: ProgressStatus, phase: &str, downloaded_bytes: u64, total_bytes: u64)
        ensures
            final(self).status == status,
            final(self).phase@ == phase@,
            final(self).downloaded_bytes == downloaded_bytes,
            final(self).total_bytes == total_bytes,
    {
        self.status = status;
        self.phase = phase.to_owned();
        self.downloaded_bytes = downloaded_bytes;
        self.total_bytes = total_bytes;
    }

    /// A copy of the record, as handed to a poller.
    pub fn snapshot(&self) -> (r: Self)
        ensures
            r.status == self.status,
            r.phase@ == self.phase@,
            r.downloaded_bytes == self.downloaded_bytes,
            r.total_bytes == self.total_bytes,
    {
        InstallProgress {
            status: self.status,
            phase: self.phase.clone(),
            downloaded_bytes: self.downloaded_bytes,
            total_bytes: self.total_bytes,
        }
    }
}

/// The byte accounting of one streaming download: `base` bytes were already
/// downloaded by earlier assets, `advertised` is the cumulative total to
/// report (base plus the content length the server announced, or just base
/// when it announced none).
pub struct DownloadTracker {
    pub base: u64,
    pub advertised: u64,
    pub downloaded: u64,
}

impl DownloadTracker {
    /// Starts tracking one asset's download.
    pub fn start(base: u64, content_length: Option<u64>) -> (r: Self)
        ensures
            r.base == base,
            r.downloaded == 0,
            r.advertised == sat_add_u64(
                base,
                match content_length {
                    Option::Some(n) => n,
                    Option::None => 0,
                },
            ),
    {
        let announced = match content_length {
            Some(n) => n,
            None => 0,
        };
        DownloadTracker { base, advertised: sat_add(base, announced), downloaded: 0 }
    }

    /// Accounts one received chunk.
    pub fn record_chunk(&mut self, len: u64)
        ensures
            final(self).base == old(self).base,
            final(self).advertised == old(self).advertised,
            final(self).downloaded == sat_add_u64(old(self).downloaded, len),
            final(self).downloaded >= old(self).downloaded,
    {
        self.downloaded = sat_add(self.downloaded, len);
    }

    /// The cumulative count to report: bytes of earlier assets plus this one.
    pub fn reported(&self) -> (r: u64)
        ensures
            r == sat_add_u64(self.base, self.downloaded),
    {
        sat_add(self.base, self.downloaded)
    }
}

} // verus!
