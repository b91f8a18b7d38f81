//! The decision core of the streaming fetcher.
//!
//! The surrounding process performs the network reads and file writes; this
//! module owns every decision in that loop. For each chunk that was read and
//! written, `record_chunk` advances the byte count, computes the clamped
//! percentage, and publishes it to every observer. When the download reaches
//! its terminal state — success or failure — `conclude` clears the observer
//! registry, so a later download starts with zero observers carried over.

use vstd::prelude::*;
use crate::progress::{percent_hundredths, percent_hundredths_spec, lemma_percent_monotone};
use crate::registry::{Delivery, ProgressRegistry};

verus! {

/// Whether an HTTP status code lets the download proceed: exactly the
/// success class. Any other status aborts the fetch as a failed download.
pub fn status_allows_download(code: u16) -> (ok: bool)
    ensures
        ok <==> 200 <= code < 300,
{
    200 <= code && code < 300
}

/// The progress state of one running download: the total size the server
/// reported (`0` when it reported none) and the bytes received so far.
pub struct DownloadProgress {
    pub total: u64,
    pub downloaded: u64,
}

impl DownloadProgress {
    /// The current progress value, in hundredths of a percent.
    pub open spec fn percent(&self) -> int {
        percent_hundredths_spec(self.total, self.downloaded)
    }

    /// Starts tracking a download whose reported total size is
    /// `reported_total`; `None` means the server did not report one, and
    /// every published percentage of this download will be the sentinel
    /// `0`.
    pub fn new(reported_total: Option<u64>) -> (r: DownloadProgress)
        ensures
            r.total == (match reported_total {
                Option::Some(t) => t,
                Option::None => 0u64,
            }),
            r.downloaded == 0,
    {
        let total = match reported_total {
            Option::Some(t) => t,
            Option::None => 0,
        };
        DownloadProgress { total, downloaded: 0 }
    }

    /// Records one chunk of `len` bytes that was received and written, and
    /// publishes the new percentage to every subscribed observer. Returns
    /// the published value. The percentage never decreases from chunk to
    /// chunk, stays within `0 ..= 10000`, and reaches exactly `10000` once
    /// `total` bytes have arrived for a known total.
    pub fn record_chunk(&mut self, registry: &mut ProgressRegistry, len: usize) -> (p: u64)
        requires
            old(self).downloaded + len <= u64::MAX,
            old(registry).wf(),
        ensures
            final(self).total == old(self).total,
            final(self).downloaded == old(self).downloaded + len,
            p == final(self).percent(),
            old(self).percent() <= p <= 10000,
            old(self).total > 0 && final(self).downloaded == old(self).total ==> p == 10000,
            final(registry).wf(),
            final(registry).observers() == old(registry).observers(),
            final(registry).issued() == old(registry).issued(),
            final(registry).deliveries() == old(registry).deliveries() + Seq::new(
                old(registry).observers().len(),
                |i: int|
                    Delivery { observer: old(registry).observers()[i], hundredths: p as nat },
            ),
    {
        self.downloaded = self.downloaded + len as u64;
        let p = percent_hundredths(self.total, self.downloaded);
        proof {
            lemma_percent_monotone(self.total, old(self).downloaded, self.downloaded);
        }
        registry.publish(p);
        p
    }

    /// Marks the terminal state of the download — reached on success and on
    /// failure alike — by clearing the observer registry: an observer that
    /// attaches afterwards is sent nothing of this download.
    pub fn conclude(registry: &mut ProgressRegistry)
        requires
            old(registry).wf(),
        ensures
            final(registry).wf(),
            final(registry).observers() =~= Seq::<nat>::empty(),
            final(registry).deliveries() == old(registry).deliveries(),
    {
        registry.reset();
    }
}

} // verus!
