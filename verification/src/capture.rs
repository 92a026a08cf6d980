//! Decisions of packet capture: how a capture file is opened, and which
//! writes still fit under the file's size limit.
use vstd::prelude::*;
use crate::api::FileWriteMode;

verus! {

/// How a capture file given by its path is opened. It is always created
/// where it is missing, and opened for writing.
#[derive(Debug, Copy, Clone, PartialEq, Eq, Structural)]
pub struct CaptureOpenOptions {
    /// Writes go after what the file already holds.
    pub append: bool,
    /// What the file holds is dropped when it is opened.
    pub truncate: bool,
}

/// Append mode keeps what the file holds and writes after it; overwrite
/// mode empties the file first.
pub fn capture_open_options(mode: FileWriteMode) -> (o: CaptureOpenOptions)
    ensures
        o.append == (mode == FileWriteMode::Append),
        o.truncate == (mode == FileWriteMode::Overwrite),
{
    match mode {
        FileWriteMode::Append => CaptureOpenOptions { append: true, truncate: false },
        FileWriteMode::Overwrite => CaptureOpenOptions { append: false, truncate: true },
    }
}

/// What to do with a block of captured data.
#[derive(Debug, Copy, Clone, PartialEq, Eq, Structural)]
pub enum CaptureWrite {
    /// The data fits under the limit: write it.
    Write,
    /// The data would take the file over its limit: it is not written, and
    /// the capture stops here.
    LimitReached,
    /// The capture stopped earlier: nothing more is written.
    Stopped,
}

/// Whether a file of `size` bytes is within the limit, if there is one.
pub open spec fn within_limit(max_bytes: Option<u64>, size: int) -> bool {
    match max_bytes {
        Some(m) => size <= m,
        None => true,
    }
}

/// The size of a capture file and its limit: the writes that the capture
/// still makes.
pub struct CaptureBudget {
    max_bytes: Option<u64>,
    size: u64,
    stopped: bool,
}

pub struct CaptureBudgetView {
    pub max_bytes: Option<u64>,
    /// The size of the file: what it held when it was opened and what was
    /// written since (capped at `u64::MAX` where there is no limit).
    pub size: nat,
    /// Whether the limit was reached, after which nothing is written.
    pub stopped: bool,
}

impl View for CaptureBudget {
    type V = CaptureBudgetView;

    closed spec fn view(&self) -> CaptureBudgetView {
        CaptureBudgetView { max_bytes: self.max_bytes, size: self.size as nat, stopped: self.stopped }
    }
}

impl CaptureBudget {
    /// The budget of a file that holds `initial_size` bytes when it is opened.
    pub fn new(max_bytes: Option<u64>, initial_size: u64) -> (b: CaptureBudget)
        ensures
            b@ == (CaptureBudgetView { max_bytes, size: initial_size as nat, stopped: false }),
    {
        CaptureBudget { max_bytes, size: initial_size, stopped: false }
    }

    /// The size of the file.
    pub fn size(&self) -> (n: u64)
        ensures
            n == self@.size,
    {
        self.size
    }

    /// Whether the limit was reached.
    pub fn is_stopped(&self) -> (r: bool)
        ensures
            r == self@.stopped,
    {
        self.stopped
    }

    /// Decides on a block of `len` bytes. It is written only while the
    /// capture goes on and the file stays within its limit with it; the first
    /// block that does not fit stops the capture for good.
    pub fn decide(&mut self, len: u64) -> (r: CaptureWrite)
        ensures
            old(self)@.stopped ==> r == CaptureWrite::Stopped && final(self)@ == old(self)@,
            !old(self)@.stopped && within_limit(old(self)@.max_bytes, old(self)@.size + len) ==> {
                &&& r == CaptureWrite::Write
                &&& final(self)@.size == (if old(self)@.size + len <= u64::MAX {
                    old(self)@.size + len
                } else {
                    u64::MAX as int
                })
                &&& !final(self)@.stopped
            },
            !old(self)@.stopped && !within_limit(old(self)@.max_bytes, old(self)@.size + len) ==> {
                &&& r == CaptureWrite::LimitReached
                &&& final(self)@.size == old(self)@.size
                &&& final(self)@.stopped
            },
            final(self)@.max_bytes == old(self)@.max_bytes,
            r == CaptureWrite::Write ==> within_limit(final(self)@.max_bytes, final(self)@.size as int),
    {
        if self.stopped {
            return CaptureWrite::Stopped;
        }
        match self.max_bytes {
            Some(m) => {
                if len <= m && self.size <= m - len {
                    self.size = self.size + len;
                    CaptureWrite::Write
                } else {
                    self.stopped = true;
                    CaptureWrite::LimitReached
                }
            },
            None => {
                self.size = self.size.saturating_add(len);
                CaptureWrite::Write
            },
        }
    }
}

} // verus!
