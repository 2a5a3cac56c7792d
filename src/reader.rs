//! A source of bytes of known total size for the codec's incremental reader.
use vstd::prelude::*;
use crate::heif_enums::ReaderGrowStatus;

verus! {

/// A seekable stream together with its total size in bytes.
pub struct StreamReader<T> {
    stream: T,
    total_size: u64,
}

/// What waiting for the source to reach `target_size` gives: a timeout when the
/// stream's position cannot be read, otherwise whether the target lies within the
/// source's total size.
pub open spec fn spec_grow_status(position_known: bool, target_size: u64, total_size: u64) -> ReaderGrowStatus {
    if !position_known {
        ReaderGrowStatus::Timeout
    } else if target_size > total_size {
        ReaderGrowStatus::SizeBeyondEof
    } else {
        ReaderGrowStatus::SizeReached
    }
}

impl<T> StreamReader<T> {
    pub closed spec fn spec_total_size(&self) -> u64 {
        self.total_size
    }

    pub closed spec fn spec_stream(&self) -> T {
        self.stream
    }

    pub fn new(stream: T, total_size: u64) -> (r: StreamReader<T>)
        ensures
            r.spec_total_size() == total_size,
            r.spec_stream() == stream,
    {
        StreamReader { stream, total_size }
    }

    pub fn total_size(&self) -> (r: u64)
        ensures
            r == self.spec_total_size(),
    {
        self.total_size
    }

    /// The underlying stream.
    pub fn stream_mut(&mut self) -> (r: &mut T)
        ensures
            *r == old(self).spec_stream(),
            final(self).spec_stream() == *final(r),
            final(self).spec_total_size() == old(self).spec_total_size(),
    {
        &mut self.stream
    }

    /// What waiting for the source to reach `target_size` gives, once it is known
    /// whether the stream's position can be read.
    pub fn grow_status(&self, position_known: bool, target_size: u64) -> (r: ReaderGrowStatus)
        ensures
            r == spec_grow_status(position_known, target_size, self.spec_total_size()),
    {
        if !position_known {
            ReaderGrowStatus::Timeout
        } else if target_size > self.total_size {
            ReaderGrowStatus::SizeBeyondEof
        } else {
            ReaderGrowStatus::SizeReached
        }
    }
}

} // verus!
