//! A window onto a byte source: a range of the input that reads and seeks
//! stay inside, with positions counted from the start of the range.
use vstd::prelude::*;

verus! {

/// Why a window or a move inside it was refused.
#[derive(Debug, Clone, Copy, PartialEq, Eq, Structural)]
pub enum SourceRangeError {
    /// The range's end does not fit in a `u64`.
    RangeOverflow,
    /// The range ends past the end of the input.
    RangeExceedsInput,
    /// A seek target lies before the range or past its end.
    SeekOutsideRange,
}

/// Where a seek goes: from the start of the range, from the current
/// position, or from the end of the range.
#[derive(Debug, Clone, Copy, PartialEq, Eq, Structural)]
pub enum WindowSeek {
    Start(u64),
    Current(i64),
    End(i64),
}

/// The range `start .. start + length` of an input, and a position inside
/// it.
#[derive(Debug, Clone, Copy, PartialEq, Eq, Structural)]
pub struct SourceWindow {
    start: u64,
    length: u64,
    position: u64,
}

impl SourceWindow {
    /// The range ends in a `u64`, and the position lies inside it.
    pub open spec fn wf(self) -> bool {
        self.spec_start() + self.spec_length() <= u64::MAX && self.spec_position()
            <= self.spec_length()
    }

    pub closed spec fn spec_start(self) -> u64 {
        self.start
    }

    pub closed spec fn spec_length(self) -> u64 {
        self.length
    }

    pub closed spec fn spec_position(self) -> u64 {
        self.position
    }

    /// The window on `length` bytes from `start` of an input of
    /// `source_len` bytes, at its first byte.
    pub fn new(start: u64, length: u64, source_len: u64) -> (r: Result<
        SourceWindow,
        SourceRangeError,
    >)
        ensures
            start + length > u64::MAX <==> r == Err::<SourceWindow, SourceRangeError>(
                SourceRangeError::RangeOverflow,
            ),
            start + length <= u64::MAX && start + length > source_len <==> r == Err::<
                SourceWindow,
                SourceRangeError,
            >(SourceRangeError::RangeExceedsInput),
            r matches Ok(w) ==> w.wf() && w.spec_start() == start && w.spec_length() == length
                && w.spec_position() == 0,
            start + length <= source_len ==> r is Ok,
    {
        let end = match start.checked_add(length) {
            Some(end) => end,
            None => return Err(SourceRangeError::RangeOverflow),
        };
        if end > source_len {
            return Err(SourceRangeError::RangeExceedsInput);
        }
        Ok(SourceWindow { start, length, position: 0 })
    }

    #[verifier::when_used_as_spec(spec_start)]
    pub fn start(self) -> (r: u64)
        ensures
            r == self.spec_start(),
    {
        self.start
    }

    #[verifier::when_used_as_spec(spec_length)]
    pub fn length(self) -> (r: u64)
        ensures
            r == self.spec_length(),
    {
        self.length
    }

    #[verifier::when_used_as_spec(spec_position)]
    pub fn position(self) -> (r: u64)
        ensures
            r == self.spec_position(),
    {
        self.position
    }

    /// The offset in the input of the current position.
    pub fn absolute_position(self) -> (r: u64)
        requires
            self.wf(),
        ensures
            r == self.start() + self.position(),
    {
        self.start + self.position
    }

    /// The position that `target` names, relative to the range.
    pub open spec fn seek_goal(self, target: WindowSeek) -> int {
        match target {
            WindowSeek::Start(offset) => offset as int,
            WindowSeek::Current(offset) => self.spec_position() + offset,
            WindowSeek::End(offset) => self.spec_length() + offset,
        }
    }

    /// Moves to `target`, which must lie inside the range (its end
    /// included); returns the new position.
    pub fn seek(&mut self, target: WindowSeek) -> (r: Result<u64, SourceRangeError>)
        requires
            old(self).wf(),
        ensures
            final(self).wf(),
            final(self).start() == old(self).start(),
            final(self).length() == old(self).length(),
            (0 <= old(self).seek_goal(target) <= old(self).length()) <==> r is Ok,
            r matches Ok(p) ==> p == old(self).seek_goal(target) && final(self).position() == p,
            r matches Err(e) ==> e == SourceRangeError::SeekOutsideRange && *final(self) == *old(self),
    {
        let goal: i128 = match target {
            WindowSeek::Start(offset) => offset as i128,
            WindowSeek::Current(offset) => self.position as i128 + offset as i128,
            WindowSeek::End(offset) => self.length as i128 + offset as i128,
        };
        if goal > self.length as i128 || goal < 0 {
            return Err(SourceRangeError::SeekOutsideRange);
        }
        let next = goal as u64;
        self.position = next;
        Ok(next)
    }

    /// How many bytes a read into a buffer of `buffer_len` bytes may ask
    /// for: what is left of the range, at most the buffer.
    pub fn read_len(self, buffer_len: usize) -> (r: usize)
        requires
            self.wf(),
        ensures
            r == (if buffer_len < self.length() - self.position() {
                buffer_len as int
            } else {
                self.length() - self.position()
            }),
    {
        let remaining = self.length - self.position;
        if (buffer_len as u128) < (remaining as u128) {
            buffer_len
        } else {
            remaining as usize
        }
    }

    /// Records that a read took `bytes_read` bytes, at most what it asked.
    pub fn advance(&mut self, bytes_read: usize)
        requires
            old(self).wf(),
            bytes_read <= old(self).length() - old(self).position(),
        ensures
            final(self).wf(),
            final(self).start() == old(self).start(),
            final(self).length() == old(self).length(),
            final(self).position() == old(self).position() + bytes_read,
    {
        self.position = self.position + bytes_read as u64;
    }
}

} // verus!
