use vstd::prelude::*;
use crate::geometry::Size;

verus! {

/// The count that follows `n`, starting again from zero after the largest.
pub open spec fn next_count(n: u64) -> u64 {
    if n == u64::MAX {
        0
    } else {
        (n + 1) as u64
    }
}

/// A drawn result kept for reuse, with the output size it was drawn for, and
/// the number of times a result was stored in it.
#[derive(Debug)]
pub struct Cache<T> {
    pub entry: Option<(Size, T)>,
    pub redraws: u64,
}

impl<T> Cache<T> {
    pub fn new() -> (r: Cache<T>)
        ensures
            r.entry is None,
            r.redraws == 0,
    {
        Cache { entry: None, redraws: 0 }
    }

    /// Whether the kept result was drawn for `size`.
    pub open spec fn valid_for(&self, size: Size) -> bool {
        match self.entry {
            Some((s, _)) => s == size,
            None => false,
        }
    }

    pub fn is_valid_for(&self, size: Size) -> (r: bool)
        ensures
            r == self.valid_for(size),
    {
        match &self.entry {
            Some((s, _)) => *s == size,
            None => false,
        }
    }

    /// Drops the kept result, so that the next query draws anew.
    pub fn clear(&mut self)
        ensures
            final(self).entry is None,
            final(self).redraws == old(self).redraws,
    {
        self.entry = None;
    }

    /// Keeps `content` as the result drawn for `size`, and counts a redraw.
    pub fn store(&mut self, size: Size, content: T)
        ensures
            final(self).entry == Some((size, content)),
            final(self).redraws == next_count(old(self).redraws),
    {
        self.entry = Some((size, content));
        self.redraws = if self.redraws == u64::MAX {
            0
        } else {
            self.redraws + 1
        };
    }
}

} // verus!
