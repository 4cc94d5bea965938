//! Progress indicators: the state that a renderer draws.

use vstd::prelude::*;

verus! {

/// `n`, or the largest 64-bit number where `n` is larger. It is meant for
/// numbers that are not negative.
pub open spec fn clamp(n: int) -> u64 {
    if 0 <= n <= u64::MAX {
        n as u64
    } else {
        u64::MAX
    }
}

/// Adds without wrapping: the sum stops at the largest 64-bit number.
pub fn saturating_sum(a: u64, b: u64) -> (sum: u64)
    ensures
        sum == clamp(a + b),
{
    if b > u64::MAX - a {
        u64::MAX
    } else {
        a + b
    }
}

/// The state of one progress bar: how far it is, how far it has to go, what
/// it is called and whether it is finished.
#[derive(Debug, Clone)]
pub struct ProgressIndicator {
    /// The current position.
    pub position: u64,
    /// The total length; 0 stands for an unknown length.
    pub length: u64,
    /// The label shown beside the bar.
    pub label: String,
    /// Whether the bar is finished.
    pub finished: bool,
}

impl ProgressIndicator {
    /// This indicator advanced by `delta`, stopping at the largest position.
    pub open spec fn advanced(self, delta: u64) -> ProgressIndicator {
        ProgressIndicator { position: clamp(self.position + delta), ..self }
    }

    /// This indicator with another total length.
    pub open spec fn resized(self, length: u64) -> ProgressIndicator {
        ProgressIndicator { length, ..self }
    }

    /// This indicator finished: its position is moved to its length.
    pub open spec fn completed(self) -> ProgressIndicator {
        ProgressIndicator { position: self.length, finished: true, ..self }
    }

    /// A fresh indicator: at position 0 of `length`, unfinished, labelled
    /// `label`.
    pub fn new(length: u64, label: String) -> (p: ProgressIndicator)
        ensures
            p == (ProgressIndicator { position: 0, length, label, finished: false }),
    {
        ProgressIndicator { position: 0, length, label, finished: false }
    }

    /// Advances the position by `delta`.
    pub fn inc(&mut self, delta: u64)
        ensures
            *final(self) == old(self).advanced(delta),
    {
        self.position = saturating_sum(self.position, delta);
    }

    /// Sets the total length.
    pub fn set_length(&mut self, length: u64)
        ensures
            *final(self) == old(self).resized(length),
    {
        self.length = length;
    }

    /// Replaces the label.
    pub fn set_label(&mut self, label: String)
        ensures
            *final(self) == (ProgressIndicator { label, ..*old(self) }),
    {
        self.label = label;
    }

    /// Marks the indicator finished and moves its position to its length.
    pub fn finish(&mut self)
        ensures
            *final(self) == old(self).completed(),
    {
        self.position = self.length;
        self.finished = true;
    }

    /// Marks the indicator finished under a last label.
    pub fn finish_with_label(&mut self, label: String)
        ensures
            *final(self) == (ProgressIndicator { label, ..old(self).completed() }),
    {
        self.label = label;
        self.position = self.length;
        self.finished = true;
    }

    /// Whether the indicator is finished.
    pub fn is_finished(&self) -> (done: bool)
        ensures
            done == self.finished,
    {
        self.finished
    }
}

} // verus!
