//! A log file that is opened at the first write. Where another process holds
//! the file, the next file of a numbered row is tried.

use vstd::prelude::*;
use crate::text::{decimal, decimal_text};

verus! {

/// The file tried at attempt `attempt`: the path itself at first, and after
/// that the path with the number of the attempt as a further extension.
pub open spec fn attempt_path(path: Seq<char>, attempt: u32) -> Seq<char> {
    if attempt == 0 {
        path
    } else {
        path + "."@ + decimal_text(attempt as nat)
    }
}

/// A log file that is not open yet, or open under one of its names.
pub struct LazyFileWriter {
    pub path: String,
    /// How many files were found held by another process.
    pub attempt: u32,
    /// Whether a file is open.
    pub open: bool,
}

impl LazyFileWriter {
    /// A writer for `path` that has not opened anything.
    pub fn new(path: &str) -> (writer: LazyFileWriter)
        ensures
            writer.path@ == path@,
            writer.attempt == 0,
            !writer.open,
    {
        LazyFileWriter { path: String::from_str(path), attempt: 0, open: false }
    }

    /// The file to open for a write; `None` where a file is open already.
    pub fn file_to_open(&self) -> (file: Option<String>)
        ensures
            crate::paths::text_of(file) == (if self.open {
                None
            } else {
                Some(attempt_path(self.path@, self.attempt))
            }),
    {
        if self.open {
            None
        } else if self.attempt == 0 {
            Some(self.path.clone())
        } else {
            let mut file = self.path.clone();
            file.append(".");
            let digits = decimal(self.attempt);
            file.append(digits.as_str());
            Some(file)
        }
    }

    /// The file that was tried is held by another process: the next one is
    /// tried. Says whether there is a next one.
    pub fn on_locked(&mut self) -> (more: bool)
        ensures
            more == (old(self).attempt < u32::MAX),
            final(self).path == old(self).path,
            final(self).open == old(self).open,
            final(self).attempt == (if more {
                (old(self).attempt + 1) as u32
            } else {
                old(self).attempt
            }),
    {
        if self.attempt < u32::MAX {
            self.attempt = self.attempt + 1;
            true
        } else {
            false
        }
    }

    /// The file that was tried is open and locked.
    pub fn on_opened(&mut self)
        ensures
            final(self).open,
            final(self).path == old(self).path,
            final(self).attempt == old(self).attempt,
    {
        self.open = true;
    }

    /// Whether a flush has a file to flush.
    pub fn flush(&self) -> (needed: bool)
        ensures
            needed == self.open,
    {
        self.open
    }
}

} // verus!
