//! A draft wrapper around a configuration store: readers see the
//! committed data, writers build up a draft copy, and the draft is
//! applied or discarded as a whole.  The lock that shares one of
//! these across threads is the application's concern.

use vstd::prelude::*;

verus! {

/// Committed data beside its pending draft, if one is open.
#[derive(Debug, Clone)]
pub struct Draft<T> {
    pub data: T,
    pub draft: Option<T>,
}

impl<T: Clone> Draft<T> {
    /// Wraps freshly loaded data with no draft open.
    pub fn from_data(data: T) -> (r: Self)
        ensures
            r.data == data,
            r.draft is None,
    {
        Draft { data, draft: None }
    }

    /// The committed data.
    pub fn data(&self) -> (r: &T)
        ensures
            r == self.data,
    {
        &self.data
    }

    /// The newest state: the draft when one is open, else the
    /// committed data.
    pub fn latest(&self) -> (r: &T)
        ensures
            r == match self.draft {
                Some(d) => d,
                None => self.data,
            },
    {
        match &self.draft {
            Some(d) => d,
            None => &self.data,
        }
    }

    /// Opens the draft, copying the committed data if none is open
    /// yet, and hands it out for editing.
    pub fn draft(&mut self) -> (r: &mut T)
        ensures
            old(self).draft matches Some(d) ==> *r == d,
            final(self).data == old(self).data,
            final(self).draft == Some(*final(r)),
    {
        if self.draft.is_none() {
            self.draft = Some(self.data.clone());
        }
        match &mut self.draft {
            Some(d) => d,
            // A draft is always open at this point.
            None => &mut self.data,
        }
    }

    /// Commits the draft, returning the data it replaced; with no
    /// draft open nothing changes.
    pub fn apply(&mut self) -> (r: Option<T>)
        ensures
            match old(self).draft {
                Some(d) => r == Some(old(self).data) && final(self).data == d,
                None => r is None && final(self).data == old(self).data,
            },
            final(self).draft is None,
    {
        match self.draft.take() {
            Some(draft) => {
                let mut data = draft;
                core::mem::swap(&mut data, &mut self.data);
                Some(data)
            },
            None => None,
        }
    }

    /// Drops the draft, returning it; the committed data stays.
    pub fn discard(&mut self) -> (r: Option<T>)
        ensures
            r == old(self).draft,
            final(self).data == old(self).data,
            final(self).draft is None,
    {
        self.draft.take()
    }
}

} // verus!
