//! A stream wrapper that reports a short preview of what passes through it.
use vstd::prelude::*;

verus! {

/// A stream and the number of bytes of each transfer that a trace shows.
pub struct SpyIO<T> {
    inner: T,
    preview: usize,
}

impl<T> SpyIO<T> {
    pub closed spec fn spec_inner(&self) -> T {
        self.inner
    }

    pub closed spec fn spec_preview(&self) -> usize {
        self.preview
    }

    pub fn new(inner: T, preview: usize) -> (r: SpyIO<T>)
        ensures
            r.spec_inner() == inner,
            r.spec_preview() == preview,
    {
        SpyIO { inner, preview }
    }

    /// A second wrapper of the same stream, given the stream's own clone (or
    /// the error cloning it gave), with the same preview length.
    pub fn try_clone<E>(&self, cloned: Result<T, E>) -> (r: Result<SpyIO<T>, E>)
        ensures
            match cloned {
                Ok(c) => r matches Ok(s) && s.spec_inner() == c && s.spec_preview() == self.spec_preview(),
                Err(e) => r matches Err(f) && f == e,
            },
    {
        match cloned {
            Ok(inner) => Ok(SpyIO { inner, preview: self.preview }),
            Err(e) => Err(e),
        }
    }

    /// The wrapped stream.
    pub fn inner(&self) -> (r: &T)
        ensures
            *r == self.spec_inner(),
    {
        &self.inner
    }

    /// The wrapped stream, to read or write through.
    pub fn as_mut(&mut self) -> (r: &mut T)
        ensures
            *r == old(self).spec_inner(),
            *final(r) == final(self).spec_inner(),
            final(self).spec_preview() == old(self).spec_preview(),
    {
        &mut self.inner
    }

    /// The preview length.
    pub fn preview(&self) -> (r: usize)
        ensures
            r == self.spec_preview(),
    {
        self.preview
    }

    /// How much of a transfer of `bytes` bytes a trace shows, and whether
    /// that is less than all of it.
    pub fn shown(&self, bytes: usize) -> (r: (usize, bool))
        ensures
            r.0 == if bytes < self.spec_preview() { bytes } else { self.spec_preview() },
            r.1 == (bytes > self.spec_preview()),
    {
        let n = if bytes < self.preview { bytes } else { self.preview };
        (n, bytes > self.preview)
    }
}

} // verus!
