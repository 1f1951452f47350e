use vstd::prelude::*;

verus! {

/// Exposes one owned resource as a whole stream: the same value serves
/// as read half and write half.
#[derive(Debug)]
pub struct Wrap<T> {
    pub inner: T,
}

impl<T> Wrap<T> {
    /// Wraps the resource; every stream operation forwards to it.
    pub fn new(inner: T) -> (r: Self)
        ensures
            r.inner == inner,
    {
        Wrap { inner }
    }

    /// Wraps the resource on the heap.
    pub fn new_boxed(inner: T) -> (r: Box<Self>)
        ensures
            r.inner == inner,
    {
        Box::new(Wrap::new(inner))
    }
}

/// Composes a separate read half and write half, possibly of different
/// resources, into one stream.
#[derive(Debug)]
pub struct WrapRW<R, W> {
    pub reader: R,
    pub writer: W,
}

impl<R, W> WrapRW<R, W> {
    /// Combines the two halves; reads forward to `reader`, writes and
    /// shutdown to `writer`.
    pub fn new(reader: R, writer: W) -> (r: Self)
        ensures
            r.reader == reader,
            r.writer == writer,
    {
        WrapRW { reader, writer }
    }

    /// Combines the two halves on the heap.
    pub fn new_boxed(reader: R, writer: W) -> (r: Box<Self>)
        ensures
            r.reader == reader,
            r.writer == writer,
    {
        Box::new(WrapRW::new(reader, writer))
    }
}

} // verus!
