//! The resource capability contract: the uniform stream-like interface a
//! scheme dispatcher drives. A variant may decline a capability by returning
//! `None` (or `false` for `sync`); what each operation means for a concrete
//! resource is pinned down by the spec functions its implementation provides.

use vstd::prelude::*;

verus! {

/// Where a seek offset is measured from.
#[derive(Clone, Copy, PartialEq, Eq, Structural, Debug)]
pub enum ResourceSeek {
    /// An absolute offset from the start.
    Start(usize),
    /// A signed offset from the current position.
    Current(isize),
    /// A signed offset from the end.
    End(isize),
}

/// A resource exposed through the scheme dispatcher. Each implementation
/// gives the spec functions their concrete meaning; the method contracts
/// hold uniformly for every resource.
pub trait Resource: Sized {
    /// The implementation's internal invariant.
    spec fn inv(&self) -> bool;

    /// The canonical address the resource reports.
    spec fn url_spec(&self) -> Seq<char>;

    /// What duplication yields, or that it is unsupported.
    spec fn dup_spec(&self, r: Option<Self>) -> bool;

    /// How a read relates the resource and the buffer before and after, and
    /// the reported count, or that reading is unsupported.
    spec fn read_spec(pre: Self, post: Self, buf_pre: Seq<u8>, buf_post: Seq<u8>, r: Option<usize>) -> bool;

    /// How a write relates the resource before and after to the buffer and
    /// the reported count, or that writing is unsupported.
    spec fn write_spec(pre: Self, post: Self, buf: Seq<u8>, r: Option<usize>) -> bool;

    /// How a seek relates the positions before and after to the requested
    /// origin and offset, and the reported position.
    spec fn seek_spec(pre: Self, post: Self, pos: ResourceSeek, r: Option<usize>) -> bool;

    /// What committing buffered state means, and when it succeeds.
    spec fn sync_spec(pre: Self, post: Self, r: bool) -> bool;

    /// Every resource reports a canonical address.
    fn url(&self) -> (r: String)
        requires
            self.inv(),
        ensures
            r@ == self.url_spec(),
    ;

    /// A new handle sharing the underlying resource state, where supported.
    fn dup(&self) -> (r: Option<Self>)
        requires
            self.inv(),
        ensures
            self.dup_spec(r),
    ;

    /// Reads into the buffer, reporting how many bytes were read.
    fn read(&mut self, buf: &mut Vec<u8>) -> (r: Option<usize>)
        requires
            old(self).inv(),
        ensures
            final(self).inv(),
            Self::read_spec(*old(self), *final(self), old(buf)@, final(buf)@, r),
    ;

    /// Writes from the buffer, reporting how many bytes were written.
    fn write(&mut self, buf: &Vec<u8>) -> (r: Option<usize>)
        requires
            old(self).inv(),
        ensures
            final(self).inv(),
            Self::write_spec(*old(self), *final(self), buf@, r),
    ;

    /// Moves the stream position, reporting the new position.
    fn seek(&mut self, pos: ResourceSeek) -> (r: Option<usize>)
        requires
            old(self).inv(),
        ensures
            final(self).inv(),
            Self::seek_spec(*old(self), *final(self), pos, r),
    ;

    /// Commits buffered state to its backing target.
    fn sync(&mut self) -> (r: bool)
        requires
            old(self).inv(),
        ensures
            final(self).inv(),
            Self::sync_spec(*old(self), *final(self), r),
    ;
}

} // verus!
