//! The framebuffer device: a double-buffered byte surface behind the
//! resource capability contract. Writes land in the backing buffer at the
//! current offset and truncate silently at the device bound; seeks clamp
//! into the device range instead of failing; sync flips the backing buffer
//! to the visible surface.

use vstd::prelude::*;
use crate::codec::sub_bytes;
use crate::resource::Resource;
use crate::resource::ResourceSeek;

verus! {

/// A double-buffered display surface: `offscreen` is the backing buffer
/// writes land in, `onscreen` the visible surface a flip reveals.
pub struct Display {
    pub onscreen: Vec<u8>,
    pub offscreen: Vec<u8>,
}

impl Display {
    /// Both surfaces span the same device size.
    pub open spec fn wf(&self) -> bool {
        self.onscreen@.len() == self.offscreen@.len()
    }

    /// The device size in bytes.
    pub open spec fn spec_size(&self) -> nat {
        self.offscreen@.len()
    }

    pub fn size(&self) -> (r: usize)
        ensures
            r == self.spec_size(),
    {
        self.offscreen.len()
    }

    /// A device of `size` bytes, both surfaces cleared.
    pub fn new(size: usize) -> (r: Display)
        ensures
            r.wf(),
            r.spec_size() == size,
            forall|i: int| 0 <= i < size ==> r.offscreen@[i] == 0 && r.onscreen@[i] == 0,
    {
        let onscreen = zero_bytes(size);
        let offscreen = zero_bytes(size);
        Display { onscreen, offscreen }
    }

    /// Reveals the backing buffer: the visible surface becomes a copy of it.
    pub fn flip(&mut self)
        ensures
            final(self).offscreen@ == old(self).offscreen@,
            final(self).onscreen@ == old(self).offscreen@,
            final(self).wf(),
    {
        let shown = sub_bytes(&self.offscreen, 0, self.offscreen.len());
        proof {
            assert(shown@ =~= self.offscreen@);
        }
        self.onscreen = shown;
    }
}

/// A vector of `n` zero bytes.
fn zero_bytes(n: usize) -> (r: Vec<u8>)
    ensures
        r@.len() == n,
        forall|i: int| 0 <= i < n ==> r@[i] == 0,
{
    let mut r: Vec<u8> = Vec::new();
    let mut i: usize = 0;
    while i < n
        invariant
            i <= n,
            r@.len() == i,
            forall|j: int| 0 <= j < i ==> r@[j] == 0,
        decreases n - i,
    {
        r.push(0);
        i = i + 1;
    }
    r
}

/// Clamps an arithmetic seek target into the device range `[0, size]`.
pub open spec fn clamp_pos(x: int, size: nat) -> nat {
    if x < 0 {
        0
    } else if x > size {
        size
    } else {
        x as nat
    }
}

/// The offset a seek lands on: absolute, relative or end-relative, always
/// clamped into `[0, size]` rather than failing.
pub open spec fn clamp_seek(size: nat, cur: nat, pos: ResourceSeek) -> nat {
    match pos {
        ResourceSeek::Start(o) => clamp_pos(o as int, size),
        ResourceSeek::Current(o) => clamp_pos(cur + o, size),
        ResourceSeek::End(o) => clamp_pos(size + o, size),
    }
}

/// An open handle on the display device: the device and one in-flight
/// write offset.
pub struct DisplayResource {
    pub display: Display,
    pub seek: usize,
}

impl Resource for DisplayResource {
    /// The offset never passes the device bound.
    open spec fn inv(&self) -> bool {
        self.display.wf() && self.seek <= self.display.spec_size()
    }

    open spec fn url_spec(&self) -> Seq<char> {
        "display://"@
    }

    /// A device has at most one writer: duplication is unsupported.
    open spec fn dup_spec(&self, r: Option<DisplayResource>) -> bool {
        r is None
    }

    /// The display is write-only: reading is unsupported and changes
    /// nothing.
    open spec fn read_spec(
        pre: DisplayResource,
        post: DisplayResource,
        buf_pre: Seq<u8>,
        buf_post: Seq<u8>,
        r: Option<usize>,
    ) -> bool {
        r is None && post == pre && buf_post == buf_pre
    }

    /// A write copies `min(remaining capacity, buffer length)` bytes into
    /// the backing buffer at the current offset, advances the offset by the
    /// copied amount, and reports that amount: it truncates silently rather
    /// than failing.
    open spec fn write_spec(
        pre: DisplayResource,
        post: DisplayResource,
        buf: Seq<u8>,
        r: Option<usize>,
    ) -> bool {
        let size = pre.display.spec_size();
        let n = if size - pre.seek < buf.len() {
            size - pre.seek
        } else {
            buf.len() as int
        };
        &&& r == Some((post.seek - pre.seek) as usize)
        &&& post.seek == pre.seek + n
        &&& post.display.offscreen@ == pre.display.offscreen@.subrange(0, pre.seek as int)
            + buf.subrange(0, n) + pre.display.offscreen@.subrange(pre.seek + n, size as int)
        &&& post.display.onscreen@ == pre.display.onscreen@
    }

    /// A seek clamps the computed position into `[0, size]` for all three
    /// origins and reports the position it landed on.
    open spec fn seek_spec(
        pre: DisplayResource,
        post: DisplayResource,
        pos: ResourceSeek,
        r: Option<usize>,
    ) -> bool {
        &&& post.display == pre.display
        &&& post.seek == clamp_seek(pre.display.spec_size(), pre.seek as nat, pos)
        &&& r == Some(post.seek)
    }

    /// Sync flips the backing buffer to the visible surface and always
    /// succeeds.
    open spec fn sync_spec(pre: DisplayResource, post: DisplayResource, r: bool) -> bool {
        &&& r == true
        &&& post.display.offscreen@ == pre.display.offscreen@
        &&& post.display.onscreen@ == pre.display.offscreen@
        &&& post.seek == pre.seek
    }

    fn url(&self) -> (r: String) {
        String::from_str("display://")
    }

    fn dup(&self) -> (r: Option<DisplayResource>) {
        None
    }

    fn read(&mut self, buf: &mut Vec<u8>) -> (r: Option<usize>) {
        None
    }

    fn write(&mut self, buf: &Vec<u8>) -> (r: Option<usize>) {
        let ghost pre = *self;
        let size = self.display.offscreen.len();
        let avail = size - self.seek;
        let n = if avail < buf.len() {
            avail
        } else {
            buf.len()
        };
        let mut i: usize = 0;
        while i < n
            invariant
                pre.inv(),
                n <= buf@.len(),
                pre.seek + n <= pre.display.spec_size(),
                pre.display.spec_size() <= usize::MAX,
                i <= n,
                self.seek == pre.seek,
                self.display.onscreen@ == pre.display.onscreen@,
                self.display.offscreen@.len() == pre.display.spec_size(),
                self.display.offscreen@ =~= pre.display.offscreen@.subrange(0, pre.seek as int)
                    + buf@.subrange(0, i as int) + pre.display.offscreen@.subrange(
                    pre.seek + i,
                    pre.display.spec_size() as int,
                ),
            decreases n - i,
        {
            self.display.offscreen.set(self.seek + i, buf[i]);
            proof {
                assert(self.display.offscreen@ =~= pre.display.offscreen@.subrange(
                    0,
                    pre.seek as int,
                ) + buf@.subrange(0, i + 1) + pre.display.offscreen@.subrange(
                    pre.seek + i + 1,
                    pre.display.spec_size() as int,
                ));
            }
            i = i + 1;
        }
        self.seek = self.seek + n;
        Some(n)
    }

    fn seek(&mut self, pos: ResourceSeek) -> (r: Option<usize>) {
        let end = self.display.offscreen.len();
        let target: usize = match pos {
            ResourceSeek::Start(offset) => {
                if offset > end {
                    end
                } else {
                    offset
                }
            },
            ResourceSeek::Current(offset) => clamp_shift(self.seek, offset, end),
            ResourceSeek::End(offset) => clamp_shift(end, offset, end),
        };
        self.seek = target;
        Some(target)
    }

    fn sync(&mut self) -> (r: bool) {
        self.display.flip();
        true
    }
}

/// Moves `base` by a signed `offset` and clamps the result into
/// `[0, size]`, without any intermediate overflow.
fn clamp_shift(base: usize, offset: isize, size: usize) -> (r: usize)
    requires
        base <= size,
    ensures
        r == clamp_pos(base + offset, size as nat),
{
    if offset >= 0 {
        let step = offset as usize;
        if step >= size - base {
            size
        } else {
            base + step
        }
    } else {
        let back = ((-1 - offset) as usize) + 1;
        if back >= base {
            0
        } else {
            base - back
        }
    }
}

/// The provider that resolves the display scheme for the dispatcher.
pub struct DisplayScheme;

impl DisplayScheme {
    /// The scheme name the provider registers under.
    pub fn scheme(&self) -> (r: String)
        ensures
            r@ == "display"@,
    {
        String::from_str("display")
    }

    /// Opens a handle on the given device at offset zero. Every address of
    /// the scheme resolves to the one device; no path component is
    /// interpreted.
    pub fn open(&mut self, url: &str, display: Display) -> (r: Option<DisplayResource>)
        requires
            display.wf(),
        ensures
            r == Some((DisplayResource { display, seek: 0 })),
    {
        let _ = url;
        Some(DisplayResource { display, seek: 0 })
    }
}

} // verus!
