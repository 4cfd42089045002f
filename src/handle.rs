use vstd::prelude::*;
use vstd::slice::slice_to_vec;

verus! {

/// Where an input came from, so that a consumer can tell resources of
/// different providers apart.
#[derive(Clone, Copy, Debug, PartialEq, Eq, Structural)]
pub enum InputOrigin {
    /// Found on the filesystem by name.
    Filesystem,
    /// Found on the filesystem next to the primary input.
    NearPrimary,
    /// Anything else, such as an entry of a bundle.
    Other,
}

/// A position change, read as `std::io::SeekFrom` reads it.
#[derive(Clone, Copy, Debug, PartialEq, Eq, Structural)]
pub enum SeekFrom {
    /// To this many bytes from the start.
    Start(u64),
    /// To the end plus this offset.
    End(i64),
    /// To the current position plus this offset.
    Current(i64),
}

/// The abstract state of an [`InputHandle`].
pub struct HandleView {
    pub name: Seq<u8>,
    pub data: Seq<u8>,
    pub pos: nat,
    pub origin: InputOrigin,
}

/// The bytes that a read at the current position can still deliver.
///
/// A position past the end leaves nothing to read.
pub open spec fn remaining(v: HandleView) -> Seq<u8> {
    if v.pos < v.data.len() {
        v.data.subrange(v.pos as int, v.data.len() as int)
    } else {
        Seq::empty()
    }
}

/// The position that `to` designates, which may lie outside `0..=u64::MAX`.
pub open spec fn seek_target(v: HandleView, to: SeekFrom) -> int {
    match to {
        SeekFrom::Start(n) => n as int,
        SeekFrom::End(off) => v.data.len() + off,
        SeekFrom::Current(off) => v.pos + off,
    }
}

pub open spec fn valid_position(p: int) -> bool {
    0 <= p <= u64::MAX
}

/// An owned, readable and seekable input whose whole content is in memory.
///
/// It carries the name it was requested under and the kind of place it came
/// from. Like a cursor over a byte buffer, its position may lie past the end,
/// where reads deliver nothing.
#[derive(Debug)]
pub struct InputHandle {
    name: Vec<u8>,
    data: Vec<u8>,
    pos: u64,
    origin: InputOrigin,
}

impl View for InputHandle {
    type V = HandleView;

    closed spec fn view(&self) -> HandleView {
        HandleView { name: self.name@, data: self.data@, pos: self.pos as nat, origin: self.origin }
    }
}

impl InputHandle {
    /// A handle over `data`, positioned at its start.
    pub fn new(name: &[u8], data: Vec<u8>, origin: InputOrigin) -> (r: InputHandle)
        ensures
            r@ == (HandleView { name: name@, data: data@, pos: 0, origin }),
    {
        InputHandle { name: slice_to_vec(name), data, pos: 0, origin }
    }

    /// The name that the input was requested under.
    pub fn name(&self) -> (r: &[u8])
        ensures
            r@ == self@.name,
    {
        self.name.as_slice()
    }

    pub fn origin(&self) -> (r: InputOrigin)
        ensures
            r == self@.origin,
    {
        self.origin
    }

    /// The full content, whatever the position.
    pub fn content(&self) -> (r: &[u8])
        ensures
            r@ == self@.data,
    {
        self.data.as_slice()
    }

    pub fn len(&self) -> (r: usize)
        ensures
            r == self@.data.len(),
    {
        self.data.len()
    }

    pub fn position(&self) -> (r: u64)
        ensures
            r == self@.pos,
    {
        self.pos
    }

    /// The index in `data` where a read starts: the position, or the end if
    /// the position lies past it.
    fn read_start(&self) -> (r: usize)
        ensures
            r <= self@.data.len(),
            self@.pos < self@.data.len() ==> r == self@.pos,
            self@.pos >= self@.data.len() ==> r == self@.data.len(),
            remaining(self@) == self@.data.subrange(r as int, self@.data.len() as int),
    {
        if self.pos >= self.data.len() as u64 {
            proof {
                assert(self@.data.subrange(self@.data.len() as int, self@.data.len() as int)
                    =~= Seq::<u8>::empty());
            }
            self.data.len()
        } else {
            self.pos as usize
        }
    }

    /// Fills the front of `buf` with as many of the remaining bytes as fit
    /// and moves past them. Returns how many were copied.
    pub fn read(&mut self, buf: &mut [u8]) -> (n: usize)
        ensures
            n == if old(buf)@.len() < remaining(old(self)@).len() {
                old(buf)@.len()
            } else {
                remaining(old(self)@).len()
            },
            final(buf)@ == remaining(old(self)@).take(n as int) + old(buf)@.skip(n as int),
            final(self)@ == (HandleView { pos: (old(self)@.pos + n) as nat, ..old(self)@ }),
    {
        let start = self.read_start();
        let avail = self.data.len() - start;
        let n: usize = if buf.len() < avail {
            buf.len()
        } else {
            avail
        };
        let ghost rem = remaining(self@);
        let mut i: usize = 0;
        while i < n
            invariant
                i <= n,
                n <= buf@.len(),
                start + n <= self.data@.len(),
                start + n <= usize::MAX,
                rem == self.data@.subrange(start as int, self.data@.len() as int),
                buf@.len() == old(buf)@.len(),
                forall|k: int| 0 <= k < i ==> buf@[k] == rem[k],
                forall|k: int| i <= k < buf@.len() ==> buf@[k] == old(buf)@[k],
            decreases n - i,
        {
            buf[i] = self.data[start + i];
            i = i + 1;
        }
        assert(buf@ =~= rem.take(n as int) + old(buf)@.skip(n as int));
        self.pos = self.pos + n as u64;
        n
    }

    /// Appends all remaining bytes to `buf` and moves past them. Returns how
    /// many were appended.
    pub fn read_to_end(&mut self, buf: &mut Vec<u8>) -> (n: usize)
        ensures
            n == remaining(old(self)@).len(),
            final(buf)@ == old(buf)@ + remaining(old(self)@),
            final(self)@ == (HandleView { pos: (old(self)@.pos + n) as nat, ..old(self)@ }),
    {
        let start = self.read_start();
        let ghost rem = remaining(self@);
        let mut i: usize = start;
        while i < self.data.len()
            invariant
                start <= i <= self.data@.len(),
                rem == self.data@.subrange(start as int, self.data@.len() as int),
                buf@ == old(buf)@ + rem.take(i - start),
            decreases self.data@.len() - i,
        {
            proof {
                assert(rem.take(i - start + 1) =~= rem.take(i - start).push(self.data@[i as int]));
            }
            buf.push(self.data[i]);
            i = i + 1;
        }
        assert(rem.take(i - start) =~= rem);
        let n = self.data.len() - start;
        self.pos = self.pos + n as u64;
        n
    }

    /// Moves to the position that `to` designates and returns it, or returns
    /// `None` and stays put where that position is negative or beyond
    /// `u64::MAX`.
    pub fn seek(&mut self, to: SeekFrom) -> (r: Option<u64>)
        ensures
            valid_position(seek_target(old(self)@, to)) ==> {
                &&& r == Some(seek_target(old(self)@, to) as u64)
                &&& final(self)@ == (HandleView {
                    pos: seek_target(old(self)@, to) as nat,
                    ..old(self)@
                })
            },
            !valid_position(seek_target(old(self)@, to)) ==> {
                &&& r is None
                &&& final(self)@ == old(self)@
            },
    {
        let target = match to {
            SeekFrom::Start(n) => Some(n),
            SeekFrom::End(off) => offset_position(self.data.len() as u64, off),
            SeekFrom::Current(off) => offset_position(self.pos, off),
        };
        if let Some(p) = target {
            self.pos = p;
        }
        target
    }
}

/// `base + off` where that lies in `0..=u64::MAX`.
fn offset_position(base: u64, off: i64) -> (r: Option<u64>)
    ensures
        valid_position(base + off) ==> r == Some((base + off) as u64),
        !valid_position(base + off) ==> r is None,
{
    if off >= 0 {
        let d = off as u64;
        if d <= u64::MAX - base {
            Some(base + d)
        } else {
            None
        }
    } else {
        let d = (-(off + 1)) as u64 + 1;
        if d <= base {
            Some(base - d)
        } else {
            None
        }
    }
}

} // verus!
