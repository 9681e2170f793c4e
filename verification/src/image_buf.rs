//! The pixel carrier of the pipeline: an owned 8-bit RGBA buffer with its
//! dimensions. Every decoded image is held in this form, whatever the source
//! channel count.

use vstd::prelude::*;

verus! {

/// An 8-bit RGBA pixel buffer: four bytes per pixel, rows in order.
#[derive(Debug)]
pub struct RgbaBuffer {
    pub width: u32,
    pub height: u32,
    pub data: Vec<u8>,
}

impl RgbaBuffer {
    /// The buffer holds exactly four bytes for each of `width * height`
    /// pixels.
    pub open spec fn wf(&self) -> bool {
        self.data@.len() == self.width as int * self.height as int * 4
    }

    /// An exact copy of this buffer.
    pub fn duplicate(&self) -> (r: RgbaBuffer)
        ensures
            r.width == self.width,
            r.height == self.height,
            r.data@ == self.data@,
    {
        RgbaBuffer { width: self.width, height: self.height, data: copy_bytes(&self.data) }
    }
}

/// A byte-for-byte copy of a vector.
pub fn copy_bytes(v: &Vec<u8>) -> (r: Vec<u8>)
    ensures
        r@ == v@,
{
    let mut out: Vec<u8> = Vec::new();
    let mut i: usize = 0;
    while i < v.len()
        invariant
            i <= v@.len(),
            out@ == v@.subrange(0, i as int),
        decreases v@.len() - i,
    {
        out.push(v[i]);
        i = i + 1;
        proof {
            assert(out@ =~= v@.subrange(0, i as int));
        }
    }
    proof {
        assert(out@ =~= v@);
    }
    out
}

/// The RGB bytes of an RGBA byte sequence: each pixel keeps its first three
/// channels and drops the alpha byte.
pub open spec fn rgb_of(data: Seq<u8>) -> Seq<u8> {
    Seq::new((data.len() / 4) * 3, |i: int| data[(i / 3) * 4 + (i % 3)])
}

impl RgbaBuffer {
    /// Converts the buffer to tightly packed 8-bit RGB, discarding alpha.
    pub fn to_rgb_bytes(&self) -> (r: Vec<u8>)
        requires
            self.wf(),
        ensures
            r@ == rgb_of(self.data@),
            r@.len() == self.width as int * self.height as int * 3,
    {
        let mut out: Vec<u8> = Vec::new();
        let n: usize = self.data.len();
        let npix: usize = n / 4;
        let mut p: usize = 0;
        while p < npix
            invariant
                p <= npix,
                n == self.data@.len(),
                npix == n / 4,
                npix * 4 <= n,
                self.data@.len() == self.width as int * self.height as int * 4,
                out@.len() == p as int * 3,
                out@ == rgb_of(self.data@).subrange(0, p as int * 3),
            decreases npix - p,
        {
            assert(p as int * 4 + 2 < self.data@.len());
            out.push(self.data[p * 4]);
            out.push(self.data[p * 4 + 1]);
            out.push(self.data[p * 4 + 2]);
            p = p + 1;
            proof {
                assert(out@ =~= rgb_of(self.data@).subrange(0, p as int * 3));
            }
        }
        proof {
            assert(out@ =~= rgb_of(self.data@));
        }
        out
    }
}

} // verus!
