//! A rectangular image held in host memory, row by row, four channels per texel.
use vstd::prelude::*;
use vstd::slice::slice_index_get;
use crate::sums::{flat_sum, lemma_index_in_grid};

verus! {

/// A `width` by `height` image of four-channel texels in row-major order.
pub struct Raster {
    width: u32,
    height: u32,
    texels: Vec<[u64; 4]>,
}

/// Whether the machine can index the texels of a `width` by `height` image.
pub open spec fn indexable(width: u32, height: u32) -> bool {
    width * height <= usize::MAX
}

impl View for Raster {
    type V = Seq<[u64; 4]>;

    /// The texels, row after row.
    closed spec fn view(&self) -> Seq<[u64; 4]> {
        self.texels@
    }
}

impl Raster {
    pub closed spec fn spec_width(&self) -> u32 {
        self.width
    }

    pub closed spec fn spec_height(&self) -> u32 {
        self.height
    }

    /// Every image holds exactly `width * height` texels.
    pub open spec fn wf(&self) -> bool {
        self@.len() == self.spec_width() * self.spec_height()
    }

    /// The texel in column `x` of row `y`.
    pub open spec fn texel(&self, x: int, y: int) -> [u64; 4] {
        self@[y * self.spec_width() + x]
    }

    /// Sum of channel `c` over all texels.
    pub open spec fn channel_total(&self, c: int) -> int {
        flat_sum(self@, self@.len() as int, c)
    }

    /// Whether two images have the same width and the same height.
    pub open spec fn same_size(&self, other: &Raster) -> bool {
        self.spec_width() == other.spec_width() && self.spec_height() == other.spec_height()
    }

    /// The image without any texel.
    pub fn empty() -> (r: Raster)
        ensures
            r.wf(),
            r.spec_width() == 0,
            r.spec_height() == 0,
            r@.len() == 0,
    {
        Raster { width: 0, height: 0, texels: Vec::new() }
    }

    /// An image of a size that the machine can index, whose texels all equal `texel`.
    pub fn uniform(width: u32, height: u32, texel: [u64; 4]) -> (img: Raster)
        requires
            width * height <= usize::MAX,
        ensures
            img.wf(),
            img.spec_width() == width,
            img.spec_height() == height,
            forall|k: int| 0 <= k < img@.len() ==> img@[k] == texel,
    {
        let count: usize = (width as u64 * height as u64) as usize;
        let mut texels: Vec<[u64; 4]> = Vec::new();
        let mut k: usize = 0;
        while k < count
            invariant
                k <= count,
                texels@.len() == k,
                forall|i: int| 0 <= i < k ==> texels@[i] == texel,
            decreases count - k,
        {
            texels.push(texel);
            k += 1;
        }
        Raster { width, height, texels }
    }

    /// An all-zero image of a size that the machine can index.
    pub fn zeroed(width: u32, height: u32) -> (img: Raster)
        requires
            width * height <= usize::MAX,
        ensures
            img.wf(),
            img.spec_width() == width,
            img.spec_height() == height,
            forall|k: int, c: int|
                0 <= k < img@.len() && 0 <= c < 4 ==> (#[trigger] img@[k][c]) == 0,
    {
        Raster::uniform(width, height, [0, 0, 0, 0])
    }

    /// An image whose texels all equal `texel`, or `None` where the machine cannot index
    /// `width * height` texels.
    pub fn filled(width: u32, height: u32, texel: [u64; 4]) -> (r: Option<Raster>)
        ensures
            r is None <==> width * height > usize::MAX,
            r matches Some(img) ==> {
                &&& img.wf()
                &&& img.spec_width() == width
                &&& img.spec_height() == height
                &&& forall|k: int| 0 <= k < img@.len() ==> img@[k] == texel
            },
    {
        match (width as u64).checked_mul(height as u64) {
            Some(count) => {
                if count > usize::MAX as u64 {
                    None
                } else {
                    Some(Raster::uniform(width, height, texel))
                }
            },
            None => None,
        }
    }

    /// An all-zero image, or `None` where the machine cannot index `width * height` texels.
    pub fn new(width: u32, height: u32) -> (r: Option<Raster>)
        ensures
            r is None <==> width * height > usize::MAX,
            r matches Some(img) ==> {
                &&& img.wf()
                &&& img.spec_width() == width
                &&& img.spec_height() == height
                &&& forall|k: int, c: int|
                    0 <= k < img@.len() && 0 <= c < 4 ==> (#[trigger] img@[k][c]) == 0
            },
    {
        Raster::filled(width, height, [0, 0, 0, 0])
    }

    /// The image that eight-bit RGBA bytes describe, four bytes per texel, row after row.
    /// `None` where `data` is not exactly `width * height * 4` bytes long.
    pub fn from_rgba8(width: u32, height: u32, data: &[u8]) -> (r: Option<Raster>)
        ensures
            r is Some <==> data@.len() == width * height * 4,
            r matches Some(img) ==> {
                &&& img.wf()
                &&& img.spec_width() == width
                &&& img.spec_height() == height
                &&& forall|k: int, c: int|
                    0 <= k < img@.len() && 0 <= c < 4 ==> (#[trigger] img@[k][c]) == data@[4 * k
                        + c]
            },
    {
        let len = data.len();
        if len % 4 != 0 {
            return None;
        }
        let count: usize = len / 4;
        let wanted: u64 = match (width as u64).checked_mul(height as u64) {
            Some(n) => n,
            None => {
                return None;
            },
        };
        if wanted != count as u64 {
            return None;
        }
        let mut texels: Vec<[u64; 4]> = Vec::new();
        let mut k: usize = 0;
        while k < count
            invariant
                k <= count,
                len == data@.len(),
                count * 4 == len,
                texels@.len() == k,
                forall|i: int, c: int|
                    0 <= i < k && 0 <= c < 4 ==> (#[trigger] texels@[i][c]) == data@[4 * i + c],
            decreases count - k,
        {
            let r: u8 = *slice_index_get(data, 4 * k);
            let g: u8 = *slice_index_get(data, 4 * k + 1);
            let b: u8 = *slice_index_get(data, 4 * k + 2);
            let a: u8 = *slice_index_get(data, 4 * k + 3);
            texels.push([r as u64, g as u64, b as u64, a as u64]);
            k += 1;
        }
        Some(Raster { width, height, texels })
    }

    /// Builds an image from its texels in row-major order.
    pub fn from_texels(width: u32, height: u32, texels: Vec<[u64; 4]>) -> (r: Raster)
        requires
            texels@.len() == width * height,
        ensures
            r.wf(),
            r.spec_width() == width,
            r.spec_height() == height,
            r@ == texels@,
    {
        Raster { width, height, texels }
    }

    /// Gives up the image for its texel storage.
    pub fn into_texels(self) -> (texels: Vec<[u64; 4]>)
        ensures
            texels@ == self@,
    {
        self.texels
    }

    pub fn get_width(&self) -> (w: u32)
        ensures
            w == self.spec_width(),
    {
        self.width
    }

    pub fn get_height(&self) -> (h: u32)
        ensures
            h == self.spec_height(),
    {
        self.height
    }

    /// Number of texels.
    pub fn len(&self) -> (n: usize)
        ensures
            n == self@.len(),
    {
        self.texels.len()
    }

    /// The `k`-th texel in row-major order.
    pub fn texel_at(&self, k: usize) -> (t: [u64; 4])
        requires
            k < self@.len(),
        ensures
            t == self@[k as int],
    {
        self.texels[k]
    }

    /// Replaces the `k`-th texel in row-major order.
    pub fn set_at(&mut self, k: usize, texel: [u64; 4])
        requires
            k < old(self)@.len(),
        ensures
            final(self).same_size(old(self)),
            final(self)@ == old(self)@.update(k as int, texel),
    {
        self.texels.set(k, texel);
    }

    /// The texel in column `x` of row `y`.
    pub fn get(&self, x: u32, y: u32) -> (t: [u64; 4])
        requires
            self.wf(),
            x < self.spec_width(),
            y < self.spec_height(),
        ensures
            t == self.texel(x as int, y as int),
    {
        proof {
            lemma_index_in_grid(self.width as int, self.height as int, x as int, y as int);
        }
        let n: usize = self.texels.len();
        let k: usize = y as usize * self.width as usize + x as usize;
        self.texels[k]
    }

    /// Replaces the texel in column `x` of row `y`.
    pub fn set(&mut self, x: u32, y: u32, texel: [u64; 4])
        requires
            old(self).wf(),
            x < old(self).spec_width(),
            y < old(self).spec_height(),
        ensures
            final(self).wf(),
            final(self).same_size(old(self)),
            final(self)@ == old(self)@.update(y * old(self).spec_width() + x, texel),
    {
        proof {
            lemma_index_in_grid(self.width as int, self.height as int, x as int, y as int);
        }
        let n: usize = self.texels.len();
        let k: usize = y as usize * self.width as usize + x as usize;
        self.texels.set(k, texel);
    }
}

} // verus!
