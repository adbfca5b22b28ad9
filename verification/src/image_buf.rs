use vstd::prelude::*;

verus! {

/// Channel `c` of the pixel at `(x, y)` of a raw RGB byte sequence of width
/// `w`, rows stored top to bottom with three bytes per pixel.
pub open spec fn spec_buf_channel(data: Seq<u8>, w: int, x: int, y: int, c: int) -> u8 {
    data[3 * (y * w + x) + c]
}

/// An RGB pixel buffer, 8 bits per channel, rows stored top to bottom with
/// three bytes per pixel.
pub struct RgbBuffer {
    width: u32,
    height: u32,
    data: Vec<u8>,
}

impl RgbBuffer {
    /// Width of the buffer, in pixels.
    pub closed spec fn spec_width(self) -> int {
        self.width as int
    }

    /// Height of the buffer, in pixels.
    pub closed spec fn spec_height(self) -> int {
        self.height as int
    }

    /// The raw bytes, three per pixel in RGB order.
    pub closed spec fn spec_data(self) -> Seq<u8> {
        self.data@
    }

    /// The buffer holds exactly three bytes per pixel.
    pub open spec fn wf(self) -> bool {
        self.spec_data().len() == 3 * self.spec_width() * self.spec_height()
    }

    /// Channel `c` (0 red, 1 green, 2 blue) of the pixel at `(x, y)`.
    pub open spec fn spec_channel(self, x: int, y: int, c: int) -> u8 {
        spec_buf_channel(self.spec_data(), self.spec_width(), x, y, c)
    }

    /// Builds an all-black buffer of the given dimensions.
    pub fn new_black(width: u32, height: u32) -> (r: Self)
        requires
            3 * width * height <= usize::MAX,
        ensures
            r.wf(),
            r.spec_width() == width,
            r.spec_height() == height,
            forall|x: int, y: int, c: int|
                0 <= x < width && 0 <= y < height && 0 <= c < 3 ==> r.spec_channel(x, y, c) == 0,
    {
        proof {
            assert((width as int) * (height as int) * 3 == 3 * width * height) by (nonlinear_arith);
            vstd::arithmetic::mul::lemma_mul_nonnegative(width as int, height as int);
        }
        let n: usize = (width as usize) * (height as usize) * 3;
        let data: Vec<u8> = vec![0u8; n];
        let r = RgbBuffer { width, height, data };
        proof {
            assert forall|x: int, y: int, c: int|
                0 <= x < width && 0 <= y < height && 0 <= c < 3 implies r.spec_channel(x, y, c)
                == 0 by {
                lemma_channel_index(width as int, height as int, x, y, c);
            }
        }
        r
    }

    /// Builds a buffer from raw bytes; accepts exactly a buffer of three
    /// bytes per pixel.
    pub fn from_raw(width: u32, height: u32, data: Vec<u8>) -> (r: Option<Self>)
        ensures
            r is Some <==> data@.len() == 3 * width * height,
            r matches Some(b) ==> b.wf() && b.spec_width() == width && b.spec_height() == height
                && b.spec_data() == data@,
    {
        proof {
            assert((width as int) * (height as int) * 3 == 3 * width * height) by (nonlinear_arith);
        }
        proof {
            vstd::arithmetic::mul::lemma_mul_upper_bound(
                width as int,
                u32::MAX as int,
                height as int,
                u32::MAX as int,
            );
            vstd::arithmetic::mul::lemma_mul_nonnegative(width as int, height as int);
        }
        let wh = (width as u128) * (height as u128);
        proof {
            assert(wh == (width as int) * (height as int));
        }
        if wh * 3 <= usize::MAX as u128 {
            let n: usize = (width as usize) * (height as usize) * 3;
            proof {
                assert(n == 3 * width * height);
            }
            if data.len() == n {
                Some(RgbBuffer { width, height, data })
            } else {
                None
            }
        } else {
            let cur_len = data.len();
            proof {
                assert(3 * width * height > usize::MAX);
                assert(data@.len() == cur_len);
            }
            None
        }
    }

    /// Builds a buffer from raw bytes already known to hold three bytes per
    /// pixel.
    pub fn from_raw_exact(width: u32, height: u32, data: Vec<u8>) -> (r: Self)
        requires
            data@.len() == 3 * width * height,
        ensures
            r.wf(),
            r.spec_width() == width,
            r.spec_height() == height,
            r.spec_data() == data@,
    {
        RgbBuffer { width, height, data }
    }

    /// Width of the buffer, in pixels.
    pub fn width(&self) -> (r: u32)
        ensures
            r == self.spec_width(),
    {
        self.width
    }

    /// Height of the buffer, in pixels.
    pub fn height(&self) -> (r: u32)
        ensures
            r == self.spec_height(),
    {
        self.height
    }

    /// The raw bytes of the buffer.
    pub fn as_raw(&self) -> (r: &Vec<u8>)
        ensures
            r@ == self.spec_data(),
    {
        &self.data
    }

    /// Reads the pixel at `(x, y)` as an (R, G, B) triple.
    pub fn get_pixel(&self, x: u32, y: u32) -> (r: (u8, u8, u8))
        requires
            self.wf(),
            x < self.spec_width(),
            y < self.spec_height(),
        ensures
            r.0 == self.spec_channel(x as int, y as int, 0),
            r.1 == self.spec_channel(x as int, y as int, 1),
            r.2 == self.spec_channel(x as int, y as int, 2),
    {
        let n_bytes = self.data.len();
        proof {
            lemma_channel_index(self.spec_width(), self.spec_height(), x as int, y as int, 2);
            assert(self.spec_data().len() == n_bytes);
            assert(3 * (self.spec_width() * self.spec_height()) == self.spec_data().len());
            assert(y * self.spec_width() + x < self.spec_width() * self.spec_height());
            assert(self.spec_width() * self.spec_height() <= self.spec_data().len());
        }
        let idx: usize = 3 * ((y as usize) * (self.width as usize) + (x as usize));
        (self.data[idx], self.data[idx + 1], self.data[idx + 2])
    }

    /// Overwrites the pixel at `(x, y)` with an (R, G, B) triple, leaving
    /// every other pixel unchanged.
    pub fn put_pixel(&mut self, x: u32, y: u32, rgb: (u8, u8, u8))
        requires
            old(self).wf(),
            x < old(self).spec_width(),
            y < old(self).spec_height(),
        ensures
            final(self).wf(),
            final(self).spec_width() == old(self).spec_width(),
            final(self).spec_height() == old(self).spec_height(),
            final(self).spec_channel(x as int, y as int, 0) == rgb.0,
            final(self).spec_channel(x as int, y as int, 1) == rgb.1,
            final(self).spec_channel(x as int, y as int, 2) == rgb.2,
            forall|xo: int, yo: int, c: int|
                0 <= xo < old(self).spec_width() && 0 <= yo < old(self).spec_height() && 0 <= c < 3
                    && !(xo == x && yo == y) ==> final(self).spec_channel(xo, yo, c) == old(
                self,
                ).spec_channel(xo, yo, c),
    {
        let n_bytes = self.data.len();
        proof {
            lemma_channel_index(self.spec_width(), self.spec_height(), x as int, y as int, 2);
            assert(self.spec_data().len() == n_bytes);
            assert(3 * (self.spec_width() * self.spec_height()) == self.spec_data().len());
            assert(y * self.spec_width() + x < self.spec_width() * self.spec_height());
            assert(self.spec_width() * self.spec_height() <= self.spec_data().len());
        }
        let idx: usize = 3 * ((y as usize) * (self.width as usize) + (x as usize));
        self.data.set(idx, rgb.0);
        self.data.set(idx + 1, rgb.1);
        self.data.set(idx + 2, rgb.2);
        proof {
            let w = self.spec_width();
            let h = self.spec_height();
            assert forall|xo: int, yo: int, c: int|
                0 <= xo < w && 0 <= yo < h && 0 <= c < 3 && !(xo == x && yo == y)
                implies self.spec_channel(xo, yo, c) == old(self).spec_channel(xo, yo, c) by {
                lemma_channel_index(w, h, xo, yo, c);
                lemma_channel_index_distinct(w, x as int, y as int, xo, yo, c);
            }
        }
    }
}

/// The byte index of a channel is within the buffer.
pub proof fn lemma_channel_index(w: int, h: int, x: int, y: int, c: int)
    by (nonlinear_arith)
    requires
        0 <= x < w,
        0 <= y < h,
        0 <= c < 3,
    ensures
        0 <= 3 * (y * w + x) + c < 3 * w * h,
        0 <= y * w + x < w * h,
        3 * (w * h) == 3 * w * h,
{
}

/// Distinct pixels never share a byte.
pub proof fn lemma_channel_index_distinct(w: int, x: int, y: int, xo: int, yo: int, c: int)
    by (nonlinear_arith)
    requires
        0 <= x < w,
        0 <= xo < w,
        0 <= y,
        0 <= yo,
        0 <= c < 3,
        !(xo == x && yo == y),
    ensures
        3 * (yo * w + xo) + c != 3 * (y * w + x),
        3 * (yo * w + xo) + c != 3 * (y * w + x) + 1,
        3 * (yo * w + xo) + c != 3 * (y * w + x) + 2,
{
}

/// Two well-formed buffers with the same dimensions and the same channels at
/// every pixel hold the same bytes.
pub proof fn lemma_channels_determine_data(a: RgbBuffer, b: RgbBuffer)
    requires
        a.wf(),
        b.wf(),
        a.spec_width() == b.spec_width(),
        a.spec_height() == b.spec_height(),
        forall|x: int, y: int, c: int|
            0 <= x < a.spec_width() && 0 <= y < a.spec_height() && 0 <= c < 3
                ==> a.spec_channel(x, y, c) == b.spec_channel(x, y, c),
    ensures
        a.spec_data() == b.spec_data(),
{
    let w = a.spec_width();
    let h = a.spec_height();
    assert forall|k: int| 0 <= k < 3 * w * h implies a.spec_data()[k] == b.spec_data()[k] by {
        let y = k / (3 * w);
        let rem = k % (3 * w);
        let x = rem / 3;
        let c = rem % 3;
        lemma_byte_index_decomposition(w, h, k);
        assert(a.spec_channel(x, y, c) == b.spec_channel(x, y, c));
    }
    assert(a.spec_data() =~= b.spec_data());
}

/// Every byte index of a buffer decomposes into a pixel and a channel.
pub proof fn lemma_byte_index_decomposition(w: int, h: int, k: int)
    by (nonlinear_arith)
    requires
        0 <= k < 3 * w * h,
        0 <= w,
        0 <= h,
    ensures
        0 < w,
        0 < h,
        0 <= k / (3 * w) < h,
        0 <= (k % (3 * w)) / 3 < w,
        0 <= (k % (3 * w)) % 3 < 3,
        3 * ((k / (3 * w)) * w + (k % (3 * w)) / 3) + (k % (3 * w)) % 3 == k,
{
}

} // verus!
