//! Finished pixels and the byte buffer a consumer assembles them into.

use vstd::prelude::*;

verus! {

/// One finished pixel: its position in the image, with the origin at the
/// top left, and its quantized color as `[r, g, b, a]` bytes.
pub struct Pixel {
    pub position: [u32; 2],
    pub color: [u8; 4],
}

/// An RGBA byte buffer of a whole image, row-major, four bytes per pixel.
///
/// Pixels arrive from the renderer in no particular order; `write` places
/// each at the offset its position demands and touches nothing else.
pub struct Framebuffer {
    width: u32,
    height: u32,
    data: Vec<u8>,
}

impl View for Framebuffer {
    type V = Seq<u8>;

    closed spec fn view(&self) -> Seq<u8> {
        self.data@
    }
}

impl Framebuffer {
    /// Width of the image in pixels.
    pub closed spec fn width(&self) -> u32 {
        self.width
    }

    /// Height of the image in pixels.
    pub closed spec fn height(&self) -> u32 {
        self.height
    }

    /// The buffer holds exactly four bytes for every pixel of the image.
    pub open spec fn wf(&self) -> bool {
        self@.len() == 4 * (self.width() * self.height())
    }

    /// Byte offset of the first channel of the pixel at `(x, y)`.
    pub open spec fn byte_offset(&self, x: int, y: int) -> int {
        4 * (x + y * self.width())
    }

    /// A black, fully transparent buffer for a `width` × `height` image.
    pub fn new(width: u32, height: u32) -> (buffer: Framebuffer)
        requires
            4 * (width * height) <= usize::MAX,
        ensures
            buffer.wf(),
            buffer.width() == width,
            buffer.height() == height,
            forall|i: int| 0 <= i < buffer@.len() ==> buffer@[i] == 0u8,
    {
        let len: usize = 4 * ((width as usize) * (height as usize));
        let mut data: Vec<u8> = Vec::new();
        let mut i: usize = 0;
        while i < len
            invariant
                i <= len,
                data@.len() == i,
                forall|k: int| 0 <= k < i ==> data@[k] == 0u8,
            decreases len - i,
        {
            data.push(0);
            i = i + 1;
        }
        Framebuffer { width, height, data }
    }

    /// Stores the four color bytes of `pixel` at its position's offset and
    /// leaves every other byte as it was.
    pub fn write(&mut self, pixel: &Pixel)
        requires
            old(self).wf(),
            pixel.position[0] < old(self).width(),
            pixel.position[1] < old(self).height(),
        ensures
            final(self).wf(),
            final(self).width() == old(self).width(),
            final(self).height() == old(self).height(),
            final(self)@.len() == old(self)@.len(),
            forall|k: int|
                0 <= k < 4 ==> final(self)@[old(self).byte_offset(
                    pixel.position[0] as int,
                    pixel.position[1] as int,
                ) + k] == pixel.color[k],
            forall|i: int|
                0 <= i < old(self)@.len() && !(old(self).byte_offset(
                    pixel.position[0] as int,
                    pixel.position[1] as int,
                ) <= i < old(self).byte_offset(
                    pixel.position[0] as int,
                    pixel.position[1] as int,
                ) + 4) ==> final(self)@[i] == old(self)@[i],
    {
        let x = pixel.position[0];
        let y = pixel.position[1];
        // Fixes that the buffer length, and with it every offset inside it,
        // fits in usize.
        let len: usize = self.data.len();
        proof {
            lemma_pixel_offset_in_bounds(
                x as int,
                y as int,
                self.width as int,
                self.height as int,
            );
        }
        let pixel_index: usize = (x as usize) + (y as usize) * (self.width as usize);
        let base: usize = 4 * pixel_index;
        self.data[base] = pixel.color[0];
        self.data[base + 1] = pixel.color[1];
        self.data[base + 2] = pixel.color[2];
        self.data[base + 3] = pixel.color[3];
    }

    /// The assembled bytes, for handing to whatever displays or stores the
    /// image.
    pub fn as_bytes(&self) -> (bytes: &Vec<u8>)
        ensures
            bytes@ == self@,
    {
        &self.data
    }
}

/// The pixel at `(x, y)` of a `width` × `height` image has a row-major index
/// inside the image area.
proof fn lemma_pixel_offset_in_bounds(x: int, y: int, width: int, height: int)
    requires
        0 <= x < width,
        0 <= y < height,
    ensures
        0 <= y * width,
        x + y * width < width * height,
{
    assert(0 <= y * width && x + y * width < width * height) by (nonlinear_arith)
        requires
            0 <= x < width,
            0 <= y < height,
    ;
}

} // verus!
