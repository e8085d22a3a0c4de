use vstd::prelude::*;

verus! {

/// Panel width in pixels.
pub const WIDTH: usize = 128;

/// Panel height in pixels.
pub const HEIGHT: usize = 296;

/// Bytes in one row of a plane: eight pixels to a byte, no padding.
pub const BYTES_PER_ROW: usize = 16;

/// Bytes in one plane: one bit per pixel.
pub const PIXEL_REGISTERS: usize = 4736;

/// A pixel coordinate outside the plane.
#[derive(Debug, Clone, Copy, PartialEq, Eq)]
pub struct BoundsError {
    pub x: i32,
    pub y: i32,
}

pub open spec fn in_bounds(x: int, y: int) -> bool {
    0 <= x < WIDTH && 0 <= y < HEIGHT
}

/// Index of the byte that holds pixel (x, y): rows are packed one after the other.
pub open spec fn byte_index(x: int, y: int) -> int {
    y * BYTES_PER_ROW + x / 8
}

/// Mask of the bit that holds pixel (x, y) within its byte: the leftmost
/// pixel of a byte is its most significant bit.
pub open spec fn bit_mask(x: int) -> u8 {
    0x80u8 >> ((x % 8) as u8)
}

/// Whether pixel (x, y) is set in the plane bytes `b`.
pub open spec fn pixel_on(b: Seq<u8>, x: int, y: int) -> bool {
    b[byte_index(x, y)] & bit_mask(x) != 0
}

/// Byte `v` with bit `m` set or cleared.
pub open spec fn with_bit(v: u8, m: u8, on: bool) -> u8 {
    if on {
        v | m
    } else {
        v & !m
    }
}

/// The plane bytes `b` after pixel (x, y) has been set to `on`.
pub open spec fn with_pixel(b: Seq<u8>, x: int, y: int, on: bool) -> Seq<u8> {
    b.update(byte_index(x, y), with_bit(b[byte_index(x, y)], bit_mask(x), on))
}

pub proof fn lemma_byte_index_in_range(x: int, y: int)
    requires
        in_bounds(x, y),
    ensures
        0 <= byte_index(x, y) < PIXEL_REGISTERS,
{
    assert(y * 16 <= 295 * 16) by (nonlinear_arith)
        requires
            0 <= y <= 295,
    ;
}

proof fn lemma_with_bit(v: u8, s: u8, t: u8, on: bool)
    requires
        s < 8,
        t < 8,
    ensures
        (with_bit(v, 0x80u8 >> s, on) & (0x80u8 >> s) != 0) == on,
        s != t ==> (with_bit(v, 0x80u8 >> s, on) & (0x80u8 >> t) != 0) == (v & (0x80u8 >> t)
            != 0),
{
    if on {
        assert((v | (0x80u8 >> s)) & (0x80u8 >> s) != 0) by (bit_vector)
            requires
                s < 8,
        ;
        assert(s != t ==> ((v | (0x80u8 >> s)) & (0x80u8 >> t) != 0) == (v & (0x80u8 >> t) != 0))
            by (bit_vector)
            requires
                s < 8,
                t < 8,
        ;
    } else {
        assert((v & !(0x80u8 >> s)) & (0x80u8 >> s) == 0) by (bit_vector);
        assert(s != t ==> ((v & !(0x80u8 >> s)) & (0x80u8 >> t) != 0) == (v & (0x80u8 >> t)
            != 0)) by (bit_vector)
            requires
                s < 8,
                t < 8,
        ;
    }
}

/// Setting a pixel and reading it back gives the value written; every other
/// pixel keeps its value, and every byte but the one that holds the pixel is
/// left as it was.
pub proof fn lemma_set_then_get(b: Seq<u8>, x: int, y: int, on: bool)
    requires
        b.len() == PIXEL_REGISTERS,
        in_bounds(x, y),
    ensures
        with_pixel(b, x, y, on).len() == PIXEL_REGISTERS,
        pixel_on(with_pixel(b, x, y, on), x, y) == on,
        forall|x2: int, y2: int|
            #![trigger pixel_on(with_pixel(b, x, y, on), x2, y2)]
            in_bounds(x2, y2) && (x2, y2) != (x, y) ==> pixel_on(with_pixel(b, x, y, on), x2, y2)
                == pixel_on(b, x2, y2),
        forall|k: int|
            0 <= k < PIXEL_REGISTERS && k != byte_index(x, y) ==> #[trigger] with_pixel(
                b,
                x,
                y,
                on,
            )[k] == b[k],
{
    lemma_byte_index_in_range(x, y);
    lemma_with_bit(b[byte_index(x, y)], (x % 8) as u8, (x % 8) as u8, on);
    assert forall|x2: int, y2: int|
        #![trigger pixel_on(with_pixel(b, x, y, on), x2, y2)]
        in_bounds(x2, y2) && (x2, y2) != (x, y) implies pixel_on(with_pixel(b, x, y, on), x2, y2)
        == pixel_on(b, x2, y2) by {
        lemma_byte_index_in_range(x2, y2);
        if byte_index(x2, y2) == byte_index(x, y) {
            assert(y2 == y && x2 / 8 == x / 8);
            assert(x2 % 8 != x % 8);
            lemma_with_bit(b[byte_index(x, y)], (x % 8) as u8, (x2 % 8) as u8, on);
        }
    }
}

/// One colour plane of the panel: one bit per pixel, rows packed one after
/// the other, sixteen bytes to a row. A set bit is a marked pixel.
pub struct Plane {
    data: Vec<u8>,
}

impl View for Plane {
    type V = Seq<u8>;

    closed spec fn view(&self) -> Seq<u8> {
        self.data@
    }
}

impl Plane {
    /// A plane holds exactly `PIXEL_REGISTERS` bytes.
    pub open spec fn wf(&self) -> bool {
        self@.len() == PIXEL_REGISTERS
    }

    /// A plane with every pixel clear.
    pub fn new() -> (p: Plane)
        ensures
            p.wf(),
            p@ == Seq::new(PIXEL_REGISTERS as nat, |i: int| 0u8),
    {
        let p = Plane { data: vec![0u8; PIXEL_REGISTERS] };
        assert(p@ =~= Seq::new(PIXEL_REGISTERS as nat, |i: int| 0u8));
        p
    }

    /// Width of the plane in pixels.
    pub fn width(&self) -> (r: usize)
        ensures
            r == WIDTH,
    {
        WIDTH
    }

    /// Height of the plane in pixels.
    pub fn height(&self) -> (r: usize)
        ensures
            r == HEIGHT,
    {
        HEIGHT
    }

    /// The plane's bytes, as they go to the panel.
    pub fn data(&self) -> (r: &Vec<u8>)
        ensures
            r@ == self@,
    {
        &self.data
    }

    /// Sets pixel (x, y) to `on`; a coordinate outside the plane is refused
    /// and leaves the plane unchanged.
    pub fn set_pixel(&mut self, x: i32, y: i32, on: bool) -> (r: Result<(), BoundsError>)
        requires
            old(self).wf(),
        ensures
            final(self).wf(),
            r is Ok <==> in_bounds(x as int, y as int),
            r is Ok ==> final(self)@ == with_pixel(old(self)@, x as int, y as int, on),
            r is Err ==> final(self)@ == old(self)@ && r == Err::<(), BoundsError>(
                BoundsError { x, y },
            ),
    {
        if x < 0 || y < 0 || x as usize >= WIDTH || y as usize >= HEIGHT {
            return Err(BoundsError { x, y });
        }
        proof {
            lemma_byte_index_in_range(x as int, y as int);
        }
        let xu = x as usize;
        let idx = (y as usize) * BYTES_PER_ROW + xu / 8;
        let mask: u8 = 0x80u8 >> ((xu % 8) as u8);
        let old_byte = self.data[idx];
        let new_byte = if on {
            old_byte | mask
        } else {
            old_byte & !mask
        };
        self.data.set(idx, new_byte);
        Ok(())
    }

    /// Reads pixel (x, y); a coordinate outside the plane is refused.
    pub fn get_pixel(&self, x: i32, y: i32) -> (r: Result<bool, BoundsError>)
        requires
            self.wf(),
        ensures
            r is Ok <==> in_bounds(x as int, y as int),
            r is Ok ==> r == Ok::<bool, BoundsError>(pixel_on(self@, x as int, y as int)),
            r is Err ==> r == Err::<bool, BoundsError>(BoundsError { x, y }),
    {
        if x < 0 || y < 0 || x as usize >= WIDTH || y as usize >= HEIGHT {
            return Err(BoundsError { x, y });
        }
        proof {
            lemma_byte_index_in_range(x as int, y as int);
        }
        let xu = x as usize;
        let idx = (y as usize) * BYTES_PER_ROW + xu / 8;
        let mask: u8 = 0x80u8 >> ((xu % 8) as u8);
        Ok(self.data[idx] & mask != 0)
    }
}

} // verus!
