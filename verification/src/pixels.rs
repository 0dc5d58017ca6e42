use vstd::prelude::*;

verus! {

/// Index of the byte that position `i` receives when the first and third
/// byte of every 4-byte pixel group are exchanged.
pub open spec fn swap_partner(i: int) -> int {
    if i % 4 == 0 {
        i + 2
    } else if i % 4 == 2 {
        i - 2
    } else {
        i
    }
}

/// The byte sequence with byte 0 and byte 2 of every 4-byte pixel group
/// exchanged: the blue-green-red-unused layout becomes red-green-blue-unused
/// and vice versa.
pub open spec fn swapped_pixels(s: Seq<u8>) -> Seq<u8> {
    Seq::new(s.len(), |i: int| s[swap_partner(i)])
}

/// Exchanging the pixel channel order is self-inverse: swapping a whole
/// buffer of 4-byte groups twice restores the original byte sequence.
pub proof fn lemma_swap_involutive(s: Seq<u8>)
    requires
        s.len() % 4 == 0,
    ensures
        swapped_pixels(swapped_pixels(s)) == s,
{
    assert forall|i: int| 0 <= i < s.len() implies swapped_pixels(swapped_pixels(s))[i] == s[i] by {
        assert(swap_partner(swap_partner(i)) == i);
        assert(0 <= swap_partner(i) < s.len());
    }
    assert(swapped_pixels(swapped_pixels(s)) =~= s);
}

/// Exchanges byte 0 and byte 2 of every 4-byte group in place.
pub fn swap_pixel_order(buf: &mut Vec<u8>)
    requires
        old(buf)@.len() % 4 == 0,
    ensures
        final(buf)@ == swapped_pixels(old(buf)@),
{
    let n: usize = buf.len();
    let mut i: usize = 0;
    while i < n
        invariant
            n == buf@.len(),
            n == old(buf)@.len(),
            n % 4 == 0,
            i % 4 == 0,
            i <= n,
            forall|j: int| 0 <= j < i ==> buf@[j] == swapped_pixels(old(buf)@)[j],
            forall|j: int| i <= j < n ==> buf@[j] == old(buf)@[j],
        decreases n - i,
    {
        let a = buf[i];
        let c = buf[i + 2];
        buf.set(i, c);
        buf.set(i + 2, a);
        i = i + 4;
    }
    assert(buf@ =~= swapped_pixels(old(buf)@));
}

/// Marker for the native channel order: blue, green, red, unused.
pub struct Bgra;

/// Marker for the swapped channel order: red, green, blue, unused.
pub struct Rgba;

/// A read-only view over a capture buffer, tagged with its channel order and
/// carrying the geometry the buffer was captured at.
pub struct Screenshot<'a, Color> {
    pub width: u32,
    pub height: u32,
    pub image: &'a Vec<u8>,
    pub marker: core::marker::PhantomData<Color>,
}

impl<'a, Color> Screenshot<'a, Color> {
    /// The view's geometry describes its byte sequence: one 4-byte group per
    /// pixel, and a pixel count that fits the accessor's result type.
    pub open spec fn wf(self) -> bool {
        &&& self.image@.len() == 4 * self.width * self.height
        &&& self.width * self.height <= u32::MAX
    }

    /// Width in pixels of the viewed capture.
    pub fn width(&self) -> (r: u32)
        ensures
            r == self.width,
    {
        self.width
    }

    /// Height in pixels of the viewed capture.
    pub fn height(&self) -> (r: u32)
        ensures
            r == self.height,
    {
        self.height
    }

    /// Total number of pixels in the viewed capture.
    pub fn total_pixels(&self) -> (r: u32)
        requires
            self.wf(),
        ensures
            r == self.width * self.height,
    {
        self.width * self.height
    }

    /// The viewed byte sequence.
    pub fn bytes(&self) -> (r: &'a Vec<u8>)
        ensures
            r@ == self.image@,
    {
        self.image
    }
}

} // verus!
