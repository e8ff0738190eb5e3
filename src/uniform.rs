use vstd::prelude::*;

verus! {

/// Bit pattern of the `f32` value 0.5.
pub const HALF_BITS: u32 = 0x3F00_0000;

/// Bit pattern of the `f32` value 1.0.
pub const ONE_BITS: u32 = 0x3F80_0000;

/// Bit pattern of the `f32` value nearest to 0.4.
pub const TWO_FIFTHS_BITS: u32 = 0x3ECC_CCCD;

/// Number of 32-bit words of the uniform record: color, time and padding to
/// a 16-byte aligned 32-byte record.
pub const UNIFORM_WORDS: usize = 8;

/// The uniform record read by both shader stages. Each field holds the bit
/// pattern of an `f32`.
#[derive(Clone, Copy)]
pub struct UniformRecord {
    pub color: [u32; 4],
    pub time: u32,
}

/// The base color (0.5, 1.0, 0.4, 1.0) that every frame writes.
pub open spec fn base_color() -> Seq<u32> {
    seq![HALF_BITS, ONE_BITS, TWO_FIFTHS_BITS, ONE_BITS]
}

/// The words of a record: its color, its time, then three zero words.
pub open spec fn record_words(color: Seq<u32>, time: u32) -> Seq<u32> {
    color + seq![time, 0u32, 0u32, 0u32]
}

/// The record written for a frame whose elapsed time has the bit pattern
/// `time`: the base color and that time.
pub fn uniform_for_time(time: u32) -> (r: UniformRecord)
    ensures
        r.color@ == base_color(),
        r.time == time,
{
    let r = UniformRecord { color: [HALF_BITS, ONE_BITS, TWO_FIFTHS_BITS, ONE_BITS], time };
    assert(r.color@ =~= base_color());
    r
}

impl UniformRecord {
    /// The record as the eight words uploaded to the uniform buffer.
    pub fn to_words(&self) -> (r: Vec<u32>)
        ensures
            r@ == record_words(self.color@, self.time),
            r@.len() == UNIFORM_WORDS,
    {
        let r: Vec<u32> = vec![
            self.color[0],
            self.color[1],
            self.color[2],
            self.color[3],
            self.time,
            0,
            0,
            0,
        ];
        assert(r@ =~= record_words(self.color@, self.time));
        r
    }
}

} // verus!
