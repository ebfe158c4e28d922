//! Flags of the mpv render API.
use vstd::prelude::*;

verus! {

/// What is known of the next frame.
#[derive(Clone, Copy, Debug, PartialEq, Eq, Structural)]
pub enum RenderFrameInfoFlags {
    /// There is a frame to be drawn.
    Present,
    /// The frame is a redraw request, and no new video frame.
    Redraw,
    /// The frame repeats the previous one.
    Repeat,
    /// The player expects the drawing to wait for the vertical sync.
    BlockVsync,
}

/// All flags at once.
pub const ALL_FLAGS: u64 = 0xf;

impl RenderFrameInfoFlags {
    /// The bit of the flag.
    pub open spec fn bit(self) -> u64 {
        match self {
            RenderFrameInfoFlags::Present => 1,
            RenderFrameInfoFlags::Redraw => 2,
            RenderFrameInfoFlags::Repeat => 4,
            RenderFrameInfoFlags::BlockVsync => 8,
        }
    }

    /// The bit of the flag.
    pub fn to_repr(&self) -> (r: u64)
        ensures
            r == self.bit(),
    {
        match self {
            RenderFrameInfoFlags::Present => 1,
            RenderFrameInfoFlags::Redraw => 2,
            RenderFrameInfoFlags::Repeat => 4,
            RenderFrameInfoFlags::BlockVsync => 8,
        }
    }
}

/// A set of [`RenderFrameInfoFlags`].
#[derive(Clone, Copy, Debug, PartialEq, Eq, Structural)]
pub struct FrameInfo {
    bits: u64,
}

impl FrameInfo {
    /// The bits that are set.
    pub closed spec fn repr(self) -> u64 {
        self.bits
    }

    /// Whether the set holds `flag`.
    pub open spec fn holds(self, flag: RenderFrameInfoFlags) -> bool {
        self.repr() & flag.bit() == flag.bit()
    }

    /// The set with these bits. Bits that stand for no flag are an error, which names them.
    pub fn new_checked(bits: u64) -> (r: Result<FrameInfo, u64>)
        ensures
            match r {
                Ok(info) => bits <= ALL_FLAGS && info.repr() == bits,
                Err(unrecognised) => bits > ALL_FLAGS && unrecognised == bits & !ALL_FLAGS,
            },
    {
        assert(bits & !0xfu64 == 0 <==> bits <= 0xf) by (bit_vector);
        let unrecognised: u64 = bits & !ALL_FLAGS;
        if unrecognised == 0 {
            Ok(FrameInfo { bits })
        } else {
            Err(unrecognised)
        }
    }

    /// Whether the set holds `flag`.
    pub fn is_set(&self, flag: RenderFrameInfoFlags) -> (r: bool)
        ensures
            r == self.holds(flag),
    {
        let bit: u64 = flag.to_repr();
        self.bits & bit == bit
    }
}

/// Each flag has a bit of its own, and a set holds a flag if and only if that bit of its number is
/// one.
pub proof fn flags_are_bits(info: FrameInfo)
    ensures
        RenderFrameInfoFlags::Present.bit() == 1,
        RenderFrameInfoFlags::Redraw.bit() == 2,
        RenderFrameInfoFlags::Repeat.bit() == 4,
        RenderFrameInfoFlags::BlockVsync.bit() == 8,
        info.holds(RenderFrameInfoFlags::Present) <==> info.repr() % 2 == 1,
        info.holds(RenderFrameInfoFlags::Redraw) <==> (info.repr() / 2) % 2 == 1,
        info.holds(RenderFrameInfoFlags::Repeat) <==> (info.repr() / 4) % 2 == 1,
        info.holds(RenderFrameInfoFlags::BlockVsync) <==> (info.repr() / 8) % 2 == 1,
{
    let r: u64 = info.repr();
    assert(r & 1 == 1 <==> r % 2 == 1) by (bit_vector);
    assert(r & 2 == 2 <==> (r / 2) % 2 == 1) by (bit_vector);
    assert(r & 4 == 4 <==> (r / 4) % 2 == 1) by (bit_vector);
    assert(r & 8 == 8 <==> (r / 8) % 2 == 1) by (bit_vector);
}

/// The numbers up to fifteen, and no others, are sets of flags. Of another number, what is not a set
/// of flags is what is left when the lowest four bits are taken away.
pub proof fn flags_fill_four_bits(bits: u64)
    ensures
        ALL_FLAGS == 15,
        (bits & !ALL_FLAGS) == bits - bits % 16,
{
    assert((bits & !0xfu64) == bits - bits % 16) by (bit_vector);
}

} // verus!
