//! Frame metadata that the native library writes for the next frame to render.

use vstd::prelude::*;

verus! {

/// The constant of `Present`. The flag constants are those of the native library.
pub const FRAME_INFO_PRESENT: u32 = 1;

/// The constant of `Redraw`.
pub const FRAME_INFO_REDRAW: u32 = 2;

/// The constant of `Repeat`.
pub const FRAME_INFO_REPEAT: u32 = 4;

/// The constant of `BlockVSync`.
pub const FRAME_INFO_BLOCK_VSYNC: u32 = 8;

/// The one flag of a frame description.
#[derive(Clone, Copy, Debug, PartialEq, Eq, Structural)]
pub enum RenderFrameInfoFlag {
    /// There is a next frame, and it is shown unless something else comes first.
    Present,
    /// The frame is drawn again, after a change of the way it is rendered.
    Redraw,
    /// The frame repeats the one before, for the sake of the display's timing.
    Repeat,
    /// The caller is to wait for the vertical sync of the display.
    BlockVSync,
}

/// What is known of the next frame: its flag and the time at which it is to be shown.
#[derive(Clone, Copy, Debug, PartialEq, Eq, Structural)]
pub struct RenderFrameInfo {
    pub flags: RenderFrameInfoFlag,
    pub target_time: i64,
}

/// A frame description as the native library lays it out: a 64-bit flag field, of which the
/// low word holds the flag, and the target time.
#[derive(Clone, Copy, Debug, PartialEq, Eq, Structural)]
pub struct RawFrameInfo {
    pub flags: u64,
    pub target_time: i64,
}

/// The low 32 bits of a 64-bit flag field. The native library keeps 32-bit flag constants in a
/// 64-bit field, and only this part of the field is read.
pub open spec fn low_word(val: u64) -> u32 {
    (val % 0x1_0000_0000) as u32
}

impl RenderFrameInfoFlag {
    /// The constant by which the native library names this flag.
    pub open spec fn spec_bits(self) -> u32 {
        match self {
            RenderFrameInfoFlag::Present => FRAME_INFO_PRESENT,
            RenderFrameInfoFlag::Redraw => FRAME_INFO_REDRAW,
            RenderFrameInfoFlag::Repeat => FRAME_INFO_REPEAT,
            RenderFrameInfoFlag::BlockVSync => FRAME_INFO_BLOCK_VSYNC,
        }
    }

    /// Whether the low word of `val` is one of the four flag constants.
    pub open spec fn spec_is_known(val: u64) -> bool {
        let low = low_word(val);
        low == FRAME_INFO_PRESENT || low == FRAME_INFO_REDRAW || low == FRAME_INFO_REPEAT || low
            == FRAME_INFO_BLOCK_VSYNC
    }

    /// The flag whose constant is the low word of `val`, where it is the constant of a flag.
    pub open spec fn spec_from(val: u64) -> RenderFrameInfoFlag {
        let low = low_word(val);
        if low == FRAME_INFO_PRESENT {
            RenderFrameInfoFlag::Present
        } else if low == FRAME_INFO_REDRAW {
            RenderFrameInfoFlag::Redraw
        } else if low == FRAME_INFO_REPEAT {
            RenderFrameInfoFlag::Repeat
        } else {
            RenderFrameInfoFlag::BlockVSync
        }
    }

    /// The constant by which the native library names this flag.
    #[verifier::when_used_as_spec(spec_bits)]
    pub fn bits(self) -> (bits: u32)
        ensures
            bits == self.spec_bits(),
    {
        match self {
            RenderFrameInfoFlag::Present => FRAME_INFO_PRESENT,
            RenderFrameInfoFlag::Redraw => FRAME_INFO_REDRAW,
            RenderFrameInfoFlag::Repeat => FRAME_INFO_REPEAT,
            RenderFrameInfoFlag::BlockVSync => FRAME_INFO_BLOCK_VSYNC,
        }
    }

    /// Whether `from` accepts `val`: its low word is one of the four flag constants.
    #[verifier::when_used_as_spec(spec_is_known)]
    pub fn is_known(val: u64) -> (known: bool)
        ensures
            known == Self::spec_is_known(val),
    {
        let low: u32 = truncate(val);
        low == FRAME_INFO_PRESENT || low == FRAME_INFO_REDRAW || low == FRAME_INFO_REPEAT || low
            == FRAME_INFO_BLOCK_VSYNC
    }

    /// Reads a flag out of a 64-bit flag field: the field is cut to its low word, and the word
    /// must be one of the four flag constants.
    pub fn from(val: u64) -> (flag: RenderFrameInfoFlag)
        requires
            Self::spec_is_known(val),
        ensures
            flag == Self::spec_from(val),
            flag.spec_bits() == low_word(val),
    {
        let low: u32 = truncate(val);
        if low == FRAME_INFO_PRESENT {
            RenderFrameInfoFlag::Present
        } else if low == FRAME_INFO_REDRAW {
            RenderFrameInfoFlag::Redraw
        } else if low == FRAME_INFO_REPEAT {
            RenderFrameInfoFlag::Repeat
        } else if low == FRAME_INFO_BLOCK_VSYNC {
            RenderFrameInfoFlag::BlockVSync
        } else {
            unreached()
        }
    }
}

impl RenderFrameInfo {
    /// This description in the native layout: the flag's constant in the flag field, the
    /// target time as it is.
    pub open spec fn spec_to_raw(self) -> RawFrameInfo {
        RawFrameInfo { flags: self.flags.spec_bits() as u64, target_time: self.target_time }
    }

    /// The description that a native frame description stands for, where the low word of its
    /// flag field is the constant of a flag.
    pub open spec fn spec_from_raw(raw: RawFrameInfo) -> RenderFrameInfo {
        RenderFrameInfo {
            flags: RenderFrameInfoFlag::spec_from(raw.flags),
            target_time: raw.target_time,
        }
    }

    /// Lays this description out as the native library does.
    pub fn to_raw(self) -> (raw: RawFrameInfo)
        ensures
            raw == self.spec_to_raw(),
    {
        RawFrameInfo { flags: self.flags.bits() as u64, target_time: self.target_time }
    }

    /// Reads a frame description that the native library wrote. The low word of its flag
    /// field must be one of the four flag constants.
    pub fn from_raw(raw: RawFrameInfo) -> (info: RenderFrameInfo)
        requires
            RenderFrameInfoFlag::spec_is_known(raw.flags),
        ensures
            info == Self::spec_from_raw(raw),
    {
        let flags = RenderFrameInfoFlag::from(raw.flags);
        RenderFrameInfo { flags, target_time: raw.target_time }
    }
}

/// Cuts a 64-bit value to its low 32 bits.
fn truncate(val: u64) -> (low: u32)
    ensures
        low == low_word(val),
{
    assert(val & 0xffff_ffff == val % 0x1_0000_0000) by (bit_vector);
    assert(val & 0xffff_ffff <= 0xffff_ffff) by (bit_vector);
    (val & 0xffff_ffff) as u32
}

/// A field whose low word is the constant of a flag is accepted and read as that flag,
/// whatever stands in its high word.
pub proof fn lemma_from_reads_low_word(val: u64, flag: RenderFrameInfoFlag)
    requires
        low_word(val) == flag.spec_bits(),
    ensures
        RenderFrameInfoFlag::spec_is_known(val),
        RenderFrameInfoFlag::spec_from(val) == flag,
{
}

/// A field that is not accepted has the constant of no flag in its low word: no flag could be
/// read from it.
pub proof fn lemma_unknown_names_no_flag(val: u64, flag: RenderFrameInfoFlag)
    requires
        !RenderFrameInfoFlag::spec_is_known(val),
    ensures
        flag.spec_bits() != low_word(val),
{
}

/// Each flag is read back from its own constant, and a frame description from its native
/// layout.
pub proof fn lemma_from_inverts_bits(flag: RenderFrameInfoFlag, target_time: i64)
    ensures
        RenderFrameInfoFlag::spec_is_known(flag.spec_bits() as u64),
        RenderFrameInfoFlag::spec_from(flag.spec_bits() as u64) == flag,
        RenderFrameInfo::spec_from_raw((RenderFrameInfo { flags: flag, target_time }).spec_to_raw())
            == (RenderFrameInfo { flags: flag, target_time }),
{
}

} // verus!
