//! The memory model: a byte-addressable space partitioned into a general
//! data/heap region starting at address zero and a memory-mapped I/O window
//! at a fixed base. The MMIO window holds two framebuffers and a frame-select
//! byte for double-buffered video output; a presentation layer reads it and
//! scales each packed color byte up to full range.

use vstd::prelude::*;

verus! {

/// Base address of the memory-mapped I/O window.
pub const MMIO_BASE: u32 = 0xff00_0000;

/// Size of the MMIO window in bytes: two framebuffers, the frame-select byte
/// and a little padding after it.
pub const MMIO_SIZE: usize = 0x0020_0608;

/// Offset of the frame-select byte inside the MMIO window: zero selects
/// frame 0 as the displayed source, anything else frame 1.
pub const FRAME_SELECT: usize = 0x0020_0604;

/// Offsets of the two framebuffers inside the MMIO window.
pub const FRAME_0: usize = 0;

pub const FRAME_1: usize = 0x0010_0000;

/// Framebuffer geometry: one packed color byte per pixel.
pub const FRAME_WIDTH: usize = 320;

pub const FRAME_HEIGHT: usize = 240;

/// Bounds-validated or raw access: `Checked` faults on an address outside
/// the valid regions, `Unchecked` trades that safety net away for throughput
/// (this library makes such an access a no-op that reads zero). The mode is
/// fixed when the memory is built, never silently switched at runtime.
#[derive(Clone, Copy, Debug, PartialEq, Eq, Structural)]
pub enum AccessMode {
    Checked,
    Unchecked,
}

/// Mathematical model of the memory: the bytes of both regions.
pub struct MemView {
    pub data: Seq<u8>,
    pub mmio: Seq<u8>,
}

/// The byte the memory holds at an absolute address, if the address falls in
/// either region.
pub open spec fn mem_at(m: MemView, addr: int) -> Option<u8> {
    if 0 <= addr < m.data.len() {
        Some(m.data[addr])
    } else if MMIO_BASE <= addr < MMIO_BASE + MMIO_SIZE {
        Some(m.mmio[addr - MMIO_BASE])
    } else {
        None
    }
}

/// The memory after one byte is stored at an absolute address; a store
/// outside both regions changes nothing.
pub open spec fn mem_write_at(m: MemView, addr: int, b: u8) -> MemView {
    if 0 <= addr < m.data.len() {
        MemView { data: m.data.update(addr, b), ..m }
    } else if MMIO_BASE <= addr < MMIO_BASE + MMIO_SIZE {
        MemView { mmio: m.mmio.update(addr - MMIO_BASE, b), ..m }
    } else {
        m
    }
}

/// A two-byte little-endian read as one value.
pub open spec fn mem_read16(m: MemView, addr: int) -> Option<u32> {
    match (mem_at(m, addr), mem_at(m, addr + 1)) {
        (Some(lo), Some(hi)) => Some((lo + 256 * hi) as u32),
        _ => None,
    }
}

/// A four-byte little-endian read as one value.
pub open spec fn mem_read32(m: MemView, addr: int) -> Option<u32> {
    match (mem_at(m, addr), mem_at(m, addr + 1), mem_at(m, addr + 2), mem_at(m, addr + 3)) {
        (Some(b0), Some(b1), Some(b2), Some(b3)) => Some(
            (b0 + 256 * b1 + 65536 * b2 + 16777216 * b3) as u32,
        ),
        _ => None,
    }
}

pub open spec fn mem_write16_at(m: MemView, addr: int, v: u32) -> MemView {
    mem_write_at(mem_write_at(m, addr, (v % 256) as u8), addr + 1, ((v / 256) % 256) as u8)
}

pub open spec fn mem_write32_at(m: MemView, addr: int, v: u32) -> MemView {
    mem_write_at(
        mem_write_at(
            mem_write_at(mem_write_at(m, addr, (v % 256) as u8), addr + 1, ((v / 256) % 256) as u8),
            addr + 2,
            ((v / 65536) % 256) as u8,
        ),
        addr + 3,
        ((v / 16777216) % 256) as u8,
    )
}

/// Both bytes of a 16-bit access, or all four of a 32-bit one, must fall in
/// a region for the access to be in bounds.
pub open spec fn in_bounds_n(m: MemView, addr: int, n: int) -> bool {
    forall|k: int| addr <= k < addr + n ==> (#[trigger] mem_at(m, k)) is Some
}

/// A well-formed memory: the data region ends below the MMIO window, whose
/// buffer has exactly the window's size.
pub open spec fn wf_mem(m: MemView) -> bool {
    &&& m.data.len() <= MMIO_BASE
    &&& m.mmio.len() == MMIO_SIZE
}

/// Which framebuffer the frame-select byte presents.
pub open spec fn displayed_base(m: MemView) -> usize {
    if m.mmio[FRAME_SELECT as int] == 0 {
        FRAME_0
    } else {
        FRAME_1
    }
}

/// Which framebuffer is currently written behind the displayed one.
pub open spec fn back_base(m: MemView) -> usize {
    if m.mmio[FRAME_SELECT as int] == 0 {
        FRAME_1
    } else {
        FRAME_0
    }
}

/// The byte-addressable memory: the general region, the MMIO window, and the
/// access mode fixed at construction.
pub struct Memory {
    pub data: Vec<u8>,
    pub mmio: Vec<u8>,
    pub mode: AccessMode,
}

impl View for Memory {
    type V = MemView;

    open spec fn view(&self) -> MemView {
        MemView { data: self.data@, mmio: self.mmio@ }
    }
}

impl Memory {
    pub open spec fn wf(&self) -> bool {
        wf_mem(self@)
    }

    /// A memory whose data region holds the given bytes and whose MMIO
    /// window is zeroed.
    pub fn new(data: Vec<u8>, mode: AccessMode) -> (r: Memory)
        requires
            data@.len() <= MMIO_BASE,
        ensures
            r.wf(),
            r@.data == data@,
            r@.mmio == Seq::new(MMIO_SIZE as nat, |i: int| 0u8),
            r.mode == mode,
    {
        let mut mmio: Vec<u8> = Vec::new();
        while mmio.len() < MMIO_SIZE
            invariant
                mmio@.len() <= MMIO_SIZE,
                forall|i: int| 0 <= i < mmio@.len() ==> mmio@[i] == 0u8,
            decreases MMIO_SIZE - mmio@.len(),
        {
            mmio.push(0);
        }
        assert(mmio@ =~= Seq::new(MMIO_SIZE as nat, |i: int| 0u8));
        Memory { data, mmio, mode }
    }

    /// Whether an absolute address falls in either region.
    pub fn in_range(&self, addr: u32) -> (r: bool)
        requires
            self.wf(),
        ensures
            r == (mem_at(self@, addr as int) is Some),
    {
        (addr as usize) < self.data.len() || (addr >= MMIO_BASE && ((addr - MMIO_BASE) as usize)
            < MMIO_SIZE)
    }

    /// Read one byte. In checked mode an out-of-range address reads `None`;
    /// in unchecked mode it reads an unspecified placeholder instead of
    /// faulting.
    pub fn read8(&self, addr: u32) -> (r: Option<u8>)
        requires
            self.wf(),
        ensures
            mem_at(self@, addr as int) is Some ==> r == mem_at(self@, addr as int),
            self.mode == AccessMode::Checked ==> r == mem_at(self@, addr as int),
            self.mode == AccessMode::Unchecked && mem_at(self@, addr as int) is None ==> r
                == Some(0u8),
    {
        if (addr as usize) < self.data.len() {
            Option::Some(self.data[addr as usize])
        } else if addr >= MMIO_BASE && ((addr - MMIO_BASE) as usize) < MMIO_SIZE {
            Option::Some(self.mmio[(addr - MMIO_BASE) as usize])
        } else {
            match self.mode {
                AccessMode::Checked => Option::None,
                AccessMode::Unchecked => Option::Some(0),
            }
        }
    }

    /// Write one byte; the result says whether the access was in bounds (in
    /// unchecked mode an out-of-range store is absorbed as a no-op).
    pub fn write8(&mut self, addr: u32, b: u8) -> (ok: bool)
        requires
            old(self).wf(),
        ensures
            final(self).wf(),
            final(self).mode == old(self).mode,
            mem_at(old(self)@, addr as int) is Some ==> ok && final(self)@ == mem_write_at(
                old(self)@,
                addr as int,
                b,
            ),
            mem_at(old(self)@, addr as int) is None && old(self).mode == AccessMode::Checked
                ==> !ok && final(self)@ == old(self)@,
            mem_at(old(self)@, addr as int) is None && old(self).mode == AccessMode::Unchecked
                ==> ok && final(self)@ == old(self)@,
    {
        if (addr as usize) < self.data.len() {
            let i = addr as usize;
            self.data.set(i, b);
            true
        } else if addr >= MMIO_BASE && ((addr - MMIO_BASE) as usize) < MMIO_SIZE {
            let i = (addr - MMIO_BASE) as usize;
            self.mmio.set(i, b);
            true
        } else {
            match self.mode {
                AccessMode::Checked => false,
                AccessMode::Unchecked => true,
            }
        }
    }

    /// Two-byte little-endian read.
    pub fn read16(&self, addr: u32) -> (r: Option<u32>)
        requires
            self.wf(),
            addr as int + 2 <= u32::MAX,
        ensures
            in_bounds_n(self@, addr as int, 2) ==> r == mem_read16(self@, addr as int),
            self.mode == AccessMode::Checked ==> r == mem_read16(self@, addr as int),
            r matches Some(v) ==> v < 0x10000,
    {
        let lo = self.read8(addr);
        let hi = self.read8(addr + 1);
        match (lo, hi) {
            (Option::Some(lo), Option::Some(hi)) => Option::Some(lo as u32 + 256 * (hi as u32)),
            _ => Option::None,
        }
    }

    /// Four-byte little-endian read.
    pub fn read32(&self, addr: u32) -> (r: Option<u32>)
        requires
            self.wf(),
            addr as int + 4 <= u32::MAX,
        ensures
            in_bounds_n(self@, addr as int, 4) ==> r == mem_read32(self@, addr as int),
            self.mode == AccessMode::Checked ==> r == mem_read32(self@, addr as int),
    {
        let b0 = self.read8(addr);
        let b1 = self.read8(addr + 1);
        let b2 = self.read8(addr + 2);
        let b3 = self.read8(addr + 3);
        match (b0, b1, b2, b3) {
            (Option::Some(b0), Option::Some(b1), Option::Some(b2), Option::Some(b3)) => {
                Option::Some(
                    b0 as u32 + 256 * (b1 as u32) + 65536 * (b2 as u32) + 16777216 * (b3 as u32),
                )
            },
            _ => Option::None,
        }
    }

    /// Two-byte little-endian write: both bytes or, on a fault, neither.
    pub fn write16(&mut self, addr: u32, v: u32) -> (ok: bool)
        requires
            old(self).wf(),
            addr as int + 2 <= u32::MAX,
        ensures
            final(self).wf(),
            final(self).mode == old(self).mode,
            in_bounds_n(old(self)@, addr as int, 2) ==> ok && final(self)@ == mem_write16_at(
                old(self)@,
                addr as int,
                v,
            ),
            !in_bounds_n(old(self)@, addr as int, 2) && old(self).mode == AccessMode::Checked
                ==> !ok && final(self)@ == old(self)@,
            !in_bounds_n(old(self)@, addr as int, 2) && old(self).mode == AccessMode::Unchecked
                ==> ok && final(self)@ == old(self)@,
    {
        if self.in_range(addr) && self.in_range(addr + 1) {
            let ghost m0 = self@;
            let ok0 = self.write8(addr, (v % 256) as u8);
            let ok1 = self.write8(addr + 1, ((v / 256) % 256) as u8);
            assert(ok0 && ok1);
            true
        } else {
            match self.mode {
                AccessMode::Checked => false,
                AccessMode::Unchecked => true,
            }
        }
    }

    /// Four-byte little-endian write: all four bytes or, on a fault, none.
    pub fn write32(&mut self, addr: u32, v: u32) -> (ok: bool)
        requires
            old(self).wf(),
            addr as int + 4 <= u32::MAX,
        ensures
            final(self).wf(),
            final(self).mode == old(self).mode,
            in_bounds_n(old(self)@, addr as int, 4) ==> ok && final(self)@ == mem_write32_at(
                old(self)@,
                addr as int,
                v,
            ),
            !in_bounds_n(old(self)@, addr as int, 4) && old(self).mode == AccessMode::Checked
                ==> !ok && final(self)@ == old(self)@,
            !in_bounds_n(old(self)@, addr as int, 4) && old(self).mode == AccessMode::Unchecked
                ==> ok && final(self)@ == old(self)@,
    {
        if self.in_range(addr) && self.in_range(addr + 1) && self.in_range(addr + 2)
            && self.in_range(addr + 3) {
            let ok0 = self.write8(addr, (v % 256) as u8);
            let ok1 = self.write8(addr + 1, ((v / 256) % 256) as u8);
            let ok2 = self.write8(addr + 2, ((v / 65536) % 256) as u8);
            let ok3 = self.write8(addr + 3, ((v / 16777216) % 256) as u8);
            assert(ok0 && ok1 && ok2 && ok3);
            true
        } else {
            match self.mode {
                AccessMode::Checked => false,
                AccessMode::Unchecked => true,
            }
        }
    }

    /// The base offset, inside the MMIO window, of the framebuffer the
    /// frame-select byte currently presents.
    pub fn displayed_frame_base(&self) -> (r: usize)
        requires
            self.wf(),
        ensures
            r == displayed_base(self@),
    {
        if self.mmio[FRAME_SELECT] == 0 {
            FRAME_0
        } else {
            FRAME_1
        }
    }

    /// The base offset of the framebuffer to draw into: the one not being
    /// presented.
    pub fn back_frame_base(&self) -> (r: usize)
        requires
            self.wf(),
        ensures
            r == back_base(self@),
    {
        if self.mmio[FRAME_SELECT] == 0 {
            FRAME_1
        } else {
            FRAME_0
        }
    }

    /// Flip the frame-select byte, presenting the frame that was drawn into
    /// and freeing the other one for drawing.
    pub fn flip_frame(&mut self)
        requires
            old(self).wf(),
        ensures
            final(self).wf(),
            final(self).mode == old(self).mode,
            final(self)@.data == old(self)@.data,
            final(self)@.mmio == old(self)@.mmio.update(
                FRAME_SELECT as int,
                if old(self)@.mmio[FRAME_SELECT as int] == 0 {
                    1u8
                } else {
                    0u8
                },
            ),
            displayed_base(final(self)@) == back_base(old(self)@),
            back_base(final(self)@) != back_base(old(self)@),
    {
        let cur = self.mmio[FRAME_SELECT];
        let next: u8 = if cur == 0 {
            1
        } else {
            0
        };
        self.mmio.set(FRAME_SELECT, next);
    }
}

/// Unpacks one framebuffer byte into its three color channels, each scaled
/// to its full display range: bits 0-2 are red, bits 3-5 green, bits 6-7
/// blue.
pub fn mmio_color_to_rgb(x: u8) -> (rgb: (u8, u8, u8))
    ensures
        rgb.0 == (x & 7) * 32,
        rgb.1 == ((x >> 3) & 7) * 32,
        rgb.2 == (x >> 6) * 64,
{
    let r = x & 0b111;
    let g = (x >> 3) & 0b111;
    let b = x >> 6;
    proof {
        assert((x & 7) < 8 && ((x >> 3) & 7) < 8 && (x >> 6) < 4) by (bit_vector);
    }
    (r * 32, g * 32, b * 64)
}

/// Writing a packed color byte into the MMIO window and reading it back
/// through the same address yields the identical byte.
pub proof fn lemma_mmio_round_trip(m: MemView, addr: int, b: u8)
    requires
        wf_mem(m),
        MMIO_BASE <= addr < MMIO_BASE + MMIO_SIZE,
    ensures
        mem_at(mem_write_at(m, addr, b), addr) == Some(b),
{
}

/// Flipping the frame-select byte swaps which base offset subsequent
/// "current back framebuffer" writes target.
pub proof fn lemma_flip_swaps_frames(m: MemView)
    requires
        wf_mem(m),
    ensures
        ({
            let flipped = MemView {
                mmio: m.mmio.update(
                    FRAME_SELECT as int,
                    if m.mmio[FRAME_SELECT as int] == 0 {
                        1u8
                    } else {
                        0u8
                    },
                ),
                ..m
            };
            back_base(flipped) != back_base(m) && displayed_base(flipped) == back_base(m)
        }),
{
}

} // verus!
