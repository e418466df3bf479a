//! The status word: the registers packed into the 32 bits that the bus
//! reads, and the layout that says which bits report which field.

use vstd::prelude::*;
use crate::gpu::bits::{bit_of, to_bit};
use crate::gpu::registers::{DmaDirection, HorizontalRes, RegisterState};

verus! {

impl RegisterState {
    /// The layout of the status word: whether `word` reports this state.
    /// Each field is read from its own bits, a flag as 0 or 1; the bits 14,
    /// 19 and 31 are clear; the ready bits 26 to 28 are set; and bit 25 is
    /// set exactly when a DMA direction is selected. Between them the
    /// clauses speak of all 32 bits.
    pub open spec fn reported_by(self, word: u32) -> bool {
        // Bits 0 to 3, bit 4, bits 5 and 6, bits 7 and 8.
        &&& word % 0x10 == self.page_base_x
        &&& word / 0x10 % 2 == self.page_base_y
        &&& word / 0x20 % 4 == self.semi_transparency
        &&& word / 0x80 % 4 == self.texture_depth.code()
        // Bits 9 to 13.
        &&& word / 0x200 % 2 == bit_of(self.dithering)
        &&& word / 0x400 % 2 == bit_of(self.draw_to_display)
        &&& word / 0x800 % 2 == bit_of(self.force_set_mask_bit)
        &&& word / 0x1000 % 2 == bit_of(self.preserve_masked_pixels)
        &&& word / 0x2000 % 2 == self.field.code()
        // Bits 14 and 15.
        &&& word / 0x4000 % 2 == 0
        &&& word / 0x8000 % 2 == bit_of(self.texture_disable)
        // Bits 16 to 18, and bit 19.
        &&& word / 0x1_0000 % 8 == self.hres.0
        &&& word / 0x8_0000 % 2 == 0
        // Bits 20 to 24.
        &&& word / 0x10_0000 % 2 == self.vmode.code()
        &&& word / 0x20_0000 % 2 == self.display_depth.code()
        &&& word / 0x40_0000 % 2 == bit_of(self.interlaced)
        &&& word / 0x80_0000 % 2 == bit_of(self.display_disabled)
        &&& word / 0x100_0000 % 2 == bit_of(self.interrupt)
        // Bit 25, and bits 26 to 28.
        &&& word / 0x200_0000 % 2 == self.dma_direction.request()
        &&& word / 0x400_0000 % 2 == 1
        &&& word / 0x800_0000 % 2 == 1
        &&& word / 0x1000_0000 % 2 == 1
        // Bits 29 and 30, and bit 31.
        &&& word / 0x2000_0000 % 4 == self.dma_direction.code()
        &&& word / 0x8000_0000 == 0
    }

    /// The 32-bit status word: the sum of the fields, each at the weight of
    /// its lowest bit. The three ready bits 26 to 28 are always set, and so
    /// is bit 25 while a DMA direction is selected. Nothing is put in bits
    /// 14, 19 and 31: the vertical resolution is not reported.
    pub open spec fn status_word(self) -> u32 {
        let word = self.page_base_x
            + self.page_base_y * 0x10
            + self.semi_transparency * 0x20
            + self.texture_depth.code() * 0x80
            + bit_of(self.dithering) * 0x200
            + bit_of(self.draw_to_display) * 0x400
            + bit_of(self.force_set_mask_bit) * 0x800
            + bit_of(self.preserve_masked_pixels) * 0x1000
            + self.field.code() * 0x2000
            + bit_of(self.texture_disable) * 0x8000
            + self.hres.0 * 0x1_0000
            + self.vmode.code() * 0x10_0000
            + self.display_depth.code() * 0x20_0000
            + bit_of(self.interlaced) * 0x40_0000
            + bit_of(self.display_disabled) * 0x80_0000
            + bit_of(self.interrupt) * 0x100_0000
            + self.dma_direction.request() * 0x200_0000
            + 0x400_0000
            + 0x800_0000
            + 0x1000_0000
            + self.dma_direction.code() * 0x2000_0000;
        word as u32
    }

    /// Packs the state into the status word, field by field.
    pub fn status(&self) -> (r: u32)
        requires
            self.wf(),
        ensures
            r == self.status_word(),
            self.reported_by(r),
    {
        let mut r: u32 = self.page_base_x as u32;
        r |= (self.page_base_y as u32) << 4;
        r |= (self.semi_transparency as u32) << 5;
        r |= self.texture_depth.bits() << 7;
        r |= to_bit(self.dithering) << 9;
        r |= to_bit(self.draw_to_display) << 10;
        r |= to_bit(self.force_set_mask_bit) << 11;
        r |= to_bit(self.preserve_masked_pixels) << 12;
        r |= self.field.bits() << 13;
        // Bit 14 is not supported.
        r |= to_bit(self.texture_disable) << 15;
        r |= self.hres.into_status();
        // Bit 19, the vertical resolution, is left clear.
        r |= self.vmode.bits() << 20;
        r |= self.display_depth.bits() << 21;
        r |= to_bit(self.interlaced) << 22;
        r |= to_bit(self.display_disabled) << 23;
        r |= to_bit(self.interrupt) << 24;
        let ghost fields = r;
        // The unit is always ready: to receive a command, to send VRAM to
        // the CPU, to receive a DMA block.
        r |= 1 << 26;
        r |= 1 << 27;
        r |= 1 << 28;
        r |= self.dma_direction.bits() << 29;
        // Bit 31, the parity of the line being drawn, is left clear.
        let dma_request = match self.dma_direction {
            // Always 0.
            DmaDirection::Off => 0,
            // 1 while the FIFO is not full, and here it never is.
            DmaDirection::Fifo => 1,
            // The same as status bit 28.
            DmaDirection::CpuToGp0 => (r >> 28) & 1,
            // The same as status bit 27.
            DmaDirection::VRamToCpu => (r >> 27) & 1,
        };
        assert(dma_request == self.dma_direction.request()) by {
            let direction = self.dma_direction.code();
            assert((r >> 28) & 1 == 1 && (r >> 27) & 1 == 1) by (bit_vector)
                requires
                    r == fields | 1u32 << 26 | 1u32 << 27 | 1u32 << 28 | direction << 29,
                    direction <= 3,
            ;
        }
        r |= dma_request << 25;
        proof {
            let n = Numbers::of(*self);
            assert(r == joined(n)) by {
                reveal(joined);
            }
            lemma_joined_is_added(n);
            assert(added(n) == self.status_word()) by {
                reveal(added);
            }
            lemma_status_layout(*self);
        }
        r
    }
}

/// The numbers that the status word reports, in the order of their places.
struct Numbers {
    px: u32,
    py: u32,
    st: u32,
    td: u32,
    di: u32,
    dd: u32,
    fm: u32,
    pm: u32,
    fl: u32,
    tx: u32,
    hr: u32,
    vm: u32,
    dp: u32,
    il: u32,
    ds: u32,
    iq: u32,
    rq: u32,
    dm: u32,
}

impl Numbers {
    /// The numbers that a state has to report.
    spec fn of(regs: RegisterState) -> Numbers {
        Numbers {
            px: regs.page_base_x as u32,
            py: regs.page_base_y as u32,
            st: regs.semi_transparency as u32,
            td: regs.texture_depth.code(),
            di: bit_of(regs.dithering),
            dd: bit_of(regs.draw_to_display),
            fm: bit_of(regs.force_set_mask_bit),
            pm: bit_of(regs.preserve_masked_pixels),
            fl: regs.field.code(),
            tx: bit_of(regs.texture_disable),
            hr: regs.hres.0 as u32,
            vm: regs.vmode.code(),
            dp: regs.display_depth.code(),
            il: bit_of(regs.interlaced),
            ds: bit_of(regs.display_disabled),
            iq: bit_of(regs.interrupt),
            rq: regs.dma_direction.request(),
            dm: regs.dma_direction.code(),
        }
    }

    /// Each number is within the width of its place.
    spec fn fit(self) -> bool {
        &&& self.px <= 0xf
        &&& self.py <= 1
        &&& self.st <= 3
        &&& self.td <= 3
        &&& self.di <= 1
        &&& self.dd <= 1
        &&& self.fm <= 1
        &&& self.pm <= 1
        &&& self.fl <= 1
        &&& self.tx <= 1
        &&& self.hr <= 7
        &&& self.vm <= 1
        &&& self.dp <= 1
        &&& self.il <= 1
        &&& self.ds <= 1
        &&& self.iq <= 1
        &&& self.rq <= 1
        &&& self.dm <= 3
    }

    /// Each place of `w` holds the number that belongs there; the ready
    /// bits are set, and the places 14, 19 and 31 hold nothing.
    spec fn placed_in(self, w: u32) -> bool {
        &&& w % 0x10 == self.px
        &&& w / 0x10 % 2 == self.py
        &&& w / 0x20 % 4 == self.st
        &&& w / 0x80 % 4 == self.td
        &&& w / 0x200 % 2 == self.di
        &&& w / 0x400 % 2 == self.dd
        &&& w / 0x800 % 2 == self.fm
        &&& w / 0x1000 % 2 == self.pm
        &&& w / 0x2000 % 2 == self.fl
        &&& w / 0x4000 % 2 == 0
        &&& w / 0x8000 % 2 == self.tx
        &&& w / 0x1_0000 % 8 == self.hr
        &&& w / 0x8_0000 % 2 == 0
        &&& w / 0x10_0000 % 2 == self.vm
        &&& w / 0x20_0000 % 2 == self.dp
        &&& w / 0x40_0000 % 2 == self.il
        &&& w / 0x80_0000 % 2 == self.ds
        &&& w / 0x100_0000 % 2 == self.iq
        &&& w / 0x200_0000 % 2 == self.rq
        &&& w / 0x400_0000 % 2 == 1
        &&& w / 0x800_0000 % 2 == 1
        &&& w / 0x1000_0000 % 2 == 1
        &&& w / 0x2000_0000 % 4 == self.dm
        &&& w / 0x8000_0000 == 0
    }
}

/// The numbers joined bit by bit, as the status word is put together.
#[verifier::opaque]
spec fn joined(n: Numbers) -> u32 {
    n.px | n.py << 4 | n.st << 5 | n.td << 7 | n.di << 9 | n.dd << 10 | n.fm << 11 | n.pm << 12 | n.fl << 13
        | n.tx << 15 | ((n.hr * 0x1_0000) as u32) | n.vm << 20 | n.dp << 21 | n.il << 22 | n.ds << 23
        | n.iq << 24 | 1u32 << 26 | 1u32 << 27 | 1u32 << 28 | n.dm << 29 | n.rq << 25
}

/// The numbers added up, each at the weight of its place.
#[verifier::opaque]
spec fn added(n: Numbers) -> u32 {
    (n.px + n.py * 0x10 + n.st * 0x20 + n.td * 0x80 + n.di * 0x200 + n.dd * 0x400 + n.fm * 0x800
        + n.pm * 0x1000 + n.fl * 0x2000 + n.tx * 0x8000 + n.hr * 0x1_0000 + n.vm * 0x10_0000
        + n.dp * 0x20_0000 + n.il * 0x40_0000 + n.ds * 0x80_0000 + n.iq * 0x100_0000 + n.rq * 0x200_0000
        + 0x400_0000 + 0x800_0000 + 0x1000_0000 + n.dm * 0x2000_0000) as u32
}

/// Numbers that fit their places do not overlap, so joining them bit by bit
/// adds them up.
proof fn lemma_join_is_add(
    px: u32, py: u32, st: u32, td: u32, di: u32, dd: u32, fm: u32, pm: u32, fl: u32,
    tx: u32, hr: u32, vm: u32, dp: u32, il: u32, ds: u32, iq: u32, rq: u32, dm: u32,
)
    by (bit_vector)
    requires
        px <= 0xf, py <= 1, st <= 3, td <= 3, di <= 1, dd <= 1, fm <= 1, pm <= 1, fl <= 1,
        tx <= 1, hr <= 7, vm <= 1, dp <= 1, il <= 1, ds <= 1, iq <= 1, rq <= 1, dm <= 3,
    ensures
        px | py << 4 | st << 5 | td << 7 | di << 9 | dd << 10 | fm << 11 | pm << 12 | fl << 13
            | tx << 15 | ((hr * 0x1_0000) as u32) | vm << 20 | dp << 21 | il << 22 | ds << 23
            | iq << 24 | 1u32 << 26 | 1u32 << 27 | 1u32 << 28 | dm << 29 | rq << 25 == (px + py * 0x10 + st * 0x20 + td * 0x80 + di * 0x200 + dd * 0x400 + fm * 0x800
            + pm * 0x1000 + fl * 0x2000 + tx * 0x8000 + hr * 0x1_0000 + vm * 0x10_0000
            + dp * 0x20_0000 + il * 0x40_0000 + ds * 0x80_0000 + iq * 0x100_0000 + rq * 0x200_0000
            + 0x400_0000 + 0x800_0000 + 0x1000_0000 + dm * 0x2000_0000) as u32,
{
}

/// The sum of numbers that fit their places holds each number in its place.
proof fn lemma_sum_holds_places(
    px: u32, py: u32, st: u32, td: u32, di: u32, dd: u32, fm: u32, pm: u32, fl: u32,
    tx: u32, hr: u32, vm: u32, dp: u32, il: u32, ds: u32, iq: u32, rq: u32, dm: u32,
)
    by (bit_vector)
    requires
        px <= 0xf, py <= 1, st <= 3, td <= 3, di <= 1, dd <= 1, fm <= 1, pm <= 1, fl <= 1,
        tx <= 1, hr <= 7, vm <= 1, dp <= 1, il <= 1, ds <= 1, iq <= 1, rq <= 1, dm <= 3,
    ensures
        ({
            let w = (px + py * 0x10 + st * 0x20 + td * 0x80 + di * 0x200 + dd * 0x400 + fm * 0x800
                + pm * 0x1000 + fl * 0x2000 + tx * 0x8000 + hr * 0x1_0000 + vm * 0x10_0000
                + dp * 0x20_0000 + il * 0x40_0000 + ds * 0x80_0000 + iq * 0x100_0000 + rq * 0x200_0000
                + 0x400_0000 + 0x800_0000 + 0x1000_0000 + dm * 0x2000_0000) as u32;
            &&& w % 0x10 == px
            &&& w / 0x10 % 2 == py
            &&& w / 0x20 % 4 == st
            &&& w / 0x80 % 4 == td
            &&& w / 0x200 % 2 == di
            &&& w / 0x400 % 2 == dd
            &&& w / 0x800 % 2 == fm
            &&& w / 0x1000 % 2 == pm
            &&& w / 0x2000 % 2 == fl
            &&& w / 0x4000 % 2 == 0
            &&& w / 0x8000 % 2 == tx
            &&& w / 0x1_0000 % 8 == hr
            &&& w / 0x8_0000 % 2 == 0
            &&& w / 0x10_0000 % 2 == vm
            &&& w / 0x20_0000 % 2 == dp
            &&& w / 0x40_0000 % 2 == il
            &&& w / 0x80_0000 % 2 == ds
            &&& w / 0x100_0000 % 2 == iq
            &&& w / 0x200_0000 % 2 == rq
            &&& w / 0x400_0000 % 2 == 1
            &&& w / 0x800_0000 % 2 == 1
            &&& w / 0x1000_0000 % 2 == 1
            &&& w / 0x2000_0000 % 4 == dm
            &&& w / 0x8000_0000 == 0
        }),
{
}

/// A word is the sum of what its places hold.
proof fn lemma_word_is_sum_of_places(
    w: u32,
    px: u32, py: u32, st: u32, td: u32, di: u32, dd: u32, fm: u32, pm: u32, fl: u32,
    tx: u32, hr: u32, vm: u32, dp: u32, il: u32, ds: u32, iq: u32, rq: u32, dm: u32,
)
    by (bit_vector)
    requires
        w % 0x10 == px,
        w / 0x10 % 2 == py,
        w / 0x20 % 4 == st,
        w / 0x80 % 4 == td,
        w / 0x200 % 2 == di,
        w / 0x400 % 2 == dd,
        w / 0x800 % 2 == fm,
        w / 0x1000 % 2 == pm,
        w / 0x2000 % 2 == fl,
        w / 0x4000 % 2 == 0,
        w / 0x8000 % 2 == tx,
        w / 0x1_0000 % 8 == hr,
        w / 0x8_0000 % 2 == 0,
        w / 0x10_0000 % 2 == vm,
        w / 0x20_0000 % 2 == dp,
        w / 0x40_0000 % 2 == il,
        w / 0x80_0000 % 2 == ds,
        w / 0x100_0000 % 2 == iq,
        w / 0x200_0000 % 2 == rq,
        w / 0x400_0000 % 2 == 1,
        w / 0x800_0000 % 2 == 1,
        w / 0x1000_0000 % 2 == 1,
        w / 0x2000_0000 % 4 == dm,
        w / 0x8000_0000 == 0,
    ensures
        w == (px + py * 0x10 + st * 0x20 + td * 0x80 + di * 0x200 + dd * 0x400 + fm * 0x800
            + pm * 0x1000 + fl * 0x2000 + tx * 0x8000 + hr * 0x1_0000 + vm * 0x10_0000
            + dp * 0x20_0000 + il * 0x40_0000 + ds * 0x80_0000 + iq * 0x100_0000 + rq * 0x200_0000
            + 0x400_0000 + 0x800_0000 + 0x1000_0000 + dm * 0x2000_0000) as u32,
{
}

proof fn lemma_joined_is_added(n: Numbers)
    requires
        n.fit(),
    ensures
        joined(n) == added(n),
{
    reveal(joined);
    reveal(added);
    lemma_join_is_add(n.px, n.py, n.st, n.td, n.di, n.dd, n.fm, n.pm, n.fl, n.tx, n.hr, n.vm, n.dp, n.il, n.ds, n.iq, n.rq, n.dm);
}

proof fn lemma_added_is_placed(n: Numbers)
    requires
        n.fit(),
    ensures
        n.placed_in(added(n)),
{
    reveal(added);
    lemma_sum_holds_places(n.px, n.py, n.st, n.td, n.di, n.dd, n.fm, n.pm, n.fl, n.tx, n.hr, n.vm, n.dp, n.il, n.ds, n.iq, n.rq, n.dm);
}

proof fn lemma_placed_is_added(n: Numbers, w: u32)
    requires
        n.placed_in(w),
    ensures
        w == added(n),
{
    reveal(added);
    lemma_word_is_sum_of_places(w, n.px, n.py, n.st, n.td, n.di, n.dd, n.fm, n.pm, n.fl, n.tx, n.hr, n.vm, n.dp, n.il, n.ds, n.iq, n.rq, n.dm);
}

/// The layout of the status word. The status word of a state whose fields
/// are within their widths reports that state: each field is read back
/// from its own bits.
pub proof fn lemma_status_layout(regs: RegisterState)
    requires
        regs.wf(),
    ensures
        regs.reported_by(regs.status_word()),
{
    let n = Numbers::of(regs);
    assert(added(n) == regs.status_word()) by {
        reveal(added);
    }
    lemma_added_is_placed(n);
    assert(regs.reported_by(added(n)) <==> n.placed_in(added(n)));
}

/// The layout fixes all 32 bits: a word that reports a state whose fields
/// are within their widths is the status word of that state.
pub proof fn lemma_layout_fixes_the_word(regs: RegisterState, w: u32)
    requires
        regs.wf(),
        regs.reported_by(w),
    ensures
        w == regs.status_word(),
{
    let n = Numbers::of(regs);
    assert(regs.reported_by(w) <==> n.placed_in(w));
    lemma_placed_is_added(n, w);
    assert(added(n) == regs.status_word()) by {
        reveal(added);
    }
}

/// Packing two resolution fields and reading bits 16 to 18 of the status
/// word gives the packed code back: bit 16 is the low bit of `hr2`, bits 17
/// and 18 are the low two bits of `hr1`.
pub proof fn lemma_horizontal_res_round_trip(regs: RegisterState, hr1: u8, hr2: u8)
    requires
        regs.wf(),
        regs.hres.0 == HorizontalRes::pack(hr1, hr2),
    ensures
        regs.status_word() / 0x1_0000 % 8 == HorizontalRes::pack(hr1, hr2),
        regs.status_word() / 0x1_0000 % 2 == hr2 % 2,
        regs.status_word() / 0x2_0000 % 4 == hr1 % 4,
{
    lemma_status_layout(regs);
    let w = regs.status_word();
    let a = hr1 as u32;
    let b = hr2 as u32;
    assert(w / 0x1_0000 % 2 == b % 2 && w / 0x2_0000 % 4 == a % 4) by (bit_vector)
        requires
            w / 0x1_0000 % 8 == b % 2 + 2 * (a % 4),
    ;
}

} // verus!
