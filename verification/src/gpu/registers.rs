//! The persistent configuration of the graphics unit, and what each command
//! writes to it.

use vstd::prelude::*;
use crate::gpu::bits::{bit, extract};

verus! {

/// Depth of the pixel values in a texture page.
#[derive(Clone, Copy, Debug, PartialEq, Eq, Structural)]
pub enum TextureDepth {
    /// 4 bits per pixel.
    T4Bit,
    /// 8 bits per pixel.
    T8Bit,
    /// 15 bits per pixel.
    T15Bit,
}

impl TextureDepth {
    /// The two-bit code of this depth.
    pub open spec fn code(self) -> u32 {
        match self {
            TextureDepth::T4Bit => 0,
            TextureDepth::T8Bit => 1,
            TextureDepth::T15Bit => 2,
        }
    }

    /// The depth that a two-bit code names; the code 3 names none.
    pub open spec fn of_code(code: u32) -> Option<TextureDepth> {
        if code == 0 {
            Some(TextureDepth::T4Bit)
        } else if code == 1 {
            Some(TextureDepth::T8Bit)
        } else if code == 2 {
            Some(TextureDepth::T15Bit)
        } else {
            None
        }
    }

    pub fn bits(self) -> (r: u32)
        ensures
            r == self.code(),
    {
        match self {
            TextureDepth::T4Bit => 0,
            TextureDepth::T8Bit => 1,
            TextureDepth::T15Bit => 2,
        }
    }

    pub fn from_bits(code: u32) -> (r: Option<TextureDepth>)
        ensures
            r == TextureDepth::of_code(code),
    {
        match code {
            0 => Some(TextureDepth::T4Bit),
            1 => Some(TextureDepth::T8Bit),
            2 => Some(TextureDepth::T15Bit),
            _ => None,
        }
    }
}

/// Interlaced output splits each frame in two fields.
#[derive(Clone, Copy, Debug, PartialEq, Eq, Structural)]
pub enum Field {
    /// Top field (odd lines). Progressive output always shows this one.
    Top,
    /// Bottom field (even lines).
    Bottom,
}

impl Field {
    pub open spec fn code(self) -> u32 {
        match self {
            Field::Top => 1,
            Field::Bottom => 0,
        }
    }

    pub fn bits(self) -> (r: u32)
        ensures
            r == self.code(),
    {
        match self {
            Field::Top => 1,
            Field::Bottom => 0,
        }
    }
}

/// Video output vertical resolution.
#[derive(Clone, Copy, Debug, PartialEq, Eq, Structural)]
pub enum VerticalRes {
    /// 240 lines.
    Y240Lines,
    /// 480 lines (only available for interlaced output).
    Y480Lines,
}

impl VerticalRes {
    pub open spec fn of_flag(b: bool) -> VerticalRes {
        if b {
            VerticalRes::Y480Lines
        } else {
            VerticalRes::Y240Lines
        }
    }

    pub fn from_flag(b: bool) -> (r: VerticalRes)
        ensures
            r == VerticalRes::of_flag(b),
    {
        if b {
            VerticalRes::Y480Lines
        } else {
            VerticalRes::Y240Lines
        }
    }
}

/// Video modes.
#[derive(Clone, Copy, Debug, PartialEq, Eq, Structural)]
pub enum VMode {
    /// NTSC: 480i60Hz.
    Ntsc,
    /// PAL: 576i50Hz.
    Pal,
}

impl VMode {
    pub open spec fn code(self) -> u32 {
        match self {
            VMode::Ntsc => 0,
            VMode::Pal => 1,
        }
    }

    pub open spec fn of_flag(b: bool) -> VMode {
        if b {
            VMode::Pal
        } else {
            VMode::Ntsc
        }
    }

    pub fn bits(self) -> (r: u32)
        ensures
            r == self.code(),
    {
        match self {
            VMode::Ntsc => 0,
            VMode::Pal => 1,
        }
    }

    pub fn from_flag(b: bool) -> (r: VMode)
        ensures
            r == VMode::of_flag(b),
    {
        if b {
            VMode::Pal
        } else {
            VMode::Ntsc
        }
    }
}

/// Display area color depth.
#[derive(Clone, Copy, Debug, PartialEq, Eq, Structural)]
pub enum DisplayDepth {
    /// 15 bits per pixel.
    D15Bits,
    /// 24 bits per pixel.
    D24Bits,
}

impl DisplayDepth {
    pub open spec fn code(self) -> u32 {
        match self {
            DisplayDepth::D15Bits => 0,
            DisplayDepth::D24Bits => 1,
        }
    }

    /// The depth that the display-mode command selects: its flag set means
    /// 15 bits, clear means 24.
    pub open spec fn of_flag(b: bool) -> DisplayDepth {
        if b {
            DisplayDepth::D15Bits
        } else {
            DisplayDepth::D24Bits
        }
    }

    pub fn bits(self) -> (r: u32)
        ensures
            r == self.code(),
    {
        match self {
            DisplayDepth::D15Bits => 0,
            DisplayDepth::D24Bits => 1,
        }
    }

    pub fn from_flag(b: bool) -> (r: DisplayDepth)
        ensures
            r == DisplayDepth::of_flag(b),
    {
        if b {
            DisplayDepth::D15Bits
        } else {
            DisplayDepth::D24Bits
        }
    }
}

/// Requested DMA direction.
#[derive(Clone, Copy, Debug, PartialEq, Eq, Structural)]
pub enum DmaDirection {
    Off,
    Fifo,
    CpuToGp0,
    VRamToCpu,
}

impl DmaDirection {
    pub open spec fn code(self) -> u32 {
        match self {
            DmaDirection::Off => 0,
            DmaDirection::Fifo => 1,
            DmaDirection::CpuToGp0 => 2,
            DmaDirection::VRamToCpu => 3,
        }
    }

    /// The direction that the low two bits of `val` name.
    pub open spec fn of_code(val: u32) -> DmaDirection {
        let code = val % 4;
        if code == 0 {
            DmaDirection::Off
        } else if code == 1 {
            DmaDirection::Fifo
        } else if code == 2 {
            DmaDirection::CpuToGp0
        } else {
            DmaDirection::VRamToCpu
        }
    }

    /// The DMA request bit of the status word: clear while DMA is off, set
    /// in the three other directions, for which the unit always reports
    /// itself ready.
    pub open spec fn request(self) -> u32 {
        if self == DmaDirection::Off {
            0
        } else {
            1
        }
    }

    pub fn bits(self) -> (r: u32)
        ensures
            r == self.code(),
    {
        match self {
            DmaDirection::Off => 0,
            DmaDirection::Fifo => 1,
            DmaDirection::CpuToGp0 => 2,
            DmaDirection::VRamToCpu => 3,
        }
    }

    pub fn from_bits(val: u32) -> (r: DmaDirection)
        ensures
            r == DmaDirection::of_code(val),
    {
        match extract(val, 0, 2) {
            0 => DmaDirection::Off,
            1 => DmaDirection::Fifo,
            2 => DmaDirection::CpuToGp0,
            _ => DmaDirection::VRamToCpu,
        }
    }
}

/// Video output horizontal resolution: a 3-bit code packed from the two
/// hardware fields that select it.
#[derive(Clone, Copy, Debug, PartialEq, Eq, Structural)]
pub struct HorizontalRes(pub u8);

impl HorizontalRes {
    /// The code for the 2-bit field `hr1` and the 1-bit field `hr2`: the
    /// low bit of `hr2`, and above it the low two bits of `hr1`.
    pub open spec fn pack(hr1: u8, hr2: u8) -> u8 {
        (hr2 % 2 + 2 * (hr1 % 4)) as u8
    }

    /// Bits 16 to 18 of the status word, in place.
    pub open spec fn status_bits(self) -> u32 {
        (self.0 * 0x1_0000) as u32
    }

    /// Creates the resolution from the 2-bit field `hr1` and the 1-bit
    /// field `hr2`. Bits above those widths are dropped.
    pub fn from_fields(hr1: u8, hr2: u8) -> (hres: HorizontalRes)
        ensures
            hres.0 == HorizontalRes::pack(hr1, hr2),
            hres.0 <= 7,
    {
        let hr = (hr2 & 1) | ((hr1 & 3) << 1);
        proof {
            lemma_pack_in_bits(hr1, hr2);
        }
        HorizontalRes(hr)
    }

    /// Retrieves the value of bits 16 to 18 of the status word.
    pub fn into_status(self) -> (r: u32)
        ensures
            r == self.status_bits(),
    {
        let hr = self.0;
        assert((hr as u32) << 16 == hr * 0x1_0000) by (bit_vector);
        (hr as u32) << 16
    }
}

/// Every configuration field that outlives a command.
///
/// Writes are masked to the width of the field they go to, so a state that
/// the command ports produced is always [`RegisterState::wf`].
#[derive(Clone, Copy, Debug, PartialEq, Eq)]
pub struct RegisterState {
    /// Texture page base X coordinate (4 bits, 64 byte increment).
    pub page_base_x: u8,
    /// Texture page base Y coordinate (1 bit, 256 line increment).
    pub page_base_y: u8,
    /// Mirror textured rectangles along the x axis.
    pub rectangle_texture_x_flip: bool,
    /// Mirror textured rectangles along the y axis.
    pub rectangle_texture_y_flip: bool,
    /// Semi-transparency mode (2 bits).
    pub semi_transparency: u8,
    /// Texture page color depth.
    pub texture_depth: TextureDepth,
    /// Texture window x mask (5 bits, 8 pixel steps).
    pub texture_window_x_mask: u8,
    /// Texture window y mask (5 bits, 8 pixel steps).
    pub texture_window_y_mask: u8,
    /// Texture window x offset (5 bits, 8 pixel steps).
    pub texture_window_x_offset: u8,
    /// Texture window y offset (5 bits, 8 pixel steps).
    pub texture_window_y_offset: u8,
    /// Enable dithering from 24 to 15 bits RGB.
    pub dithering: bool,
    /// Allow drawing to the display area.
    pub draw_to_display: bool,
    /// Force the mask bit of a pixel to 1 when writing to VRAM.
    pub force_set_mask_bit: bool,
    /// Do not draw to pixels which have the mask bit set.
    pub preserve_masked_pixels: bool,
    /// Left-most column of the drawing area (10 bits).
    pub drawing_area_left: u16,
    /// Top-most line of the drawing area (10 bits).
    pub drawing_area_top: u16,
    /// Right-most column of the drawing area (10 bits).
    pub drawing_area_right: u16,
    /// Bottom-most line of the drawing area (10 bits).
    pub drawing_area_bottom: u16,
    /// Currently displayed field.
    pub field: Field,
    /// When true all textures are disabled.
    pub texture_disable: bool,
    /// Video output horizontal resolution.
    pub hres: HorizontalRes,
    /// Video output vertical resolution.
    pub vres: VerticalRes,
    /// Video mode.
    pub vmode: VMode,
    /// Display depth.
    pub display_depth: DisplayDepth,
    /// Output an interlaced video signal instead of a progressive one.
    pub interlaced: bool,
    /// Disable the display.
    pub display_disabled: bool,
    /// First column of the display area in VRAM (even, at most 0x3fe).
    pub display_vram_x_start: u16,
    /// First line of the display area in VRAM (9 bits).
    pub display_vram_y_start: u16,
    /// Display output horizontal start relative to HSYNC (12 bits).
    pub display_horiz_start: u16,
    /// Display output horizontal end relative to HSYNC (12 bits).
    pub display_horiz_end: u16,
    /// Display output first line relative to VSYNC (10 bits).
    pub display_line_start: u16,
    /// Display output last line relative to VSYNC (10 bits).
    pub display_line_end: u16,
    /// True when the interrupt is active.
    pub interrupt: bool,
    /// DMA request direction.
    pub dma_direction: DmaDirection,
}

impl RegisterState {
    /// Every field is within the width the hardware gives it.
    pub open spec fn wf(self) -> bool {
        &&& self.page_base_x <= 0xf
        &&& self.page_base_y <= 1
        &&& self.semi_transparency <= 3
        &&& self.texture_window_x_mask <= 0x1f
        &&& self.texture_window_y_mask <= 0x1f
        &&& self.texture_window_x_offset <= 0x1f
        &&& self.texture_window_y_offset <= 0x1f
        &&& self.drawing_area_left <= 0x3ff
        &&& self.drawing_area_top <= 0x3ff
        &&& self.drawing_area_right <= 0x3ff
        &&& self.drawing_area_bottom <= 0x3ff
        &&& self.hres.0 <= 7
        &&& self.display_vram_x_start <= 0x3fe
        &&& self.display_vram_x_start % 2 == 0
        &&& self.display_vram_y_start <= 0x1ff
        &&& self.display_horiz_start <= 0xfff
        &&& self.display_horiz_end <= 0xfff
        &&& self.display_line_start <= 0x3ff
        &&& self.display_line_end <= 0x3ff
    }

    /// The state at power-on.
    pub open spec fn power_on() -> RegisterState {
        RegisterState {
            page_base_x: 0,
            page_base_y: 0,
            rectangle_texture_x_flip: false,
            rectangle_texture_y_flip: false,
            semi_transparency: 0,
            texture_depth: TextureDepth::T4Bit,
            texture_window_x_mask: 0,
            texture_window_y_mask: 0,
            texture_window_x_offset: 0,
            texture_window_y_offset: 0,
            dithering: false,
            draw_to_display: false,
            force_set_mask_bit: false,
            preserve_masked_pixels: false,
            drawing_area_left: 0,
            drawing_area_top: 0,
            drawing_area_right: 0,
            drawing_area_bottom: 0,
            field: Field::Top,
            texture_disable: false,
            hres: HorizontalRes(0),
            vres: VerticalRes::Y240Lines,
            vmode: VMode::Ntsc,
            display_depth: DisplayDepth::D15Bits,
            interlaced: false,
            display_disabled: true,
            display_vram_x_start: 0,
            display_vram_y_start: 0,
            display_horiz_start: 0x200,
            display_horiz_end: 0xc00,
            display_line_start: 0x10,
            display_line_end: 0x100,
            interrupt: false,
            dma_direction: DmaDirection::Off,
        }
    }

    /// The state after a soft reset: every field at its power-on value,
    /// except that the output is interlaced and the displayed field stays
    /// the one it was.
    pub open spec fn soft_reset(self) -> RegisterState {
        RegisterState { interlaced: true, field: self.field, ..RegisterState::power_on() }
    }

    /// The state after GP0(0xE1), draw mode: the texture page in bits 0 to
    /// 4, the blending mode in bits 5 and 6, the texture depth in bits 7 and
    /// 8, and a flag in each of the bits 9 to 13. The texture depth code 3
    /// names no depth; what the state is then is left open.
    pub open spec fn draw_mode(self, val: u32) -> RegisterState {
        RegisterState {
            page_base_x: (val % 0x10) as u8,
            page_base_y: (val / 0x10 % 2) as u8,
            semi_transparency: (val / 0x20 % 4) as u8,
            texture_depth: TextureDepth::of_code(val / 0x80 % 4).unwrap(),
            dithering: bit(val, 0x200),
            draw_to_display: bit(val, 0x400),
            texture_disable: bit(val, 0x800),
            rectangle_texture_x_flip: bit(val, 0x1000),
            rectangle_texture_y_flip: bit(val, 0x2000),
            ..self
        }
    }

    /// The state after GP0(0xE2), texture window: four fields of 5 bits,
    /// from bit 0 upwards.
    pub open spec fn texture_window(self, val: u32) -> RegisterState {
        RegisterState {
            texture_window_x_mask: (val % 0x20) as u8,
            texture_window_y_mask: (val / 0x20 % 0x20) as u8,
            texture_window_x_offset: (val / 0x400 % 0x20) as u8,
            texture_window_y_offset: (val / 0x8000 % 0x20) as u8,
            ..self
        }
    }

    /// The state after GP0(0xE3), drawing area top left: the column in bits
    /// 0 to 9, the line in bits 10 to 19.
    pub open spec fn drawing_area_top_left(self, val: u32) -> RegisterState {
        RegisterState {
            drawing_area_top: (val / 0x400 % 0x400) as u16,
            drawing_area_left: (val % 0x400) as u16,
            ..self
        }
    }

    /// The state after GP0(0xE4), drawing area bottom right: the column in
    /// bits 0 to 9, the line in bits 10 to 19.
    pub open spec fn drawing_area_bottom_right(self, val: u32) -> RegisterState {
        RegisterState {
            drawing_area_bottom: (val / 0x400 % 0x400) as u16,
            drawing_area_right: (val % 0x400) as u16,
            ..self
        }
    }

    /// The state after GP0(0xE6), mask bit setting: a flag in bit 0 and one
    /// in bit 1.
    pub open spec fn mask_bit_setting(self, val: u32) -> RegisterState {
        RegisterState {
            force_set_mask_bit: bit(val, 1),
            preserve_masked_pixels: bit(val, 2),
            ..self
        }
    }

    /// The state after GP1(0x02), acknowledge interrupt.
    pub open spec fn acknowledge_irq(self) -> RegisterState {
        RegisterState { interrupt: false, ..self }
    }

    /// The state after GP1(0x03), display enable: bit 0 disables the
    /// display.
    pub open spec fn display_enable(self, val: u32) -> RegisterState {
        RegisterState { display_disabled: bit(val, 1), ..self }
    }

    /// The state after GP1(0x04), DMA direction.
    pub open spec fn dma_direction(self, val: u32) -> RegisterState {
        RegisterState { dma_direction: DmaDirection::of_code(val), ..self }
    }

    /// The state after GP1(0x05), display VRAM start: the column in bits 0
    /// to 9, cut to an even number, and the line in bits 10 to 18.
    pub open spec fn display_vram_start(self, val: u32) -> RegisterState {
        RegisterState {
            display_vram_x_start: (val % 0x400 - val % 2) as u16,
            display_vram_y_start: (val / 0x400 % 0x200) as u16,
            ..self
        }
    }

    /// The state after GP1(0x06), display horizontal range: the start in
    /// bits 0 to 11, the end in bits 12 to 23.
    pub open spec fn display_horizontal_range(self, val: u32) -> RegisterState {
        RegisterState {
            display_horiz_start: (val % 0x1000) as u16,
            display_horiz_end: (val / 0x1000 % 0x1000) as u16,
            ..self
        }
    }

    /// The state after GP1(0x07), display vertical range: the first line in
    /// bits 0 to 9, the last in bits 10 to 19.
    pub open spec fn display_vertical_range(self, val: u32) -> RegisterState {
        RegisterState {
            display_line_start: (val % 0x400) as u16,
            display_line_end: (val / 0x400 % 0x400) as u16,
            ..self
        }
    }

    /// The state after GP1(0x08), display mode: the first resolution field
    /// in bits 0 and 1, the second in bit 6, and a flag in each of the bits
    /// 2 to 5, for 480 lines, PAL, 15-bit depth and interlacing.
    pub open spec fn display_mode(self, val: u32) -> RegisterState {
        RegisterState {
            hres: HorizontalRes(HorizontalRes::pack((val % 4) as u8, (val / 0x40 % 2) as u8)),
            vres: VerticalRes::of_flag(bit(val, 4)),
            vmode: VMode::of_flag(bit(val, 8)),
            display_depth: DisplayDepth::of_flag(bit(val, 0x10)),
            interlaced: bit(val, 0x20),
            ..self
        }
    }

    /// The state at power-on.
    pub fn new() -> (regs: RegisterState)
        ensures
            regs == RegisterState::power_on(),
            regs.wf(),
    {
        RegisterState {
            page_base_x: 0,
            page_base_y: 0,
            rectangle_texture_x_flip: false,
            rectangle_texture_y_flip: false,
            semi_transparency: 0,
            texture_depth: TextureDepth::T4Bit,
            texture_window_x_mask: 0,
            texture_window_y_mask: 0,
            texture_window_x_offset: 0,
            texture_window_y_offset: 0,
            dithering: false,
            draw_to_display: false,
            force_set_mask_bit: false,
            preserve_masked_pixels: false,
            drawing_area_left: 0,
            drawing_area_top: 0,
            drawing_area_right: 0,
            drawing_area_bottom: 0,
            field: Field::Top,
            texture_disable: false,
            hres: HorizontalRes::from_fields(0, 0),
            vres: VerticalRes::Y240Lines,
            vmode: VMode::Ntsc,
            display_depth: DisplayDepth::D15Bits,
            interlaced: false,
            display_disabled: true,
            display_vram_x_start: 0,
            display_vram_y_start: 0,
            display_horiz_start: 0x200,
            display_horiz_end: 0xc00,
            display_line_start: 0x10,
            display_line_end: 0x100,
            interrupt: false,
            dma_direction: DmaDirection::Off,
        }
    }
}

impl RegisterState {
    /// What GP0(0xE1), draw mode writes, read from the bits of its word: whether this
    /// state holds in each field of the command what `val` has there.
    pub open spec fn holds_draw_mode(self, val: u32) -> bool {
        &&& self.page_base_x == val & 0xf
        &&& self.page_base_y == (val >> 4) & 1
        &&& self.semi_transparency == (val >> 5) & 3
        &&& self.texture_depth.code() == (val >> 7) & 3
        &&& self.dithering == ((val >> 9) & 1 != 0)
        &&& self.draw_to_display == ((val >> 10) & 1 != 0)
        &&& self.texture_disable == ((val >> 11) & 1 != 0)
        &&& self.rectangle_texture_x_flip == ((val >> 12) & 1 != 0)
        &&& self.rectangle_texture_y_flip == ((val >> 13) & 1 != 0)
    }

    /// What GP0(0xE2), texture window writes, read from the bits of its word: whether this
    /// state holds in each field of the command what `val` has there.
    pub open spec fn holds_texture_window(self, val: u32) -> bool {
        &&& self.texture_window_x_mask == val & 0x1f
        &&& self.texture_window_y_mask == (val >> 5) & 0x1f
        &&& self.texture_window_x_offset == (val >> 10) & 0x1f
        &&& self.texture_window_y_offset == (val >> 15) & 0x1f
    }

    /// What GP0(0xE3), drawing area top left writes, read from the bits of its word: whether this
    /// state holds in each field of the command what `val` has there.
    pub open spec fn holds_drawing_area_top_left(self, val: u32) -> bool {
        &&& self.drawing_area_left == val & 0x3ff
        &&& self.drawing_area_top == (val >> 10) & 0x3ff
    }

    /// What GP0(0xE4), drawing area bottom right writes, read from the bits of its word: whether this
    /// state holds in each field of the command what `val` has there.
    pub open spec fn holds_drawing_area_bottom_right(self, val: u32) -> bool {
        &&& self.drawing_area_right == val & 0x3ff
        &&& self.drawing_area_bottom == (val >> 10) & 0x3ff
    }

    /// What GP0(0xE6), mask bit setting writes, read from the bits of its word: whether this
    /// state holds in each field of the command what `val` has there.
    pub open spec fn holds_mask_bit_setting(self, val: u32) -> bool {
        &&& self.force_set_mask_bit == (val & 1 != 0)
        &&& self.preserve_masked_pixels == (val & 2 != 0)
    }

    /// What GP1(0x03), display enable writes, read from the bits of its word: whether this
    /// state holds in each field of the command what `val` has there.
    pub open spec fn holds_display_enable(self, val: u32) -> bool {
        &&& self.display_disabled == (val & 1 != 0)
    }

    /// What GP1(0x04), DMA direction writes, read from the bits of its word: whether this
    /// state holds in each field of the command what `val` has there.
    pub open spec fn holds_dma_direction(self, val: u32) -> bool {
        &&& self.dma_direction.code() == val & 3
    }

    /// What GP1(0x05), display VRAM start writes, read from the bits of its word: whether this
    /// state holds in each field of the command what `val` has there.
    pub open spec fn holds_display_vram_start(self, val: u32) -> bool {
        &&& self.display_vram_x_start == val & 0x3fe
        &&& self.display_vram_y_start == (val >> 10) & 0x1ff
    }

    /// What GP1(0x06), display horizontal range writes, read from the bits of its word: whether this
    /// state holds in each field of the command what `val` has there.
    pub open spec fn holds_display_horizontal_range(self, val: u32) -> bool {
        &&& self.display_horiz_start == val & 0xfff
        &&& self.display_horiz_end == (val >> 12) & 0xfff
    }

    /// What GP1(0x07), display vertical range writes, read from the bits of its word: whether this
    /// state holds in each field of the command what `val` has there.
    pub open spec fn holds_display_vertical_range(self, val: u32) -> bool {
        &&& self.display_line_start == val & 0x3ff
        &&& self.display_line_end == (val >> 10) & 0x3ff
    }

    /// What GP1(0x08), display mode writes, read from the bits of its word: whether this
    /// state holds in each field of the command what `val` has there.
    pub open spec fn holds_display_mode(self, val: u32) -> bool {
        &&& self.hres.0 == ((val >> 6) & 1) | ((val & 3) << 1)
        &&& self.vres == VerticalRes::of_flag(val & 0x4 != 0)
        &&& self.vmode == VMode::of_flag(val & 0x8 != 0)
        &&& self.display_depth == DisplayDepth::of_flag(val & 0x10 != 0)
        &&& self.interlaced == (val & 0x20 != 0)
    }
}

/// After GP0(0xE1), draw mode the fields of the command hold what the bits of its
/// word say.
pub proof fn lemma_draw_mode_in_bits(regs: RegisterState, val: u32)
    requires
        TextureDepth::of_code(val / 0x80 % 4) is Some,
    ensures
        regs.draw_mode(val).holds_draw_mode(val),
{
    assert(val % 0x10 == val & 0xf && val / 0x10 % 2 == (val >> 4) & 1 && val / 0x20 % 4 == (val >> 5) & 3 && val / 0x80 % 4 == (val >> 7) & 3 && (val / 0x200 % 2 == 1) == ((val >> 9) & 1 != 0) && (val / 0x400 % 2 == 1) == ((val >> 10) & 1 != 0) && (val / 0x800 % 2 == 1) == ((val >> 11) & 1 != 0) && (val / 0x1000 % 2 == 1) == ((val >> 12) & 1 != 0) && (val / 0x2000 % 2 == 1) == ((val >> 13) & 1 != 0)) by (bit_vector);
}

/// After GP0(0xE2), texture window the fields of the command hold what the bits of its
/// word say.
pub proof fn lemma_texture_window_in_bits(regs: RegisterState, val: u32)
    ensures
        regs.texture_window(val).holds_texture_window(val),
{
    assert(val % 0x20 == val & 0x1f && val / 0x20 % 0x20 == (val >> 5) & 0x1f && val / 0x400 % 0x20 == (val >> 10) & 0x1f && val / 0x8000 % 0x20 == (val >> 15) & 0x1f) by (bit_vector);
}

/// After GP0(0xE3), drawing area top left the fields of the command hold what the bits of its
/// word say.
pub proof fn lemma_drawing_area_top_left_in_bits(regs: RegisterState, val: u32)
    ensures
        regs.drawing_area_top_left(val).holds_drawing_area_top_left(val),
{
    assert(val % 0x400 == val & 0x3ff && val / 0x400 % 0x400 == (val >> 10) & 0x3ff) by (bit_vector);
}

/// After GP0(0xE4), drawing area bottom right the fields of the command hold what the bits of its
/// word say.
pub proof fn lemma_drawing_area_bottom_right_in_bits(regs: RegisterState, val: u32)
    ensures
        regs.drawing_area_bottom_right(val).holds_drawing_area_bottom_right(val),
{
    assert(val % 0x400 == val & 0x3ff && val / 0x400 % 0x400 == (val >> 10) & 0x3ff) by (bit_vector);
}

/// After GP0(0xE6), mask bit setting the fields of the command hold what the bits of its
/// word say.
pub proof fn lemma_mask_bit_setting_in_bits(regs: RegisterState, val: u32)
    ensures
        regs.mask_bit_setting(val).holds_mask_bit_setting(val),
{
    assert((val / 1 % 2 == 1) == (val & 1 != 0) && (val / 2 % 2 == 1) == (val & 2 != 0)) by (bit_vector);
}

/// After GP1(0x03), display enable the fields of the command hold what the bits of its
/// word say.
pub proof fn lemma_display_enable_in_bits(regs: RegisterState, val: u32)
    ensures
        regs.display_enable(val).holds_display_enable(val),
{
    assert((val / 1 % 2 == 1) == (val & 1 != 0)) by (bit_vector);
}

/// After GP1(0x04), DMA direction the fields of the command hold what the bits of its
/// word say.
pub proof fn lemma_dma_direction_in_bits(regs: RegisterState, val: u32)
    ensures
        regs.dma_direction(val).holds_dma_direction(val),
{
    assert(val % 4 == val & 3) by (bit_vector);
}

/// After GP1(0x05), display VRAM start the fields of the command hold what the bits of its
/// word say.
pub proof fn lemma_display_vram_start_in_bits(regs: RegisterState, val: u32)
    ensures
        regs.display_vram_start(val).holds_display_vram_start(val),
{
    assert(val % 0x400 - val % 2 == val & 0x3fe && val / 0x400 % 0x200 == (val >> 10) & 0x1ff) by (bit_vector);
}

/// After GP1(0x06), display horizontal range the fields of the command hold what the bits of its
/// word say.
pub proof fn lemma_display_horizontal_range_in_bits(regs: RegisterState, val: u32)
    ensures
        regs.display_horizontal_range(val).holds_display_horizontal_range(val),
{
    assert(val % 0x1000 == val & 0xfff && val / 0x1000 % 0x1000 == (val >> 12) & 0xfff) by (bit_vector);
}

/// After GP1(0x07), display vertical range the fields of the command hold what the bits of its
/// word say.
pub proof fn lemma_display_vertical_range_in_bits(regs: RegisterState, val: u32)
    ensures
        regs.display_vertical_range(val).holds_display_vertical_range(val),
{
    assert(val % 0x400 == val & 0x3ff && val / 0x400 % 0x400 == (val >> 10) & 0x3ff) by (bit_vector);
}

/// After GP1(0x08), display mode the fields of the command hold what the bits of its
/// word say.
pub proof fn lemma_display_mode_in_bits(regs: RegisterState, val: u32)
    ensures
        regs.display_mode(val).holds_display_mode(val),
{
    assert(val / 0x40 % 2 + 2 * (val % 4) == ((val >> 6) & 1) | ((val & 3) << 1) && (val / 4 % 2 == 1) == (val & 0x4 != 0) && (val / 8 % 2 == 1) == (val & 0x8 != 0) && (val / 0x10 % 2 == 1) == (val & 0x10 != 0) && (val / 0x20 % 2 == 1) == (val & 0x20 != 0)) by (bit_vector);
    let hr1 = (val % 4) as u8;
    let hr2 = (val / 0x40 % 2) as u8;
    assert(HorizontalRes::pack(hr1, hr2) == val / 0x40 % 2 + 2 * (val % 4));
}

/// The packed resolution code, written with the bit operations that
/// compute it.
pub proof fn lemma_pack_in_bits(hr1: u8, hr2: u8)
    ensures
        HorizontalRes::pack(hr1, hr2) == (hr2 & 1) | ((hr1 & 3) << 1),
        HorizontalRes::pack(hr1, hr2) <= 7,
{
    assert((hr2 & 1) | ((hr1 & 3) << 1) == hr2 % 2 + 2 * (hr1 % 4)) by (bit_vector);
}

/// The reset values are within the widths of their fields, whatever the
/// state was before.
pub proof fn lemma_reset_is_well_formed(regs: RegisterState)
    ensures
        regs.soft_reset().wf(),
        RegisterState::power_on().wf(),
{
}

proof fn lemma_draw_mode_is_masked(regs: RegisterState, val: u32)
    requires
        regs.wf(),
    ensures
        regs.draw_mode(val).wf(),
{
}

proof fn lemma_texture_window_is_masked(regs: RegisterState, val: u32)
    requires
        regs.wf(),
    ensures
        regs.texture_window(val).wf(),
{
}

proof fn lemma_drawing_area_top_left_is_masked(regs: RegisterState, val: u32)
    requires
        regs.wf(),
    ensures
        regs.drawing_area_top_left(val).wf(),
{
}

proof fn lemma_drawing_area_bottom_right_is_masked(regs: RegisterState, val: u32)
    requires
        regs.wf(),
    ensures
        regs.drawing_area_bottom_right(val).wf(),
{
}

proof fn lemma_mask_bit_setting_is_masked(regs: RegisterState, val: u32)
    requires
        regs.wf(),
    ensures
        regs.mask_bit_setting(val).wf(),
{
}

proof fn lemma_display_enable_is_masked(regs: RegisterState, val: u32)
    requires
        regs.wf(),
    ensures
        regs.display_enable(val).wf(),
{
}

proof fn lemma_dma_direction_is_masked(regs: RegisterState, val: u32)
    requires
        regs.wf(),
    ensures
        regs.dma_direction(val).wf(),
{
}

proof fn lemma_display_vram_start_is_masked(regs: RegisterState, val: u32)
    requires
        regs.wf(),
    ensures
        regs.display_vram_start(val).wf(),
{
    assert((val % 0x400 - val % 2) % 2 == 0) by (bit_vector);
}

proof fn lemma_display_horizontal_range_is_masked(regs: RegisterState, val: u32)
    requires
        regs.wf(),
    ensures
        regs.display_horizontal_range(val).wf(),
{
}

proof fn lemma_display_vertical_range_is_masked(regs: RegisterState, val: u32)
    requires
        regs.wf(),
    ensures
        regs.display_vertical_range(val).wf(),
{
}

proof fn lemma_display_mode_is_masked(regs: RegisterState, val: u32)
    requires
        regs.wf(),
    ensures
        regs.display_mode(val).wf(),
{
    lemma_pack_in_bits((val % 4) as u8, (val / 0x40 % 2) as u8);
}

/// Every command leaves the fields within their widths, whatever word it
/// is given: writes are cut to size, never refused.
#[verifier::rlimit(40)]
pub proof fn lemma_writes_are_masked(regs: RegisterState, val: u32)
    requires
        regs.wf(),
    ensures
        regs.draw_mode(val).wf(),
        regs.texture_window(val).wf(),
        regs.drawing_area_top_left(val).wf(),
        regs.drawing_area_bottom_right(val).wf(),
        regs.mask_bit_setting(val).wf(),
        regs.acknowledge_irq().wf(),
        regs.display_enable(val).wf(),
        regs.dma_direction(val).wf(),
        regs.display_vram_start(val).wf(),
        regs.display_horizontal_range(val).wf(),
        regs.display_vertical_range(val).wf(),
        regs.display_mode(val).wf(),
{
    lemma_draw_mode_is_masked(regs, val);
    lemma_texture_window_is_masked(regs, val);
    lemma_drawing_area_top_left_is_masked(regs, val);
    lemma_drawing_area_bottom_right_is_masked(regs, val);
    lemma_mask_bit_setting_is_masked(regs, val);
    lemma_display_enable_is_masked(regs, val);
    lemma_dma_direction_is_masked(regs, val);
    lemma_display_vram_start_is_masked(regs, val);
    lemma_display_horizontal_range_is_masked(regs, val);
    lemma_display_vertical_range_is_masked(regs, val);
    lemma_display_mode_is_masked(regs, val);
}

} // verus!
