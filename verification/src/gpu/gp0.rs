//! The GP0 command set: which opcodes exist, how many words each takes, and
//! how the words of a command are read.

use vstd::prelude::*;
use crate::gpu::bits::{
    extract,
    high_half_signed,
    low_half_signed,
    sign_extend_11,
    signed11,
    signed16,
};

verus! {

/// Possible states for the GP0 command register.
#[derive(Clone, Copy, Debug, PartialEq, Eq, Structural)]
pub enum Gp0Mode {
    /// Default mode: handling commands.
    Command,
    /// Loading an image into VRAM.
    ImageLoad,
}

/// The commands that GP0 accepts. A command in flight is remembered by this
/// tag, and run through it once its last word has arrived.
#[derive(Clone, Copy, Debug, PartialEq, Eq, Structural)]
pub enum Gp0Command {
    /// GP0(0x00): no operation.
    Nop,
    /// GP0(0x01): clear the texture cache, which is not modelled.
    ClearCache,
    /// GP0(0x28): monochrome opaque quadrilateral.
    QuadMonoOpaque,
    /// GP0(0x2C): textured opaque quadrilateral.
    QuadTextureBlendOpaque,
    /// GP0(0x30): shaded opaque triangle.
    TriangleShadedOpaque,
    /// GP0(0x38): shaded opaque quadrilateral.
    QuadShadedOpaque,
    /// GP0(0xA0): image load.
    ImageLoad,
    /// GP0(0xC0): image store.
    ImageStore,
    /// GP0(0xE1): draw mode.
    DrawMode,
    /// GP0(0xE2): texture window.
    TextureWindow,
    /// GP0(0xE3): drawing area top left.
    DrawingAreaTopLeft,
    /// GP0(0xE4): drawing area bottom right.
    DrawingAreaBottomRight,
    /// GP0(0xE5): drawing offset.
    DrawingOffset,
    /// GP0(0xE6): mask bit setting.
    MaskBitSetting,
}

impl Gp0Command {
    /// The opcode table: the command that an opcode selects, if any.
    pub open spec fn lookup(opcode: u32) -> Option<Gp0Command> {
        if opcode == 0x00 {
            Some(Gp0Command::Nop)
        } else if opcode == 0x01 {
            Some(Gp0Command::ClearCache)
        } else if opcode == 0x28 {
            Some(Gp0Command::QuadMonoOpaque)
        } else if opcode == 0x2c {
            Some(Gp0Command::QuadTextureBlendOpaque)
        } else if opcode == 0x30 {
            Some(Gp0Command::TriangleShadedOpaque)
        } else if opcode == 0x38 {
            Some(Gp0Command::QuadShadedOpaque)
        } else if opcode == 0xa0 {
            Some(Gp0Command::ImageLoad)
        } else if opcode == 0xc0 {
            Some(Gp0Command::ImageStore)
        } else if opcode == 0xe1 {
            Some(Gp0Command::DrawMode)
        } else if opcode == 0xe2 {
            Some(Gp0Command::TextureWindow)
        } else if opcode == 0xe3 {
            Some(Gp0Command::DrawingAreaTopLeft)
        } else if opcode == 0xe4 {
            Some(Gp0Command::DrawingAreaBottomRight)
        } else if opcode == 0xe5 {
            Some(Gp0Command::DrawingOffset)
        } else if opcode == 0xe6 {
            Some(Gp0Command::MaskBitSetting)
        } else {
            None
        }
    }

    /// The number of words that make up the command, its first word
    /// included.
    pub open spec fn words(self) -> u32 {
        match self {
            Gp0Command::Nop => 1,
            Gp0Command::ClearCache => 1,
            Gp0Command::QuadMonoOpaque => 5,
            Gp0Command::QuadTextureBlendOpaque => 9,
            Gp0Command::TriangleShadedOpaque => 6,
            Gp0Command::QuadShadedOpaque => 8,
            Gp0Command::ImageLoad => 3,
            Gp0Command::ImageStore => 3,
            Gp0Command::DrawMode => 1,
            Gp0Command::TextureWindow => 1,
            Gp0Command::DrawingAreaTopLeft => 1,
            Gp0Command::DrawingAreaBottomRight => 1,
            Gp0Command::DrawingOffset => 1,
            Gp0Command::MaskBitSetting => 1,
        }
    }

    /// Looks an opcode up in the table.
    pub fn from_opcode(opcode: u32) -> (r: Option<Gp0Command>)
        ensures
            r == Gp0Command::lookup(opcode),
    {
        match opcode {
            0x00 => Some(Gp0Command::Nop),
            0x01 => Some(Gp0Command::ClearCache),
            0x28 => Some(Gp0Command::QuadMonoOpaque),
            0x2c => Some(Gp0Command::QuadTextureBlendOpaque),
            0x30 => Some(Gp0Command::TriangleShadedOpaque),
            0x38 => Some(Gp0Command::QuadShadedOpaque),
            0xa0 => Some(Gp0Command::ImageLoad),
            0xc0 => Some(Gp0Command::ImageStore),
            0xe1 => Some(Gp0Command::DrawMode),
            0xe2 => Some(Gp0Command::TextureWindow),
            0xe3 => Some(Gp0Command::DrawingAreaTopLeft),
            0xe4 => Some(Gp0Command::DrawingAreaBottomRight),
            0xe5 => Some(Gp0Command::DrawingOffset),
            0xe6 => Some(Gp0Command::MaskBitSetting),
            _ => None,
        }
    }

    /// The length of the command in words.
    pub fn word_count(self) -> (n: u32)
        ensures
            n == self.words(),
            1 <= n <= 9,
    {
        match self {
            Gp0Command::Nop => 1,
            Gp0Command::ClearCache => 1,
            Gp0Command::QuadMonoOpaque => 5,
            Gp0Command::QuadTextureBlendOpaque => 9,
            Gp0Command::TriangleShadedOpaque => 6,
            Gp0Command::QuadShadedOpaque => 8,
            Gp0Command::ImageLoad => 3,
            Gp0Command::ImageStore => 3,
            Gp0Command::DrawMode => 1,
            Gp0Command::TextureWindow => 1,
            Gp0Command::DrawingAreaTopLeft => 1,
            Gp0Command::DrawingAreaBottomRight => 1,
            Gp0Command::DrawingOffset => 1,
            Gp0Command::MaskBitSetting => 1,
        }
    }
}

/// What a GP0 write has to report besides its effect: a legal command that
/// this unit does not carry out.
#[derive(Clone, Copy, Debug, PartialEq, Eq, Structural)]
pub enum Diagnostic {
    /// An image store was asked for; no pixel is sent back.
    UnhandledImageStore { width: u32, height: u32 },
}

/// The opcode of a command word: its top byte.
pub open spec fn opcode_of(word: u32) -> u32 {
    word / 0x100_0000
}

/// The position that a word holds: x in the low half, y in the high half,
/// both signed.
pub open spec fn position_of(word: u32) -> [i16; 2] {
    [signed16(word as int % 0x1_0000) as i16, signed16(word as int / 0x1_0000) as i16]
}

/// The color that a word holds: red in bits 16 to 23, green in bits 8 to
/// 15, blue in bits 0 to 7. The top byte is not part of it.
pub open spec fn color_of(word: u32) -> [u8; 3] {
    [(word / 0x1_0000 % 0x100) as u8, (word / 0x100 % 0x100) as u8, (word % 0x100) as u8]
}

/// The color drawn in place of a texture.
pub open spec fn placeholder_color() -> [u8; 3] {
    [0x80u8, 0x00u8, 0x00u8]
}

/// The width of an image transfer, from the word that holds its size: the
/// low half.
pub open spec fn image_width(res: u32) -> u32 {
    res % 0x1_0000
}

/// The height of an image transfer, from the word that holds its size: the
/// high half.
pub open spec fn image_height(res: u32) -> u32 {
    res / 0x1_0000
}

/// The number of words that carry an image of the given size: two pixels to
/// a word, the last word half empty when the pixel count is odd.
pub open spec fn image_words(width: u32, height: u32) -> int {
    (width * height + 1) / 2
}

/// The horizontal drawing offset of a command word: its low 11 bits, signed.
pub open spec fn offset_x(val: u32) -> int {
    signed11(val as int % 0x800)
}

/// The vertical drawing offset of a command word: the next 11 bits, signed.
pub open spec fn offset_y(val: u32) -> int {
    signed11(val as int / 0x800 % 0x800)
}

/// Reads the opcode of a command word.
pub fn opcode(word: u32) -> (op: u32)
    ensures
        op == opcode_of(word),
        op <= 0xff,
{
    extract(word, 24, 8)
}

/// Reads a vertex position from a command word.
pub fn position_from_gp0(word: u32) -> (p: [i16; 2])
    ensures
        p == position_of(word),
{
    [low_half_signed(word), high_half_signed(word)]
}

/// Reads a vertex color from a command word.
pub fn color_from_gp0(word: u32) -> (c: [u8; 3])
    ensures
        c == color_of(word),
{
    [extract(word, 16, 8) as u8, extract(word, 8, 8) as u8, extract(word, 0, 8) as u8]
}

/// Reads the size of an image transfer from the word that holds it: the
/// width, then the height.
pub fn image_size_from_gp0(res: u32) -> (size: (u16, u16))
    ensures
        size.0 == image_width(res),
        size.1 == image_height(res),
{
    (extract(res, 0, 16) as u16, extract(res, 16, 16) as u16)
}

/// Counts the words of an image transfer.
pub fn image_word_count(width: u16, height: u16) -> (n: u32)
    ensures
        n == image_words(width as u32, height as u32),
{
    let width = width as u32;
    let height = height as u32;
    assert(width * height <= 0xffff * 0xffff) by (nonlinear_arith)
        requires
            width <= 0xffff,
            height <= 0xffff,
    ;
    // Size of the image in 16-bit pixels.
    let imgsize = width * height;
    // An odd number of pixels is rounded up, since 32 bits are transferred
    // at a time: the last word then holds 16 bits of padding.
    let rounded = (imgsize + 1) & !1;
    assert(rounded / 2 == (imgsize + 1) / 2) by (bit_vector)
        requires
            imgsize <= 0xfffe_0001u32,
            rounded == ((imgsize + 1) as u32) & !1u32,
    ;
    rounded / 2
}

/// Reads the drawing offset of a command word.
pub fn drawing_offset_from_gp0(val: u32) -> (offset: (i16, i16))
    ensures
        offset.0 == offset_x(val),
        offset.1 == offset_y(val),
{
    let x = extract(val, 0, 11) as u16;
    let y = extract(val, 11, 11) as u16;
    (sign_extend_11(x), sign_extend_11(y))
}

} // verus!
