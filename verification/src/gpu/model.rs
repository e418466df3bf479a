//! The command processor as a state machine over plain values: what each
//! write to GP0 and GP1 does to the state, and what it asks of the
//! rendering backend.

use vstd::prelude::*;
use crate::gpu::bits::bit;
use crate::gpu::command_buffer::CAPACITY;
use crate::gpu::gp0::{
    color_of,
    image_height,
    image_width,
    image_words,
    offset_x,
    offset_y,
    opcode_of,
    placeholder_color,
    position_of,
    Diagnostic,
    Gp0Command,
    Gp0Mode,
};
use crate::gpu::registers::{
    lemma_reset_is_well_formed,
    DisplayDepth,
    DmaDirection,
    HorizontalRes,
    RegisterState,
    TextureDepth,
    VMode,
    VerticalRes,
};
use crate::gpu::renderer::{RenderCommand, Vertex};

verus! {

/// The state of a command processor, and the calls that its rendering
/// backend has received.
pub struct GpuView {
    /// The configuration registers.
    pub regs: RegisterState,
    /// The words received of the GP0 command in flight.
    pub words: Seq<u32>,
    /// How many words the command or image transfer in flight still lacks;
    /// 0 when none is in flight.
    pub words_remaining: u32,
    /// The command in flight, or the last one when none is.
    pub pending: Gp0Command,
    /// What GP0 takes its next word for.
    pub mode: Gp0Mode,
    /// Every call that the rendering backend has received, oldest first.
    pub calls: Seq<RenderCommand>,
}

/// The four corners of a monochrome quadrilateral: positions in words 1 to
/// 4, all in the color of word 0.
pub open spec fn quad_mono_opaque(words: Seq<u32>) -> [Vertex; 4] {
    [
        Vertex { position: position_of(words[1]), color: color_of(words[0]) },
        Vertex { position: position_of(words[2]), color: color_of(words[0]) },
        Vertex { position: position_of(words[3]), color: color_of(words[0]) },
        Vertex { position: position_of(words[4]), color: color_of(words[0]) },
    ]
}

/// The four corners of a textured quadrilateral: positions in words 1, 3, 5
/// and 7, all in the placeholder color; the texture words between them are
/// not read.
pub open spec fn quad_texture_blend_opaque(words: Seq<u32>) -> [Vertex; 4] {
    [
        Vertex { position: position_of(words[1]), color: placeholder_color() },
        Vertex { position: position_of(words[3]), color: placeholder_color() },
        Vertex { position: position_of(words[5]), color: placeholder_color() },
        Vertex { position: position_of(words[7]), color: placeholder_color() },
    ]
}

/// The three corners of a shaded triangle: each color word is followed by
/// the position it belongs to.
pub open spec fn triangle_shaded_opaque(words: Seq<u32>) -> [Vertex; 3] {
    [
        Vertex { position: position_of(words[1]), color: color_of(words[0]) },
        Vertex { position: position_of(words[3]), color: color_of(words[2]) },
        Vertex { position: position_of(words[5]), color: color_of(words[4]) },
    ]
}

/// The four corners of a shaded quadrilateral: each color word is followed
/// by the position it belongs to.
pub open spec fn quad_shaded_opaque(words: Seq<u32>) -> [Vertex; 4] {
    [
        Vertex { position: position_of(words[1]), color: color_of(words[0]) },
        Vertex { position: position_of(words[3]), color: color_of(words[2]) },
        Vertex { position: position_of(words[5]), color: color_of(words[4]) },
        Vertex { position: position_of(words[7]), color: color_of(words[6]) },
    ]
}

/// A write that this unit does not support. The command streams it is meant
/// for never hold one, so there is no way on from it: the ports rule these
/// writes out, and whoever drives them has to stop.
#[derive(Clone, Copy, Debug, PartialEq, Eq, Structural)]
pub enum Unsupported {
    /// The word would start a GP0 command, and no command has its opcode.
    Gp0Command { word: u32 },
    /// A draw mode command selects the texture depth code 3, which names no
    /// depth.
    TextureDepth { code: u32 },
    /// No GP1 command has the opcode of the word.
    Gp1Command { word: u32 },
    /// A display mode command has bit 7 set.
    DisplayMode { word: u32 },
}

/// What is wrong with a write to GP1, if anything: an opcode above 8, or a
/// display mode command whose bit 7 is set.
pub open spec fn gp1_fault(val: u32) -> Option<Unsupported> {
    if opcode_of(val) > 8 {
        Some(Unsupported::Gp1Command { word: val })
    } else if opcode_of(val) == 8 && bit(val, 0x80) {
        Some(Unsupported::DisplayMode { word: val })
    } else {
        None
    }
}

/// Whether GP1 supports this write.
pub open spec fn accepts_gp1(val: u32) -> bool {
    gp1_fault(val) is None
}

impl GpuView {
    /// The registers are within their widths, and while a command is in
    /// flight its first word is held, and the words held and the words
    /// awaited add up to its length.
    pub open spec fn wf(self) -> bool {
        &&& self.regs.wf()
        &&& self.words.len() <= CAPACITY
        &&& self.mode == Gp0Mode::Command && self.words_remaining > 0 ==> {
            &&& self.words.len() >= 1
            &&& self.words.len() + self.words_remaining == self.pending.words()
        }
    }

    /// The state at power-on of a unit whose backend has received `calls`.
    pub open spec fn power_on(calls: Seq<RenderCommand>) -> GpuView {
        GpuView {
            regs: RegisterState::power_on(),
            words: Seq::empty(),
            words_remaining: 0,
            pending: Gp0Command::Nop,
            mode: Gp0Mode::Command,
            calls,
        }
    }

    /// No command or image transfer is in flight.
    pub open spec fn idle(self) -> bool {
        self.words_remaining == 0
    }

    /// The same state, with one more call made on the backend.
    pub open spec fn call(self, command: RenderCommand) -> GpuView {
        GpuView { calls: self.calls.push(command), ..self }
    }

    /// The same state, with other registers.
    pub open spec fn with_regs(self, regs: RegisterState) -> GpuView {
        GpuView { regs, ..self }
    }

    /// What is wrong with a write to GP0, if anything. While a command or
    /// transfer is in flight every word is taken. Otherwise the word starts
    /// a command: its opcode has to be in the table, and where the command
    /// is a draw mode that runs at once, its texture depth has to be one of
    /// the three that exist.
    pub open spec fn gp0_fault(self, val: u32) -> Option<Unsupported> {
        if !self.idle() {
            None
        } else {
            match Gp0Command::lookup(opcode_of(val)) {
                None => Some(Unsupported::Gp0Command { word: val }),
                Some(command) => if command == Gp0Command::DrawMode && self.mode
                    == Gp0Mode::Command && TextureDepth::of_code(val / 0x80 % 4) is None {
                    Some(Unsupported::TextureDepth { code: val / 0x80 % 4 })
                } else {
                    None
                },
            }
        }
    }

    /// Whether GP0 supports this write.
    pub open spec fn accepts_gp0(self, val: u32) -> bool {
        self.gp0_fault(val) is None
    }

    /// The state once `command` has started: it is the one in flight, all
    /// its words are awaited, and none is held.
    pub open spec fn start(self, command: Gp0Command) -> GpuView {
        GpuView {
            words: Seq::empty(),
            words_remaining: command.words(),
            pending: command,
            ..self
        }
    }

    /// The effect of a complete command, whose words are `self.words`.
    pub open spec fn run(self, command: Gp0Command) -> GpuView {
        match command {
            Gp0Command::Nop => self,
            Gp0Command::ClearCache => self,
            Gp0Command::QuadMonoOpaque => self.call(
                RenderCommand::Quad(quad_mono_opaque(self.words)),
            ),
            Gp0Command::QuadTextureBlendOpaque => self.call(
                RenderCommand::Quad(quad_texture_blend_opaque(self.words)),
            ),
            Gp0Command::TriangleShadedOpaque => self.call(
                RenderCommand::Triangle(triangle_shaded_opaque(self.words)),
            ),
            Gp0Command::QuadShadedOpaque => self.call(
                RenderCommand::Quad(quad_shaded_opaque(self.words)),
            ),
            Gp0Command::ImageLoad => GpuView {
                words_remaining: image_words(
                    image_width(self.words[2]),
                    image_height(self.words[2]),
                ) as u32,
                mode: Gp0Mode::ImageLoad,
                ..self
            },
            Gp0Command::ImageStore => self,
            Gp0Command::DrawMode => self.with_regs(self.regs.draw_mode(self.words[0])),
            Gp0Command::TextureWindow => self.with_regs(self.regs.texture_window(self.words[0])),
            Gp0Command::DrawingAreaTopLeft => self.with_regs(
                self.regs.drawing_area_top_left(self.words[0]),
            ),
            Gp0Command::DrawingAreaBottomRight => self.with_regs(
                self.regs.drawing_area_bottom_right(self.words[0]),
            ),
            Gp0Command::DrawingOffset => self.call(
                RenderCommand::DrawOffset {
                    x: offset_x(self.words[0]) as i16,
                    y: offset_y(self.words[0]) as i16,
                },
            ).call(RenderCommand::Display),
            Gp0Command::MaskBitSetting => self.with_regs(
                self.regs.mask_bit_setting(self.words[0]),
            ),
        }
    }

    /// What a complete command reports: an image store says that it was not
    /// carried out, and for which size; the others say nothing.
    pub open spec fn report(self, command: Gp0Command) -> Option<Diagnostic> {
        if command == Gp0Command::ImageStore {
            Some(
                Diagnostic::UnhandledImageStore {
                    width: image_width(self.words[2]),
                    height: image_height(self.words[2]),
                },
            )
        } else {
            None
        }
    }

    /// The state before the word is counted: as it is while something is in
    /// flight, else with the command started that the word selects.
    pub open spec fn begin(self, val: u32) -> GpuView {
        if self.idle() {
            self.start(Gp0Command::lookup(opcode_of(val)).unwrap())
        } else {
            self
        }
    }

    /// Whether this write is the last word of a command, which then runs.
    pub open spec fn completes(self, val: u32) -> bool {
        self.mode == Gp0Mode::Command && self.begin(val).words_remaining == 1
    }

    /// The state after a write to GP0.
    ///
    /// In command mode the word joins the command in flight, which runs when
    /// this was its last word. In image load mode the word is pixel data: it
    /// is counted and dropped, and the last one returns GP0 to command mode.
    pub open spec fn gp0(self, val: u32) -> GpuView {
        let begun = self.begin(val);
        let counted = GpuView { words_remaining: (begun.words_remaining - 1) as u32, ..begun };
        match self.mode {
            Gp0Mode::Command => {
                let held = GpuView { words: counted.words.push(val), ..counted };
                if held.idle() {
                    held.run(held.pending)
                } else {
                    held
                }
            },
            Gp0Mode::ImageLoad => {
                if counted.idle() {
                    GpuView { mode: Gp0Mode::Command, ..counted }
                } else {
                    counted
                }
            },
        }
    }

    /// What a write to GP0 reports.
    pub open spec fn gp0_report(self, val: u32) -> Option<Diagnostic> {
        if self.completes(val) {
            let begun = self.begin(val);
            GpuView { words: begun.words.push(val), ..begun }.report(begun.pending)
        } else {
            None
        }
    }

    /// The state after the words are written to GP0 one after another.
    pub open spec fn feed(self, words: Seq<u32>) -> GpuView
        decreases words.len(),
    {
        if words.len() == 0 {
            self
        } else {
            self.feed(words.drop_last()).gp0(words.last())
        }
    }

    /// The state in which `words` are held of `command`, still in flight.
    pub open spec fn receiving(self, command: Gp0Command, words: Seq<u32>) -> GpuView {
        GpuView {
            words,
            words_remaining: (command.words() - words.len()) as u32,
            pending: command,
            ..self
        }
    }

    /// The state after GP1(0x01), reset command buffer: whatever GP0 had in
    /// flight, command or image transfer, is dropped.
    pub open spec fn reset_command_buffer(self) -> GpuView {
        GpuView { words: Seq::empty(), words_remaining: 0, mode: Gp0Mode::Command, ..self }
    }

    /// The state after GP1(0x00), soft reset: the registers at their reset
    /// values, the drawing offset of the backend set to the origin, and
    /// whatever GP0 had in flight dropped.
    pub open spec fn soft_reset(self) -> GpuView {
        self.with_regs(self.regs.soft_reset()).call(
            RenderCommand::DrawOffset { x: 0, y: 0 },
        ).reset_command_buffer()
    }

    /// The state after a write to GP1. Every command is one word and takes
    /// effect at once.
    pub open spec fn gp1(self, val: u32) -> GpuView {
        let opcode = opcode_of(val);
        if opcode == 0x00 {
            self.soft_reset()
        } else if opcode == 0x01 {
            self.reset_command_buffer()
        } else if opcode == 0x02 {
            self.with_regs(self.regs.acknowledge_irq())
        } else if opcode == 0x03 {
            self.with_regs(self.regs.display_enable(val))
        } else if opcode == 0x04 {
            self.with_regs(self.regs.dma_direction(val))
        } else if opcode == 0x05 {
            self.with_regs(self.regs.display_vram_start(val))
        } else if opcode == 0x06 {
            self.with_regs(self.regs.display_horizontal_range(val))
        } else if opcode == 0x07 {
            self.with_regs(self.regs.display_vertical_range(val))
        } else {
            self.with_regs(self.regs.display_mode(val))
        }
    }
}

/// A command shows no effect before its last word. When an idle unit in
/// command mode is fed the first words of a command, fewer than the command
/// takes, the words are held and counted and nothing else changes: not the
/// registers, not the mode, and no call is made on the backend. Every one of
/// these writes is supported once the first is, and none reports anything.
#[verifier::rlimit(40)]
pub proof fn lemma_no_effect_before_last_word(s: GpuView, command: Gp0Command, words: Seq<u32>)
    requires
        s.idle(),
        s.mode == Gp0Mode::Command,
        0 < words.len() < command.words(),
        Gp0Command::lookup(opcode_of(words[0])) == Some(command),
    ensures
        s.feed(words) == s.receiving(command, words),
        s.feed(words).regs == s.regs,
        s.feed(words).calls == s.calls,
        s.feed(words).mode == s.mode,
        s.feed(words.drop_last()).accepts_gp0(words.last()),
        s.feed(words.drop_last()).gp0_report(words.last()) is None,
    decreases words.len(),
{
    let front = words.drop_last();
    if words.len() == 1 {
        assert(front =~= Seq::<u32>::empty());
        assert(s.feed(front) == s);
        assert(words =~= Seq::<u32>::empty().push(words.last()));
    } else {
        lemma_no_effect_before_last_word(s, command, front);
        assert(words =~= front.push(words.last()));
    }
}

/// A command takes effect with its last word, and the effect is that of its
/// handler on the words received. When an idle unit in command mode is fed
/// exactly the words of one command, it ends idle, with the effect of the
/// command on the state that held those words.
#[verifier::rlimit(40)]
pub proof fn lemma_effect_on_last_word(s: GpuView, command: Gp0Command, words: Seq<u32>)
    requires
        s.idle(),
        s.mode == Gp0Mode::Command,
        words.len() == command.words(),
        Gp0Command::lookup(opcode_of(words[0])) == Some(command),
    ensures
        s.feed(words) == s.receiving(command, words).run(command),
        s.feed(words.drop_last()).gp0_report(words.last()) == s.receiving(command, words).report(
            command,
        ),
{
    let front = words.drop_last();
    if words.len() == 1 {
        assert(front =~= Seq::<u32>::empty());
        assert(s.feed(front) == s);
        assert(words =~= Seq::<u32>::empty().push(words.last()));
    } else {
        lemma_no_effect_before_last_word(s, command, front);
        assert(words =~= front.push(words.last()));
    }
}

/// While an image is being loaded the words are counted and dropped. A
/// unit in image load mode that is fed fewer words than it awaits stays in
/// that mode; only the count goes down.
pub proof fn lemma_image_payload_is_counted(s: GpuView, payload: Seq<u32>)
    requires
        s.mode == Gp0Mode::ImageLoad,
        payload.len() < s.words_remaining,
    ensures
        s.feed(payload) == (GpuView {
            words_remaining: (s.words_remaining - payload.len()) as u32,
            ..s
        }),
    decreases payload.len(),
{
    if payload.len() > 0 {
        lemma_image_payload_is_counted(s, payload.drop_last());
    }
}

/// An image transfer takes exactly the words that were counted for it. A
/// unit in image load mode that is fed as many words as it awaits ends in
/// command mode and idle; the words are dropped and nothing else changes.
pub proof fn lemma_image_payload_is_consumed(s: GpuView, payload: Seq<u32>)
    requires
        s.mode == Gp0Mode::ImageLoad,
        0 < payload.len() == s.words_remaining,
    ensures
        s.feed(payload) == (GpuView { words_remaining: 0, mode: Gp0Mode::Command, ..s }),
{
    lemma_image_payload_is_counted(s, payload.drop_last());
}

/// A soft reset restores the reset value of every register, whatever the
/// state was, and drops what GP0 had in flight, be it a command or an image
/// transfer. The backend is asked for one thing, a drawing offset of zero.
/// Only the displayed field is left as it was.
pub proof fn lemma_soft_reset(s: GpuView, val: u32)
    requires
        opcode_of(val) == 0,
    ensures
        accepts_gp1(val),
        s.gp1(val) == s.soft_reset(),
        s.gp1(val).regs == (RegisterState {
            page_base_x: 0,
            page_base_y: 0,
            rectangle_texture_x_flip: false,
            rectangle_texture_y_flip: false,
            semi_transparency: 0,
            texture_depth: TextureDepth::T4Bit,
            texture_window_x_mask: 0,
            texture_window_y_mask: 0,
            texture_window_x_offset: 0,
            texture_window_y_offset: 0,
            dithering: false,
            draw_to_display: false,
            force_set_mask_bit: false,
            preserve_masked_pixels: false,
            drawing_area_left: 0,
            drawing_area_top: 0,
            drawing_area_right: 0,
            drawing_area_bottom: 0,
            field: s.regs.field,
            texture_disable: false,
            hres: HorizontalRes(0),
            vres: VerticalRes::Y240Lines,
            vmode: VMode::Ntsc,
            display_depth: DisplayDepth::D15Bits,
            interlaced: true,
            display_disabled: true,
            display_vram_x_start: 0,
            display_vram_y_start: 0,
            display_horiz_start: 0x200,
            display_horiz_end: 0xc00,
            display_line_start: 0x10,
            display_line_end: 0x100,
            interrupt: false,
            dma_direction: DmaDirection::Off,
        }),
        s.gp1(val).idle(),
        s.gp1(val).mode == Gp0Mode::Command,
        s.gp1(val).words.len() == 0,
        s.gp1(val).calls == s.calls.push(RenderCommand::DrawOffset { x: 0, y: 0 }),
        s.gp1(val).wf(),
{
    lemma_reset_is_well_formed(s.regs);
}

/// A reset of the command buffer drops what GP0 had in flight, be it a
/// command or an image transfer, and touches nothing else: the next word
/// written to GP0 starts a command.
pub proof fn lemma_reset_command_buffer(s: GpuView, val: u32)
    requires
        opcode_of(val) == 1,
    ensures
        accepts_gp1(val),
        s.gp1(val).idle(),
        s.gp1(val).mode == Gp0Mode::Command,
        s.gp1(val).words.len() == 0,
        s.gp1(val).regs == s.regs,
        s.gp1(val).calls == s.calls,
{
}

/// The GP1 commands other than the two resets touch the registers only.
/// They take effect at once, whatever GP0 has in flight, and leave it in
/// flight; they make no call on the backend.
pub proof fn lemma_gp1_leaves_gp0_alone(s: GpuView, val: u32)
    requires
        2 <= opcode_of(val) <= 8,
    ensures
        s.gp1(val).words == s.words,
        s.gp1(val).words_remaining == s.words_remaining,
        s.gp1(val).pending == s.pending,
        s.gp1(val).mode == s.mode,
        s.gp1(val).calls == s.calls,
{
}

} // verus!
