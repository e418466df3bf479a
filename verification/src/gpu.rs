//! The command processor: the GP0 and GP1 ports, the registers behind them,
//! and the status word.

pub mod bits;
pub mod command_buffer;
pub mod gp0;
pub mod model;
pub mod registers;
pub mod renderer;
pub mod status;

use vstd::prelude::*;
use crate::gpu::bits::{bit, extract, test_bit};
use crate::gpu::command_buffer::CommandBuffer;
use crate::gpu::gp0::{
    color_from_gp0,
    drawing_offset_from_gp0,
    image_size_from_gp0,
    image_word_count,
    opcode,
    position_from_gp0,
    Diagnostic,
    Gp0Command,
    Gp0Mode,
};
use crate::gpu::model::{accepts_gp1, gp1_fault, GpuView, Unsupported};
use crate::gpu::registers::{
    lemma_display_enable_in_bits,
    lemma_display_horizontal_range_in_bits,
    lemma_display_mode_in_bits,
    lemma_display_vertical_range_in_bits,
    lemma_display_vram_start_in_bits,
    lemma_dma_direction_in_bits,
    lemma_draw_mode_in_bits,
    lemma_drawing_area_bottom_right_in_bits,
    lemma_drawing_area_top_left_in_bits,
    lemma_mask_bit_setting_in_bits,
    lemma_texture_window_in_bits,
    DisplayDepth,
    DmaDirection,
    HorizontalRes,
    RegisterState,
    TextureDepth,
    VMode,
    VerticalRes,
};
use crate::gpu::renderer::{RenderCommand, Renderer, Vertex};

verus! {

/// Everything the unit keeps between two writes, apart from its backend.
#[derive(Clone, Copy)]
struct Core {
    /// The configuration registers.
    regs: RegisterState,
    /// Buffer containing the current GP0 command.
    gp0_command: CommandBuffer,
    /// Remaining number of words to fetch for the current GP0 command.
    gp0_words_remaining: u32,
    /// The current GP0 command, to run once its words are in.
    gp0_command_method: Gp0Command,
    /// Current mode of the GP0 register.
    gp0_mode: Gp0Mode,
}

impl Core {
    /// The state that the ports keep, with the calls made so far.
    spec fn model(self, calls: Seq<RenderCommand>) -> GpuView {
        GpuView {
            regs: self.regs,
            words: self.gp0_command@,
            words_remaining: self.gp0_words_remaining,
            pending: self.gp0_command_method,
            mode: self.gp0_mode,
            calls,
        }
    }

    /// The invariant of the unit: see [`GpuView::wf`]. It holds from
    /// construction on, and every write keeps it.
    #[verifier::type_invariant]
    spec fn inv(self) -> bool {
        self.model(Seq::empty()).wf()
    }
}

/// The graphics unit's command processor, driving the backend `R`.
///
/// Its view is a [`GpuView`]: the registers, what the GP0 port has in
/// flight, and the calls that the backend has received. The contracts of
/// the two ports say how a write changes that view.
pub struct Gpu<R: Renderer> {
    /// The rendering backend.
    renderer: R,
    /// The registers and the state of the GP0 port.
    core: Core,
}

impl<R: Renderer> View for Gpu<R> {
    type V = GpuView;

    closed spec fn view(&self) -> GpuView {
        self.core.model(self.renderer.received())
    }
}

/// Tells whether [`Gpu::gp1`] supports a write of `val`, and if not, why not.
pub fn check_gp1(val: u32) -> (r: Result<(), Unsupported>)
    ensures
        r is Ok <==> accepts_gp1(val),
        match r {
            Ok(()) => gp1_fault(val) is None,
            Err(fault) => gp1_fault(val) == Some(fault),
        },
{
    let opcode = opcode(val);
    if opcode > 8 {
        Err(Unsupported::Gp1Command { word: val })
    } else if opcode == 8 && test_bit(val, 7) {
        Err(Unsupported::DisplayMode { word: val })
    } else {
        Ok(())
    }
}

impl<R: Renderer> Gpu<R> {
    /// The rendering backend as it is now.
    pub closed spec fn backend(&self) -> R {
        self.renderer
    }

    /// A unit at power-on, which has asked nothing of `renderer` yet.
    pub fn new(renderer: R) -> (gpu: Gpu<R>)
        ensures
            gpu@ == GpuView::power_on(renderer.received()),
            gpu.backend() == renderer,
    {
        Gpu {
            renderer,
            core: Core {
                regs: RegisterState::new(),
                gp0_command: CommandBuffer::new(),
                gp0_words_remaining: 0,
                gp0_command_method: Gp0Command::Nop,
                gp0_mode: Gp0Mode::Command,
            },
        }
    }

    /// The rendering backend.
    pub fn renderer(&self) -> (renderer: &R)
        ensures
            *renderer == self.backend(),
            renderer.received() == self@.calls,
    {
        &self.renderer
    }

    /// The configuration registers. The state of a unit is well-formed at
    /// all times, so their fields are within their widths.
    pub fn registers(&self) -> (regs: &RegisterState)
        ensures
            *regs == self@.regs,
            self@.wf(),
    {
        proof {
            use_type_invariant(&self.core);
        }
        &self.core.regs
    }

    /// What GP0 takes its next word for.
    pub fn gp0_mode(&self) -> (mode: Gp0Mode)
        ensures
            mode == self@.mode,
    {
        self.core.gp0_mode
    }

    /// How many words the command or image transfer in flight still lacks.
    pub fn gp0_words_remaining(&self) -> (n: u32)
        ensures
            n == self@.words_remaining,
    {
        self.core.gp0_words_remaining
    }

    /// Retrieves the value of the status register.
    pub fn status(&self) -> (r: u32)
        ensures
            r == self@.regs.status_word(),
            self@.regs.reported_by(r),
    {
        proof {
            use_type_invariant(&self.core);
        }
        self.core.regs.status()
    }

    /// Retrieves the value of the read register. Nothing is ever sent back
    /// from VRAM here, so the value is always 0.
    pub fn read(&self) -> (r: u32)
        ensures
            r == 0,
    {
        0
    }

    /// Tells whether [`Gpu::gp0`] supports a write of `val` in the current
    /// state, and if not, why not.
    pub fn check_gp0(&self, val: u32) -> (r: Result<(), Unsupported>)
        ensures
            r is Ok <==> self@.accepts_gp0(val),
            match r {
                Ok(()) => self@.gp0_fault(val) is None,
                Err(fault) => self@.gp0_fault(val) == Some(fault),
            },
    {
        if self.core.gp0_words_remaining != 0 {
            return Ok(());
        }
        match Gp0Command::from_opcode(opcode(val)) {
            None => Err(Unsupported::Gp0Command { word: val }),
            Some(Gp0Command::DrawMode) => {
                let code = extract(val, 7, 2);
                match (self.core.gp0_mode, TextureDepth::from_bits(code)) {
                    (Gp0Mode::Command, None) => Err(Unsupported::TextureDepth { code }),
                    _ => Ok(()),
                }
            },
            Some(_) => Ok(()),
        }
    }

    /// Handles writes to the GP0 command register.
    ///
    /// The word starts a command, joins the one in flight, or is counted as
    /// pixel data; a command runs when its last word is in. A write that
    /// [`Gpu::check_gp0`] refuses is ruled out. What is returned is what the
    /// command that ran declined to carry out, if anything.
    pub fn gp0(&mut self, val: u32) -> (report: Option<Diagnostic>)
        requires
            old(self)@.accepts_gp0(val),
        ensures
            final(self)@ == old(self)@.gp0(val),
            report == old(self)@.gp0_report(val),
    {
        proof {
            use_type_invariant(&self.core);
        }
        let mut command = self.core.gp0_command;
        let mut words_remaining = self.core.gp0_words_remaining;
        let mut method = self.core.gp0_command_method;
        if words_remaining == 0 {
            // We start a new GP0 command.
            method = Gp0Command::from_opcode(opcode(val)).unwrap();
            words_remaining = method.word_count();
            command.clear();
        }
        words_remaining -= 1;

        match self.core.gp0_mode {
            Gp0Mode::Command => {
                command.push_word(val);
                self.core = Core {
                    gp0_command: command,
                    gp0_words_remaining: words_remaining,
                    gp0_command_method: method,
                    ..self.core
                };
                if words_remaining == 0 {
                    // We have all the parameters, we can run the command.
                    return self.gp0_dispatch();
                }
            },
            Gp0Mode::ImageLoad => {
                // The word is pixel data, which is counted and dropped. With
                // the last one the load is done: back to command mode.
                let mode = if words_remaining == 0 {
                    Gp0Mode::Command
                } else {
                    Gp0Mode::ImageLoad
                };
                self.core = Core {
                    gp0_command: command,
                    gp0_words_remaining: words_remaining,
                    gp0_command_method: method,
                    gp0_mode: mode,
                    ..self.core
                };
            },
        }
        None
    }

    /// Whether the words held are a complete command that can run.
    spec fn ready(&self) -> bool {
        &&& self@.idle()
        &&& self@.mode == Gp0Mode::Command
        &&& self@.words.len() == self@.pending.words()
        &&& self@.pending == Gp0Command::DrawMode ==> TextureDepth::of_code(
            self@.words[0] / 0x80 % 4,
        ) is Some
    }

    /// Runs the handler of the command whose words are in. Each handler is
    /// also there to be called on its own: it then takes the words held for
    /// the words of its command.
    fn gp0_dispatch(&mut self) -> (report: Option<Diagnostic>)
        requires
            old(self).ready(),
        ensures
            final(self)@ == old(self)@.run(old(self)@.pending),
            report == old(self)@.report(old(self)@.pending),
    {
        match self.core.gp0_command_method {
            Gp0Command::Nop => self.gp0_nop(),
            Gp0Command::ClearCache => self.gp0_clear_cache(),
            Gp0Command::QuadMonoOpaque => self.gp0_quad_mono_opaque(),
            Gp0Command::QuadTextureBlendOpaque => self.gp0_quad_texture_blend_opaque(),
            Gp0Command::TriangleShadedOpaque => self.gp0_triangle_shaded_opaque(),
            Gp0Command::QuadShadedOpaque => self.gp0_quad_shaded_opaque(),
            Gp0Command::ImageLoad => self.gp0_image_load(),
            Gp0Command::ImageStore => {
                return Some(self.gp0_image_store());
            },
            Gp0Command::DrawMode => self.gp0_draw_mode(),
            Gp0Command::TextureWindow => self.gp0_texture_window(),
            Gp0Command::DrawingAreaTopLeft => self.gp0_drawing_area_top_left(),
            Gp0Command::DrawingAreaBottomRight => self.gp0_drawing_area_bottom_right(),
            Gp0Command::DrawingOffset => self.gp0_drawing_offset(),
            Gp0Command::MaskBitSetting => self.gp0_mask_bit_setting(),
        }
        None
    }

    /// GP0(0x00): No Operation.
    pub fn gp0_nop(&mut self)
        ensures
            *final(self) == *old(self),
    {
    }

    /// GP0(0x01): Clear Cache. There is no cache to clear.
    pub fn gp0_clear_cache(&mut self)
        ensures
            *final(self) == *old(self),
    {
    }

    /// GP0(0x28): Monochrome Opaque Quadrilateral.
    pub fn gp0_quad_mono_opaque(&mut self)
        requires
            old(self)@.words.len() == 5,
        ensures
            final(self)@ == old(self)@.run(Gp0Command::QuadMonoOpaque),
    {
        // Only one color, repeated 4 times.
        let color = color_from_gp0(*self.core.gp0_command.index(0));
        let vertices = [
            Vertex::new(position_from_gp0(*self.core.gp0_command.index(1)), color),
            Vertex::new(position_from_gp0(*self.core.gp0_command.index(2)), color),
            Vertex::new(position_from_gp0(*self.core.gp0_command.index(3)), color),
            Vertex::new(position_from_gp0(*self.core.gp0_command.index(4)), color),
        ];
        self.renderer.push_quad(&vertices);
    }

    /// GP0(0x2C): Textured Opaque Quadrilateral.
    pub fn gp0_quad_texture_blend_opaque(&mut self)
        requires
            old(self)@.words.len() == 9,
        ensures
            final(self)@ == old(self)@.run(Gp0Command::QuadTextureBlendOpaque),
    {
        // Textures are not supported: a solid red stands in for them.
        let color: [u8; 3] = [0x80, 0x00, 0x00];
        let vertices = [
            Vertex::new(position_from_gp0(*self.core.gp0_command.index(1)), color),
            Vertex::new(position_from_gp0(*self.core.gp0_command.index(3)), color),
            Vertex::new(position_from_gp0(*self.core.gp0_command.index(5)), color),
            Vertex::new(position_from_gp0(*self.core.gp0_command.index(7)), color),
        ];
        self.renderer.push_quad(&vertices);
    }

    /// GP0(0x30): Shaded Opaque Triangle.
    pub fn gp0_triangle_shaded_opaque(&mut self)
        requires
            old(self)@.words.len() == 6,
        ensures
            final(self)@ == old(self)@.run(Gp0Command::TriangleShadedOpaque),
    {
        let vertices = [
            Vertex::new(
                position_from_gp0(*self.core.gp0_command.index(1)),
                color_from_gp0(*self.core.gp0_command.index(0)),
            ),
            Vertex::new(
                position_from_gp0(*self.core.gp0_command.index(3)),
                color_from_gp0(*self.core.gp0_command.index(2)),
            ),
            Vertex::new(
                position_from_gp0(*self.core.gp0_command.index(5)),
                color_from_gp0(*self.core.gp0_command.index(4)),
            ),
        ];
        self.renderer.push_triangle(&vertices);
    }

    /// GP0(0x38): Shaded Opaque Quadrilateral.
    pub fn gp0_quad_shaded_opaque(&mut self)
        requires
            old(self)@.words.len() == 8,
        ensures
            final(self)@ == old(self)@.run(Gp0Command::QuadShadedOpaque),
    {
        let vertices = [
            Vertex::new(
                position_from_gp0(*self.core.gp0_command.index(1)),
                color_from_gp0(*self.core.gp0_command.index(0)),
            ),
            Vertex::new(
                position_from_gp0(*self.core.gp0_command.index(3)),
                color_from_gp0(*self.core.gp0_command.index(2)),
            ),
            Vertex::new(
                position_from_gp0(*self.core.gp0_command.index(5)),
                color_from_gp0(*self.core.gp0_command.index(4)),
            ),
            Vertex::new(
                position_from_gp0(*self.core.gp0_command.index(7)),
                color_from_gp0(*self.core.gp0_command.index(6)),
            ),
        ];
        self.renderer.push_quad(&vertices);
    }

    /// GP0(0xA0): Image Load.
    pub fn gp0_image_load(&mut self)
        requires
            old(self)@.words.len() == 3,
        ensures
            final(self)@ == old(self)@.run(Gp0Command::ImageLoad),
    {
        proof {
            use_type_invariant(&self.core);
        }
        // Parameter 2 contains the image resolution.
        let res = *self.core.gp0_command.index(2);
        let (width, height) = image_size_from_gp0(res);
        self.core = Core {
            // Store the number of words expected for this image.
            gp0_words_remaining: image_word_count(width, height),
            // Put the GP0 state machine in image load mode.
            gp0_mode: Gp0Mode::ImageLoad,
            ..self.core
        };
    }

    /// GP0(0xC0): Image Store. The command is taken and nothing is stored;
    /// the size asked for is handed back to be reported.
    pub fn gp0_image_store(&mut self) -> (report: Diagnostic)
        requires
            old(self)@.words.len() == 3,
        ensures
            *final(self) == *old(self),
            Some(report) == old(self)@.report(Gp0Command::ImageStore),
    {
        // Parameter 2 contains the image resolution.
        let res = *self.core.gp0_command.index(2);
        let (width, height) = image_size_from_gp0(res);
        Diagnostic::UnhandledImageStore { width: width as u32, height: height as u32 }
    }

    /// GP0(0xE1): Draw Mode.
    pub fn gp0_draw_mode(&mut self)
        requires
            old(self)@.words.len() == 1,
            // The texture depth is not the code 3: said of the quotient, or
            // of the bits, whichever the caller has at hand.
            TextureDepth::of_code(old(self)@.words[0] / 0x80 % 4) is Some || (old(self)@.words[0]
                >> 7) & 3 != 3,
        ensures
            final(self)@ == old(self)@.run(Gp0Command::DrawMode),
            final(self)@.regs.holds_draw_mode(old(self)@.words[0]),
    {
        proof {
            use_type_invariant(&self.core);
            let word = self.core.gp0_command@[0];
            assert(word / 0x80 % 4 == (word >> 7) & 3) by (bit_vector);
            lemma_draw_mode_in_bits(self.core.regs, word);
        }
        let val = *self.core.gp0_command.index(0);

        let regs = RegisterState {
            page_base_x: extract(val, 0, 4) as u8,
            page_base_y: extract(val, 4, 1) as u8,
            semi_transparency: extract(val, 5, 2) as u8,
            texture_depth: TextureDepth::from_bits(extract(val, 7, 2)).unwrap(),
            dithering: test_bit(val, 9),
            draw_to_display: test_bit(val, 10),
            texture_disable: test_bit(val, 11),
            rectangle_texture_x_flip: test_bit(val, 12),
            rectangle_texture_y_flip: test_bit(val, 13),
            ..self.core.regs
        };
        self.core = Core { regs, ..self.core };
    }

    /// GP0(0xE2): Set Texture Window.
    pub fn gp0_texture_window(&mut self)
        requires
            old(self)@.words.len() == 1,
        ensures
            final(self)@ == old(self)@.run(Gp0Command::TextureWindow),
            final(self)@.regs.holds_texture_window(old(self)@.words[0]),
            final(self)@.regs.status_word() == old(self)@.regs.status_word(),
    {
        proof {
            use_type_invariant(&self.core);
            lemma_texture_window_in_bits(self.core.regs, self.core.gp0_command@[0]);
        }
        let val = *self.core.gp0_command.index(0);

        let regs = RegisterState {
            texture_window_x_mask: extract(val, 0, 5) as u8,
            texture_window_y_mask: extract(val, 5, 5) as u8,
            texture_window_x_offset: extract(val, 10, 5) as u8,
            texture_window_y_offset: extract(val, 15, 5) as u8,
            ..self.core.regs
        };
        self.core = Core { regs, ..self.core };
    }

    /// GP0(0xE3): Set Drawing Area top left.
    pub fn gp0_drawing_area_top_left(&mut self)
        requires
            old(self)@.words.len() == 1,
        ensures
            final(self)@ == old(self)@.run(Gp0Command::DrawingAreaTopLeft),
            final(self)@.regs.holds_drawing_area_top_left(old(self)@.words[0]),
            final(self)@.regs.status_word() == old(self)@.regs.status_word(),
    {
        proof {
            use_type_invariant(&self.core);
            lemma_drawing_area_top_left_in_bits(self.core.regs, self.core.gp0_command@[0]);
        }
        let val = *self.core.gp0_command.index(0);

        let regs = RegisterState {
            drawing_area_top: extract(val, 10, 10) as u16,
            drawing_area_left: extract(val, 0, 10) as u16,
            ..self.core.regs
        };
        self.core = Core { regs, ..self.core };
    }

    /// GP0(0xE4): Set Drawing Area bottom right.
    pub fn gp0_drawing_area_bottom_right(&mut self)
        requires
            old(self)@.words.len() == 1,
        ensures
            final(self)@ == old(self)@.run(Gp0Command::DrawingAreaBottomRight),
            final(self)@.regs.holds_drawing_area_bottom_right(old(self)@.words[0]),
            final(self)@.regs.status_word() == old(self)@.regs.status_word(),
    {
        proof {
            use_type_invariant(&self.core);
            lemma_drawing_area_bottom_right_in_bits(self.core.regs, self.core.gp0_command@[0]);
        }
        let val = *self.core.gp0_command.index(0);

        let regs = RegisterState {
            drawing_area_bottom: extract(val, 10, 10) as u16,
            drawing_area_right: extract(val, 0, 10) as u16,
            ..self.core.regs
        };
        self.core = Core { regs, ..self.core };
    }

    /// GP0(0xE5): Set Drawing Offset.
    pub fn gp0_drawing_offset(&mut self)
        requires
            old(self)@.words.len() == 1,
        ensures
            final(self)@ == old(self)@.run(Gp0Command::DrawingOffset),
    {
        let val = *self.core.gp0_command.index(0);
        let (x, y) = drawing_offset_from_gp0(val);

        self.renderer.set_draw_offset(x, y);
        // There are no proper timings: a change of offset forces a display.
        self.renderer.display();
    }

    /// GP0(0xE6): Set Mask Bit Setting.
    pub fn gp0_mask_bit_setting(&mut self)
        requires
            old(self)@.words.len() == 1,
        ensures
            final(self)@ == old(self)@.run(Gp0Command::MaskBitSetting),
            final(self)@.regs.holds_mask_bit_setting(old(self)@.words[0]),
    {
        proof {
            use_type_invariant(&self.core);
            lemma_mask_bit_setting_in_bits(self.core.regs, self.core.gp0_command@[0]);
        }
        let val = *self.core.gp0_command.index(0);

        let regs = RegisterState {
            force_set_mask_bit: test_bit(val, 0),
            preserve_masked_pixels: test_bit(val, 1),
            ..self.core.regs
        };
        self.core = Core { regs, ..self.core };
    }

    /// Handles writes to the GP1 command register.
    ///
    /// Every command is one word and takes effect at once. A write that
    /// [`check_gp1`] refuses is ruled out.
    pub fn gp1(&mut self, val: u32)
        requires
            accepts_gp1(val),
        ensures
            final(self)@ == old(self)@.gp1(val),
    {
        match opcode(val) {
            0x00 => self.gp1_reset(val),
            0x01 => self.gp1_reset_command_buffer(),
            0x02 => self.gp1_acknowledge_irq(),
            0x03 => self.gp1_display_enable(val),
            0x04 => self.gp1_dma_direction(val),
            0x05 => self.gp1_display_vram_start(val),
            0x06 => self.gp1_display_horizontal_range(val),
            0x07 => self.gp1_display_vertical_range(val),
            _ => self.gp1_display_mode(val),
        }
    }

    /// GP1(0x00): Soft Reset.
    pub fn gp1_reset(&mut self, _val: u32)
        ensures
            final(self)@ == old(self)@.soft_reset(),
    {
        proof {
            use_type_invariant(&self.core);
        }
        let regs = RegisterState {
            page_base_x: 0,
            page_base_y: 0,
            semi_transparency: 0,
            texture_depth: TextureDepth::T4Bit,
            texture_window_x_mask: 0,
            texture_window_y_mask: 0,
            texture_window_x_offset: 0,
            texture_window_y_offset: 0,
            dithering: false,
            draw_to_display: false,
            texture_disable: false,
            rectangle_texture_x_flip: false,
            rectangle_texture_y_flip: false,
            drawing_area_left: 0,
            drawing_area_top: 0,
            drawing_area_right: 0,
            drawing_area_bottom: 0,
            force_set_mask_bit: false,
            preserve_masked_pixels: false,
            dma_direction: DmaDirection::Off,
            display_disabled: true,
            display_vram_x_start: 0,
            display_vram_y_start: 0,
            hres: HorizontalRes::from_fields(0, 0),
            vres: VerticalRes::Y240Lines,
            vmode: VMode::Ntsc,
            interlaced: true,
            display_horiz_start: 0x200,
            display_horiz_end: 0xc00,
            display_line_start: 0x10,
            display_line_end: 0x100,
            display_depth: DisplayDepth::D15Bits,
            ..self.core.regs
        };
        self.core = Core { regs, ..self.core };

        self.renderer.set_draw_offset(0, 0);

        self.gp1_reset_command_buffer();
        self.gp1_acknowledge_irq();
    }

    /// GP1(0x01): Reset Command Buffer.
    pub fn gp1_reset_command_buffer(&mut self)
        ensures
            final(self)@ == old(self)@.reset_command_buffer(),
    {
        proof {
            use_type_invariant(&self.core);
        }
        let mut command = self.core.gp0_command;
        command.clear();
        self.core = Core {
            gp0_command: command,
            gp0_words_remaining: 0,
            gp0_mode: Gp0Mode::Command,
            ..self.core
        };
    }

    /// GP1(0x02): Acknowledge Interrupt.
    pub fn gp1_acknowledge_irq(&mut self)
        ensures
            final(self)@ == old(self)@.with_regs(old(self)@.regs.acknowledge_irq()),
    {
        proof {
            use_type_invariant(&self.core);
        }
        let regs = RegisterState {
            interrupt: false,
            ..self.core.regs
        };
        self.core = Core { regs, ..self.core };
    }

    /// GP1(0x03): Display Enable.
    pub fn gp1_display_enable(&mut self, val: u32)
        ensures
            final(self)@ == old(self)@.with_regs(old(self)@.regs.display_enable(val)),
            final(self)@.regs.holds_display_enable(val),
    {
        proof {
            use_type_invariant(&self.core);
            lemma_display_enable_in_bits(self.core.regs, val);
        }
        let regs = RegisterState {
            display_disabled: test_bit(val, 0),
            ..self.core.regs
        };
        self.core = Core { regs, ..self.core };
    }

    /// GP1(0x04): DMA Direction.
    pub fn gp1_dma_direction(&mut self, val: u32)
        ensures
            final(self)@ == old(self)@.with_regs(old(self)@.regs.dma_direction(val)),
            final(self)@.regs.holds_dma_direction(val),
    {
        proof {
            use_type_invariant(&self.core);
            lemma_dma_direction_in_bits(self.core.regs, val);
        }
        let regs = RegisterState {
            dma_direction: DmaDirection::from_bits(val),
            ..self.core.regs
        };
        self.core = Core { regs, ..self.core };
    }

    /// GP1(0x05): Display VRAM Start.
    pub fn gp1_display_vram_start(&mut self, val: u32)
        ensures
            final(self)@ == old(self)@.with_regs(old(self)@.regs.display_vram_start(val)),
            final(self)@.regs.holds_display_vram_start(val),
            final(self)@.regs.status_word() == old(self)@.regs.status_word(),
    {
        proof {
            use_type_invariant(&self.core);
            lemma_display_vram_start_in_bits(self.core.regs, val);
        }
        let column = val & 0x3fe;
        assert(column == val % 0x400 - val % 2) by (bit_vector)
            requires
                column == val & 0x3fe,
        ;
        let regs = RegisterState {
            display_vram_x_start: column as u16,
            display_vram_y_start: extract(val, 10, 9) as u16,
            ..self.core.regs
        };
        self.core = Core { regs, ..self.core };
    }

    /// GP1(0x06): Display Horizontal Range.
    pub fn gp1_display_horizontal_range(&mut self, val: u32)
        ensures
            final(self)@ == old(self)@.with_regs(old(self)@.regs.display_horizontal_range(val)),
            final(self)@.regs.holds_display_horizontal_range(val),
            final(self)@.regs.status_word() == old(self)@.regs.status_word(),
    {
        proof {
            use_type_invariant(&self.core);
            lemma_display_horizontal_range_in_bits(self.core.regs, val);
        }
        let regs = RegisterState {
            display_horiz_start: extract(val, 0, 12) as u16,
            display_horiz_end: extract(val, 12, 12) as u16,
            ..self.core.regs
        };
        self.core = Core { regs, ..self.core };
    }

    /// GP1(0x07): Display Vertical Range.
    pub fn gp1_display_vertical_range(&mut self, val: u32)
        ensures
            final(self)@ == old(self)@.with_regs(old(self)@.regs.display_vertical_range(val)),
            final(self)@.regs.holds_display_vertical_range(val),
            final(self)@.regs.status_word() == old(self)@.regs.status_word(),
    {
        proof {
            use_type_invariant(&self.core);
            lemma_display_vertical_range_in_bits(self.core.regs, val);
        }
        let regs = RegisterState {
            display_line_start: extract(val, 0, 10) as u16,
            display_line_end: extract(val, 10, 10) as u16,
            ..self.core.regs
        };
        self.core = Core { regs, ..self.core };
    }

    /// GP1(0x08): Display Mode. A word with bit 7 set selects a mode that is
    /// not supported.
    pub fn gp1_display_mode(&mut self, val: u32)
        requires
            // Bit 7 is clear: said of the quotient, or of the bits.
            !bit(val, 0x80) || val & 0x80 == 0,
        ensures
            final(self)@ == old(self)@.with_regs(old(self)@.regs.display_mode(val)),
            final(self)@.regs.holds_display_mode(val),
    {
        proof {
            use_type_invariant(&self.core);
            assert((val / 0x80 % 2 == 1) == (val & 0x80 != 0)) by (bit_vector);
            lemma_display_mode_in_bits(self.core.regs, val);
        }
        let hr1 = extract(val, 0, 2) as u8;
        let hr2 = extract(val, 6, 1) as u8;

        let regs = RegisterState {
            hres: HorizontalRes::from_fields(hr1, hr2),
            vres: VerticalRes::from_flag(test_bit(val, 2)),
            vmode: VMode::from_flag(test_bit(val, 3)),
            display_depth: DisplayDepth::from_flag(test_bit(val, 4)),
            interlaced: test_bit(val, 5),
            ..self.core.regs
        };
        self.core = Core { regs, ..self.core };
    }
}

} // verus!
