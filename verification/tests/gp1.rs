use rustation::gpu::gp0::Gp0Mode;
use rustation::gpu::model::Unsupported;
use rustation::gpu::registers::{
    DisplayDepth, DmaDirection, Field, HorizontalRes, RegisterState, TextureDepth, VMode,
    VerticalRes,
};
use rustation::gpu::renderer::{Recorder, RenderCommand};
use rustation::gpu::{check_gp1, Gpu};

fn unit() -> Gpu<Recorder> {
    Gpu::new(Recorder::new())
}

fn power_on() -> RegisterState {
    RegisterState {
        page_base_x: 0,
        page_base_y: 0,
        rectangle_texture_x_flip: false,
        rectangle_texture_y_flip: false,
        semi_transparency: 0,
        texture_depth: TextureDepth::T4Bit,
        texture_window_x_mask: 0,
        texture_window_y_mask: 0,
        texture_window_x_offset: 0,
        texture_window_y_offset: 0,
        dithering: false,
        draw_to_display: false,
        force_set_mask_bit: false,
        preserve_masked_pixels: false,
        drawing_area_left: 0,
        drawing_area_top: 0,
        drawing_area_right: 0,
        drawing_area_bottom: 0,
        field: Field::Top,
        texture_disable: false,
        hres: HorizontalRes(0),
        vres: VerticalRes::Y240Lines,
        vmode: VMode::Ntsc,
        display_depth: DisplayDepth::D15Bits,
        interlaced: false,
        display_disabled: true,
        display_vram_x_start: 0,
        display_vram_y_start: 0,
        display_horiz_start: 0x200,
        display_horiz_end: 0xc00,
        display_line_start: 0x10,
        display_line_end: 0x100,
        interrupt: false,
        dma_direction: DmaDirection::Off,
    }
}

/// Writes a word to GP1 after checking that it is supported.
fn gp1(gpu: &mut Gpu<Recorder>, val: u32) {
    assert_eq!(check_gp1(val), Ok(()));
    gpu.gp1(val);
}

/// Puts a value that is not its reset value into every register that the
/// two ports can write.
fn scramble(gpu: &mut Gpu<Recorder>) {
    gpu.gp0(0xe100_3f7f);
    gpu.gp0(0xe20f_ffff);
    gpu.gp0(0xe30f_ffff);
    gpu.gp0(0xe40f_ffff);
    gpu.gp0(0xe600_0003);
    gp1(gpu, 0x0300_0000);
    gp1(gpu, 0x0400_0003);
    gp1(gpu, 0x0507_ffff);
    gp1(gpu, 0x0600_0001);
    gp1(gpu, 0x0700_0001);
    gp1(gpu, 0x0800_004f);
}

#[test]
fn a_new_unit_holds_the_power_on_values() {
    let gpu = unit();
    assert_eq!(*gpu.registers(), power_on());
    assert_eq!(RegisterState::new(), power_on());
    assert_eq!(gpu.gp0_mode(), Gp0Mode::Command);
    assert_eq!(gpu.gp0_words_remaining(), 0);
    assert!(gpu.renderer().calls().is_empty());
}

#[test]
fn gp1_has_nine_commands() {
    for opcode in 0..=0xffu32 {
        let word = opcode << 24;
        if opcode <= 8 {
            assert_eq!(check_gp1(word), Ok(()));
            assert_eq!(check_gp1(word | 0x00ff_ff7f), Ok(()));
        } else {
            assert_eq!(check_gp1(word), Err(Unsupported::Gp1Command { word }));
        }
    }
}

#[test]
fn display_mode_with_bit_seven_is_not_supported() {
    assert_eq!(check_gp1(0x0800_0080), Err(Unsupported::DisplayMode { word: 0x0800_0080 }));
    assert_eq!(check_gp1(0x08ff_ffff), Err(Unsupported::DisplayMode { word: 0x08ff_ffff }));
    assert_eq!(check_gp1(0x0800_007f), Ok(()));
    // Bit 7 means nothing to the other commands.
    assert_eq!(check_gp1(0x0300_0080), Ok(()));
    assert_eq!(check_gp1(0x0000_0080), Ok(()));
}

#[test]
fn soft_reset_restores_every_register() {
    let mut gpu = unit();
    scramble(&mut gpu);
    assert_ne!(*gpu.registers(), power_on());
    gp1(&mut gpu, 0x0000_0000);
    let mut expected = power_on();
    expected.interlaced = true;
    assert_eq!(*gpu.registers(), expected);
}

#[test]
fn soft_reset_changes_each_scrambled_field() {
    let mut gpu = unit();
    scramble(&mut gpu);
    let before = *gpu.registers();
    assert_eq!(before.page_base_x, 0xf);
    assert_eq!(before.texture_depth, TextureDepth::T15Bit);
    assert_eq!(before.texture_window_y_offset, 0x1f);
    assert_eq!(before.drawing_area_bottom, 0x3ff);
    assert!(before.preserve_masked_pixels);
    assert!(!before.display_disabled);
    assert_eq!(before.dma_direction, DmaDirection::VRamToCpu);
    assert_eq!(before.display_vram_x_start, 0x3fe);
    assert_eq!(before.display_vram_y_start, 0x1ff);
    assert_eq!(before.display_horiz_start, 1);
    assert_eq!(before.display_horiz_end, 0);
    assert_eq!(before.display_line_start, 1);
    assert_eq!(before.display_line_end, 0);
    assert_eq!(before.hres, HorizontalRes(7));
    assert_eq!(before.vres, VerticalRes::Y480Lines);
    assert_eq!(before.vmode, VMode::Pal);
    assert_eq!(before.display_depth, DisplayDepth::D24Bits);
    gp1(&mut gpu, 0x00ff_ffff);
    let after = gpu.registers();
    assert_eq!(after.page_base_x, 0);
    assert_eq!(after.texture_depth, TextureDepth::T4Bit);
    assert_eq!(after.texture_window_y_offset, 0);
    assert_eq!(after.drawing_area_bottom, 0);
    assert!(!after.preserve_masked_pixels);
    assert!(after.display_disabled);
    assert_eq!(after.dma_direction, DmaDirection::Off);
    assert_eq!(after.display_vram_x_start, 0);
    assert_eq!(after.display_vram_y_start, 0);
    assert_eq!(after.display_horiz_start, 0x200);
    assert_eq!(after.display_horiz_end, 0xc00);
    assert_eq!(after.display_line_start, 0x10);
    assert_eq!(after.display_line_end, 0x100);
    assert_eq!(after.hres, HorizontalRes(0));
    assert_eq!(after.vres, VerticalRes::Y240Lines);
    assert_eq!(after.vmode, VMode::Ntsc);
    assert_eq!(after.display_depth, DisplayDepth::D15Bits);
    assert!(after.interlaced);
    assert!(!after.interrupt);
}

#[test]
fn soft_reset_sets_the_drawing_offset_to_the_origin() {
    let mut gpu = unit();
    gpu.gp0(0xe500_0000 | 0x123 | 0x45 << 11);
    gp1(&mut gpu, 0x0000_0000);
    assert_eq!(
        *gpu.renderer().calls(),
        vec![
            RenderCommand::DrawOffset { x: 0x123, y: 0x45 },
            RenderCommand::Display,
            RenderCommand::DrawOffset { x: 0, y: 0 },
        ]
    );
}

#[test]
fn soft_reset_drops_a_command_in_flight() {
    let mut gpu = unit();
    gpu.gp0(0x28ff_0000);
    gpu.gp0(0);
    assert_eq!(gpu.gp0_words_remaining(), 3);
    gp1(&mut gpu, 0x0000_0000);
    assert_eq!(gpu.gp0_words_remaining(), 0);
    assert_eq!(gpu.gp0_mode(), Gp0Mode::Command);
    // The next word starts a command of its own.
    assert!(gpu.check_gp0(0xff00_0000).is_err());
    gpu.gp0(0xe600_0001);
    assert!(gpu.registers().force_set_mask_bit);
    assert_eq!(*gpu.renderer().calls(), vec![RenderCommand::DrawOffset { x: 0, y: 0 }]);
}

#[test]
fn soft_reset_drops_an_image_load_in_flight() {
    let mut gpu = unit();
    gpu.gp0(0xa000_0000);
    gpu.gp0(0);
    gpu.gp0(0x0010_0010);
    gpu.gp0(0);
    assert_eq!(gpu.gp0_mode(), Gp0Mode::ImageLoad);
    assert_eq!(gpu.gp0_words_remaining(), 127);
    gp1(&mut gpu, 0x0000_0000);
    assert_eq!(gpu.gp0_mode(), Gp0Mode::Command);
    assert_eq!(gpu.gp0_words_remaining(), 0);
}

#[test]
fn reset_command_buffer_drops_a_command_in_flight() {
    let mut gpu = unit();
    scramble(&mut gpu);
    let before = *gpu.registers();
    gpu.gp0(0x3800_0000);
    gpu.gp0(1);
    gpu.gp0(2);
    assert_eq!(gpu.gp0_words_remaining(), 5);
    gp1(&mut gpu, 0x0100_0000);
    assert_eq!(gpu.gp0_words_remaining(), 0);
    assert_eq!(gpu.gp0_mode(), Gp0Mode::Command);
    assert_eq!(*gpu.registers(), before);
    assert!(gpu.renderer().calls().is_empty());
    // A whole command is needed again before anything is drawn.
    for word in [0x3000_0000, 0, 0, 0, 0] {
        gpu.gp0(word);
        assert!(gpu.renderer().calls().is_empty());
    }
    gpu.gp0(0);
    assert_eq!(gpu.renderer().calls().len(), 1);
}

#[test]
fn reset_command_buffer_drops_an_image_load_in_flight() {
    let mut gpu = unit();
    gpu.gp0(0xa000_0000);
    gpu.gp0(0);
    gpu.gp0(0x0002_0002);
    assert_eq!(gpu.gp0_mode(), Gp0Mode::ImageLoad);
    assert_eq!(gpu.gp0_words_remaining(), 2);
    gp1(&mut gpu, 0x01ff_ffff);
    assert_eq!(gpu.gp0_mode(), Gp0Mode::Command);
    assert_eq!(gpu.gp0_words_remaining(), 0);
    assert!(gpu.check_gp0(0xff00_0000).is_err());
}

#[test]
fn acknowledge_irq_leaves_the_flag_clear() {
    let mut gpu = unit();
    scramble(&mut gpu);
    let before = *gpu.registers();
    gp1(&mut gpu, 0x0200_0000);
    assert!(!gpu.registers().interrupt);
    assert_eq!(*gpu.registers(), before);
}

#[test]
fn display_enable_reads_bit_zero() {
    let mut gpu = unit();
    assert!(gpu.registers().display_disabled);
    gp1(&mut gpu, 0x0300_0000);
    assert!(!gpu.registers().display_disabled);
    gp1(&mut gpu, 0x0300_0001);
    assert!(gpu.registers().display_disabled);
    gp1(&mut gpu, 0x03ff_fffe);
    assert!(!gpu.registers().display_disabled);
    let mut expected = power_on();
    expected.display_disabled = false;
    assert_eq!(*gpu.registers(), expected);
}

#[test]
fn dma_direction_reads_two_bits() {
    let mut gpu = unit();
    let directions = [
        DmaDirection::Off,
        DmaDirection::Fifo,
        DmaDirection::CpuToGp0,
        DmaDirection::VRamToCpu,
    ];
    for (code, direction) in directions.into_iter().enumerate() {
        gp1(&mut gpu, 0x0400_0000 | code as u32);
        assert_eq!(gpu.registers().dma_direction, direction);
        gp1(&mut gpu, 0x04ff_fffc | code as u32);
        assert_eq!(gpu.registers().dma_direction, direction);
        assert_eq!(DmaDirection::from_bits(code as u32), direction);
        assert_eq!(direction.bits(), code as u32);
    }
}

#[test]
fn display_vram_start_is_cut_to_an_even_column() {
    let mut gpu = unit();
    gp1(&mut gpu, 0x0500_0000 | 0x141 | 0x0f0 << 10);
    assert_eq!(gpu.registers().display_vram_x_start, 0x140);
    assert_eq!(gpu.registers().display_vram_y_start, 0x0f0);
    gp1(&mut gpu, 0x05ff_ffff);
    assert_eq!(gpu.registers().display_vram_x_start, 0x3fe);
    assert_eq!(gpu.registers().display_vram_y_start, 0x1ff);
    gp1(&mut gpu, 0x0508_0001);
    assert_eq!(gpu.registers().display_vram_x_start, 0);
    assert_eq!(gpu.registers().display_vram_y_start, 0);
}

#[test]
fn display_ranges_are_read_from_their_fields() {
    let mut gpu = unit();
    gp1(&mut gpu, 0x0600_0000 | 0x260 | 0xc60 << 12);
    assert_eq!(gpu.registers().display_horiz_start, 0x260);
    assert_eq!(gpu.registers().display_horiz_end, 0xc60);
    gp1(&mut gpu, 0x06ff_ffff);
    assert_eq!(gpu.registers().display_horiz_start, 0xfff);
    assert_eq!(gpu.registers().display_horiz_end, 0xfff);
    gp1(&mut gpu, 0x0700_0000 | 0x010 | 0x100 << 10);
    assert_eq!(gpu.registers().display_line_start, 0x010);
    assert_eq!(gpu.registers().display_line_end, 0x100);
    gp1(&mut gpu, 0x07ff_ffff);
    assert_eq!(gpu.registers().display_line_start, 0x3ff);
    assert_eq!(gpu.registers().display_line_end, 0x3ff);
    gp1(&mut gpu, 0x07f0_0000);
    assert_eq!(gpu.registers().display_line_start, 0);
    assert_eq!(gpu.registers().display_line_end, 0);
}

#[test]
fn display_mode_sets_five_fields() {
    let mut gpu = unit();
    gp1(&mut gpu, 0x0800_0000);
    let regs = gpu.registers();
    assert_eq!(regs.hres, HorizontalRes(0));
    assert_eq!(regs.vres, VerticalRes::Y240Lines);
    assert_eq!(regs.vmode, VMode::Ntsc);
    assert_eq!(regs.display_depth, DisplayDepth::D24Bits);
    assert!(!regs.interlaced);

    // hr1 = 2, 480 lines, PAL, depth flag set, interlaced, hr2 = 1.
    gp1(&mut gpu, 0x0800_0000 | 2 | 1 << 2 | 1 << 3 | 1 << 4 | 1 << 5 | 1 << 6);
    let regs = gpu.registers();
    assert_eq!(regs.hres, HorizontalRes(5));
    assert_eq!(regs.vres, VerticalRes::Y480Lines);
    assert_eq!(regs.vmode, VMode::Pal);
    assert_eq!(regs.display_depth, DisplayDepth::D15Bits);
    assert!(regs.interlaced);

    gp1(&mut gpu, 0x08ff_ff00 | 1);
    let regs = gpu.registers();
    assert_eq!(regs.hres, HorizontalRes(2));
    assert_eq!(regs.vres, VerticalRes::Y240Lines);
    assert_eq!(regs.vmode, VMode::Ntsc);
    assert_eq!(regs.display_depth, DisplayDepth::D24Bits);
    assert!(!regs.interlaced);
}

#[test]
fn gp1_commands_do_not_wait_for_gp0() {
    let mut gpu = unit();
    gpu.gp0(0x2800_0000);
    gpu.gp0(0);
    gp1(&mut gpu, 0x0400_0002);
    assert_eq!(gpu.registers().dma_direction, DmaDirection::CpuToGp0);
    assert_eq!(gpu.gp0_words_remaining(), 3);
    gpu.gp0(0);
    gpu.gp0(0);
    gpu.gp0(0);
    assert_eq!(gpu.renderer().calls().len(), 1);
}
