use rustation::gpu::registers::{
    DisplayDepth, DmaDirection, Field, HorizontalRes, RegisterState, TextureDepth, VMode,
    VerticalRes,
};
use rustation::gpu::renderer::Recorder;
use rustation::gpu::Gpu;

/// The status word at power-on: top field, display disabled, the three
/// ready bits.
const POWER_ON: u32 = 0x1c80_2000;

fn bits(word: u32, shift: u32, mask: u32) -> u32 {
    (word >> shift) & mask
}

/// Checks that `regs` reports `value` in the field at `shift`, and what the
/// power-on state reports everywhere else.
fn check_field(regs: RegisterState, shift: u32, mask: u32, value: u32) {
    let status = regs.status();
    assert_eq!(bits(status, shift, mask), value);
    assert_eq!(status & !(mask << shift), POWER_ON & !(mask << shift));
}

#[test]
fn status_at_power_on() {
    assert_eq!(RegisterState::new().status(), POWER_ON);
    assert_eq!(Gpu::new(Recorder::new()).status(), POWER_ON);
}

#[test]
fn status_with_every_field_at_its_top() {
    let regs = RegisterState {
        page_base_x: 0xf,
        page_base_y: 1,
        rectangle_texture_x_flip: true,
        rectangle_texture_y_flip: true,
        semi_transparency: 3,
        texture_depth: TextureDepth::T15Bit,
        texture_window_x_mask: 0x1f,
        texture_window_y_mask: 0x1f,
        texture_window_x_offset: 0x1f,
        texture_window_y_offset: 0x1f,
        dithering: true,
        draw_to_display: true,
        force_set_mask_bit: true,
        preserve_masked_pixels: true,
        drawing_area_left: 0x3ff,
        drawing_area_top: 0x3ff,
        drawing_area_right: 0x3ff,
        drawing_area_bottom: 0x3ff,
        field: Field::Top,
        texture_disable: true,
        hres: HorizontalRes(7),
        vres: VerticalRes::Y480Lines,
        vmode: VMode::Pal,
        display_depth: DisplayDepth::D24Bits,
        interlaced: true,
        display_disabled: true,
        display_vram_x_start: 0x3fe,
        display_vram_y_start: 0x1ff,
        display_horiz_start: 0xfff,
        display_horiz_end: 0xfff,
        display_line_start: 0x3ff,
        display_line_end: 0x3ff,
        interrupt: true,
        dma_direction: DmaDirection::VRamToCpu,
    };
    assert_eq!(regs.status(), 0x7ff7_bf7f);
}

#[test]
fn status_reports_the_texture_page() {
    for x in 0..=0xfu8 {
        let mut regs = RegisterState::new();
        regs.page_base_x = x;
        check_field(regs, 0, 0xf, x as u32);
    }
    for y in 0..=1u8 {
        let mut regs = RegisterState::new();
        regs.page_base_y = y;
        check_field(regs, 4, 1, y as u32);
    }
}

#[test]
fn status_reports_semi_transparency_and_texture_depth() {
    for mode in 0..=3u8 {
        let mut regs = RegisterState::new();
        regs.semi_transparency = mode;
        check_field(regs, 5, 3, mode as u32);
    }
    let depths = [TextureDepth::T4Bit, TextureDepth::T8Bit, TextureDepth::T15Bit];
    for (code, depth) in depths.into_iter().enumerate() {
        let mut regs = RegisterState::new();
        regs.texture_depth = depth;
        check_field(regs, 7, 3, code as u32);
        assert_eq!(depth.bits(), code as u32);
    }
}

#[test]
fn status_reports_the_drawing_flags() {
    for on in [false, true] {
        let mut regs = RegisterState::new();
        regs.dithering = on;
        check_field(regs, 9, 1, on as u32);
        let mut regs = RegisterState::new();
        regs.draw_to_display = on;
        check_field(regs, 10, 1, on as u32);
        let mut regs = RegisterState::new();
        regs.force_set_mask_bit = on;
        check_field(regs, 11, 1, on as u32);
        let mut regs = RegisterState::new();
        regs.preserve_masked_pixels = on;
        check_field(regs, 12, 1, on as u32);
        let mut regs = RegisterState::new();
        regs.texture_disable = on;
        check_field(regs, 15, 1, on as u32);
    }
}

#[test]
fn status_reports_the_field() {
    let mut regs = RegisterState::new();
    regs.field = Field::Top;
    check_field(regs, 13, 1, 1);
    regs.field = Field::Bottom;
    check_field(regs, 13, 1, 0);
    assert_eq!(Field::Top.bits(), 1);
    assert_eq!(Field::Bottom.bits(), 0);
}

#[test]
fn status_reports_the_horizontal_resolution() {
    for code in 0..=7u8 {
        let mut regs = RegisterState::new();
        regs.hres = HorizontalRes(code);
        check_field(regs, 16, 7, code as u32);
    }
}

#[test]
fn status_does_not_report_the_vertical_resolution() {
    let mut regs = RegisterState::new();
    regs.vres = VerticalRes::Y480Lines;
    assert_eq!(regs.status(), POWER_ON);
    assert_eq!(bits(regs.status(), 19, 1), 0);
}

#[test]
fn status_reports_the_display_fields() {
    let mut regs = RegisterState::new();
    regs.vmode = VMode::Pal;
    check_field(regs, 20, 1, 1);
    regs.vmode = VMode::Ntsc;
    check_field(regs, 20, 1, 0);
    regs.display_depth = DisplayDepth::D24Bits;
    check_field(regs, 21, 1, 1);
    regs.display_depth = DisplayDepth::D15Bits;
    check_field(regs, 21, 1, 0);
    for on in [false, true] {
        let mut regs = RegisterState::new();
        regs.interlaced = on;
        check_field(regs, 22, 1, on as u32);
        let mut regs = RegisterState::new();
        regs.display_disabled = on;
        check_field(regs, 23, 1, on as u32);
        let mut regs = RegisterState::new();
        regs.interrupt = on;
        check_field(regs, 24, 1, on as u32);
    }
    assert_eq!(VMode::Pal.bits(), 1);
    assert_eq!(VMode::Ntsc.bits(), 0);
    assert_eq!(DisplayDepth::D24Bits.bits(), 1);
    assert_eq!(DisplayDepth::D15Bits.bits(), 0);
}

#[test]
fn status_derives_the_dma_request_from_the_direction() {
    let mut regs = RegisterState::new();
    regs.dma_direction = DmaDirection::Off;
    assert_eq!(regs.status(), POWER_ON);
    regs.dma_direction = DmaDirection::Fifo;
    assert_eq!(regs.status(), POWER_ON | 1 << 29 | 1 << 25);
    regs.dma_direction = DmaDirection::CpuToGp0;
    assert_eq!(regs.status(), POWER_ON | 2 << 29 | 1 << 25);
    regs.dma_direction = DmaDirection::VRamToCpu;
    assert_eq!(regs.status(), POWER_ON | 3 << 29 | 1 << 25);
}

#[test]
fn status_always_reports_ready_and_never_the_fixed_bits() {
    let mut gpu = Gpu::new(Recorder::new());
    let words = [0xe100_3f7f, 0xe600_0003, 0xe500_07ff];
    for word in words {
        gpu.gp0(word);
        let status = gpu.status();
        assert_eq!(bits(status, 26, 7), 7);
        assert_eq!(bits(status, 14, 1), 0);
        assert_eq!(bits(status, 19, 1), 0);
        assert_eq!(bits(status, 31, 1), 0);
    }
}

#[test]
fn status_ignores_fields_it_has_no_bits_for() {
    let mut regs = RegisterState::new();
    regs.rectangle_texture_x_flip = true;
    regs.rectangle_texture_y_flip = true;
    regs.texture_window_x_mask = 0x1f;
    regs.texture_window_y_mask = 0x1f;
    regs.texture_window_x_offset = 0x1f;
    regs.texture_window_y_offset = 0x1f;
    regs.drawing_area_left = 0x3ff;
    regs.drawing_area_top = 0x3ff;
    regs.drawing_area_right = 0x3ff;
    regs.drawing_area_bottom = 0x3ff;
    regs.display_vram_x_start = 0x3fe;
    regs.display_vram_y_start = 0x1ff;
    regs.display_horiz_start = 0xfff;
    regs.display_horiz_end = 0xfff;
    regs.display_line_start = 0x3ff;
    regs.display_line_end = 0x3ff;
    assert_eq!(regs.status(), POWER_ON);
}

#[test]
fn status_follows_the_ports() {
    let mut gpu = Gpu::new(Recorder::new());
    // Draw mode: page (5, 1), blending 1, 8-bit textures, dithering.
    gpu.gp0(0xe100_0000 | 5 | 1 << 4 | 1 << 5 | 1 << 7 | 1 << 9);
    assert_eq!(gpu.status(), POWER_ON | 5 | 1 << 4 | 1 << 5 | 1 << 7 | 1 << 9);
    // Draw mode bit 11 is the texture disable flag, which status bit 15 reports.
    gpu.gp0(0xe100_0800);
    assert_eq!(gpu.status(), POWER_ON | 1 << 15);
    gpu.gp0(0xe600_0003);
    assert_eq!(gpu.status(), POWER_ON | 1 << 15 | 1 << 11 | 1 << 12);
    gpu.gp1(0x0300_0000);
    assert_eq!(gpu.status(), (POWER_ON | 1 << 15 | 1 << 11 | 1 << 12) & !(1 << 23));
    gpu.gp1(0x0000_0000);
    assert_eq!(gpu.status(), POWER_ON | 1 << 22);
}

#[test]
fn horizontal_resolution_packs_three_bits() {
    for hr1 in 0..=0xffu8 {
        for hr2 in [0u8, 1, 2, 3, 0x80, 0xfe, 0xff] {
            let hres = HorizontalRes::from_fields(hr1, hr2);
            assert_eq!(hres.0, (hr2 & 1) | ((hr1 & 3) << 1));
            assert_eq!(hres.into_status(), (hres.0 as u32) << 16);
        }
    }
    assert_eq!(HorizontalRes::from_fields(0, 0), HorizontalRes(0));
    assert_eq!(HorizontalRes::from_fields(0, 1), HorizontalRes(1));
    assert_eq!(HorizontalRes::from_fields(1, 0), HorizontalRes(2));
    assert_eq!(HorizontalRes::from_fields(3, 1), HorizontalRes(7));
    assert_eq!(HorizontalRes::from_fields(3, 1).into_status(), 0x0007_0000);
    assert_eq!(HorizontalRes::from_fields(2, 1).into_status(), 0x0005_0000);
}

#[test]
fn display_mode_fields_come_back_in_status_bits_16_to_18() {
    for hr1 in 0..=3u32 {
        for hr2 in 0..=1u32 {
            let mut gpu = Gpu::new(Recorder::new());
            gpu.gp1(0x0800_0000 | hr1 | hr2 << 6);
            let status = gpu.status();
            assert_eq!(bits(status, 16, 7), hr2 | hr1 << 1);
            assert_eq!(bits(status, 16, 1), hr2);
            assert_eq!(bits(status, 17, 3), hr1);
        }
    }
}

#[test]
fn flags_and_codes_convert_both_ways() {
    assert_eq!(TextureDepth::from_bits(0), Some(TextureDepth::T4Bit));
    assert_eq!(TextureDepth::from_bits(1), Some(TextureDepth::T8Bit));
    assert_eq!(TextureDepth::from_bits(2), Some(TextureDepth::T15Bit));
    assert_eq!(TextureDepth::from_bits(3), None);
    assert_eq!(TextureDepth::from_bits(4), None);
    assert_eq!(VerticalRes::from_flag(false), VerticalRes::Y240Lines);
    assert_eq!(VerticalRes::from_flag(true), VerticalRes::Y480Lines);
    assert_eq!(VMode::from_flag(false), VMode::Ntsc);
    assert_eq!(VMode::from_flag(true), VMode::Pal);
    assert_eq!(DisplayDepth::from_flag(false), DisplayDepth::D24Bits);
    assert_eq!(DisplayDepth::from_flag(true), DisplayDepth::D15Bits);
    assert_eq!(DmaDirection::from_bits(0xffff_fffd), DmaDirection::Fifo);
}
