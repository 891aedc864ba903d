use gameboy::ppu::PpuShade::{BLACK, DARK, LIGHT, WHITE};
use gameboy::ppu::{Ppu, PpuControl, PpuMode, PpuPalette, PpuShade, PpuStatus};

fn row(ppu: &mut Ppu, y: usize) -> Vec<PpuShade> {
    ppu.take_frame()[y * 160..(y + 1) * 160].to_vec()
}

#[test]
fn a_scanline_walks_through_its_three_modes() {
    let mut ppu = Ppu::new();
    ppu.lyc_write(200);
    assert_eq!(ppu.stat_read(), 0x02);
    ppu.tick(79);
    assert_eq!(ppu.stat_read() & 0x03, 0x02);
    ppu.tick(1);
    assert_eq!(ppu.stat_read() & 0x03, 0x03);
    ppu.tick(171);
    assert_eq!(ppu.stat_read() & 0x03, 0x03);
    ppu.tick(1);
    assert_eq!(ppu.stat_read() & 0x03, 0x00);
    ppu.tick(203);
    assert_eq!(ppu.stat_read() & 0x03, 0x00);
    assert_eq!(ppu.ly_read(), 0);
    ppu.tick(1);
    assert_eq!(ppu.stat_read() & 0x03, 0x02);
    assert_eq!(ppu.ly_read(), 1);
}

#[test]
fn vblank_spans_scanlines_144_to_153() {
    let mut ppu = Ppu::new();
    ppu.tick(144 * 456 - 1);
    assert_eq!(ppu.ly_read(), 143);
    assert!(!ppu.get_vblank_status());
    assert!(!ppu.frame_ready());
    ppu.tick(1);
    assert_eq!(ppu.ly_read(), 144);
    assert_eq!(ppu.stat_read() & 0x03, 0x01);
    assert!(ppu.frame_ready());
    assert!(ppu.get_vblank_status());
    assert!(!ppu.get_vblank_status());
    ppu.tick(10 * 456 - 1);
    assert_eq!(ppu.ly_read(), 153);
    assert_eq!(ppu.stat_read() & 0x03, 0x01);
    ppu.tick(1);
    assert_eq!(ppu.ly_read(), 0);
    assert_eq!(ppu.stat_read() & 0x03, 0x02);
}

#[test]
fn one_frame_is_completed_every_70224_base_clocks() {
    let mut ppu = Ppu::new();
    ppu.tick(12345);
    let mut frames = 0;
    for _ in 0..3 * 70224 {
        ppu.tick(1);
        if ppu.frame_ready() {
            frames += 1;
            assert_eq!(ppu.take_frame().len(), 160 * 144);
            assert!(!ppu.frame_ready());
        }
    }
    assert_eq!(frames, 3);
}

#[test]
fn stat_sources_raise_the_stat_interrupt() {
    let mut ppu = Ppu::new();
    ppu.lyc_write(200);
    ppu.tick(456);
    assert!(!ppu.get_lcdc_status());
    ppu.stat_write(0x08);
    ppu.tick(251);
    assert!(!ppu.get_lcdc_status());
    ppu.tick(1);
    assert!(ppu.get_lcdc_status());
    assert!(!ppu.get_lcdc_status());
    ppu.stat_write(0x20);
    ppu.tick(203);
    assert!(!ppu.get_lcdc_status());
    ppu.tick(1);
    assert!(ppu.get_lcdc_status());
    let mut ppu = Ppu::new();
    ppu.lyc_write(200);
    ppu.stat_write(0x10);
    ppu.tick(144 * 456 - 1);
    assert!(!ppu.get_lcdc_status());
    ppu.tick(1);
    assert!(ppu.get_lcdc_status());
}

#[test]
fn coincidence_follows_ly_and_lyc() {
    let mut ppu = Ppu::new();
    ppu.lyc_write(1);
    ppu.stat_write(0x40);
    assert_eq!(ppu.stat_read(), 0x42);
    ppu.tick(455);
    assert_eq!(ppu.stat_read() & 0x04, 0x00);
    assert!(!ppu.get_lcdc_status());
    ppu.tick(1);
    assert_eq!(ppu.ly_read(), 1);
    assert_eq!(ppu.stat_read(), 0x46);
    assert!(ppu.get_lcdc_status());
    ppu.tick(456);
    assert_eq!(ppu.stat_read() & 0x04, 0x00);
}

#[test]
fn registers_read_back() {
    let mut ppu = Ppu::new();
    ppu.lcdc_write(0xa5);
    ppu.scy_write(0x12);
    ppu.scx_write(0x34);
    ppu.lyc_write(0x56);
    ppu.bgp_write(0xe4);
    ppu.obp1_write(0x1b);
    ppu.obp2_write(0xc6);
    ppu.wy_write(0x78);
    ppu.wx_write(0x9a);
    assert_eq!(ppu.lcdc_read(), 0xa5);
    assert_eq!(ppu.scy_read(), 0x12);
    assert_eq!(ppu.scx_read(), 0x34);
    assert_eq!(ppu.lyc_read(), 0x56);
    assert_eq!(ppu.bgp_read(), 0xe4);
    assert_eq!(ppu.obp1_read(), 0x1b);
    assert_eq!(ppu.obp2_read(), 0xc6);
    assert_eq!(ppu.wy_read(), 0x78);
    assert_eq!(ppu.wx_read(), 0x9a);
    for address in 0xff40..0xff4cu16 {
        let direct = match address {
            0xff40 => 0xa5,
            0xff41 => ppu.stat_read(),
            0xff42 => 0x12,
            0xff43 => 0x34,
            0xff44 => 0,
            0xff45 => 0x56,
            0xff46 => 0xff,
            0xff47 => 0xe4,
            0xff48 => 0x1b,
            0xff49 => 0xc6,
            0xff4a => 0x78,
            _ => 0x9a,
        };
        assert_eq!(ppu.read_register(address), direct);
    }
    ppu.write_register(0xff44, 0x55);
    assert_eq!(ppu.ly_read(), 0);
    ppu.write_register(0xff42, 0x21);
    assert_eq!(ppu.scy_read(), 0x21);
}

#[test]
fn control_and_status_bytes_read_back_bit_by_bit() {
    for value in 0..=255u8 {
        let mut control = PpuControl::new();
        control.write(value);
        assert_eq!(control.read(), value);
        let mut status = PpuStatus::new();
        status.write(value);
        assert_eq!(status.read(PpuMode::HBLANK), value & 0x78);
        assert_eq!(status.read(PpuMode::VBLANK), (value & 0x78) | 1);
        assert_eq!(status.read(PpuMode::OAM), (value & 0x78) | 2);
        assert_eq!(status.read(PpuMode::VRAM), (value & 0x78) | 3);
        let mut palette = PpuPalette::new();
        palette.write(value);
        assert_eq!(palette.read(), value);
        assert_eq!(palette.shade(0), PpuShade::from_u8(value));
        assert_eq!(palette.shade(1), PpuShade::from_u8(value >> 2));
        assert_eq!(palette.shade(2), PpuShade::from_u8(value >> 4));
        assert_eq!(palette.shade(3), PpuShade::from_u8(value >> 6));
    }
    assert_eq!(PpuControl::new().read(), 0);
    assert_eq!(PpuPalette::new().read(), 0);
    assert_eq!(PpuShade::from_u8(0), PpuShade::WHITE);
    assert_eq!(PpuShade::from_u8(1), PpuShade::LIGHT);
    assert_eq!(PpuShade::from_u8(2), PpuShade::DARK);
    assert_eq!(PpuShade::from_u8(7), PpuShade::BLACK);
    assert_eq!(PpuShade::DARK.code(), 2);
}

#[test]
fn video_memory_holds_what_was_written() {
    let mut ppu = Ppu::new();
    for (address, value) in [(0x8000u16, 1u8), (0x97ff, 2), (0x9800, 3), (0x9fff, 4), (0xfe00, 5), (0xfe9f, 6)] {
        assert_eq!(ppu.vram_read(address), 0);
        ppu.vram_write(address, value);
    }
    for (address, value) in [(0x8000u16, 1u8), (0x97ff, 2), (0x9800, 3), (0x9fff, 4), (0xfe00, 5), (0xfe9f, 6)] {
        assert_eq!(ppu.vram_read(address), value);
    }
}

#[test]
fn the_background_is_drawn_through_its_palette() {
    let mut ppu = Ppu::new();
    ppu.lcdc_write(0x91);
    ppu.bgp_write(0xe4);
    ppu.vram_write(0x8000, 0xff);
    ppu.vram_write(0x8001, 0x00);
    ppu.vram_write(0x8002, 0x00);
    ppu.vram_write(0x8003, 0xff);
    ppu.vram_write(0x8004, 0xff);
    ppu.vram_write(0x8005, 0xff);
    ppu.tick(251);
    assert_eq!(row(&mut ppu, 0), vec![PpuShade::WHITE; 160]);
    ppu.tick(1);
    assert_eq!(row(&mut ppu, 0), vec![PpuShade::LIGHT; 160]);
    assert_eq!(row(&mut ppu, 1), vec![PpuShade::WHITE; 160]);
    ppu.tick(2 * 456);
    assert_eq!(row(&mut ppu, 1), vec![PpuShade::DARK; 160]);
    assert_eq!(row(&mut ppu, 2), vec![PpuShade::BLACK; 160]);
    assert_eq!(row(&mut ppu, 3), vec![PpuShade::WHITE; 160]);
    ppu.bgp_write(0x1b);
    ppu.tick(154 * 456);
    assert_eq!(row(&mut ppu, 0), vec![PpuShade::DARK; 160]);
    assert_eq!(row(&mut ppu, 1), vec![PpuShade::LIGHT; 160]);
    assert_eq!(row(&mut ppu, 2), vec![PpuShade::WHITE; 160]);
    assert_eq!(row(&mut ppu, 3), vec![PpuShade::BLACK; 160]);
}

#[test]
fn nothing_is_drawn_while_the_lcd_is_off() {
    let mut ppu = Ppu::new();
    ppu.lcdc_write(0x11);
    ppu.bgp_write(0xff);
    ppu.tick(70224);
    assert_eq!(ppu.take_frame().to_vec(), vec![PpuShade::WHITE; 160 * 144]);
}

#[test]
fn the_tile_map_and_the_pattern_region_are_selectable() {
    let mut ppu = Ppu::new();
    ppu.bgp_write(0xe4);
    ppu.vram_write(0x9000, 0xff);
    ppu.vram_write(0x8801, 0xff);
    ppu.vram_write(0x9c00, 0x80);
    ppu.lcdc_write(0x81);
    ppu.tick(252);
    assert_eq!(row(&mut ppu, 0), vec![PpuShade::LIGHT; 160]);
    ppu.lcdc_write(0x89);
    ppu.tick(154 * 456);
    let drawn = row(&mut ppu, 0);
    assert_eq!(drawn[..8].to_vec(), vec![PpuShade::DARK; 8]);
    assert_eq!(drawn[8..].to_vec(), vec![PpuShade::LIGHT; 152]);
}

#[test]
fn scrolling_moves_the_background() {
    let mut ppu = Ppu::new();
    ppu.lcdc_write(0x91);
    ppu.bgp_write(0xe4);
    ppu.vram_write(0x9801, 1);
    ppu.vram_write(0x9820, 2);
    ppu.vram_write(0x8010, 0xff);
    ppu.vram_write(0x8020, 0xff);
    ppu.vram_write(0x8021, 0xff);
    ppu.scx_write(4);
    ppu.tick(252);
    let drawn = row(&mut ppu, 0);
    assert_eq!(drawn[..4].to_vec(), vec![PpuShade::WHITE; 4]);
    assert_eq!(drawn[4..12].to_vec(), vec![PpuShade::LIGHT; 8]);
    assert_eq!(drawn[12..].to_vec(), vec![PpuShade::WHITE; 148]);
    ppu.scx_write(0);
    ppu.scy_write(8);
    ppu.tick(154 * 456);
    let drawn = row(&mut ppu, 0);
    assert_eq!(drawn[..8].to_vec(), vec![PpuShade::BLACK; 8]);
    assert_eq!(drawn[8..].to_vec(), vec![PpuShade::WHITE; 152]);
}

#[test]
fn a_background_column_takes_its_bit_from_the_column_modulo_seven() {
    let mut ppu = Ppu::new();
    ppu.lcdc_write(0x91);
    ppu.bgp_write(0xe4);
    ppu.vram_write(0x8000, 0x80);
    ppu.vram_write(0x8001, 0x02);
    ppu.tick(252);
    let drawn = row(&mut ppu, 0);
    for x in 0..160usize {
        let expected = match x % 7 {
            0 => PpuShade::LIGHT,
            6 => PpuShade::DARK,
            _ => PpuShade::WHITE,
        };
        assert_eq!(drawn[x], expected, "column {}", x);
    }
}

fn sprite_scene(flags: u8, x: u8, y: u8) -> Ppu {
    let mut ppu = Ppu::new();
    ppu.lcdc_write(0x93);
    ppu.bgp_write(0xe4);
    ppu.obp1_write(0xe4);
    ppu.obp2_write(0x1b);
    ppu.vram_write(0x8010, 0xf0);
    ppu.vram_write(0x8011, 0xcc);
    ppu.vram_write(0x801e, 0xff);
    ppu.vram_write(0x801f, 0xff);
    ppu.vram_write(0xfe00, y);
    ppu.vram_write(0xfe01, x);
    ppu.vram_write(0xfe02, 1);
    ppu.vram_write(0xfe03, flags);
    ppu
}

#[test]
fn a_sprite_is_drawn_over_the_background() {
    let mut ppu = sprite_scene(0x00, 8, 16);
    ppu.tick(252);
    let drawn = row(&mut ppu, 0);
    assert_eq!(drawn[..8].to_vec(), vec![BLACK, BLACK, LIGHT, LIGHT, DARK, DARK, WHITE, WHITE]);
    assert_eq!(drawn[8..].to_vec(), vec![WHITE; 152]);
    ppu.tick(456);
    assert_eq!(row(&mut ppu, 1), vec![WHITE; 160]);
    ppu.tick(6 * 456);
    let drawn = row(&mut ppu, 7);
    assert_eq!(drawn[..8].to_vec(), vec![BLACK; 8]);
    ppu.tick(456);
    assert_eq!(row(&mut ppu, 8), vec![WHITE; 160]);
}

#[test]
fn a_sprite_flips_and_switches_palette_by_its_flags() {
    let mut ppu = sprite_scene(0x20, 8, 16);
    ppu.tick(252);
    assert_eq!(row(&mut ppu, 0)[..8].to_vec(), vec![WHITE, WHITE, DARK, DARK, LIGHT, LIGHT, BLACK, BLACK]);
    let mut ppu = sprite_scene(0x40, 8, 16);
    ppu.tick(252);
    assert_eq!(row(&mut ppu, 0)[..8].to_vec(), vec![BLACK; 8]);
    ppu.tick(7 * 456);
    assert_eq!(row(&mut ppu, 7)[..8].to_vec(), vec![BLACK, BLACK, LIGHT, LIGHT, DARK, DARK, WHITE, WHITE]);
    let mut ppu = sprite_scene(0x10, 8, 16);
    ppu.tick(252);
    assert_eq!(row(&mut ppu, 0)[..8].to_vec(), vec![WHITE, WHITE, DARK, DARK, LIGHT, LIGHT, WHITE, WHITE]);
}

#[test]
fn a_sprite_is_clipped_at_the_screen_edges() {
    let mut ppu = sprite_scene(0x00, 4, 16);
    ppu.tick(252);
    let drawn = row(&mut ppu, 0);
    assert_eq!(drawn[..4].to_vec(), vec![DARK, DARK, WHITE, WHITE]);
    assert_eq!(drawn[4..].to_vec(), vec![WHITE; 156]);
    let mut ppu = sprite_scene(0x00, 164, 16);
    ppu.tick(252);
    let drawn = row(&mut ppu, 0);
    assert_eq!(drawn[..156].to_vec(), vec![WHITE; 156]);
    assert_eq!(drawn[156..].to_vec(), vec![BLACK, BLACK, LIGHT, LIGHT]);
    let mut ppu = sprite_scene(0x00, 8, 9);
    ppu.tick(252);
    assert_eq!(row(&mut ppu, 0)[..8].to_vec(), vec![BLACK; 8]);
    ppu.tick(456);
    assert_eq!(row(&mut ppu, 1), vec![WHITE; 160]);
}

#[test]
fn a_sprite_behind_the_background_shows_only_through_colour_zero() {
    let mut ppu = sprite_scene(0x80, 8, 16);
    ppu.vram_write(0x8000, 0x0f);
    ppu.tick(252);
    let drawn = row(&mut ppu, 0);
    assert_eq!(drawn[..8].to_vec(), vec![BLACK, BLACK, LIGHT, LIGHT, LIGHT, LIGHT, LIGHT, WHITE]);
    let mut ppu = sprite_scene(0x00, 8, 16);
    ppu.vram_write(0x8000, 0x0f);
    ppu.tick(252);
    let drawn = row(&mut ppu, 0);
    assert_eq!(drawn[..8].to_vec(), vec![BLACK, BLACK, LIGHT, LIGHT, DARK, DARK, LIGHT, WHITE]);
}

#[test]
fn tall_sprites_cover_sixteen_scanlines() {
    let mut ppu = sprite_scene(0x00, 8, 16);
    ppu.lcdc_write(0x97);
    ppu.vram_write(0x802e, 0xff);
    ppu.vram_write(0x802f, 0xff);
    ppu.tick(15 * 456 + 252);
    assert_eq!(row(&mut ppu, 15)[..8].to_vec(), vec![BLACK; 8]);
    assert_eq!(row(&mut ppu, 7)[..8].to_vec(), vec![BLACK; 8]);
    assert_eq!(row(&mut ppu, 8)[..8].to_vec(), vec![WHITE; 8]);
    ppu.tick(456);
    assert_eq!(row(&mut ppu, 16), vec![WHITE; 160]);
}

#[test]
fn later_sprites_are_drawn_over_earlier_ones() {
    let mut ppu = sprite_scene(0x00, 8, 16);
    ppu.vram_write(0x8020, 0xff);
    ppu.vram_write(0xfe04, 16);
    ppu.vram_write(0xfe05, 12);
    ppu.vram_write(0xfe06, 2);
    ppu.vram_write(0xfe07, 0);
    ppu.tick(252);
    let drawn = row(&mut ppu, 0);
    assert_eq!(drawn[..2].to_vec(), vec![BLACK; 2]);
    assert_eq!(drawn[4..12].to_vec(), vec![LIGHT; 8]);
}

#[test]
fn more_than_ten_sprites_on_a_scanline_are_all_drawn() {
    let mut ppu = Ppu::new();
    ppu.lcdc_write(0x93);
    ppu.bgp_write(0xe4);
    ppu.obp1_write(0xe4);
    ppu.vram_write(0x8010, 0xff);
    ppu.vram_write(0x8011, 0xff);
    for sprite in 0..16u16 {
        ppu.vram_write(0xfe00 + sprite * 4, 16);
        ppu.vram_write(0xfe01 + sprite * 4, 8 + 10 * sprite as u8);
        ppu.vram_write(0xfe02 + sprite * 4, 1);
    }
    ppu.tick(252);
    let drawn = row(&mut ppu, 0);
    for x in 0..160usize {
        let expected = if x % 10 < 8 { BLACK } else { WHITE };
        assert_eq!(drawn[x], expected, "column {}", x);
    }
}
