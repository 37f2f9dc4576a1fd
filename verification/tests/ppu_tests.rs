use yarge_core::ppu::fifo::{Fetcher, FifoBuffer, FifoPixel};
use yarge_core::ppu::sprite::SpriteFetcher;
use yarge_core::ppu::oam::{OamFlags, OamMemory, OamObject};
use yarge_core::ppu::registers::{Lcdc, StatInterrupts};
use yarge_core::ppu::util::spr_line;
use yarge_core::ppu::Ppu;

#[test]
fn lcdc_round_trips() {
    for v in [0x00u8, 0x91, 0xFF, 0x42] {
        assert_eq!(Lcdc::from_u8(v).into_u8(), v);
    }
    let l = Lcdc::from_u8(0x91);
    assert!(l.enable_display && l.tiledata_addr && l.enable_bg && !l.enable_obj);
    assert_eq!(l.bg_tilemap_addr(), 0x9800);
    assert_eq!(l.bg_tiledata_addr(), 0x8000);
    assert_eq!(l.obj_size(), 8);
    assert_eq!(Lcdc::from_u8(0x04).obj_size(), 16);
    assert_eq!(Lcdc::from(0x48).win_tilemap_addr(), 0x9C00);
}

#[test]
fn tile_index_addressing() {
    let signed = Lcdc::from_u8(0x00);
    assert_eq!(signed.transform_tile_index(0), 256);
    assert_eq!(signed.transform_tile_index(127), 383);
    assert_eq!(signed.transform_tile_index(128), 128);
    assert_eq!(signed.transform_tile_index(255), 255);
    let unsigned = Lcdc::from_u8(0x10);
    assert_eq!(unsigned.transform_tile_index(5), 5);
    assert_eq!(unsigned.bg_tiledata_addr(), 0x8000);
    assert_eq!(signed.bg_tiledata_addr(), 0x8800);
}

#[test]
fn stat_sources_round_trip() {
    assert_eq!(StatInterrupts::from_u8(0xFF).into_u8(), 0x0F);
    let s = StatInterrupts::from_u8(0x09);
    assert!(s.mode_0 && s.lyc_eq && !s.mode_1 && !s.mode_2);
    assert_eq!(s.into_u8(), 0x09);
}

#[test]
fn oam_flags_read_back() {
    assert_eq!(u8::from(OamFlags::from(0x40)), 0x40);
    assert_eq!(u8::from(OamFlags::from(0x20)), 0x20);
    let f = OamFlags::from(0x40);
    assert!(f.flip_y && !f.flip_x);
    assert_eq!(u8::from(OamFlags::from(0x9F)), 0x90);
    let f = OamFlags::from(0x80);
    assert!(f.priority && !f.flip_x && !f.flip_y && !f.palette);
}

#[test]
fn oam_bytes_read_back() {
    let mut m = OamMemory::new();
    m.write_oam(4 * 7, 0x33);
    m.write_oam(4 * 7 + 1, 0x44);
    m.write_oam(4 * 7 + 2, 0x55);
    assert_eq!(m.read_oam(4 * 7), 0x33);
    assert_eq!(m.read_oam(4 * 7 + 1), 0x44);
    assert_eq!(m.read_oam(4 * 7 + 2), 0x55);
    assert_eq!(m.read_oam(4 * 7 + 3), 0x00);
    m.write_oam(3, 0x0F);
    assert_eq!(m.read_oam(3), 0x0F);
    assert_eq!(m.objects[7].id, 7);
    let mut o: OamObject = m.objects[7];
    o.set_byte(3, 0xF0);
    assert_eq!(o.get_byte(3), 0xF0);
    assert_eq!(o.get_byte(4 + 1), 0x44);
    m.write_oam(4 * 7 + 3, 0x4A);
    assert_eq!(m.read_oam(4 * 7 + 3), 0x4A);
    assert!(m.objects[7].flags.flip_y && !m.objects[7].flags.flip_x);
    m.write_oam(4 * 7 + 3, 0x2F);
    assert_eq!(m.read_oam(4 * 7 + 3), 0x2F);
    assert_eq!(m.read_oam(4 * 7 + 2), 0x55);
}

#[test]
fn oam_search_selects_and_orders() {
    let mut m = OamMemory::new();
    // object 3: on line 10 (y = 20), x = 50
    m.write_oam(12, 20);
    m.write_oam(13, 50);
    // object 1: on line 10 (y = 26), x = 30
    m.write_oam(4, 26);
    m.write_oam(5, 30);
    // object 5: below the line (y = 30)
    m.write_oam(20, 30);
    m.write_oam(21, 10);
    // object 6: on the line but at x = 0, hidden
    m.write_oam(24, 20);
    let lcdc = Lcdc::from_u8(0x82);
    let b = m.get_buffer(10, &lcdc);
    assert_eq!(b.len(), 2);
    assert_eq!(b.get(0).unwrap().id, 1);
    assert_eq!(b.get(1).unwrap().id, 3);
    assert!(b.get(2).is_none());
}

#[test]
fn oam_search_stops_at_ten() {
    let mut m = OamMemory::new();
    for i in 0..12u16 {
        m.write_oam(4 * i, 16);
        m.write_oam(4 * i + 1, 100 - i as u8);
    }
    let b = m.get_buffer(0, &Lcdc::from_u8(0x82));
    assert_eq!(b.len(), 10);
    assert_eq!(b.get(0).unwrap().id, 9);
    assert_eq!(b.get(9).unwrap().id, 0);
}

#[test]
fn sprite_line_decodes_colors() {
    assert_eq!(spr_line((0b1010_0000, 0b1100_0000)), [3, 2, 1, 0, 0, 0, 0, 0]);
    assert_eq!(spr_line((0xFF, 0x00)), [1; 8]);
    assert_eq!(spr_line((0xFF, 0xFF)), [3; 8]);
}

#[test]
fn fifo_buffer_push_pop() {
    let mut f = FifoBuffer { buffer: [FifoPixel::default(); 8], length: 0, head: 0 };
    assert_eq!(f.pop_front(), None);
    assert_eq!(f.push_back(FifoPixel::from_color(2)), Ok(()));
    assert_eq!(f.len(), 1);
    assert_eq!(f.pop_front(), Some(FifoPixel::from_color(2)));
    for c in 0..8u8 {
        let r = f.push_back(FifoPixel::from_color(c % 4));
        assert_eq!(r, if c < 8 { Ok(()) } else { Err(()) });
        if f.len() == 8 {
            break;
        }
    }
    assert_eq!(f.push_back(FifoPixel::from_color(1)), Err(()));
}

#[test]
fn ppu_draws_a_frame() {
    let mut p = Ppu::new();
    assert_eq!(p.display.len(), 160 * 144);
    assert_eq!(p.display[1], 2);
    let mut iif = 0u8;
    p.set_lcdc(0x91);
    assert_eq!(p.get_lcdc(), 0x91);
    for _ in 0..17556 {
        p.tick(&mut iif);
    }
    assert!(p.frame_ready);
    assert_ne!(iif & 0x01, 0);
    assert!(p.display.iter().all(|&c| c == 0));
    assert_eq!(p.get_stat() & 0x80, 0x80);
}

#[test]
fn ppu_vram_access_and_display_off() {
    let mut p = Ppu::new();
    p.write_vram(0x8000, 0x12, true);
    assert_eq!(p.read_vram(0x8000, true), 0x12);
    p.write_oam(0xFE00, 0x34, false);
    assert_eq!(p.read_oam(0xFE00, false), 0x34);
    let mut iif = 0u8;
    p.tick(&mut iif);
    assert!(p.display.iter().all(|&c| c == 0));
    assert_eq!(p.get_stat() & 0x03, 0);
    p.set_stat(0x40);
    assert_eq!(p.get_stat() & 0x78, 0x40);
}

#[test]
fn fifo_buffer_realigns_at_head_seven() {
    let mut buffer = [FifoPixel::default(); 8];
    for i in 0..8 {
        buffer[i] = FifoPixel::from_color((i % 4) as u8);
    }
    let mut f = FifoBuffer { buffer, length: 3, head: 7 };
    assert_eq!(f.push_back(FifoPixel::from_color(2)), Ok(()));
    assert_eq!(f.head, 0);
    assert_eq!(f.length, 4);
    assert_eq!(f.buffer[0].color, 3);
    assert_eq!(f.buffer[1].color, 0);
    assert_eq!(f.buffer[3].color, 2);
}

#[test]
fn sprite_fetcher_flips_row() {
    let mut vram = vec![0u8; 0x2000];
    vram[0] = 0x80;
    let lcdc = Lcdc::from_u8(0x82);
    let object = OamObject {
        y: 16,
        x: 20,
        tile: 0,
        flags: OamFlags { priority: false, flip_y: false, flip_x: true, palette: true },
        attr: 0x30,
        id: 0,
    };
    let mut s = SpriteFetcher::new();
    s.start(object, 0);
    for _ in 0..7 {
        s.tick(&lcdc, &vram);
    }
    assert!(!s.fetching);
    assert_eq!(s.len(), 8);
    let mut colors = vec![];
    while let Some(p) = s.pop() {
        colors.push(p.color);
        assert!(p.pal || p.color == 0);
    }
    assert_eq!(colors, vec![0, 0, 0, 0, 0, 0, 0, 1]);
}
