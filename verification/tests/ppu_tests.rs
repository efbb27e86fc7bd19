use pico::cart::Mirroring;
use pico::mapper::nrom::NromMapper;
use pico::ppu::PPU;

#[test]
fn test_ppu_vram_writes() {
    let mut mapper = NromMapper::new(vec![], vec![], Mirroring::Horizontal);
    let mut ppu = PPU::empty();
    ppu.write_to_ppu_addr(0x23);
    ppu.write_to_ppu_addr(0x05);
    ppu.write_to_data(&mut mapper, 0x66);

    assert_eq!(ppu.vram[0x0305], 0x66);
}

#[test]
fn test_ppu_vram_reads() {
    let mut mapper = NromMapper::new(vec![], vec![], Mirroring::Horizontal);
    let mut ppu = PPU::empty();
    ppu.write_to_ctrl(0);
    ppu.vram[0x0305] = 0x66;

    ppu.write_to_ppu_addr(0x23);
    ppu.write_to_ppu_addr(0x05);

    ppu.read_data(&mut mapper);
    assert_eq!(ppu.addr.get(), 0x2306);
    assert_eq!(ppu.read_data(&mut mapper), 0x66);
}

#[test]
fn test_ppu_vram_reads_cross_page() {
    let mut mapper = NromMapper::new(vec![], vec![], Mirroring::Horizontal);
    let mut ppu = PPU::empty();
    ppu.write_to_ctrl(0);
    ppu.vram[0x01ff] = 0x66;
    ppu.vram[0x0200] = 0x77;

    ppu.write_to_ppu_addr(0x21);
    ppu.write_to_ppu_addr(0xff);

    ppu.read_data(&mut mapper);
    assert_eq!(ppu.read_data(&mut mapper), 0x66);
    assert_eq!(ppu.read_data(&mut mapper), 0x77);
}

#[test]
fn test_ppu_vram_reads_step_32() {
    let mut mapper = NromMapper::new(vec![], vec![], Mirroring::Horizontal);
    let mut ppu = PPU::empty();
    ppu.write_to_ctrl(0b100);
    ppu.vram[0x01ff] = 0x66;
    ppu.vram[0x01ff + 32] = 0x77;
    ppu.vram[0x01ff + 64] = 0x88;

    ppu.write_to_ppu_addr(0x21);
    ppu.write_to_ppu_addr(0xff);

    ppu.read_data(&mut mapper);
    assert_eq!(ppu.read_data(&mut mapper), 0x66);
    assert_eq!(ppu.read_data(&mut mapper), 0x77);
    assert_eq!(ppu.read_data(&mut mapper), 0x88);
}

#[test]
fn test_vram_horizontal_mirror() {
    let mut mapper = NromMapper::new(vec![], vec![], Mirroring::Horizontal);
    let mut ppu = PPU::empty();
    ppu.write_to_ppu_addr(0x24);
    ppu.write_to_ppu_addr(0x05);

    ppu.write_to_data(&mut mapper, 0x66);

    ppu.write_to_ppu_addr(0x28);
    ppu.write_to_ppu_addr(0x05);

    ppu.write_to_data(&mut mapper, 0x77);

    ppu.write_to_ppu_addr(0x20);
    ppu.write_to_ppu_addr(0x05);

    ppu.read_data(&mut mapper);
    assert_eq!(ppu.read_data(&mut mapper), 0x66);

    ppu.write_to_ppu_addr(0x2C);
    ppu.write_to_ppu_addr(0x05);

    ppu.read_data(&mut mapper);
    assert_eq!(ppu.read_data(&mut mapper), 0x77);
}

#[test]
fn test_vram_vertical_mirror() {
    let mut mapper = NromMapper::new(vec![], vec![0; 2048], Mirroring::Vertical);
    let mut ppu = PPU::empty();

    ppu.write_to_ppu_addr(0x20);
    ppu.write_to_ppu_addr(0x05);

    ppu.write_to_data(&mut mapper, 0x66);

    ppu.write_to_ppu_addr(0x2C);
    ppu.write_to_ppu_addr(0x05);

    ppu.write_to_data(&mut mapper, 0x77);

    ppu.write_to_ppu_addr(0x28);
    ppu.write_to_ppu_addr(0x05);

    ppu.read_data(&mut mapper);
    assert_eq!(ppu.read_data(&mut mapper), 0x66);

    ppu.write_to_ppu_addr(0x24);
    ppu.write_to_ppu_addr(0x05);

    ppu.read_data(&mut mapper);
    assert_eq!(ppu.read_data(&mut mapper), 0x77);
}

#[test]
fn test_vram_single_screen_lower_mirror() {
    let mapper = NromMapper::new(vec![], vec![0; 2048], Mirroring::SingleScreenLower);
    let ppu = PPU::empty();

    assert_eq!(ppu.mirror_vram_addr(&mapper, 0x2000), 0);
    assert_eq!(ppu.mirror_vram_addr(&mapper, 0x23ff), 0x03ff);
    assert_eq!(ppu.mirror_vram_addr(&mapper, 0x2400), 0);
    assert_eq!(ppu.mirror_vram_addr(&mapper, 0x27ff), 0x03ff);
    assert_eq!(ppu.mirror_vram_addr(&mapper, 0x2c00), 0);
    assert_eq!(ppu.mirror_vram_addr(&mapper, 0x2fff), 0x03ff);
}

#[test]
fn test_vram_single_screen_upper_mirror() {
    let mapper = NromMapper::new(vec![], vec![0; 2048], Mirroring::SingleScreenUpper);
    let ppu = PPU::empty();

    assert_eq!(ppu.mirror_vram_addr(&mapper, 0x2000), 0x0400);
    assert_eq!(ppu.mirror_vram_addr(&mapper, 0x23ff), 0x07ff);
    assert_eq!(ppu.mirror_vram_addr(&mapper, 0x2400), 0x0400);
    assert_eq!(ppu.mirror_vram_addr(&mapper, 0x27ff), 0x07ff);
    assert_eq!(ppu.mirror_vram_addr(&mapper, 0x2c00), 0x0400);
    assert_eq!(ppu.mirror_vram_addr(&mapper, 0x2fff), 0x07ff);
}

#[test]
fn test_scroll_segments_capture_mid_frame_changes() {
    let mut ppu = PPU::empty();

    assert_eq!(ppu.scroll_segments().len(), 1);
    ppu.scanline = 100;
    ppu.write_to_scroll(0x14);
    ppu.write_to_scroll(0x08);

    assert_eq!(ppu.scroll_segments().len(), 2);
    let segment = &ppu.scroll_segments()[1];
    assert_eq!(segment.start_scanline, 100);
    assert_eq!(segment.scroll_x, 20);
    assert_eq!(segment.scroll_y, 8);
}

#[test]
fn test_scroll_writes_during_vblank_apply_next_frame() {
    let mut ppu = PPU::empty();

    assert_eq!(ppu.scroll_segments()[0].scroll_y, 0);
    ppu.scanline = 241;
    ppu.write_to_scroll(0x00);
    ppu.write_to_scroll(0x10);

    ppu.reset_scroll_segments_for_new_frame();
    assert_eq!(ppu.scroll_segments()[0].scroll_y, 16);
}

#[test]
fn test_read_status_resets_latch() {
    let mut mapper = NromMapper::new(vec![], vec![], Mirroring::Horizontal);
    let mut ppu = PPU::empty();
    ppu.vram[0x0305] = 0x66;

    ppu.write_to_ppu_addr(0x21);
    ppu.write_to_ppu_addr(0x23);
    ppu.write_to_ppu_addr(0x05);

    ppu.read_data(&mut mapper);
    assert_ne!(ppu.read_data(&mut mapper), 0x66);

    ppu.read_status();

    ppu.write_to_ppu_addr(0x23);
    ppu.write_to_ppu_addr(0x05);

    ppu.read_data(&mut mapper);
    assert_eq!(ppu.read_data(&mut mapper), 0x66);
}

#[test]
fn test_ppu_vram_mirroring() {
    let mut mapper = NromMapper::new(vec![], vec![], Mirroring::Horizontal);
    let mut ppu = PPU::empty();
    ppu.write_to_ctrl(0);
    ppu.vram[0x0305] = 0x66;

    ppu.write_to_ppu_addr(0x63);
    ppu.write_to_ppu_addr(0x05);

    ppu.read_data(&mut mapper);
    assert_eq!(ppu.read_data(&mut mapper), 0x66);
}

#[test]
fn test_palette_address_mirroring() {
    let mut ppu = PPU::empty();

    fn write_palette(ppu: &mut PPU, addr: u16, value: u8) {
        let mut mapper = NromMapper::new(vec![], vec![], Mirroring::Horizontal);

        ppu.write_to_ppu_addr((addr >> 8) as u8);
        ppu.write_to_ppu_addr((addr & 0xff) as u8);
        ppu.write_to_data(&mut mapper, value);
    }

    write_palette(&mut ppu, 0x3f00, 0x11);
    assert_eq!(ppu.palette_table[0x00], 0x11);

    write_palette(&mut ppu, 0x3f10, 0x22);
    assert_eq!(ppu.palette_table[0x00], 0x22);

    write_palette(&mut ppu, 0x3f20, 0x33);
    assert_eq!(ppu.palette_table[0x00], 0x33);

    write_palette(&mut ppu, 0x3f1c, 0x3d);
    assert_eq!(ppu.palette_table[0x0c], 0x3d & 0x3f);
}

#[test]
fn test_palette_reads_update_buffer() {
    let mut mapper = NromMapper::new(vec![], vec![0; 2048], Mirroring::Horizontal);
    let mut ppu = PPU::empty();

    let mirrored_vram = ppu.mirror_vram_addr(&mapper, 0x2f00) as usize;
    ppu.vram[mirrored_vram] = 0xaa;

    ppu.write_to_ppu_addr(0x3f);
    ppu.write_to_ppu_addr(0x00);
    ppu.write_to_data(&mut mapper, 0x2f);

    ppu.write_to_ppu_addr(0x3f);
    ppu.write_to_ppu_addr(0x00);
    ppu.internal_data_buf = 0;
    let data = ppu.read_data(&mut mapper);
    assert_eq!(data, 0x2f);
    assert_eq!(ppu.internal_data_buf, 0xaa);
}

#[test]
fn test_read_status_resets_vblank() {
    let mut ppu = PPU::empty();
    ppu.status.set_vblank_status(true);

    let status = ppu.read_status();

    assert_eq!(status >> 7, 1);
    assert_eq!(ppu.status.snapshot() >> 7, 0);
}

#[test]
fn test_oam_read_write() {
    let mut ppu = PPU::empty();
    ppu.write_to_oam_addr(0x10);
    ppu.write_to_oam_data(0x66);
    ppu.write_to_oam_data(0x77);

    ppu.write_to_oam_addr(0x10);
    assert_eq!(ppu.read_oam_data(), 0x66);

    ppu.write_to_oam_addr(0x11);
    assert_eq!(ppu.read_oam_data(), 0x77);
}

#[test]
fn test_oam_dma() {
    let mut ppu = PPU::empty();

    let mut data = [0x66; 256];
    data[0] = 0x77;
    data[255] = 0x88;

    ppu.write_to_oam_addr(0x10);
    ppu.write_oam_dma(&data);

    ppu.write_to_oam_addr(0xf);
    assert_eq!(ppu.read_oam_data(), 0x88);

    ppu.write_to_oam_addr(0x10);
    assert_eq!(ppu.read_oam_data(), 0x77);

    ppu.write_to_oam_addr(0x11);
    assert_eq!(ppu.read_oam_data(), 0x66);
}
