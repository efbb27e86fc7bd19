use pico::apu::APU;
use pico::cart::test_rom;
use pico::cpu::{FLAG_NEGATIVE, FLAG_ZERO};
use pico::joypad::{BUTTON_A, BUTTON_SELECT, BUTTON_UP, Joypad};
use pico::mapper::Mapper;
use pico::memory::Memory;
use pico::mapper::mmc3::Mmc3Mapper;
use pico::mapper::mmc1::Mmc1Mapper;
use pico::mapper::mmc5::Mmc5Mapper;
use pico::mapper::nrom::NromMapper;
use pico::nes::Nes;
use pico::opcodes::{AddressingMode, Mnemonic, OpcodeMap};
use pico::ppu::PPU;

fn new_nes(program: Vec<u8>) -> Nes {
    let cart = test_rom(program);
    let apu = APU::new(44100);
    let mut nes = Nes::new(cart, apu);
    nes.reset();
    nes.cpu.registers.pc = 0x8000;
    nes
}

/// Runs master ticks until `count` instructions have completed.
fn run_instructions(nes: &mut Nes, count: usize) {
    let mut done = 0;
    let mut guard = 0u32;
    while done < count {
        let r = nes.clock();
        if r.instruction_complete {
            done += 1;
        }
        guard += 1;
        assert!(guard < 1_000_000, "instruction run did not finish");
    }
}

#[test]
fn instruction_five_step() {
    // LDA #$C0; TAX; INX; BRK
    let mut nes = new_nes(vec![0xA9, 0xC0, 0xAA, 0xE8, 0x00]);
    run_instructions(&mut nes, 4);
    assert_eq!(nes.cpu.registers.x, 0xC1);
    assert_ne!(nes.cpu.registers.status & FLAG_NEGATIVE, 0);
    assert_eq!(nes.cpu.registers.status & FLAG_ZERO, 0);
}

#[test]
fn instruction_timing_matches_base_cycles() {
    // LDA #$05 takes two CPU cycles: the completion lands on the second
    // CPU tick, which is master tick 3 (CPU runs on ticks 0, 3, 6, ...).
    let mut nes = new_nes(vec![0xA9, 0x05, 0xEA]);
    let mut cpu_ticks = 0;
    let mut completed_at = None;
    for tick in 0..12u64 {
        let r = nes.clock();
        if tick % 3 == 0 {
            cpu_ticks += 1;
        }
        if r.instruction_complete {
            completed_at = Some(cpu_ticks);
            break;
        }
    }
    assert_eq!(completed_at, Some(2));
    assert_eq!(nes.cpu.registers.a, 0x05);
}

#[test]
fn branch_taken_costs_an_extra_cycle() {
    // SEC; BCS +0 — a taken branch without a page cross costs 2 + 1 cycles.
    let mut nes = new_nes(vec![0x38, 0xB0, 0x00, 0xEA]);
    run_instructions(&mut nes, 1); // SEC
    let mut cpu_ticks = 0;
    let mut guard = 0;
    loop {
        let r = nes.clock();
        if nes.system_clock % 3 == 1 {
            cpu_ticks += 1;
        }
        if r.instruction_complete {
            break;
        }
        guard += 1;
        assert!(guard < 100);
    }
    assert_eq!(cpu_ticks, 3);
}

#[test]
fn opcode_table_covers_known_entries() {
    let map = OpcodeMap::new();
    let lda = map.find_by_code(0xA9).unwrap();
    assert_eq!(lda.mnemonic, Mnemonic::LDA);
    assert_eq!(lda.bytes, 2);
    assert_eq!(lda.cycles, 2);
    assert_eq!(lda.mode, AddressingMode::Immediate);

    let brk = map.find_by_code(0x00).unwrap();
    assert_eq!(brk.mnemonic, Mnemonic::BRK);
    assert_eq!(brk.cycles, 7);

    // every byte has an entry carrying its own code
    for code in 0..=255u8 {
        let op = map.find_by_code(code).unwrap();
        assert_eq!(op.code, code);
        assert!(op.bytes >= 1);
    }
}

#[test]
fn work_ram_is_mirrored_every_0x800() {
    let mut nes = new_nes(vec![0xEA]);
    nes.bus.write(0x0123, 0x5A);
    assert_eq!(nes.bus.read(0x0923), 0x5A);
    assert_eq!(nes.bus.read(0x1923), 0x5A);
    nes.bus.write(0x1FFF, 0x77);
    assert_eq!(nes.bus.read(0x07FF), 0x77);
}

#[test]
fn controller_shifts_buttons_in_order() {
    let mut pad = Joypad::new();
    pad.set_button_pressed_status(BUTTON_A, true);
    pad.set_button_pressed_status(BUTTON_SELECT, true);
    pad.set_button_pressed_status(BUTTON_UP, true);

    // strobe pulse
    pad.write(1);
    pad.write(0);

    let expected = [1u8, 0, 1, 0, 1, 0, 0, 0]; // A, B, Select, Start, Up, Down, Left, Right
    for (i, &want) in expected.iter().enumerate() {
        assert_eq!(pad.read(), want, "button bit {}", i);
    }
    for _ in 0..4 {
        assert_eq!(pad.read(), 1);
    }

    // a new strobe pulse re-latches and replays from button A
    pad.write(1);
    pad.write(0);
    assert_eq!(pad.read(), 1);
}

#[test]
fn frame_irq_asserts_once_in_4step_mode() {
    let mut apu = APU::new(44100);
    // freshly constructed: 4-step mode, cadence at 0, IRQ enabled
    let mut rising_edges = 0;
    let mut last = false;
    for _ in 0..29830u32 {
        apu.clock();
        let now = apu.poll_irq().is_some();
        if now && !last {
            rising_edges += 1;
        }
        last = now;
    }
    assert_eq!(rising_edges, 1);
    assert!(apu.poll_irq().is_some());
    // reading 0x4015 acknowledges the frame IRQ
    let status = apu.read_status();
    assert_ne!((status / 0x40) % 2, 0);
    assert!(apu.poll_irq().is_none());
}

#[test]
fn frame_irq_respects_inhibit() {
    let mut apu = APU::new(44100);
    apu.write_frame_counter(0x40); // 4-step, IRQ inhibited
    for _ in 0..29830u32 {
        apu.clock();
    }
    assert!(apu.poll_irq().is_none());
}

#[test]
fn pulse_channel_tone() {
    let mut apu = APU::new(44100);
    apu.write_status(0x7F);
    apu.write_register(0x4000, 0xBF);
    apu.write_register(0x4002, 0xC9);
    apu.write_register(0x4003, 0x00);
    for _ in 0..29830u32 {
        apu.clock();
    }
    let samples = apu.take_samples();
    let expected = 29830u64 * 44100 / 1789773; // about 735
    let n = samples.len() as u64;
    assert!(n >= expected - 1 && n <= expected + 1, "queue held {} samples", n);
    assert!(samples.iter().any(|s| s.pulse1 != 0));
}

#[test]
fn mmc3_irq_scanline_scenario() {
    // latch = 1, reload, enable; two rendered scanlines raise the IRQ and
    // the disable register acknowledges it.
    let mut mapper = Mmc3Mapper::new(vec![0; 0x4000], vec![0; 0x2000], pico::cart::Mirroring::Vertical);
    mapper.write_prg(0xC000, 1);
    mapper.write_prg(0xC001, 0);
    mapper.write_prg(0xE001, 0);
    mapper.handle_scanline(true);
    mapper.handle_scanline(true);
    assert!(mapper.poll_irq().is_some());
    mapper.write_prg(0xE000, 0);
    assert!(mapper.poll_irq().is_none());
}

#[test]
fn sprite_zero_hit_sets_status_bit() {
    let mut mapper = NromMapper::new(vec![], vec![], pico::cart::Mirroring::Horizontal);
    let mut ppu = PPU::empty();
    // sprite 0 at (0, 0) with an opaque pattern, background set similarly
    ppu.oam_data[0] = 0;
    ppu.oam_data[1] = 1;
    ppu.oam_data[2] = 0;
    ppu.oam_data[3] = 0;
    ppu.write_to_mask(0x18); // show background and sprites

    assert_eq!(ppu.status.snapshot() & 0x40, 0);
    for _ in 0..342 {
        ppu.clock(&mut mapper);
    }
    assert_ne!(ppu.status.snapshot() & 0x40, 0, "sprite 0 hit after scanline 0");
}

#[test]
fn vblank_raises_nmi_when_enabled() {
    let mut mapper = NromMapper::new(vec![], vec![], pico::cart::Mirroring::Horizontal);
    let mut ppu = PPU::empty();
    ppu.write_to_ctrl(0x80);
    let mut frame_done = false;
    // run through scanline 241 dot 1
    for _ in 0..(342 * 242) {
        frame_done = ppu.clock(&mut mapper) || frame_done;
        if ppu.status.snapshot() & 0x80 != 0 {
            break;
        }
    }
    assert_ne!(ppu.status.snapshot() & 0x80, 0);
    assert!(ppu.poll_nmi_interrupt().is_some());
    assert!(ppu.poll_nmi_interrupt().is_none());
    assert!(!frame_done);
}

#[test]
fn noise_lfsr_feedback() {
    let mut noise = pico::apu::noise::NoiseChannel::new();
    noise.period_current = 0;
    noise.clock();
    // from register 1, mode 0: feedback = bit0 ^ bit1 = 1, placed in bit 14
    assert_eq!(noise.shift_register, 0x4000);
}

#[test]
fn envelope_decays_from_15() {
    let mut env = pico::apu::envelope::Envelope::new();
    env.write_control(0x00); // envelope mode, volume period 0
    env.restart();
    env.clock();
    assert_eq!(env.output(), 15);
    env.clock();
    env.clock();
    assert_eq!(env.output(), 14);
}

#[test]
fn length_counter_holds_when_halted() {
    let mut lc = pico::apu::LengthCounter::new();
    lc.channel_enabled = true;
    lc.set_length(0); // table entry 0 is 10
    assert_eq!(lc.length, 10);
    lc.clock();
    assert_eq!(lc.length, 9);
    lc.halt_flag = true;
    lc.clock();
    assert_eq!(lc.length, 9);
}

#[test]
fn dmc_sample_fetch_and_irq() {
    let mut apu = APU::new(44100);
    apu.write_register(0x4010, 0x8F); // IRQ enabled, fastest rate
    apu.write_register(0x4012, 0x00); // sample address 0xC000
    apu.write_register(0x4013, 0x00); // sample length 1
    apu.write_status(0x10); // enable DMC
    let mut addr = None;
    for _ in 0..4 {
        if let Some(a) = apu.clock() {
            addr = Some(a);
            break;
        }
    }
    assert_eq!(addr, Some(0xC000));
    apu.provide_dmc_sample(0xFF);
    // last byte consumed without looping: the DMC IRQ latches
    assert!(apu.poll_irq().is_some());
}

#[test]
fn scroll_register_tracks_ppu_addr_writes() {
    let mut sc = pico::ppu::scroll::ScrollRegister::new();
    sc.write_ppu_addr(0x21);
    sc.write_ppu_addr(0x08);
    assert_eq!(sc.addr(), 0x2108);
    sc.increment(32);
    assert_eq!(sc.addr(), 0x2128);
    assert_eq!(sc.base_nametable(), 0);
    sc.reset_latch();
    sc.write_ppu_addr(0x2C);
    sc.write_ppu_addr(0x00);
    assert_eq!(sc.base_nametable(), 3);
}

#[test]
fn uxrom_switches_first_bank_and_fixes_last() {
    let mut prg = vec![0u8; 0x8000];
    for b in 0..2 {
        for i in 0..0x4000 {
            prg[b * 0x4000 + i] = b as u8 + 1;
        }
    }
    let mut mapper = pico::mapper::uxrom::UxromMapper::new(prg, vec![], pico::cart::Mirroring::Vertical);
    assert_eq!(mapper.read_prg(0x8000), 1);
    assert_eq!(mapper.read_prg(0xC000), 2);
    mapper.write_prg(0x8000, 1);
    assert_eq!(mapper.read_prg(0x8000), 2);
    assert_eq!(mapper.read_prg(0xC000), 2);
}

#[test]
fn cnrom_switches_chr_bank() {
    let mut chr = vec![0u8; 0x4000];
    for b in 0..2 {
        for i in 0..0x2000 {
            chr[b * 0x2000 + i] = b as u8 + 5;
        }
    }
    let mut mapper = pico::mapper::cnrom::CnromMapper::new(vec![0; 0x4000], chr, pico::cart::Mirroring::Vertical);
    assert_eq!(mapper.read_chr(0x0000, pico::mapper::ChrSource::Cpu), 5);
    mapper.write_prg(0x8000, 1);
    assert_eq!(mapper.read_chr(0x0000, pico::mapper::ChrSource::Cpu), 6);
}

#[test]
fn framebuffer_renders_backdrop_color() {
    let nes_cart = test_rom(vec![0xEA]);
    let apu = APU::new(44100);
    let mut nes = Nes::new(nes_cart, apu);
    let mut frame = pico::framebuffer::Framebuffer::new();
    nes.bus.render_frame(&mut frame);
    assert_eq!(frame.data.len(), 256 * 240 * 3);
}

#[test]
fn oam_dma_through_the_bus() {
    let mut nes = new_nes(vec![0xEA]);
    // fill 0x0200-0x02FF with a marker and DMA it into OAM
    for i in 0..256u16 {
        nes.bus.write(0x0200 + i, 0xAB);
    }
    nes.bus.write(0x4014, 0x02);
    assert_eq!(nes.bus.ppu.oam_data[0], 0xAB);
    assert_eq!(nes.bus.ppu.oam_data[255], 0xAB);
}

#[test]
fn controller_order_through_the_bus() {
    let mut nes = new_nes(vec![0x00]);
    nes.set_button_pressed(0, BUTTON_A, true);
    nes.set_button_pressed(0, BUTTON_UP, true);

    // strobe pulse through the 0x4016 register
    nes.bus.write(0x4016, 1);
    nes.bus.write(0x4016, 0);

    let expected = [1u8, 0, 0, 0, 1, 0, 0, 0]; // A, B, Select, Start, Up, Down, Left, Right
    for (i, &want) in expected.iter().enumerate() {
        assert_eq!(nes.bus.read(0x4016) & 1, want, "button bit {}", i);
    }
    for _ in 0..3 {
        assert_eq!(nes.bus.read(0x4016) & 1, 1, "reads past the eighth return 1");
    }
}

#[test]
fn sprite_zero_hit_requires_background() {
    let mut mapper = NromMapper::new(vec![], vec![], pico::cart::Mirroring::Horizontal);
    let mut ppu = PPU::empty();
    ppu.oam_data[0] = 0;
    ppu.oam_data[3] = 0;
    ppu.write_to_mask(0x10); // sprites shown, background hidden

    for _ in 0..342 {
        ppu.clock(&mut mapper);
    }
    assert_eq!(ppu.status.snapshot() & 0x40, 0, "no hit while the background is off");
}

#[test]
fn sprite_zero_hit_skips_x_255() {
    let mut mapper = NromMapper::new(vec![], vec![], pico::cart::Mirroring::Horizontal);
    let mut ppu = PPU::empty();
    ppu.oam_data[0] = 0;
    ppu.oam_data[3] = 255;
    ppu.write_to_mask(0x18);

    for _ in 0..342 {
        ppu.clock(&mut mapper);
    }
    assert_eq!(ppu.status.snapshot() & 0x40, 0, "no hit for a sprite parked at x = 255");
}

#[test]
fn mmc5_scanline_irq_comparator() {
    let mut mapper = Mmc5Mapper::new(vec![0u8; 0x8000], vec![0u8; 0x2000], pico::cart::Mirroring::Horizontal);
    mapper.write_prg(0x5203, 3);
    mapper.write_prg(0x5204, 0x80);

    for _ in 0..3 {
        mapper.handle_scanline(true);
        assert!(mapper.poll_irq().is_none());
    }
    mapper.handle_scanline(true);
    assert!(mapper.poll_irq().is_some(), "IRQ latches when the comparator matches");

    mapper.write_prg(0x5204, 0); // disabling acknowledges
    assert!(mapper.poll_irq().is_none());
}

#[test]
fn mmc1_serial_shift_commits_on_fifth_write() {
    let mut mapper = Mmc1Mapper::new(vec![0u8; 0x8000], vec![0u8; 0x2000], pico::cart::Mirroring::Horizontal);
    // five writes feed 0b01110 into the shift register, committing to SRAM control
    for bit in [0u8, 1, 1, 1, 0] {
        mapper.write_prg(0xE000, bit);
    }
    // bit 4 of the committed value disables PRG RAM: reads return open bus 0xFF
    mapper.write_prg(0x6000, 0x55);
    assert_eq!(mapper.read_prg(0x6000), 0x55, "RAM still enabled after commit of 0b01110");
    for bit in [0u8, 0, 0, 0, 1] {
        mapper.write_prg(0xE000, bit);
    }
    assert_eq!(mapper.read_prg(0x6000), 0xFF, "RAM disabled once bit 4 commits");
}

#[test]
fn oam_dma_stalls_the_cpu() {
    let mut nes = new_nes(vec![0xEA, 0xEA, 0xEA, 0xEA]);
    nes.bus.write(0x4014, 0x00);
    // the next CPU tick picks the 513-cycle stall up from the bus
    nes.clock();
    nes.clock();
    nes.clock();
    let mut completions = 0;
    for _ in 0..(512 * 3) {
        if nes.clock().instruction_complete {
            completions += 1;
        }
    }
    assert_eq!(completions, 0, "the CPU is stalled through the DMA transfer");
    let mut guard = 0;
    loop {
        if nes.clock().instruction_complete {
            break;
        }
        guard += 1;
        assert!(guard < 100, "the CPU resumes once the stall is paid");
    }
}
