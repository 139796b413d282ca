//! Device-level scenarios: the divider/timer pair, the scanline state
//! machine and its frame budget, the bus decode with DMA, the joypad
//! matrix, and the whole-frame compositor.

use rugameboy::bus::Bus;
use rugameboy::gpu::{Gpu, GpuMode};
use rugameboy::joypad::JoypadKey;
use rugameboy::machine::Vm;
use rugameboy::timer::Timer;

#[test]
fn div_reset_clears_counter_too() {
    let mut timer = Timer::new();
    timer.update(300);
    assert_eq!(timer.load(0xff04).unwrap(), 1);
    timer.store(0xff04, 0x55).unwrap();
    assert_eq!(timer.load(0xff04).unwrap(), 0);
    // The internal accumulator was zeroed as well: 255 more cycles do not
    // reach the next increment.
    timer.update(255);
    assert_eq!(timer.load(0xff04).unwrap(), 0);
    timer.update(1);
    assert_eq!(timer.load(0xff04).unwrap(), 1);
}

#[test]
fn timer_overflow_reloads_and_raises() {
    let mut timer = Timer::new();
    timer.store(0xff07, 0x04).unwrap();
    timer.store(0xff05, 0xff).unwrap();
    timer.store(0xff06, 0x42).unwrap();
    timer.update(1024);
    assert_eq!(timer.load(0xff05).unwrap(), 0x42);
    assert!(timer.is_interrupt());
    assert_eq!(timer.load(0xff04).unwrap(), 4);
}

#[test]
fn timer_disabled_does_not_count() {
    let mut timer = Timer::new();
    timer.store(0xff05, 0x10).unwrap();
    timer.update(4096);
    assert_eq!(timer.load(0xff05).unwrap(), 0x10);
    assert!(!timer.is_interrupt());
}

#[test]
fn tac_encodes_scale_and_enable() {
    let mut timer = Timer::new();
    timer.store(0xff07, 0x07).unwrap();
    assert_eq!(timer.load(0xff07).unwrap(), 0x07);
    timer.store(0xff07, 0x01).unwrap();
    assert_eq!(timer.load(0xff07).unwrap(), 0x01);
}

#[test]
fn frame_budget_is_70224_cycles() {
    let mut gpu = Gpu::new();
    let mut raises: u32 = 0;
    let mut was_set = false;
    for _line in 0..144 {
        gpu.update(80);
        gpu.update(172);
        gpu.update(204);
        if gpu.is_interrupt && !was_set {
            raises += 1;
            was_set = true;
        }
    }
    assert!(matches!(gpu.mode, GpuMode::VBlank));
    assert_eq!(gpu.line, 144);
    for _line in 0..10 {
        gpu.update(456);
    }
    assert!(matches!(gpu.mode, GpuMode::ScanlineOAM));
    assert_eq!(gpu.line, 0);
    assert_eq!(raises, 1);
    assert!(gpu.is_interrupt);
    assert_eq!(144 * (80 + 172 + 204) + 10 * 456, 70224);
}

#[test]
fn tile_line_decodes_bit_pairs() {
    let mut gpu = Gpu::new();
    gpu.store(0x8000, 0b1010_1010).unwrap();
    gpu.store(0x8001, 0b0101_0101).unwrap();
    let pixels = gpu.get_tile_line(0, 0);
    assert_eq!(pixels, vec![2, 1, 2, 1, 2, 1, 2, 1]);
}

#[test]
fn oam_store_updates_sprite_cache() {
    let mut gpu = Gpu::new();
    gpu.store(0xfe00, 20).unwrap();
    gpu.store(0xfe01, 12).unwrap();
    gpu.store(0xfe02, 7).unwrap();
    gpu.store(0xfe03, 0b1011_0000).unwrap();
    assert_eq!(gpu.sprite[0].y, 4);
    assert_eq!(gpu.sprite[0].x, 4);
    assert_eq!(gpu.sprite[0].tile_idx, 7);
    assert!(gpu.sprite[0].priority);
    assert!(!gpu.sprite[0].flip_y);
    assert!(gpu.sprite[0].flip_x);
    assert!(gpu.sprite[0].palette_number);
}

#[test]
fn bus_routes_regions_and_holes() {
    let mut bus = Bus::new(vec![0x31, 0x07]);
    assert_eq!(bus.load8(0x0000).unwrap(), 0x31);
    assert_eq!(bus.load8(0x0001).unwrap(), 0x07);
    // Reads past the supplied image return 0; writes to ROM are ignored.
    assert_eq!(bus.load8(0x7fff).unwrap(), 0);
    bus.store8(0x0000, 0xaa).unwrap();
    assert_eq!(bus.load8(0x0000).unwrap(), 0x31);
    // Work RAM and high RAM read back what was stored.
    bus.store8(0xc123, 0x5a).unwrap();
    assert_eq!(bus.load8(0xc123).unwrap(), 0x5a);
    bus.store8(0xff80, 0xa5).unwrap();
    assert_eq!(bus.load8(0xff80).unwrap(), 0xa5);
    // The unusable hole reads 0 and swallows writes.
    bus.store8(0xfea5, 0x77).unwrap();
    assert_eq!(bus.load8(0xfea5).unwrap(), 0);
    // Echo RAM is not decoded.
    assert!(bus.load8(0xe000).is_err());
    // Sound registers are decoded but inert.
    bus.store8(0xff10, 0x99).unwrap();
    assert_eq!(bus.load8(0xff10).unwrap(), 0);
}

#[test]
fn bus_word_access_is_little_endian() {
    let mut bus = Bus::new(vec![]);
    bus.store16(0xc000, 0x1234).unwrap();
    assert_eq!(bus.load8(0xc000).unwrap(), 0x34);
    assert_eq!(bus.load8(0xc001).unwrap(), 0x12);
    assert_eq!(bus.load16(0xc000).unwrap(), 0x1234);
}

#[test]
fn interrupt_latches_encode_bits() {
    let mut bus = Bus::new(vec![]);
    bus.store8(0xffff, 0x15).unwrap();
    assert_eq!(bus.load8(0xffff).unwrap(), 0x15);
    bus.store8(0xff0f, 0x05).unwrap();
    assert_eq!(bus.load8(0xff0f).unwrap(), 0x05);
    bus.store8(0xff0f, 0x00).unwrap();
    assert_eq!(bus.load8(0xff0f).unwrap(), 0x00);
}

#[test]
fn lcdc_round_trips_through_the_bus() {
    let mut bus = Bus::new(vec![]);
    bus.store8(0xff40, 0x93).unwrap();
    assert_eq!(bus.load8(0xff40).unwrap(), 0x93);
    bus.store8(0xff42, 0x12).unwrap();
    bus.store8(0xff43, 0x34).unwrap();
    assert_eq!(bus.load8(0xff42).unwrap(), 0x12);
    assert_eq!(bus.load8(0xff43).unwrap(), 0x34);
}

#[test]
fn ly_write_resets_the_line() {
    let mut bus = Bus::new(vec![]);
    bus.gpu.update(80);
    bus.gpu.update(172);
    bus.gpu.update(204);
    assert_eq!(bus.load8(0xff44).unwrap(), 1);
    bus.store8(0xff44, 0x7f).unwrap();
    assert_eq!(bus.load8(0xff44).unwrap(), 0);
}

#[test]
fn dma_copies_into_oam_and_cache() {
    let mut bus = Bus::new(vec![]);
    for i in 0..160u16 {
        bus.store8(0xc000 + i, (i as u8).wrapping_add(3)).unwrap();
    }
    bus.store8(0xff46, 0xc0).unwrap();
    assert_eq!(bus.load8(0xfe00).unwrap(), 3);
    assert_eq!(bus.load8(0xfe9f).unwrap(), 162);
    // The decoded cache followed: record 0 has Y = 3 - 16 and X = 4 - 8.
    assert_eq!(bus.gpu.sprite[0].y, -13);
    assert_eq!(bus.gpu.sprite[0].x, -4);
}

#[test]
fn joypad_rows_are_active_low() {
    let mut bus = Bus::new(vec![]);
    bus.joypad.presskey(JoypadKey::RIGHT);
    bus.store8(0xff00, 0x20).unwrap();
    assert_eq!(bus.load8(0xff00).unwrap(), 0x0e);
    bus.store8(0xff00, 0x10).unwrap();
    assert_eq!(bus.load8(0xff00).unwrap(), 0x0f);
    bus.joypad.presskey(JoypadKey::START);
    assert_eq!(bus.load8(0xff00).unwrap(), 0x07);
    bus.joypad.releasekey(JoypadKey::START);
    assert_eq!(bus.load8(0xff00).unwrap(), 0x0f);
    bus.store8(0xff00, 0x30).unwrap();
    assert_eq!(bus.load8(0xff00).unwrap(), 0x0f);
}

#[test]
fn background_pixels_follow_palette() {
    let mut vm = Vm::new(vec![]);
    // Tile 0 row 0 all index 3; identity-style palette maps 3 to black.
    vm.cpu.bus.store8(0x8000, 0xff).unwrap();
    vm.cpu.bus.store8(0x8001, 0xff).unwrap();
    vm.cpu.bus.store8(0xff47, 0xe4).unwrap();
    vm.render();
    assert_eq!(vm.buffer[0], 0x0000_0000);
    assert_eq!(vm.buffer[7], 0x0000_0000);
    // Row 1 of tile 0 is still index 0: white.
    assert_eq!(vm.buffer[160], 0x00ff_ffff);
}

#[test]
fn sprite_paints_over_background() {
    let mut vm = Vm::new(vec![]);
    vm.cpu.bus.store8(0xff40, 0x93).unwrap();
    vm.cpu.bus.store8(0xff47, 0xe4).unwrap();
    vm.cpu.bus.store8(0xff48, 0xe4).unwrap();
    // Sprite 0 at screen (0,0), tile 1; tile 1 row 0 is all index 2.
    vm.cpu.bus.store8(0xfe00, 16).unwrap();
    vm.cpu.bus.store8(0xfe01, 8).unwrap();
    vm.cpu.bus.store8(0xfe02, 1).unwrap();
    vm.cpu.bus.store8(0xfe03, 0).unwrap();
    vm.cpu.bus.store8(0x8010, 0xff).unwrap();
    vm.cpu.bus.store8(0x8011, 0x00).unwrap();
    vm.render();
    assert_eq!(vm.buffer[0], 0x0055_5555);
    assert_eq!(vm.buffer[7], 0x0055_5555);
    // Row 1 of the sprite's tile is transparent: the background shows.
    assert_eq!(vm.buffer[160], 0x00ff_ffff);
}

#[test]
fn double_height_sprite_paints_lower_tile() {
    let mut vm = Vm::new(vec![]);
    // LCDC: operation, BG, sprites, and 8x16 sprite size.
    vm.cpu.bus.store8(0xff40, 0x97).unwrap();
    vm.cpu.bus.store8(0xff48, 0xe4).unwrap();
    // Sprite 0 at screen (0,0) with tile pair 2/3; only row 0 of tile 3
    // (sprite row 8) holds pixels.
    vm.cpu.bus.store8(0xfe00, 16).unwrap();
    vm.cpu.bus.store8(0xfe01, 8).unwrap();
    vm.cpu.bus.store8(0xfe02, 2).unwrap();
    vm.cpu.bus.store8(0xfe03, 0).unwrap();
    vm.cpu.bus.store8(0x8030, 0xff).unwrap();
    vm.cpu.bus.store8(0x8031, 0x00).unwrap();
    vm.render();
    assert_eq!(vm.buffer[8 * 160], 0x0055_5555);
    assert_eq!(vm.buffer[0], 0x00ff_ffff);
}

#[test]
fn advance_frame_reaches_vblank() {
    // A two-byte backward jump spins in place while the frame elapses.
    let mut image = vec![0u8; 0x8000];
    image[0x100] = 0x18;
    image[0x101] = 0xfe;
    let mut vm = Vm::new(image);
    vm.advance_frame().unwrap();
    assert!(matches!(vm.cpu.bus.gpu.mode, GpuMode::VBlank));
    assert_eq!(vm.buffer.len(), 160 * 144);
}

#[test]
fn machine_keys_reach_the_joypad() {
    let mut vm = Vm::new(vec![]);
    vm.press(JoypadKey::A);
    vm.cpu.bus.store8(0xff00, 0x10).unwrap();
    assert_eq!(vm.cpu.bus.load8(0xff00).unwrap(), 0x0e);
    vm.release(JoypadKey::A);
    assert_eq!(vm.cpu.bus.load8(0xff00).unwrap(), 0x0f);
}
