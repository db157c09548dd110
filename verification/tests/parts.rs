use nesemu::controller::{Controller, InputEvent};
use nesemu::error::NesError;
use nesemu::palette::{lookup_palette_color, Rgb};
use nesemu::palette_memory::PaletteMemory;
use nesemu::screen::{FrameBuffer, Screen};

#[test]
fn controller_reports_the_buttons_in_order() {
    let mut controller = Controller::new();
    // A, Select and Left are down.
    controller.set_state_from_window(InputEvent { input_state: 0b0100_0101 });
    controller.write_to_controller(true);
    controller.write_to_controller(false);
    let mut seen = Vec::new();
    for _ in 0..8 {
        seen.push(controller.read_from_controller());
    }
    assert_eq!(seen, vec![1, 0, 1, 0, 0, 0, 1, 0]);
    // Past the end every read gives 1.
    assert_eq!(controller.read_from_controller(), 1);
    assert_eq!(controller.read_from_controller(), 1);
}

#[test]
fn controller_with_strobe_high_repeats_button_a() {
    let mut controller = Controller::new();
    controller.set_state_from_window(InputEvent { input_state: 0b0000_0010 });
    controller.write_to_controller(true);
    assert_eq!(controller.read_from_controller(), 0);
    assert_eq!(controller.read_from_controller(), 0);
    controller.set_state_from_window(InputEvent { input_state: 0b0000_0011 });
    assert_eq!(controller.read_from_controller(), 1);
    assert_eq!(controller.read_from_controller(), 1);
}

#[test]
fn controller_strobe_restarts_the_sequence() {
    let mut controller = Controller::new();
    controller.set_state_from_window(InputEvent { input_state: 0b0000_0001 });
    controller.write_to_controller(false);
    assert_eq!(controller.read_from_controller(), 1);
    assert_eq!(controller.read_from_controller(), 0);
    controller.write_to_controller(false);
    assert_eq!(controller.read_from_controller(), 1);
}

#[test]
fn new_controller_has_strobe_high() {
    let mut controller = Controller::new();
    assert_eq!(controller.read_from_controller(), 0);
    controller.set_state_from_window(InputEvent { input_state: 0xFF });
    assert_eq!(controller.read_from_controller(), 1);
    assert_eq!(controller.read_from_controller(), 1);
}

#[test]
fn buttons_map_to_their_bits() {
    let none = InputEvent::from_buttons(false, false, false, false, false, false, false, false);
    assert_eq!(none.input_state, 0);
    let all = InputEvent::from_buttons(true, true, true, true, true, true, true, true);
    assert_eq!(all.input_state, 0xFF);
    assert_eq!(
        InputEvent::from_buttons(true, false, false, false, false, false, false, false).input_state,
        0x01
    );
    assert_eq!(
        InputEvent::from_buttons(false, true, false, false, false, false, false, false).input_state,
        0x02
    );
    assert_eq!(
        InputEvent::from_buttons(false, false, true, false, false, false, false, false).input_state,
        0x04
    );
    assert_eq!(
        InputEvent::from_buttons(false, false, false, true, false, false, false, false).input_state,
        0x08
    );
    assert_eq!(
        InputEvent::from_buttons(false, false, false, false, true, false, false, false).input_state,
        0x10
    );
    assert_eq!(
        InputEvent::from_buttons(false, false, false, false, false, true, false, false).input_state,
        0x20
    );
    assert_eq!(
        InputEvent::from_buttons(false, false, false, false, false, false, true, false).input_state,
        0x40
    );
    assert_eq!(
        InputEvent::from_buttons(false, false, false, false, false, false, false, true).input_state,
        0x80
    );
    assert_eq!(InputEvent::A, 0);
    assert_eq!(InputEvent::RIGHT, 7);
    assert_eq!(InputEvent::END, 8);
}

#[test]
fn palette_memory_starts_zeroed() {
    let palette = PaletteMemory::new();
    for addr in 0x3F00..=0x3F1F {
        assert_eq!(palette.get_entry(addr), 0);
    }
}

#[test]
fn palette_sprite_entries_mirror_background_entries() {
    for i in 0..4usize {
        let mut through_sprite = PaletteMemory::new();
        let mut through_background = PaletteMemory::new();
        through_sprite.set_entry(0x3F10 + 4 * i, 0x21);
        through_background.set_entry(0x3F00 + 4 * i, 0x21);
        for addr in 0x3F00..=0x3F1F {
            assert_eq!(through_sprite.get_entry(addr), through_background.get_entry(addr));
        }
    }
    // The mirror of the universal background colour is seen by every read
    // of a first entry.
    let mut palette = PaletteMemory::new();
    palette.set_entry(0x3F10, 0x2C);
    assert_eq!(palette.get_entry(0x3F00), 0x2C);
    assert_eq!(palette.get_entry(0x3F10), 0x2C);
    assert_eq!(palette.get_entry(0x3F04), 0x2C);
    assert_eq!(palette.get_entry(0x3F1C), 0x2C);
}

#[test]
fn palette_first_entries_read_as_background() {
    let mut palette = PaletteMemory::new();
    palette.set_entry(0x3F00, 0x0F);
    palette.set_entry(0x3F04, 0x11);
    palette.set_entry(0x3F05, 0x12);
    palette.set_entry(0x3F1F, 0x13);
    assert_eq!(palette.get_entry(0x3F04), 0x0F);
    assert_eq!(palette.get_entry(0x3F14), 0x0F);
    assert_eq!(palette.get_entry(0x3F05), 0x12);
    assert_eq!(palette.get_entry(0x3F1F), 0x13);
    assert_eq!(palette.get_entry(0x3F15), 0);
}

#[test]
fn palette_transparency_is_entry_zero() {
    let palette = PaletteMemory::new();
    for num in 0..8u8 {
        assert!(palette.is_entry_transparent(num, 0));
        assert!(!palette.is_entry_transparent(num, 1));
        assert!(!palette.is_entry_transparent(num, 2));
        assert!(!palette.is_entry_transparent(num, 3));
    }
}

#[test]
fn palette_colors_come_from_the_system_palette() {
    let mut palette = PaletteMemory::new();
    palette.set_entry(0x3F00, 0x01);
    palette.set_entry(0x3F01, 0x16);
    palette.set_entry(0x3F11, 0x2A);
    palette.set_entry(0x3F12, 0x40);
    assert_eq!(palette.get_color_by_idx(0, 0), Ok(Rgb { r: 0, g: 31, b: 178 }));
    assert_eq!(palette.get_color_by_idx(0, 1), Ok(Rgb { r: 199, g: 46, b: 0 }));
    assert_eq!(palette.get_color_by_idx(4, 1), Ok(Rgb { r: 67, g: 246, b: 17 }));
    assert_eq!(palette.get_color_by_idx(3, 0), Ok(Rgb { r: 0, g: 31, b: 178 }));
    assert_eq!(palette.get_color_by_idx(4, 2), Err(NesError::BadColor));
}

#[test]
fn system_palette_has_sixty_four_colors() {
    assert_eq!(lookup_palette_color(0x00), Ok(Rgb { r: 98, g: 98, b: 98 }));
    assert_eq!(lookup_palette_color(0x30), Ok(Rgb { r: 255, g: 255, b: 255 }));
    assert_eq!(lookup_palette_color(0x3F), Ok(Rgb { r: 0, g: 0, b: 0 }));
    assert_eq!(lookup_palette_color(0x40), Err(NesError::BadColor));
    assert_eq!(lookup_palette_color(0xFF), Err(NesError::BadColor));
    for idx in 0..64u8 {
        assert!(lookup_palette_color(idx).is_ok());
    }
}

#[test]
fn screen_plots_inside_and_drops_outside() {
    let mut screen = Screen::new();
    assert_eq!(screen.pixels().len(), 256 * 240);
    assert!(screen.pixels().iter().all(|p| *p == Rgb { r: 0, g: 0, b: 0 }));
    let red = Rgb { r: 255, g: 0, b: 0 };
    screen.plot_pixel(3, 2, red);
    assert_eq!(screen.pixels()[2 * 256 + 3], red);
    assert_eq!(screen.pixels().iter().filter(|p| **p == red).count(), 1);
    screen.plot_pixel(255, 239, red);
    assert_eq!(screen.pixels()[256 * 240 - 1], red);
    screen.plot_pixel(0, 240, red);
    screen.plot_pixel(255, 300, red);
    assert_eq!(screen.pixels().len(), 256 * 240);
    assert_eq!(screen.pixels().iter().filter(|p| **p == red).count(), 2);
}
