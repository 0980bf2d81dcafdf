//! Tests of the shell's decision core and of its boundary to the real
//! CHIP-8 machine.

use chip8_ui::dispatch::Action;
use chip8_ui::dispatch::HostEvent;
use chip8_ui::dispatch::dispatch;
use chip8_ui::dispatch::dispatch_all;
use chip8_ui::keys::HostKey;
use chip8_ui::keys::keymap;
use chip8_ui::raster::FrameCell;
use chip8_ui::raster::rasterize;
use chip8_ui::title::title_for;
use chip8_ui::title::updated_title;
use chip8_ui::vm_shell::LoadError;
use chip8_ui::vm_shell::create_vm;
use chip8_ui::vm_shell::press_host_key;
use chip8_ui::vm_shell::release_host_key;
use chip8_ui::vm_shell::render_pass;
use chip8_ui::vm_shell::title_after_step;

const NORMAL_TITLE: &str = "Chip8";
const BEEP_TITLE: &str = "♬ Chip8 ♬";

fn keypad_table() -> Vec<(HostKey, u8)> {
    vec![
        (HostKey::D1, 0x1),
        (HostKey::D2, 0x2),
        (HostKey::D3, 0x3),
        (HostKey::Q, 0x4),
        (HostKey::W, 0x5),
        (HostKey::E, 0x6),
        (HostKey::A, 0x7),
        (HostKey::S, 0x8),
        (HostKey::D, 0x9),
        (HostKey::Z, 0xA),
        (HostKey::X, 0x0),
        (HostKey::C, 0xB),
        (HostKey::D4, 0xC),
        (HostKey::R, 0xD),
        (HostKey::F, 0xE),
        (HostKey::V, 0xF),
    ]
}

#[test]
fn keymap_maps_the_sixteen_keypad_keys() {
    let table = keypad_table();
    let mut seen = [false; 16];
    for (key, code) in table {
        assert_eq!(keymap(key), Some(code));
        assert!(!seen[code as usize], "keypad code {} mapped twice", code);
        seen[code as usize] = true;
    }
    assert!(seen.iter().all(|s| *s), "some keypad code is never mapped");
}

#[test]
fn keymap_leaves_other_keys_unmapped() {
    let unmapped = vec![
        HostKey::D0,
        HostKey::D5,
        HostKey::D6,
        HostKey::D7,
        HostKey::D8,
        HostKey::D9,
        HostKey::B,
        HostKey::G,
        HostKey::H,
        HostKey::I,
        HostKey::J,
        HostKey::K,
        HostKey::L,
        HostKey::M,
        HostKey::N,
        HostKey::O,
        HostKey::P,
        HostKey::T,
        HostKey::U,
        HostKey::Y,
        HostKey::Other,
    ];
    for key in unmapped {
        assert_eq!(keymap(key), None);
    }
}

fn uniform_grid(pixel: u8) -> Vec<Vec<u8>> {
    (0..32).map(|_| vec![pixel; 64]).collect()
}

#[test]
fn rasterize_all_zero_grid_is_all_off() {
    let cells = rasterize(&uniform_grid(0));
    assert_eq!(cells.len(), 2048);
    assert!(cells.iter().all(|cell| !cell.on));
}

#[test]
fn rasterize_all_nonzero_grid_is_all_on() {
    let cells = rasterize(&uniform_grid(0xFF));
    assert_eq!(cells.len(), 2048);
    assert!(cells.iter().all(|cell| cell.on));
}

#[test]
fn rasterize_addresses_every_cell_row_major() {
    let cells = rasterize(&uniform_grid(0));
    for (i, cell) in cells.iter().enumerate() {
        assert_eq!(cell.col as usize, i % 64);
        assert_eq!(cell.row as usize, i / 64);
    }
}

#[test]
fn rasterize_lights_exactly_the_lit_pixels() {
    let mut grid = uniform_grid(0);
    grid[3][5] = 1;
    grid[31][63] = 0x80;
    let cells = rasterize(&grid);
    for (i, cell) in cells.iter().enumerate() {
        let expect_on = i == 3 * 64 + 5 || i == 31 * 64 + 63;
        assert_eq!(cell.on, expect_on, "cell {} has the wrong color", i);
    }
}

#[test]
fn title_reflects_the_beep_flag() {
    assert_eq!(title_for(false), NORMAL_TITLE);
    assert_eq!(title_for(true), BEEP_TITLE);
}

#[test]
fn title_update_is_idempotent() {
    let once = updated_title(NORMAL_TITLE, true);
    let twice = updated_title(once, true);
    assert_eq!(once, BEEP_TITLE);
    assert_eq!(twice, BEEP_TITLE);

    let once = updated_title(BEEP_TITLE, false);
    let twice = updated_title(once, false);
    assert_eq!(once, NORMAL_TITLE);
    assert_eq!(twice, NORMAL_TITLE);
}

#[test]
fn dispatch_orders_actions_by_priority() {
    let e = HostEvent {
        update: true,
        render: true,
        press: Some(HostKey::Z),
        release: Some(HostKey::V),
    };
    let acts = dispatch(&e);
    assert_eq!(
        acts,
        vec![Action::Step, Action::Render, Action::SetKey(0xA), Action::UnsetKey(0xF)]
    );
}

#[test]
fn dispatch_ignores_unmapped_keys() {
    let e = HostEvent {
        update: false,
        render: false,
        press: Some(HostKey::G),
        release: Some(HostKey::Other),
    };
    assert_eq!(dispatch(&e), vec![]);
}

#[test]
fn dispatch_of_empty_event_is_empty() {
    let e = HostEvent { update: false, render: false, press: None, release: None };
    assert_eq!(dispatch(&e), vec![]);
}

#[test]
fn press_is_dispatched_before_a_following_render() {
    let press = HostEvent {
        update: false,
        render: false,
        press: Some(HostKey::Z),
        release: None,
    };
    let render = HostEvent { update: false, render: true, press: None, release: None };
    let acts = dispatch_all(&vec![press, render]);
    assert_eq!(acts, vec![Action::SetKey(0xA), Action::Render]);
}

#[test]
fn create_vm_accepts_a_rom_that_fits() {
    assert!(create_vm(&vec![0x12, 0x00]).is_ok());
    assert!(create_vm(&vec![0u8; 3584]).is_ok());
}

#[test]
fn create_vm_rejects_an_oversized_rom() {
    let r = create_vm(&vec![0u8; 3585]);
    match r {
        Err(e) => {
            assert_eq!(e, LoadError::RomTooLarge);
            assert_eq!(e.message(), "ROM was larger than available RAM");
        },
        Ok(_) => panic!("an oversized ROM must be rejected"),
    }
}

#[test]
fn fresh_machine_renders_all_off_and_titles_normal() {
    let vm = create_vm(&vec![0x12, 0x00]).unwrap();
    let cells = rasterize(&uniform_grid(0));
    let rendered = render_pass(&vm);
    assert_eq!(rendered.len(), 2048);
    let expected: Vec<FrameCell> = cells;
    assert_eq!(rendered, expected);
    assert_eq!(title_after_step(&vm), NORMAL_TITLE);
}

#[test]
fn beeping_machine_titles_the_beep_indicator() {
    // LD V0, 60 ; LD ST, V0 ; then an idle jump-to-self.
    let rom = vec![0x60, 0x3C, 0xF0, 0x18, 0x12, 0x04];
    let mut vm = create_vm(&rom).unwrap();
    assert!(!vm.beeping());
    vm.step(0.01);
    assert!(vm.beeping());
    assert_eq!(title_after_step(&vm), BEEP_TITLE);
    assert_eq!(updated_title(title_after_step(&vm), vm.beeping()), BEEP_TITLE);
}

#[test]
fn key_events_resolve_through_the_keypad_table() {
    let mut vm = create_vm(&vec![0x12, 0x00]).unwrap();
    assert_eq!(press_host_key(&mut vm, HostKey::Z), Some(0xA));
    assert_eq!(release_host_key(&mut vm, HostKey::Z), Some(0xA));
    assert_eq!(press_host_key(&mut vm, HostKey::G), None);
    assert_eq!(release_host_key(&mut vm, HostKey::Other), None);
    // The key state is untouched by rendering concerns: the screen stays off.
    assert!(render_pass(&vm).iter().all(|cell| !cell.on));
}
