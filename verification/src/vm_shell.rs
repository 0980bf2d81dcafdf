//! The narrow boundary to the external CHIP-8 machine.
//!
//! The interpreter itself is the `chip8_vm` crate; the shell consumes it
//! through the few calls below, each declared with the contract its source
//! shows. The machine's screen contents and beep flag are named here as
//! functions of the machine value, so the verified run-loop logic can say
//! exactly what it reads and what it leaves untouched. Stepping the machine
//! takes the host's elapsed-time delta, a floating-point number, so the step
//! call itself stays with the host layer; everything around it is decided
//! and verified here.

use vstd::prelude::*;

verus! {

use crate::keys::HostKey;
use crate::keys::keymap;
use crate::keys::keymap_spec;
use crate::raster::FrameCell;
use crate::raster::raster_spec;
use crate::raster::rasterize;
use crate::title::title_for;
use crate::title::title_spec;

#[verifier::external_type_specification]
#[verifier::external_body]
pub struct ExVm(chip8_vm::vm::Vm);

#[verifier::external_type_specification]
#[verifier::external_body]
pub struct ExChip8Error(chip8_vm::error::Chip8Error);

/// The machine's screen contents: 32 rows of 64 pixel bytes, zero for an
/// off pixel, nonzero for a lit one.
pub uninterp spec fn screen_of(vm: chip8_vm::vm::Vm) -> Seq<Seq<u8>>;

/// The machine's beep flag: whether its sound timer is active.
pub uninterp spec fn beep_of(vm: chip8_vm::vm::Vm) -> bool;

/// The machine's keypad state: 16 bytes, one per button, nonzero while the
/// button is held pressed.
pub uninterp spec fn keys_of(vm: chip8_vm::vm::Vm) -> Seq<u8>;

/// The keypad state with no button pressed.
pub open spec fn idle_keys() -> Seq<u8> {
    Seq::new(16, |i: int| 0u8)
}

/// The screen of a machine that has not drawn yet: all pixels off.
pub open spec fn blank_screen() -> Seq<Seq<u8>> {
    Seq::new(32, |y: int| Seq::new(64, |x: int| 0u8))
}

/// Relies on chip8_vm's `Vm::new`: a fresh machine has every screen pixel
/// zero, its sound timer inactive, and no keypad button pressed.
#[verifier::external_body]
fn vm_new() -> (vm: chip8_vm::vm::Vm)
    ensures
        screen_of(vm) == blank_screen(),
        !beep_of(vm),
        keys_of(vm) == idle_keys(),
{
    chip8_vm::vm::Vm::new()
}

/// Relies on chip8_vm's `Vm::load_rom`, reading from an in-memory slice
/// (which cannot fail): the load succeeds exactly when the ROM fits into
/// the RAM above the program start, 4096 - 512 = 3584 bytes, and returns
/// the ROM's length; it writes RAM only, never the screen or the timers.
#[verifier::external_body]
fn vm_load_rom(vm: &mut chip8_vm::vm::Vm, rom: &Vec<u8>) -> (r: Result<usize, chip8_vm::error::Chip8Error>)
    ensures
        r is Ok <==> rom@.len() <= 3584,
        r matches Ok(n) ==> n as nat == rom@.len(),
        screen_of(*final(vm)) == screen_of(*old(vm)),
        beep_of(*final(vm)) == beep_of(*old(vm)),
        keys_of(*final(vm)) == keys_of(*old(vm)),
{
    let mut source: &[u8] = rom.as_slice();
    vm.load_rom(&mut source)
}

/// Relies on chip8_vm's `Vm::beeping`: a pure query, true exactly when the
/// sound timer is active.
#[verifier::external_body]
fn vm_beeping(vm: &chip8_vm::vm::Vm) -> (b: bool)
    ensures
        b == beep_of(*vm),
{
    vm.beeping()
}

/// Relies on chip8_vm's `Vm::set_key`: marks exactly one keypad button
/// pressed, touching key and register state only, never the screen or the
/// sound timer. The index must be a legal keypad code; the call panics
/// above 15.
#[verifier::external_body]
fn vm_set_key(vm: &mut chip8_vm::vm::Vm, code: u8)
    requires
        code < 16,
    ensures
        keys_of(*final(vm)) == keys_of(*old(vm)).update(code as int, 1u8),
        screen_of(*final(vm)) == screen_of(*old(vm)),
        beep_of(*final(vm)) == beep_of(*old(vm)),
{
    vm.set_key(code)
}

/// Relies on chip8_vm's `Vm::unset_key`: marks exactly one keypad button
/// released, touching key state only. The index must be a legal keypad
/// code; the call panics above 15.
#[verifier::external_body]
fn vm_unset_key(vm: &mut chip8_vm::vm::Vm, code: u8)
    requires
        code < 16,
    ensures
        keys_of(*final(vm)) == keys_of(*old(vm)).update(code as int, 0u8),
        screen_of(*final(vm)) == screen_of(*old(vm)),
        beep_of(*final(vm)) == beep_of(*old(vm)),
{
    vm.unset_key(code)
}

/// Relies on chip8_vm's `Vm::screen_rows`: the 64 * 32 = 2048 pixel bytes
/// of the screen handed out as 32 chunks of 64; copying each chunk yields
/// the machine's live screen contents at this moment.
#[verifier::external_body]
fn vm_screen_rows(vm: &chip8_vm::vm::Vm) -> (rows: Vec<Vec<u8>>)
    ensures
        rows.deep_view() == screen_of(*vm),
        rows@.len() == 32,
        forall|y: int| 0 <= y < 32 ==> (#[trigger] rows@[y])@.len() == 64,
{
    vm.screen_rows().map(|chunk| chunk.to_vec()).collect()
}

/// The shell's startup error: the one way creating the machine can fail.
#[derive(Clone, Copy, PartialEq, Eq, Structural, Debug)]
pub enum LoadError {
    /// The ROM did not fit into the machine's RAM above the program start.
    RomTooLarge,
}

impl LoadError {
    /// A human-readable description for the fatal startup report.
    pub fn message(&self) -> (m: &'static str)
        ensures
            m@ == "ROM was larger than available RAM"@,
    {
        "ROM was larger than available RAM"
    }
}

/// Creates a machine and loads `rom` into it, as startup does. Returns the
/// ready machine exactly when the ROM fits into RAM; any failure is the
/// caller's signal to abort before the run loop starts.
pub fn create_vm(rom: &Vec<u8>) -> (r: Result<chip8_vm::vm::Vm, LoadError>)
    ensures
        r is Ok <==> rom@.len() <= 3584,
        r matches Ok(vm) ==> screen_of(vm) == blank_screen(),
        r matches Ok(vm) ==> !beep_of(vm) && keys_of(vm) == idle_keys(),
        r matches Err(e) ==> e == LoadError::RomTooLarge,
{
    let mut vm = vm_new();
    match vm_load_rom(&mut vm, rom) {
        Ok(_) => Ok(vm),
        Err(_) => Err(LoadError::RomTooLarge),
    }
}

/// Applies one key-down event: resolves the host key through the keypad
/// table and, when mapped, marks exactly that button pressed; an unmapped
/// key is a no-op. Returns the resolved code. The screen and the beep flag
/// are untouched either way.
pub fn press_host_key(vm: &mut chip8_vm::vm::Vm, k: HostKey) -> (mapped: Option<u8>)
    ensures
        mapped == keymap_spec(k),
        mapped matches Some(c) ==> keys_of(*final(vm)) == keys_of(*old(vm)).update(
            c as int,
            1u8,
        ),
        mapped is None ==> keys_of(*final(vm)) == keys_of(*old(vm)),
        screen_of(*final(vm)) == screen_of(*old(vm)),
        beep_of(*final(vm)) == beep_of(*old(vm)),
{
    match keymap(k) {
        Some(code) => {
            vm_set_key(vm, code);
            Some(code)
        },
        None => None,
    }
}

/// Applies one key-up event, the release counterpart of
/// [`press_host_key`].
pub fn release_host_key(vm: &mut chip8_vm::vm::Vm, k: HostKey) -> (mapped: Option<u8>)
    ensures
        mapped == keymap_spec(k),
        mapped matches Some(c) ==> keys_of(*final(vm)) == keys_of(*old(vm)).update(
            c as int,
            0u8,
        ),
        mapped is None ==> keys_of(*final(vm)) == keys_of(*old(vm)),
        screen_of(*final(vm)) == screen_of(*old(vm)),
        beep_of(*final(vm)) == beep_of(*old(vm)),
{
    match keymap(k) {
        Some(code) => {
            vm_unset_key(vm, code);
            Some(code)
        },
        None => None,
    }
}

/// One render-due pass: reads the machine's live screen at this moment and
/// computes all 2048 cell-draw operations for it.
pub fn render_pass(vm: &chip8_vm::vm::Vm) -> (cells: Vec<FrameCell>)
    ensures
        cells@ == raster_spec(screen_of(*vm)),
        cells@.len() == 2048,
{
    let rows = vm_screen_rows(vm);
    proof {
        assert(forall|y: int|
            0 <= y < 32 ==> #[trigger] rows.deep_view()[y].len() == rows@[y]@.len());
    }
    rasterize(&rows)
}

/// The title to display right after a machine step: derived fresh from the
/// machine's beep flag alone, before anything else runs.
pub fn title_after_step(vm: &chip8_vm::vm::Vm) -> (t: &'static str)
    ensures
        t@ == title_spec(beep_of(*vm)),
{
    title_for(vm_beeping(vm))
}

} // verus!
