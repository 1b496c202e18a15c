use vstd::prelude::*;
use winit::keyboard::KeyCode;
use winit_input_helper::WinitInputHelper;

verus! {

#[verifier::external_type_specification]
#[verifier::external_body]
pub struct ExWinitInputHelper(WinitInputHelper);

/// The physical keys (US layout) that the panning rule reads, each named
/// after the `winit::keyboard::KeyCode` it stands for.
#[derive(Clone, Copy, Debug, PartialEq, Eq, Structural)]
pub enum ScanKey {
    KeyA,
    KeyD,
    KeyW,
    KeyS,
    Space,
}

/// The keys among `ScanKey` that an input helper holds as held down: those
/// for which `WinitInputHelper::key_held` answers true. The helper answers from
/// the set of physical keys it records as held, a function of its own contents.
pub uninterp spec fn held_scan_keys(input: WinitInputHelper) -> Set<ScanKey>;

/// The keys among `ScanKey` that an input helper records as having gone down
/// in the current step: those for which `WinitInputHelper::key_pressed`
/// answers true. The helper answers from the key actions it recorded, a
/// function of its own contents.
pub uninterp spec fn pressed_scan_keys(input: WinitInputHelper) -> Set<ScanKey>;

/// Calls `WinitInputHelper::key_held` with the `KeyCode` of the same name as
/// `key`. Claimed: the answer is whether `key` is among the helper's held keys,
/// `held_scan_keys`; which keys those are depends on the keyboard events fed to
/// the helper and is not stated.
#[verifier::external_body]
fn key_held(input: &WinitInputHelper, key: ScanKey) -> (held: bool)
    ensures
        held == held_scan_keys(*input).contains(key),
{
    input.key_held(match key {
        ScanKey::KeyA => KeyCode::KeyA,
        ScanKey::KeyD => KeyCode::KeyD,
        ScanKey::KeyW => KeyCode::KeyW,
        ScanKey::KeyS => KeyCode::KeyS,
        ScanKey::Space => KeyCode::Space,
    })
}

/// Calls `WinitInputHelper::key_pressed` with the `KeyCode` of the same name as
/// `key`. Claimed: the answer is whether `key` is among the helper's keys that
/// went down in this step, `pressed_scan_keys`; which keys those are depends on
/// the keyboard events fed to the helper and is not stated.
#[verifier::external_body]
fn key_pressed(input: &WinitInputHelper, key: ScanKey) -> (pressed: bool)
    ensures
        pressed == pressed_scan_keys(*input).contains(key),
{
    input.key_pressed(match key {
        ScanKey::KeyA => KeyCode::KeyA,
        ScanKey::KeyD => KeyCode::KeyD,
        ScanKey::KeyW => KeyCode::KeyW,
        ScanKey::KeyS => KeyCode::KeyS,
        ScanKey::Space => KeyCode::Space,
    })
}

/// The state of the panning keys in one step of the event loop.
#[derive(Clone, Copy, Debug, PartialEq, Eq, Structural)]
pub struct PanKeys {
    /// A is held.
    pub left: bool,
    /// D is held.
    pub right: bool,
    /// W is held.
    pub up: bool,
    /// S is held.
    pub down: bool,
    /// Space went down in this step.
    pub recenter: bool,
}

/// What the camera does in one step: if `recenter`, its offset is first set
/// to the origin; then the offset moves by `(dx, dy)` times the step length.
#[derive(Clone, Copy, Debug, PartialEq, Eq, Structural)]
pub struct PanCommand {
    pub dx: i8,
    pub dy: i8,
    pub recenter: bool,
}

/// 1 for a held key, 0 otherwise.
pub open spec fn key_weight(held: bool) -> int {
    if held { 1 } else { 0 }
}

impl PanKeys {
    /// The command for these keys: D moves right and A left, W up and S down;
    /// opposite keys held together cancel.
    pub open spec fn spec_command(self) -> PanCommand {
        PanCommand {
            dx: (key_weight(self.right) - key_weight(self.left)) as i8,
            dy: (key_weight(self.up) - key_weight(self.down)) as i8,
            recenter: self.recenter,
        }
    }

    /// The panning keys of an input helper: A, D, W and S as held keys, Space
    /// as a key that went down in this step.
    pub open spec fn of_input(input: WinitInputHelper) -> PanKeys {
        PanKeys {
            left: held_scan_keys(input).contains(ScanKey::KeyA),
            right: held_scan_keys(input).contains(ScanKey::KeyD),
            up: held_scan_keys(input).contains(ScanKey::KeyW),
            down: held_scan_keys(input).contains(ScanKey::KeyS),
            recenter: pressed_scan_keys(input).contains(ScanKey::Space),
        }
    }

    /// Reads the panning keys from the input helper: A, D, W and S as held
    /// keys, Space as a key that went down in this step.
    pub fn read(input: &WinitInputHelper) -> (keys: PanKeys)
        ensures
            keys == PanKeys::of_input(*input),
            keys.left == held_scan_keys(*input).contains(ScanKey::KeyA),
            keys.right == held_scan_keys(*input).contains(ScanKey::KeyD),
            keys.up == held_scan_keys(*input).contains(ScanKey::KeyW),
            keys.down == held_scan_keys(*input).contains(ScanKey::KeyS),
            keys.recenter == pressed_scan_keys(*input).contains(ScanKey::Space),
    {
        PanKeys {
            left: key_held(input, ScanKey::KeyA),
            right: key_held(input, ScanKey::KeyD),
            up: key_held(input, ScanKey::KeyW),
            down: key_held(input, ScanKey::KeyS),
            recenter: key_pressed(input, ScanKey::Space),
        }
    }

    /// The command for these keys.
    pub fn command(&self) -> (c: PanCommand)
        ensures
            c == self.spec_command(),
            c.dx == key_weight(self.right) - key_weight(self.left),
            c.dy == key_weight(self.up) - key_weight(self.down),
            c.recenter == self.recenter,
    {
        let right: i8 = if self.right { 1 } else { 0 };
        let left: i8 = if self.left { 1 } else { 0 };
        let up: i8 = if self.up { 1 } else { 0 };
        let down: i8 = if self.down { 1 } else { 0 };
        PanCommand { dx: right - left, dy: up - down, recenter: self.recenter }
    }
}

/// The panning command for the keys that the input helper reports in this
/// step. Each direction is -1, 0 or 1, whatever keys are held.
pub fn pan_command(input: &WinitInputHelper) -> (c: PanCommand)
    ensures
        c == PanKeys::of_input(*input).spec_command(),
        -1 <= c.dx <= 1,
        -1 <= c.dy <= 1,
{
    let keys = PanKeys::read(input);
    keys.command()
}

/// Holding both keys of a direction, or neither, leaves the camera still in
/// that direction; swapping which of the two is held reverses the step.
pub proof fn lemma_opposite_keys(keys: PanKeys)
    ensures
        keys.left == keys.right ==> keys.spec_command().dx == 0,
        keys.up == keys.down ==> keys.spec_command().dy == 0,
        (PanKeys { left: keys.right, right: keys.left, ..keys }).spec_command().dx
            == -keys.spec_command().dx,
        (PanKeys { up: keys.down, down: keys.up, ..keys }).spec_command().dy
            == -keys.spec_command().dy,
{
}

} // verus!
