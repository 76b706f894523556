use vstd::prelude::*;

verus! {

// ---------------------------------------------------------------------------
// Game Boy Color joypad
// ---------------------------------------------------------------------------

/// The Game Boy Color joypad (P1 register); key bits are active low.
#[derive(Debug, Clone, Copy)]
pub struct GbcInput {
    /// A, B, Select, Start in bits 0-3.
    pub buttons: u8,
    /// Right, Left, Up, Down in bits 0-3.
    pub dpad: u8,
    /// The selected key groups (bits 4-5, active low).
    pub select: u8,
}

/// The Game Boy Color keys.
#[derive(Debug, Clone, Copy, PartialEq, Eq, Structural)]
pub enum GbcKey {
    A,
    B,
    Select,
    Start,
    Right,
    Left,
    Up,
    Down,
}

/// Whether a key is on the direction pad.
pub open spec fn gbc_is_direction(k: GbcKey) -> bool {
    match k {
        GbcKey::Right | GbcKey::Left | GbcKey::Up | GbcKey::Down => true,
        _ => false,
    }
}

/// The bit of a key within its group.
pub open spec fn gbc_key_mask(k: GbcKey) -> u8 {
    match k {
        GbcKey::A | GbcKey::Right => 0x01,
        GbcKey::B | GbcKey::Left => 0x02,
        GbcKey::Select | GbcKey::Up => 0x04,
        GbcKey::Start | GbcKey::Down => 0x08,
    }
}

/// The P1 register as read: the selected groups' keys in the low nibble
/// (both groups AND-ed when both are selected), the top bits set.
pub open spec fn gbc_input_read_spec(i: GbcInput) -> u8 {
    let v0 = i.select | 0xC0;
    let v1 = if i.select & 0x10 == 0 {
        (v0 & 0xF0) | i.dpad
    } else {
        v0
    };
    if i.select & 0x20 == 0 {
        (v1 & 0xF0) | i.buttons
    } else {
        v1
    }
}

impl GbcInput {
    /// All keys released, no group selected.
    pub fn new() -> (i: Self)
        ensures
            i.buttons == 0x0F && i.dpad == 0x0F && i.select == 0x30,
    {
        GbcInput { buttons: 0x0F, dpad: 0x0F, select: 0x30 }
    }

    /// Reads P1.
    pub fn read(&self) -> (v: u8)
        ensures
            v == gbc_input_read_spec(*self),
    {
        let mut val = self.select | 0xC0;
        if self.select & 0x10 == 0 {
            // Direction keys
            val = (val & 0xF0) | self.dpad;
        }
        if self.select & 0x20 == 0 {
            // Button keys
            val = (val & 0xF0) | self.buttons;
        }
        val
    }

    /// Writes P1: only the group-select bits are kept.
    pub fn write(&mut self, val: u8)
        ensures
            *final(self) == (GbcInput { select: val & 0x30, ..*old(self) }),
    {
        self.select = val & 0x30;
    }

    fn mask(key: GbcKey) -> (m: u8)
        ensures
            m == gbc_key_mask(key),
    {
        match key {
            GbcKey::A | GbcKey::Right => 0x01,
            GbcKey::B | GbcKey::Left => 0x02,
            GbcKey::Select | GbcKey::Up => 0x04,
            GbcKey::Start | GbcKey::Down => 0x08,
        }
    }

    /// Presses a key: its bit goes low.
    pub fn key_down(&mut self, key: GbcKey)
        ensures
            gbc_is_direction(key) ==> *final(self) == (GbcInput { dpad: old(self).dpad & !gbc_key_mask(key), ..*old(self) }),
            !gbc_is_direction(key) ==> *final(self) == (GbcInput {
                buttons: old(self).buttons & !gbc_key_mask(key),
                ..*old(self)
            }),
    {
        let m = Self::mask(key);
        match key {
            GbcKey::Right | GbcKey::Left | GbcKey::Up | GbcKey::Down => self.dpad = self.dpad & !m,
            _ => self.buttons = self.buttons & !m,
        }
    }

    /// Releases a key: its bit goes high.
    pub fn key_up(&mut self, key: GbcKey)
        ensures
            gbc_is_direction(key) ==> *final(self) == (GbcInput { dpad: old(self).dpad | gbc_key_mask(key), ..*old(self) }),
            !gbc_is_direction(key) ==> *final(self) == (GbcInput {
                buttons: old(self).buttons | gbc_key_mask(key),
                ..*old(self)
            }),
    {
        let m = Self::mask(key);
        match key {
            GbcKey::Right | GbcKey::Left | GbcKey::Up | GbcKey::Down => self.dpad = self.dpad | m,
            _ => self.buttons = self.buttons | m,
        }
    }
}

impl Default for GbcInput {
    fn default() -> (i: Self)
        ensures
            i.buttons == 0x0F && i.dpad == 0x0F && i.select == 0x30,
    {
        Self::new()
    }
}

// ---------------------------------------------------------------------------
// Game Boy Advance keypad
// ---------------------------------------------------------------------------

/// The Game Boy Advance keypad (KEYINPUT is active low).
#[derive(Debug, Clone, Copy)]
pub struct GbaInput {
    /// Bits 0-9: A, B, Select, Start, Right, Left, Up, Down, R, L.
    pub keyinput: u16,
    pub keycnt: u16,
}

/// The Game Boy Advance keys, in KEYINPUT bit order.
#[derive(Debug, Clone, Copy, PartialEq, Eq, Structural)]
pub enum GbaKey {
    A,
    B,
    Select,
    Start,
    Right,
    Left,
    Up,
    Down,
    R,
    L,
}

/// The KEYINPUT bit number of a key.
pub open spec fn gba_key_bit(k: GbaKey) -> u16 {
    match k {
        GbaKey::A => 0,
        GbaKey::B => 1,
        GbaKey::Select => 2,
        GbaKey::Start => 3,
        GbaKey::Right => 4,
        GbaKey::Left => 5,
        GbaKey::Up => 6,
        GbaKey::Down => 7,
        GbaKey::R => 8,
        GbaKey::L => 9,
    }
}

impl GbaKey {
    /// The KEYINPUT bit number of this key.
    pub fn bit(self) -> (b: u16)
        ensures
            b == gba_key_bit(self),
            b < 10,
    {
        match self {
            GbaKey::A => 0,
            GbaKey::B => 1,
            GbaKey::Select => 2,
            GbaKey::Start => 3,
            GbaKey::Right => 4,
            GbaKey::Left => 5,
            GbaKey::Up => 6,
            GbaKey::Down => 7,
            GbaKey::R => 8,
            GbaKey::L => 9,
        }
    }
}

impl GbaInput {
    /// All ten keys released.
    pub fn new() -> (i: Self)
        ensures
            i.keyinput == 0x03FF && i.keycnt == 0,
    {
        GbaInput { keyinput: 0x03FF, keycnt: 0 }
    }

    pub fn read_keyinput(&self) -> (v: u16)
        ensures
            v == self.keyinput,
    {
        self.keyinput
    }

    /// Presses a key: its bit goes low.
    pub fn key_down(&mut self, key: GbaKey)
        ensures
            *final(self) == (GbaInput { keyinput: old(self).keyinput & !(1u16 << gba_key_bit(key)), ..*old(self) }),
    {
        self.keyinput = self.keyinput & !(1u16 << key.bit());
    }

    /// Releases a key: its bit goes high.
    pub fn key_up(&mut self, key: GbaKey)
        ensures
            *final(self) == (GbaInput { keyinput: old(self).keyinput | (1u16 << gba_key_bit(key)), ..*old(self) }),
    {
        self.keyinput = self.keyinput | (1u16 << key.bit());
    }
}

impl Default for GbaInput {
    fn default() -> (i: Self)
        ensures
            i.keyinput == 0x03FF && i.keycnt == 0,
    {
        Self::new()
    }
}

// ---------------------------------------------------------------------------
// Nintendo DS keypad
// ---------------------------------------------------------------------------

/// The Nintendo DS keys and touch screen (key registers are active low).
#[derive(Debug, Clone, Copy)]
pub struct NdsInput {
    pub keyinput: u16,
    /// X in bit 0, Y in bit 1.
    pub extkeyin: u16,
    pub touchscreen_x: u16,
    pub touchscreen_y: u16,
    pub touchscreen_pressed: bool,
}

/// The Nintendo DS keys: the ten of KEYINPUT, then X and Y.
#[derive(Debug, Clone, Copy, PartialEq, Eq, Structural)]
pub enum NdsKey {
    A,
    B,
    Select,
    Start,
    Right,
    Left,
    Up,
    Down,
    R,
    L,
    X,
    Y,
}

/// For a KEYINPUT key its bit number; X and Y are on EXTKEYIN bits 0 and 1.
pub open spec fn nds_key_bit(k: NdsKey) -> u16 {
    match k {
        NdsKey::A => 0,
        NdsKey::B => 1,
        NdsKey::Select => 2,
        NdsKey::Start => 3,
        NdsKey::Right => 4,
        NdsKey::Left => 5,
        NdsKey::Up => 6,
        NdsKey::Down => 7,
        NdsKey::R => 8,
        NdsKey::L => 9,
        NdsKey::X => 0,
        NdsKey::Y => 1,
    }
}

/// Whether a key is on EXTKEYIN.
pub open spec fn nds_is_ext(k: NdsKey) -> bool {
    k == NdsKey::X || k == NdsKey::Y
}

impl NdsKey {
    /// The bit number of this key in its register.
    pub fn bit(self) -> (b: u16)
        ensures
            b == nds_key_bit(self),
            b < 10,
    {
        match self {
            NdsKey::A => 0,
            NdsKey::B => 1,
            NdsKey::Select => 2,
            NdsKey::Start => 3,
            NdsKey::Right => 4,
            NdsKey::Left => 5,
            NdsKey::Up => 6,
            NdsKey::Down => 7,
            NdsKey::R => 8,
            NdsKey::L => 9,
            NdsKey::X => 0,
            NdsKey::Y => 1,
        }
    }
}

impl NdsInput {
    /// All keys released, the screen not touched.
    pub fn new() -> (i: Self)
        ensures
            i.keyinput == 0x03FF && i.extkeyin == 0x007F,
            i.touchscreen_x == 0 && i.touchscreen_y == 0 && !i.touchscreen_pressed,
    {
        NdsInput { keyinput: 0x03FF, extkeyin: 0x007F, touchscreen_x: 0, touchscreen_y: 0, touchscreen_pressed: false }
    }

    pub fn read_keyinput(&self) -> (v: u16)
        ensures
            v == self.keyinput,
    {
        self.keyinput
    }

    pub fn read_extkeyin(&self) -> (v: u16)
        ensures
            v == self.extkeyin,
    {
        self.extkeyin
    }

    /// Presses a key: its bit goes low.
    pub fn key_down(&mut self, key: NdsKey)
        ensures
            !nds_is_ext(key) ==> *final(self) == (NdsInput {
                keyinput: old(self).keyinput & !(1u16 << nds_key_bit(key)),
                ..*old(self)
            }),
            nds_is_ext(key) ==> *final(self) == (NdsInput {
                extkeyin: old(self).extkeyin & !(1u16 << nds_key_bit(key)),
                ..*old(self)
            }),
    {
        let b = key.bit();
        match key {
            NdsKey::X | NdsKey::Y => self.extkeyin = self.extkeyin & !(1u16 << b),
            _ => self.keyinput = self.keyinput & !(1u16 << b),
        }
    }

    /// Releases a key: its bit goes high.
    pub fn key_up(&mut self, key: NdsKey)
        ensures
            !nds_is_ext(key) ==> *final(self) == (NdsInput {
                keyinput: old(self).keyinput | (1u16 << nds_key_bit(key)),
                ..*old(self)
            }),
            nds_is_ext(key) ==> *final(self) == (NdsInput {
                extkeyin: old(self).extkeyin | (1u16 << nds_key_bit(key)),
                ..*old(self)
            }),
    {
        let b = key.bit();
        match key {
            NdsKey::X | NdsKey::Y => self.extkeyin = self.extkeyin | (1u16 << b),
            _ => self.keyinput = self.keyinput | (1u16 << b),
        }
    }

    /// Records the touch-screen position and whether it is pressed.
    pub fn set_touchscreen(&mut self, x: u16, y: u16, pressed: bool)
        ensures
            *final(self) == (NdsInput {
                touchscreen_x: x,
                touchscreen_y: y,
                touchscreen_pressed: pressed,
                ..*old(self)
            }),
    {
        self.touchscreen_x = x;
        self.touchscreen_y = y;
        self.touchscreen_pressed = pressed;
    }
}

impl Default for NdsInput {
    fn default() -> (i: Self)
        ensures
            i.keyinput == 0x03FF && i.extkeyin == 0x007F,
            i.touchscreen_x == 0 && i.touchscreen_y == 0 && !i.touchscreen_pressed,
    {
        Self::new()
    }
}

/// A pressed key reads as 0 in KEYINPUT and a released one as 1; pressing
/// or releasing a key leaves every other key's bit as it was.
pub proof fn lemma_gba_key_press_release(keyinput: u16, k: GbaKey, j: u16)
    requires
        j < 16,
    ensures
        (keyinput & !(1u16 << gba_key_bit(k))) & (1u16 << gba_key_bit(k)) == 0,
        (keyinput | (1u16 << gba_key_bit(k))) & (1u16 << gba_key_bit(k)) != 0,
        j != gba_key_bit(k) ==> (keyinput & !(1u16 << gba_key_bit(k))) & (1u16 << j) == keyinput & (1u16 << j),
        j != gba_key_bit(k) ==> (keyinput | (1u16 << gba_key_bit(k))) & (1u16 << j) == keyinput & (1u16 << j),
{
    let b = gba_key_bit(k);
    assert(b < 16);
    assert({
        &&& (keyinput & !(1u16 << b)) & (1u16 << b) == 0
        &&& (keyinput | (1u16 << b)) & (1u16 << b) != 0
        &&& j != b ==> (keyinput & !(1u16 << b)) & (1u16 << j) == keyinput & (1u16 << j)
        &&& j != b ==> (keyinput | (1u16 << b)) & (1u16 << j) == keyinput & (1u16 << j)
    }) by (bit_vector)
        requires
            b < 16,
            j < 16,
    ;
}

/// Releasing a key undoes pressing it when it was released before.
pub proof fn lemma_gbc_press_then_release(i: GbcInput, k: GbcKey)
    requires
        gbc_is_direction(k) ==> i.dpad & gbc_key_mask(k) != 0,
        !gbc_is_direction(k) ==> i.buttons & gbc_key_mask(k) != 0,
    ensures
        gbc_is_direction(k) ==> (i.dpad & !gbc_key_mask(k)) | gbc_key_mask(k) == i.dpad,
        !gbc_is_direction(k) ==> (i.buttons & !gbc_key_mask(k)) | gbc_key_mask(k) == i.buttons,
{
    let m = gbc_key_mask(k);
    let d = i.dpad;
    let b = i.buttons;
    assert((d & m != 0 ==> (d & !m) | m == d) && (b & m != 0 ==> (b & !m) | m == b)) by (bit_vector)
        requires
            m == 1 || m == 2 || m == 4 || m == 8,
    ;
}

} // verus!
