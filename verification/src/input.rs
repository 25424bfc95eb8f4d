use vstd::prelude::*;

verus! {

/// The eight buttons of a standard NES controller, in the order in which
/// the controller's shift register reports them.
#[derive(Clone, Copy, Debug, PartialEq, Eq)]
pub enum Button {
    A,
    B,
    Select,
    Start,
    Up,
    Down,
    Left,
    Right,
}

/// Keyboard key codes (SDL keycode values) that the emulator reacts to.
pub const KEY_TAB: i32 = 9;
pub const KEY_RETURN: i32 = 13;
pub const KEY_SPACE: i32 = 32;
pub const KEY_A: i32 = 97;
pub const KEY_D: i32 = 100;
pub const KEY_J: i32 = 106;
pub const KEY_K: i32 = 107;
pub const KEY_S: i32 = 115;
pub const KEY_W: i32 = 119;
pub const KEY_X: i32 = 120;
pub const KEY_Z: i32 = 122;
pub const KEY_RIGHT: i32 = 1073741903;
pub const KEY_LEFT: i32 = 1073741904;
pub const KEY_DOWN: i32 = 1073741905;
pub const KEY_UP: i32 = 1073741906;
pub const KEY_LSHIFT: i32 = 1073742049;
pub const KEY_RSHIFT: i32 = 1073742053;

/// The button a keyboard key drives: the D-pad on WASD and the arrow keys,
/// B on J or Z, A on K or X, Select on either Shift or Tab, Start on Return
/// or Space.
pub open spec fn key_button(key: i32) -> Option<Button> {
    if key == KEY_W || key == KEY_UP {
        Some(Button::Up)
    } else if key == KEY_S || key == KEY_DOWN {
        Some(Button::Down)
    } else if key == KEY_A || key == KEY_LEFT {
        Some(Button::Left)
    } else if key == KEY_D || key == KEY_RIGHT {
        Some(Button::Right)
    } else if key == KEY_J || key == KEY_Z {
        Some(Button::B)
    } else if key == KEY_K || key == KEY_X {
        Some(Button::A)
    } else if key == KEY_RSHIFT || key == KEY_LSHIFT || key == KEY_TAB {
        Some(Button::Select)
    } else if key == KEY_RETURN || key == KEY_SPACE {
        Some(Button::Start)
    } else {
        None
    }
}

/// The bit of the controller report that carries a button.
pub open spec fn button_bit(b: Button) -> nat {
    match b {
        Button::A => 0,
        Button::B => 1,
        Button::Select => 2,
        Button::Start => 3,
        Button::Up => 4,
        Button::Down => 5,
        Button::Left => 6,
        Button::Right => 7,
    }
}

/// The shift register after one serial read: it shifts right and fills
/// with 1 from the top, as the hardware does once its eight bits are out.
pub open spec fn shifted_once(s: u8) -> u8 {
    ((s >> 1u8) | 0x80u8) as u8
}

/// The shift register after `k` serial reads.
pub open spec fn shifted(s: u8, k: nat) -> u8
    decreases k,
{
    if k == 0 {
        s
    } else {
        shifted_once(shifted(s, (k - 1) as nat))
    }
}

/// A standard NES controller: eight buttons and a serial shift register
/// that the CPU latches with a strobe and then reads one bit at a time.
pub struct Controller {
    pub a: bool,
    pub b: bool,
    pub select: bool,
    pub start: bool,
    pub up: bool,
    pub down: bool,
    pub left: bool,
    pub right: bool,
    pub strobe: bool,
    pub shift: u8,
}

impl Controller {
    /// Whether a button is held.
    pub open spec fn held(&self, b: Button) -> bool {
        match b {
            Button::A => self.a,
            Button::B => self.b,
            Button::Select => self.select,
            Button::Start => self.start,
            Button::Up => self.up,
            Button::Down => self.down,
            Button::Left => self.left,
            Button::Right => self.right,
        }
    }

    /// The controller with button `b` set to `on`.
    pub open spec fn with_button(self, b: Button, on: bool) -> Self {
        match b {
            Button::A => Controller { a: on, ..self },
            Button::B => Controller { b: on, ..self },
            Button::Select => Controller { select: on, ..self },
            Button::Start => Controller { start: on, ..self },
            Button::Up => Controller { up: on, ..self },
            Button::Down => Controller { down: on, ..self },
            Button::Left => Controller { left: on, ..self },
            Button::Right => Controller { right: on, ..self },
        }
    }

    /// The 8-bit report of the buttons: bit 0 is A, then B, Select, Start,
    /// Up, Down, Left and bit 7 is Right.
    pub open spec fn report(&self) -> u8 {
        ((if self.a { 1u8 } else { 0u8 }) | (if self.b { 2u8 } else { 0u8 }) | (if self.select {
            4u8
        } else {
            0u8
        }) | (if self.start { 8u8 } else { 0u8 }) | (if self.up { 16u8 } else { 0u8 }) | (
        if self.down {
            32u8
        } else {
            0u8
        }) | (if self.left { 64u8 } else { 0u8 }) | (if self.right { 128u8 } else { 0u8 })) as u8
    }

    /// The controller after a key goes down or up (`on` tells which).
    pub open spec fn after_key(self, key: i32, on: bool) -> Self {
        match key_button(key) {
            Some(b) => self.with_button(b, on),
            None => self,
        }
    }

    /// The value and the controller state that a read of 0x4016 gives.
    pub open spec fn read_result(self) -> (u8, Self) {
        if self.strobe {
            (self.report() & 1, Controller { shift: self.report(), ..self })
        } else {
            (self.shift & 1, Controller { shift: shifted_once(self.shift), ..self })
        }
    }

    /// The controller after the CPU writes `value` to 0x4016.
    pub open spec fn strobe_result(self, value: u8) -> Self {
        if value & 1 != 0 {
            Controller { shift: self.report(), strobe: true, ..self }
        } else {
            Controller { strobe: false, ..self }
        }
    }

    /// No button held, strobe low, shift register empty.
    pub fn new() -> (c: Self)
        ensures
            !c.a && !c.b && !c.select && !c.start && !c.up && !c.down && !c.left && !c.right,
            !c.strobe,
            c.shift == 0,
    {
        Self {
            a: false,
            b: false,
            select: false,
            start: false,
            up: false,
            down: false,
            left: false,
            right: false,
            strobe: false,
            shift: 0,
        }
    }

    fn set_button(&mut self, b: Button, on: bool)
        ensures
            *final(self) == old(self).with_button(b, on),
    {
        match b {
            Button::A => self.a = on,
            Button::B => self.b = on,
            Button::Select => self.select = on,
            Button::Start => self.start = on,
            Button::Up => self.up = on,
            Button::Down => self.down = on,
            Button::Left => self.left = on,
            Button::Right => self.right = on,
        }
    }

    /// The button that a key code drives, if any.
    pub fn button_for_key(key: i32) -> (r: Option<Button>)
        ensures
            r == key_button(key),
    {
        if key == KEY_W || key == KEY_UP {
            Some(Button::Up)
        } else if key == KEY_S || key == KEY_DOWN {
            Some(Button::Down)
        } else if key == KEY_A || key == KEY_LEFT {
            Some(Button::Left)
        } else if key == KEY_D || key == KEY_RIGHT {
            Some(Button::Right)
        } else if key == KEY_J || key == KEY_Z {
            Some(Button::B)
        } else if key == KEY_K || key == KEY_X {
            Some(Button::A)
        } else if key == KEY_RSHIFT || key == KEY_LSHIFT || key == KEY_TAB {
            Some(Button::Select)
        } else if key == KEY_RETURN || key == KEY_SPACE {
            Some(Button::Start)
        } else {
            None
        }
    }

    /// A key went down: the button it drives, if any, is now held.
    pub fn press(&mut self, key: i32)
        ensures
            *final(self) == old(self).after_key(key, true),
    {
        match Self::button_for_key(key) {
            Some(b) => self.set_button(b, true),
            None => {},
        }
    }

    /// A key went up: the button it drives, if any, is now released.
    pub fn release(&mut self, key: i32)
        ensures
            *final(self) == old(self).after_key(key, false),
    {
        match Self::button_for_key(key) {
            Some(b) => self.set_button(b, false),
            None => {},
        }
    }

    fn snapshot(&self) -> (r: u8)
        ensures
            r == self.report(),
    {
        let mut output: u8 = if self.a { 1 } else { 0 };
        output = output | if self.b { 2 } else { 0 };
        output = output | if self.select { 4 } else { 0 };
        output = output | if self.start { 8 } else { 0 };
        output = output | if self.up { 16 } else { 0 };
        output = output | if self.down { 32 } else { 0 };
        output = output | if self.left { 64 } else { 0 };
        output = output | if self.right { 128 } else { 0 };
        output
    }

    /// A CPU write to 0x4016: bit 0 is the strobe; while it is set the
    /// shift register keeps reloading the button report.
    pub fn write_strobe(&mut self, value: u8)
        ensures
            *final(self) == old(self).strobe_result(value),
    {
        let strobe_bit = (value & 0x01) != 0;
        if strobe_bit {
            self.shift = self.snapshot();
        }
        self.strobe = strobe_bit;
    }

    /// A CPU read of 0x4016: the next serial bit of the report.
    pub fn get_input(&mut self) -> (r: u8)
        ensures
            (r, *final(self)) == old(self).read_result(),
    {
        if self.strobe {
            self.shift = self.snapshot();
            return self.shift & 0x01;
        }
        let bit = self.shift & 0x01;
        self.shift >>= 1;
        self.shift |= 0x80;
        bit
    }
}

/// After `k` reads the low bit of the shift register is bit `k` of the
/// latched report while `k < 8`, and 1 from then on.
pub proof fn lemma_shifted_bit(s: u8, k: nat)
    ensures
        shifted(s, k) & 1 == if k < 8 {
            (s >> (k as u8)) & 1
        } else {
            1u8
        },
        k >= 8 ==> shifted(s, k) == 0xFF,
    decreases k,
{
    reveal_with_fuel(shifted, 9);
    if k <= 8 {
        let s1 = shifted(s, 1);
        let s2 = shifted(s, 2);
        let s3 = shifted(s, 3);
        let s4 = shifted(s, 4);
        let s5 = shifted(s, 5);
        let s6 = shifted(s, 6);
        let s7 = shifted(s, 7);
        let s8 = shifted(s, 8);
        assert(s1 == ((s >> 1u8) | 0x80u8));
        assert(s1 & 1 == (s >> 1u8) & 1 && s2 & 1 == (s >> 2u8) & 1 && s3 & 1 == (s >> 3u8) & 1 && s4
            & 1 == (s >> 4u8) & 1 && s5 & 1 == (s >> 5u8) & 1 && s6 & 1 == (s >> 6u8) & 1 && s7 & 1
            == (s >> 7u8) & 1 && s8 == 0xFF) by (bit_vector)
            requires
                s1 == ((s >> 1u8) | 0x80u8),
                s2 == ((s1 >> 1u8) | 0x80u8),
                s3 == ((s2 >> 1u8) | 0x80u8),
                s4 == ((s3 >> 1u8) | 0x80u8),
                s5 == ((s4 >> 1u8) | 0x80u8),
                s6 == ((s5 >> 1u8) | 0x80u8),
                s7 == ((s6 >> 1u8) | 0x80u8),
                s8 == ((s7 >> 1u8) | 0x80u8),
        ;
        assert(s >> 0u8 == s) by (bit_vector);
        assert(s8 & 1 == 1) by (bit_vector)
            requires
                s8 == 0xFF,
        ;
    } else {
        lemma_shifted_bit(s, (k - 1) as nat);
        let p = shifted(s, (k - 1) as nat);
        assert(((p >> 1u8) | 0x80u8) as u8 == 0xFF && 0xFFu8 & 1 == 1) by (bit_vector)
            requires
                p == 0xFF,
        ;
    }
}

/// The serial protocol of the controller: once the strobe has latched the
/// buttons and dropped, the k-th read (counting from 0) reports button k
/// of A, B, Select, Start, Up, Down, Left, Right, and every read after the
/// eighth reports 1.
pub proof fn lemma_serial_protocol(c: Controller, k: nat)
    requires
        !c.strobe,
    ensures
        ({
            let latched = c.strobe_result(1).strobe_result(0);
            let after = Controller { shift: shifted(latched.shift, k), ..latched };
            &&& latched.shift == c.report()
            &&& after.read_result().0 == if k < 8 {
                (c.report() >> (k as u8)) & 1
            } else {
                1u8
            }
        }),
{
    let latched = c.strobe_result(1).strobe_result(0);
    assert(1u8 & 1 != 0 && 0u8 & 1 == 0) by (bit_vector);
    lemma_shifted_bit(latched.shift, k);
}

/// The report bit of a button is set exactly when the button is held;
/// from bit 0 up the report carries A, B, Select, Start, Up, Down, Left,
/// Right.
pub proof fn lemma_report_bit(c: Controller, b: Button)
    ensures
        ((c.report() >> (button_bit(b) as u8)) & 1 == 1) == c.held(b),
        (c.report() & 1 == 1) == c.a,
        ((c.report() >> 1u8) & 1 == 1) == c.b,
        ((c.report() >> 2u8) & 1 == 1) == c.select,
        ((c.report() >> 3u8) & 1 == 1) == c.start,
        ((c.report() >> 4u8) & 1 == 1) == c.up,
        ((c.report() >> 5u8) & 1 == 1) == c.down,
        ((c.report() >> 6u8) & 1 == 1) == c.left,
        ((c.report() >> 7u8) & 1 == 1) == c.right,
{
    let (a, bb, se, st, u, d, l, r) = (c.a, c.b, c.select, c.start, c.up, c.down, c.left, c.right);
    let rep = c.report();
    assert(rep & 1 == (if a { 1u8 } else { 0u8 }) && (rep >> 1u8) & 1 == (if bb { 1u8 } else { 0u8 })
        && (rep >> 2u8) & 1 == (if se { 1u8 } else { 0u8 }) && (rep >> 3u8) & 1 == (if st { 1u8 } else {
        0u8
    }) && (rep >> 4u8) & 1 == (if u { 1u8 } else { 0u8 }) && (rep >> 5u8) & 1 == (if d { 1u8 } else {
        0u8
    }) && (rep >> 6u8) & 1 == (if l { 1u8 } else { 0u8 }) && (rep >> 7u8) & 1 == (if r { 1u8 } else {
        0u8
    })) by (bit_vector)
        requires
            rep == ((if a { 1u8 } else { 0u8 }) | (if bb { 2u8 } else { 0u8 }) | (if se { 4u8 } else {
                0u8
            }) | (if st { 8u8 } else { 0u8 }) | (if u { 16u8 } else { 0u8 }) | (if d { 32u8 } else {
                0u8
            }) | (if l { 64u8 } else { 0u8 }) | (if r { 128u8 } else { 0u8 })),
    ;
    assert(rep >> 0u8 == rep) by (bit_vector);
}

/// Releasing a key undoes pressing it: the button it drives is no longer
/// held, and every other button is as before the press.
pub proof fn lemma_release_undoes_press(c: Controller, key: i32)
    ensures
        ({
            let after = c.after_key(key, true).after_key(key, false);
            &&& forall|b: Button| #[trigger]
                after.held(b) == if key_button(key) == Some(b) {
                    false
                } else {
                    c.held(b)
                }
            &&& after.shift == c.shift && after.strobe == c.strobe
        }),
{
}

/// The keyboard layout, by SDL key code (a letter's code is its lower-case
/// ASCII code): each arrow key (right 0x4000004F, left 0x40000050, down
/// 0x40000051, up 0x40000052) and W, A, S, D drive the D-pad direction of
/// the same name or place; K and X drive A; J and Z drive B; either Shift
/// (0x400000E1, 0x400000E5) or Tab drives Select; Return or Space drives
/// Start; every other key drives nothing.
pub proof fn lemma_key_layout(key: i32)
    ensures
        (key_button(key) == Some(Button::Up)) == (key == 0x77 || key == 0x40000052),
        (key_button(key) == Some(Button::Down)) == (key == 0x73 || key == 0x40000051),
        (key_button(key) == Some(Button::Left)) == (key == 0x61 || key == 0x40000050),
        (key_button(key) == Some(Button::Right)) == (key == 0x64 || key == 0x4000004F),
        (key_button(key) == Some(Button::A)) == (key == 0x6B || key == 0x78),
        (key_button(key) == Some(Button::B)) == (key == 0x6A || key == 0x7A),
        (key_button(key) == Some(Button::Select)) == (key == 0x400000E1 || key == 0x400000E5 || key
            == 0x09),
        (key_button(key) == Some(Button::Start)) == (key == 0x0D || key == 0x20),
{
}
} // verus!
