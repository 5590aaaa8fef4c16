//! The standard joypad: eight buttons behind a strobe line and a serial
//! read port.

use vstd::prelude::*;
use crate::bits::bit;
use crate::bits::lemma_set_clear_u8;

verus! {

/// One of the eight buttons, named as on the pad.
#[allow(non_camel_case_types)]
#[derive(Debug, Clone, Copy, PartialEq, Eq, Structural)]
pub enum ControllerButton {
    A,
    B,
    SELECT,
    START,
    UP,
    DOWN,
    LEFT,
    RIGHT,
}

impl ControllerButton {
    /// Position in the serial report: A comes first, Right last.
    pub open spec fn position(self) -> int {
        match self {
            ControllerButton::A => 0,
            ControllerButton::B => 1,
            ControllerButton::SELECT => 2,
            ControllerButton::START => 3,
            ControllerButton::UP => 4,
            ControllerButton::DOWN => 5,
            ControllerButton::LEFT => 6,
            ControllerButton::RIGHT => 7,
        }
    }

    /// The bit that stands for the button in the pad's state byte: `$80` for
    /// A down to `$01` for Right.
    pub fn bits(self) -> (r: u8)
        ensures
            r == report_mask(self.position()),
    {
        match self {
            ControllerButton::A => 0x80,
            ControllerButton::B => 0x40,
            ControllerButton::SELECT => 0x20,
            ControllerButton::START => 0x10,
            ControllerButton::UP => 0x08,
            ControllerButton::DOWN => 0x04,
            ControllerButton::LEFT => 0x02,
            ControllerButton::RIGHT => 0x01,
        }
    }
}

/// The state-byte bit reported at a position of the serial read-out.
pub open spec fn report_mask(position: int) -> u8 {
    if position == 0 {
        0x80
    } else if position == 1 {
        0x40
    } else if position == 2 {
        0x20
    } else if position == 3 {
        0x10
    } else if position == 4 {
        0x08
    } else if position == 5 {
        0x04
    } else if position == 6 {
        0x02
    } else {
        0x01
    }
}

/// Whether a state byte has the button at a position down.
pub open spec fn button_down(state: u8, position: int) -> bool {
    bit(state as int, report_mask(position) as int)
}

/// The buttons of a state byte, in the order of the serial report.
pub open spec fn buttons_of(state: u8) -> Seq<bool> {
    Seq::new(8, |i: int| button_down(state, i))
}

/// A joypad. `buttons` follows the fingers, `latched` is the snapshot that
/// the serial port reports, `index` counts the bits already read from it.
pub struct Controller {
    pub buttons: u8,
    pub latched: u8,
    pub strobe: bool,
    pub index: u8,
}

/// The mathematical content of a [`Controller`]: which of the eight buttons
/// are held, which were held when the strobe fell, the strobe line, and how
/// many bits of the report have been read.
pub struct ControllerView {
    pub held: Seq<bool>,
    pub latched: Seq<bool>,
    pub strobe: bool,
    pub index: u8,
}

impl View for Controller {
    type V = ControllerView;

    open spec fn view(&self) -> ControllerView {
        ControllerView {
            held: buttons_of(self.buttons),
            latched: buttons_of(self.latched),
            strobe: self.strobe,
            index: self.index,
        }
    }
}

impl ControllerView {
    /// A pad at rest: nothing pressed, strobe low, read-out at its start.
    pub open spec fn rest() -> ControllerView {
        ControllerView {
            held: Seq::new(8, |i: int| false),
            latched: Seq::new(8, |i: int| false),
            strobe: false,
            index: 0,
        }
    }

    /// Whether a button is held down.
    pub open spec fn is_pressed(self, button: ControllerButton) -> bool {
        self.held[button.position()]
    }

    /// The pad with one button forced down or up; the others keep their state.
    pub open spec fn set_button(self, button: ControllerButton, pressed: bool) -> ControllerView {
        ControllerView { held: self.held.update(button.position(), pressed), ..self }
    }

    /// The pad after a write to its port. The lowest bit of the value is
    /// the strobe; when it falls the button state is latched and the
    /// read-out starts over.
    pub open spec fn write(self, value: u8) -> ControllerView {
        let strobe = value % 2 == 1;
        if self.strobe && !strobe {
            ControllerView { strobe, latched: self.held, index: 0, ..self }
        } else {
            ControllerView { strobe, ..self }
        }
    }

    /// What a read of the port returns: the live A button while the strobe
    /// is high; else the next latched button; and 1 once all eight are out.
    pub open spec fn read_value(self) -> u8 {
        if self.strobe {
            if self.held[0] { 1 } else { 0 }
        } else if self.index < 8 {
            if self.latched[self.index as int] { 1 } else { 0 }
        } else {
            1
        }
    }

    /// The pad after a read: the read-out advances unless the strobe is high
    /// or all eight bits are out.
    pub open spec fn read(self) -> ControllerView {
        if !self.strobe && self.index < 8 {
            ControllerView { index: (self.index + 1) as u8, ..self }
        } else {
            self
        }
    }

    /// The pad after `n` reads in a row.
    pub open spec fn read_n(self, n: nat) -> ControllerView
        decreases n,
    {
        if n == 0 {
            self
        } else {
            self.read().read_n((n - 1) as nat)
        }
    }
}

proof fn lemma_bit_algebra(x: u8, m: u8, o: u8)
    by (bit_vector)
    ensures
        0u8 & o == 0,
        (x | m) & m == m,
        (x & !m) & m == 0,
        m & o == 0 ==> (x | m) & o == x & o,
        m & o == 0 ==> (x & !m) & o == x & o,
        (x & 0x01 != 0) <==> x % 2 == 1,
        0x80u8 & 0x40 == 0 && 0x80u8 & 0x20 == 0 && 0x80u8 & 0x10 == 0 && 0x80u8 & 0x08 == 0,
        0x80u8 & 0x04 == 0 && 0x80u8 & 0x02 == 0 && 0x80u8 & 0x01 == 0 && 0x40u8 & 0x20 == 0,
        0x40u8 & 0x10 == 0 && 0x40u8 & 0x08 == 0 && 0x40u8 & 0x04 == 0 && 0x40u8 & 0x02 == 0,
        0x40u8 & 0x01 == 0 && 0x20u8 & 0x10 == 0 && 0x20u8 & 0x08 == 0 && 0x20u8 & 0x04 == 0,
        0x20u8 & 0x02 == 0 && 0x20u8 & 0x01 == 0 && 0x10u8 & 0x08 == 0 && 0x10u8 & 0x04 == 0,
        0x10u8 & 0x02 == 0 && 0x10u8 & 0x01 == 0 && 0x08u8 & 0x04 == 0 && 0x08u8 & 0x02 == 0,
        0x08u8 & 0x01 == 0 && 0x04u8 & 0x02 == 0 && 0x04u8 & 0x01 == 0 && 0x02u8 & 0x01 == 0,
        m & o == o & m,
{
}

/// Setting or clearing the bit of one position changes that position and
/// no other.
proof fn lemma_set_bit(x: u8, i: int, j: int)
    requires
        0 <= i < 8,
        0 <= j < 8,
    ensures
        button_down(x | report_mask(i), j) == (i == j || button_down(x, j)),
        button_down(x & !report_mask(i), j) == (i != j && button_down(x, j)),
        !button_down(0, j),
{
    let m = report_mask(i);
    let o = report_mask(j);
    lemma_bit_algebra(x, m, o);
    lemma_set_clear_u8(x, o);
    lemma_set_clear_u8(x | m, o);
    lemma_set_clear_u8(x & !m, o);
    lemma_set_clear_u8(0, o);
}

impl Controller {
    pub fn new() -> (r: Self)
        ensures
            r@ == ControllerView::rest(),
    {
        let r = Controller { buttons: 0, latched: 0, strobe: false, index: 0 };
        proof {
            assert forall|j: int| 0 <= j < 8 implies !button_down(0, j) by {
                lemma_set_bit(0, 0, j);
            }
            assert(r@.held =~= ControllerView::rest().held);
            assert(r@.latched =~= ControllerView::rest().latched);
        }
        r
    }

    /// Puts the pad back to rest.
    pub fn reset(&mut self)
        ensures
            final(self)@ == ControllerView::rest(),
    {
        self.buttons = 0;
        self.latched = 0;
        self.strobe = false;
        self.index = 0;
        proof {
            assert forall|j: int| 0 <= j < 8 implies !button_down(0, j) by {
                lemma_set_bit(0, 0, j);
            }
            assert(self@.held =~= ControllerView::rest().held);
            assert(self@.latched =~= ControllerView::rest().latched);
        }
    }

    /// Forces one button down or up.
    pub fn _set_button(&mut self, button: ControllerButton, pressed: bool)
        ensures
            final(self)@ == old(self)@.set_button(button, pressed),
    {
        if pressed {
            self.buttons = self.buttons | button.bits();
        } else {
            self.buttons = self.buttons & !button.bits();
        }
        proof {
            assert forall|j: int| 0 <= j < 8 implies self@.held[j] == old(self)@.set_button(
                button,
                pressed,
            ).held[j] by {
                lemma_set_bit(old(self).buttons, button.position(), j);
            }
            assert(self@.held =~= old(self)@.set_button(button, pressed).held);
        }
    }

    /// Writes the port. See [`ControllerView::write`].
    pub fn write(&mut self, value: u8)
        ensures
            final(self)@ == old(self)@.write(value),
    {
        proof {
            lemma_bit_algebra(value, 0, 0);
        }
        let was_strobe = self.strobe;
        self.strobe = (value & 0x01) != 0;
        if was_strobe && !self.strobe {
            self.latched = self.buttons;
            self.index = 0;
        }
    }

    /// Reads the port. See [`ControllerView::read_value`] for the value and
    /// [`ControllerView::read`] for the effect.
    pub fn read(&mut self) -> (r: u8)
        ensures
            r == old(self)@.read_value(),
            final(self)@ == old(self)@.read(),
    {
        proof {
            lemma_set_clear_u8(self.buttons, 0x80);
            lemma_set_clear_u8(self.latched, report_mask(self.index as int));
        }
        let state: bool = if self.strobe {
            self.buttons & 0x80 != 0
        } else if self.index < 8 {
            let mask: u8 = match self.index {
                0 => 0x80,
                1 => 0x40,
                2 => 0x20,
                3 => 0x10,
                4 => 0x08,
                5 => 0x04,
                6 => 0x02,
                _ => 0x01,
            };
            self.latched & mask != 0
        } else {
            true
        };
        if !self.strobe && self.index < 8 {
            self.index += 1;
        }
        if state {
            0x01
        } else {
            0x00
        }
    }

    /// Holds a button down.
    pub fn press(&mut self, button: ControllerButton)
        ensures
            final(self)@ == old(self)@.set_button(button, true),
    {
        self._set_button(button, true);
    }

    /// Lets a button go.
    pub fn release(&mut self, button: ControllerButton)
        ensures
            final(self)@ == old(self)@.set_button(button, false),
    {
        self._set_button(button, false);
    }

    /// Whether a button is held down.
    pub fn _is_pressed(&self, button: ControllerButton) -> (r: bool)
        ensures
            r == self@.is_pressed(button),
    {
        proof {
            lemma_set_clear_u8(self.buttons, report_mask(button.position()));
        }
        self.buttons & button.bits() != 0
    }
}

/// The serial report. After the strobe has gone high and low again, read
/// number `k` (counting from 0) returns button `k` as it was held when the
/// strobe fell, in the order A, B, Select, Start, Up, Down, Left, Right,
/// and every read from the ninth on returns 1.
pub proof fn lemma_report_order(c: ControllerView, k: nat)
    ensures
        c.write(1).write(0).read_n(k).read_value() == if k < 8 {
            if c.held[k as int] { 1u8 } else { 0u8 }
        } else {
            1u8
        },
{
    lemma_read_n(c.write(1).write(0), k);
}

proof fn lemma_read_n(c: ControllerView, k: nat)
    requires
        !c.strobe,
        c.index <= 8,
    ensures
        c.read_n(k) == (ControllerView {
            index: if c.index + k < 8 { (c.index + k) as u8 } else { 8u8 },
            ..c
        }),
    decreases k,
{
    if k > 0 {
        lemma_read_n(c.read(), (k - 1) as nat);
    }
}

} // verus!
