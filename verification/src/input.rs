//! The controller ports: a latched shift register driven by an eight-bit
//! button state, polled one bit at a time over the bus.

use vstd::prelude::*;

verus! {

/// A standard controller: an eight-bit shift register, the latch that
/// reloads it, and the button state it reloads from.
#[derive(Debug, Clone, Copy, PartialEq, Eq, Structural)]
pub struct NesInputDevice {
    /// Shift register that the console polls bit by bit.
    pub shift_register: u8,
    /// While set, every poll sees a freshly reloaded shift register.
    pub reload_latch: bool,
    /// The state of the eight buttons, low bit first:
    /// A, B, Select, Start, Up, Down, Left, Right.
    pub input_state: u8,
}

/// One of the console's two input ports.
#[derive(Debug, Clone, Copy, PartialEq, Eq, Structural)]
pub enum NesInput {
    /// No controller in the port.
    Disconnected,
    /// A controller, with its state.
    Connected(NesInputDevice),
}

/// The shift register a device exposes to the next poll: reloaded from the
/// button state while the latch is held, its own value otherwise.
pub open spec fn spec_effective_shift(d: NesInputDevice) -> u8 {
    if d.reload_latch {
        d.input_state
    } else {
        d.shift_register
    }
}

/// A polled shift register after the poll: shifted right once, with a one
/// entering at the top, so that polls past the eighth keep returning one.
pub open spec fn spec_shift_step(s: u8) -> u8 {
    (s >> 1) | 0x80
}

/// The shift register after `n` polls of a register that started at `x`.
pub open spec fn spec_shift_after(x: u8, n: nat) -> u8
    decreases n,
{
    if n == 0 {
        x
    } else {
        spec_shift_step(spec_shift_after(x, (n - 1) as nat))
    }
}

/// After eight polls the register is all ones, and stays that way.
proof fn lemma_shift_saturates(x: u8, n: nat)
    requires
        n >= 8,
    ensures
        spec_shift_after(x, n) == 0xff,
    decreases n,
{
    if n == 8 {
        assert(spec_shift_after(x, 8) == 0xff) by (bit_vector);
    } else {
        lemma_shift_saturates(x, (n - 1) as nat);
        assert(spec_shift_step(0xff) == 0xff) by (bit_vector);
    }
}

/// A latched controller hands its button state out serially: with the
/// register reloaded from a state `x`, the `n`-th poll reads bit `n` of `x`
/// for the first eight polls, and a one on every poll after those.
pub proof fn lemma_controller_poll_bits(x: u8, n: u8)
    ensures
        n < 8 ==> (spec_shift_after(x, n as nat) & 1) == ((x >> n) & 1),
        n >= 8 ==> (spec_shift_after(x, n as nat) & 1) == 1,
{
    if n < 8 {
        assert((spec_shift_after(x, 0) & 1) == ((x >> 0) & 1)
            && (spec_shift_after(x, 1) & 1) == ((x >> 1) & 1)
            && (spec_shift_after(x, 2) & 1) == ((x >> 2) & 1)
            && (spec_shift_after(x, 3) & 1) == ((x >> 3) & 1)
            && (spec_shift_after(x, 4) & 1) == ((x >> 4) & 1)
            && (spec_shift_after(x, 5) & 1) == ((x >> 5) & 1)
            && (spec_shift_after(x, 6) & 1) == ((x >> 6) & 1)
            && (spec_shift_after(x, 7) & 1) == ((x >> 7) & 1)) by (bit_vector);
    } else {
        lemma_shift_saturates(x, n as nat);
        assert(0xffu8 & 1 == 1) by (bit_vector);
    }
}

impl NesInputDevice {
    /// A freshly connected controller holding the given button state.
    pub fn new(input_state: u8) -> (result: NesInputDevice)
        ensures
            result == (NesInputDevice { shift_register: 0, reload_latch: false, input_state }),
    {
        NesInputDevice { shift_register: 0x00, reload_latch: false, input_state }
    }

    /// Replaces the button state the register reloads from.
    pub fn update_state(&mut self, input_state: u8)
        ensures
            *final(self) == (NesInputDevice { input_state, ..*old(self) }),
    {
        self.input_state = input_state;
    }

    /// A write to the controller register: bit 0 arms or releases the reload
    /// latch, and an armed latch immediately reloads the shift register.
    pub fn latch(&mut self, latch: u8)
        ensures
            final(self).reload_latch == (latch & 0x01 == 0x01),
            final(self).input_state == old(self).input_state,
            final(self).shift_register == (if latch & 0x01 == 0x01 {
                old(self).input_state
            } else {
                old(self).shift_register
            }),
    {
        self.reload_latch = latch & 0x01 == 0x01;
        self.reload_shift_register();
    }

    /// Polls one bit: the low bit of the shift register, with the upper five
    /// bits of the previous bus value riding along as open bus. The register
    /// shifts right and a one enters at the top.
    pub fn poll(&mut self, bus: u8) -> (result: u8)
        ensures
            result == (spec_effective_shift(*old(self)) & 0x01) | (bus & 0xf8),
            final(self).shift_register == spec_shift_step(spec_effective_shift(*old(self))),
            final(self).reload_latch == old(self).reload_latch,
            final(self).input_state == old(self).input_state,
    {
        self.reload_shift_register();
        let result = self.shift_register & 0x01;
        self.shift_register = self.shift_register >> 1;
        self.shift_register = self.shift_register | 0x80;
        result | (bus & 0xf8)
    }

    /// Copies the button state into the shift register while the latch is
    /// armed.
    pub fn reload_shift_register(&mut self)
        ensures
            final(self).shift_register == spec_effective_shift(*old(self)),
            final(self).reload_latch == old(self).reload_latch,
            final(self).input_state == old(self).input_state,
    {
        if self.reload_latch {
            self.shift_register = self.input_state;
        }
    }
}

impl NesInput {
    /// A write to the port's register; a connected controller latches it.
    pub fn latch(&mut self, latch: u8)
        ensures
            *old(self) is Disconnected ==> *final(self) == *old(self),
            (*old(self)) matches NesInput::Connected(d) ==> ((*final(self)) matches NesInput::Connected(
                n,
            ) && {
                &&& n.reload_latch == (latch & 0x01 == 0x01)
                &&& n.input_state == d.input_state
                &&& n.shift_register == (if latch & 0x01 == 0x01 {
                    d.input_state
                } else {
                    d.shift_register
                })
            }),
    {
        match self {
            NesInput::Disconnected => {},
            NesInput::Connected(device) => device.latch(latch),
        }
    }

    /// Polls one bit from the port. An empty port leaves the lines to the
    /// open bus.
    pub fn poll(&mut self, bus: u8) -> (result: u8)
        ensures
            *old(self) is Disconnected ==> *final(self) == *old(self) && result == bus & 0xf4,
            (*old(self)) matches NesInput::Connected(d) ==> ((*final(self)) matches NesInput::Connected(
                n,
            ) && {
                &&& result == (spec_effective_shift(d) & 0x01) | (bus & 0xf8)
                &&& n.shift_register == spec_shift_step(spec_effective_shift(d))
                &&& n.reload_latch == d.reload_latch
                &&& n.input_state == d.input_state
            }),
    {
        match self {
            NesInput::Disconnected => bus & 0xf4,
            NesInput::Connected(device) => device.poll(bus),
        }
    }
}

} // verus!
