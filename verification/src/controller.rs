//! The controller port: a strobe latch in front of an eight-bit shift
//! sequence.

use vstd::prelude::*;
use crate::bits::{bit8, get_bit8, lemma_bit_written, set_bit8, with_bit8};

verus! {

/// A snapshot of the eight buttons, one bit each.
pub struct InputEvent {
    pub input_state: u8,
}

impl InputEvent {
    pub const A: u8 = 0;
    pub const B: u8 = 1;
    pub const SELECT: u8 = 2;
    pub const START: u8 = 3;
    pub const UP: u8 = 4;
    pub const DOWN: u8 = 5;
    pub const LEFT: u8 = 6;
    pub const RIGHT: u8 = 7;
    pub const END: u8 = 8;

    /// The snapshot in which exactly the given buttons are down.
    pub fn from_buttons(
        a: bool,
        b: bool,
        select: bool,
        start: bool,
        up: bool,
        down: bool,
        left: bool,
        right: bool,
    ) -> (r: InputEvent)
        ensures
            r.input_state == buttons_state(a, b, select, start, up, down, left, right),
    {
        let mut input_state: u8 = 0;
        set_bit8(&mut input_state, InputEvent::RIGHT, right);
        set_bit8(&mut input_state, InputEvent::LEFT, left);
        set_bit8(&mut input_state, InputEvent::DOWN, down);
        set_bit8(&mut input_state, InputEvent::UP, up);
        set_bit8(&mut input_state, InputEvent::START, start);
        set_bit8(&mut input_state, InputEvent::SELECT, select);
        set_bit8(&mut input_state, InputEvent::B, b);
        set_bit8(&mut input_state, InputEvent::A, a);
        InputEvent { input_state }
    }
}

/// The snapshot in which exactly the given buttons are down.
pub open spec fn buttons_state(
    a: bool,
    b: bool,
    select: bool,
    start: bool,
    up: bool,
    down: bool,
    left: bool,
    right: bool,
) -> u8 {
    with_bit8(with_bit8(with_bit8(with_bit8(with_bit8(with_bit8(with_bit8(with_bit8(0u8, InputEvent::RIGHT, right), InputEvent::LEFT, left), InputEvent::DOWN, down), InputEvent::UP, up), InputEvent::START, start), InputEvent::SELECT, select), InputEvent::B, b), InputEvent::A, a)
}

/// Each bit of a snapshot says whether its button is down.
pub proof fn lemma_buttons_state(
    a: bool,
    b: bool,
    select: bool,
    start: bool,
    up: bool,
    down: bool,
    left: bool,
    right: bool,
)
    ensures
        bit8(buttons_state(a, b, select, start, up, down, left, right), InputEvent::A) == a,
        bit8(buttons_state(a, b, select, start, up, down, left, right), InputEvent::B) == b,
        bit8(buttons_state(a, b, select, start, up, down, left, right), InputEvent::SELECT)
            == select,
        bit8(buttons_state(a, b, select, start, up, down, left, right), InputEvent::START)
            == start,
        bit8(buttons_state(a, b, select, start, up, down, left, right), InputEvent::UP) == up,
        bit8(buttons_state(a, b, select, start, up, down, left, right), InputEvent::DOWN) == down,
        bit8(buttons_state(a, b, select, start, up, down, left, right), InputEvent::LEFT) == left,
        bit8(buttons_state(a, b, select, start, up, down, left, right), InputEvent::RIGHT)
            == right,
{
    let s0 = 0u8;
    let s1 = with_bit8(s0, InputEvent::RIGHT, right);
    lemma_bit_written(s0, InputEvent::RIGHT, right, InputEvent::RIGHT);
    let s2 = with_bit8(s1, InputEvent::LEFT, left);
    lemma_bit_written(s1, InputEvent::LEFT, left, InputEvent::RIGHT);
    lemma_bit_written(s1, InputEvent::LEFT, left, InputEvent::LEFT);
    let s3 = with_bit8(s2, InputEvent::DOWN, down);
    lemma_bit_written(s2, InputEvent::DOWN, down, InputEvent::RIGHT);
    lemma_bit_written(s2, InputEvent::DOWN, down, InputEvent::LEFT);
    lemma_bit_written(s2, InputEvent::DOWN, down, InputEvent::DOWN);
    let s4 = with_bit8(s3, InputEvent::UP, up);
    lemma_bit_written(s3, InputEvent::UP, up, InputEvent::RIGHT);
    lemma_bit_written(s3, InputEvent::UP, up, InputEvent::LEFT);
    lemma_bit_written(s3, InputEvent::UP, up, InputEvent::DOWN);
    lemma_bit_written(s3, InputEvent::UP, up, InputEvent::UP);
    let s5 = with_bit8(s4, InputEvent::START, start);
    lemma_bit_written(s4, InputEvent::START, start, InputEvent::RIGHT);
    lemma_bit_written(s4, InputEvent::START, start, InputEvent::LEFT);
    lemma_bit_written(s4, InputEvent::START, start, InputEvent::DOWN);
    lemma_bit_written(s4, InputEvent::START, start, InputEvent::UP);
    lemma_bit_written(s4, InputEvent::START, start, InputEvent::START);
    let s6 = with_bit8(s5, InputEvent::SELECT, select);
    lemma_bit_written(s5, InputEvent::SELECT, select, InputEvent::RIGHT);
    lemma_bit_written(s5, InputEvent::SELECT, select, InputEvent::LEFT);
    lemma_bit_written(s5, InputEvent::SELECT, select, InputEvent::DOWN);
    lemma_bit_written(s5, InputEvent::SELECT, select, InputEvent::UP);
    lemma_bit_written(s5, InputEvent::SELECT, select, InputEvent::START);
    lemma_bit_written(s5, InputEvent::SELECT, select, InputEvent::SELECT);
    let s7 = with_bit8(s6, InputEvent::B, b);
    lemma_bit_written(s6, InputEvent::B, b, InputEvent::RIGHT);
    lemma_bit_written(s6, InputEvent::B, b, InputEvent::LEFT);
    lemma_bit_written(s6, InputEvent::B, b, InputEvent::DOWN);
    lemma_bit_written(s6, InputEvent::B, b, InputEvent::UP);
    lemma_bit_written(s6, InputEvent::B, b, InputEvent::START);
    lemma_bit_written(s6, InputEvent::B, b, InputEvent::SELECT);
    lemma_bit_written(s6, InputEvent::B, b, InputEvent::B);
    let s8 = with_bit8(s7, InputEvent::A, a);
    lemma_bit_written(s7, InputEvent::A, a, InputEvent::RIGHT);
    lemma_bit_written(s7, InputEvent::A, a, InputEvent::LEFT);
    lemma_bit_written(s7, InputEvent::A, a, InputEvent::DOWN);
    lemma_bit_written(s7, InputEvent::A, a, InputEvent::UP);
    lemma_bit_written(s7, InputEvent::A, a, InputEvent::START);
    lemma_bit_written(s7, InputEvent::A, a, InputEvent::SELECT);
    lemma_bit_written(s7, InputEvent::A, a, InputEvent::B);
    lemma_bit_written(s7, InputEvent::A, a, InputEvent::A);
}

/// The state of the controller port.
pub struct Controller {
    /// The strobe bit: while it is high the port keeps reporting button A.
    pub serial: bool,
    /// The buttons as last sampled.
    pub input_state: u8,
    /// The button that the next read reports; `InputEvent::END` once all
    /// eight were read.
    pub return_bit: u8,
}

impl Controller {
    /// The port never points past the end of the sequence, and points at
    /// button A while the strobe is high.
    pub open spec fn wf(&self) -> bool {
        &&& self.return_bit <= InputEvent::END
        &&& self.serial ==> self.return_bit == InputEvent::A
    }

    /// What a read reports in this state.
    pub open spec fn read_value(&self) -> u8 {
        if self.return_bit == InputEvent::END {
            1
        } else if bit8(self.input_state, self.return_bit) {
            1
        } else {
            0
        }
    }

    /// The button that the port points at after a read in this state.
    pub open spec fn next_bit(&self) -> u8 {
        if self.serial || self.return_bit == InputEvent::END {
            self.return_bit
        } else {
            (self.return_bit + 1) as u8
        }
    }

    pub fn new() -> (r: Self)
        ensures
            r.wf(),
            r.serial,
            r.input_state == 0,
            r.return_bit == InputEvent::A,
    {
        Self { serial: true, input_state: 0, return_bit: InputEvent::A }
    }

    /// Takes over the buttons that the host sampled.
    pub fn set_state_from_window(&mut self, event: InputEvent)
        ensures
            final(self).input_state == event.input_state,
            final(self).serial == old(self).serial,
            final(self).return_bit == old(self).return_bit,
    {
        self.input_state = event.input_state;
    }

    /// Latches the strobe bit and restarts the sequence at button A.
    pub fn write_to_controller(&mut self, serial: bool)
        ensures
            final(self).serial == serial,
            final(self).return_bit == InputEvent::A,
            final(self).input_state == old(self).input_state,
            final(self).wf(),
    {
        self.serial = serial;
        self.return_bit = InputEvent::A;
    }

    /// What a read would report, with nothing moved.
    pub fn peek(&self) -> (r: u8)
        requires
            self.wf(),
        ensures
            r == self.read_value(),
    {
        if self.return_bit == InputEvent::END {
            1
        } else if get_bit8(self.input_state, self.return_bit) {
            1
        } else {
            0
        }
    }

    /// Reads the port. While the strobe is high the result is button A and
    /// nothing moves; while it is low the result is the button pointed at,
    /// and the port moves on, until the sequence is over and every read
    /// gives 1.
    pub fn read_from_controller(&mut self) -> (r: u8)
        requires
            old(self).wf(),
        ensures
            r == old(self).read_value(),
            final(self).return_bit == old(self).next_bit(),
            final(self).serial == old(self).serial,
            final(self).input_state == old(self).input_state,
            final(self).wf(),
    {
        let res = self.peek();
        if !self.serial && self.return_bit != InputEvent::END {
            self.return_bit += 1;
        }
        res
    }
}

} // verus!
