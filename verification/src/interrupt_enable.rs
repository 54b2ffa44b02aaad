//! The interrupt-enable register of the 8250 UART family.

use vstd::prelude::*;

use crate::bits::{bit8, bit8_read, bit8_with, bit8_write};

verus! {

/// The 8-bit interrupt-enable value: one bit per interrupt source, plus
/// the power-management bits of later parts.
#[derive(Clone, Copy, Debug, PartialEq, Eq, Structural)]
pub struct InterruptEnableValue {
    bits: u8,
}

impl View for InterruptEnableValue {
    type V = u8;

    closed spec fn view(&self) -> u8 {
        self.bits
    }
}

impl InterruptEnableValue {
    /// The all-clear value: every interrupt disabled.
    pub fn new() -> (r: Self)
        ensures
            r@ == 0,
    {
        InterruptEnableValue { bits: 0 }
    }

    /// A value with exactly the given raw bits.
    pub fn from_u8(value: u8) -> (r: Self)
        ensures
            r@ == value,
    {
        InterruptEnableValue { bits: value }
    }

    /// The raw bits.
    pub fn as_u8(&self) -> (r: u8)
        ensures
            r == self@,
    {
        self.bits
    }

    /// Bit 0: interrupt when received data is available.
    pub fn received_data_available_interrupt(self) -> (r: bool)
        ensures
            r == bit8(self@, 0),
    {
        bit8_read(self.bits, 0)
    }

    /// Writes bit 0.
    pub fn set_data_received_interrupt(&mut self, value: bool)
        ensures
            final(self)@ == bit8_with(old(self)@, 0, value),
    {
        self.bits = bit8_write(self.bits, 0, value);
    }

    /// Bit 1: interrupt when the transmitter holding register empties.
    pub fn transmitter_holding_register_empty_interrupt(self) -> (r: bool)
        ensures
            r == bit8(self@, 1),
    {
        bit8_read(self.bits, 1)
    }

    /// Writes bit 1.
    pub fn set_transmitter_empty_interrupt(&mut self, value: bool)
        ensures
            final(self)@ == bit8_with(old(self)@, 1, value),
    {
        self.bits = bit8_write(self.bits, 1, value);
    }

    /// Bit 2: interrupt on a line-status change.
    pub fn line_status_interrupt(self) -> (r: bool)
        ensures
            r == bit8(self@, 2),
    {
        bit8_read(self.bits, 2)
    }

    /// Writes bit 2.
    pub fn set_line_status_interrupt(&mut self, value: bool)
        ensures
            final(self)@ == bit8_with(old(self)@, 2, value),
    {
        self.bits = bit8_write(self.bits, 2, value);
    }

    /// Bit 3: interrupt on a modem-status change.
    pub fn modem_status_interrupt(self) -> (r: bool)
        ensures
            r == bit8(self@, 3),
    {
        bit8_read(self.bits, 3)
    }

    /// Writes bit 3.
    pub fn set_modem_status_interrupt(&mut self, value: bool)
        ensures
            final(self)@ == bit8_with(old(self)@, 3, value),
    {
        self.bits = bit8_write(self.bits, 3, value);
    }

    /// Bit 4: sleep mode, on parts that support it.
    pub fn sleep_mode_enabled(self) -> (r: bool)
        ensures
            r == bit8(self@, 4),
    {
        bit8_read(self.bits, 4)
    }

    /// Writes bit 4.
    pub fn set_sleep_mode_enabled(&mut self, value: bool)
        ensures
            final(self)@ == bit8_with(old(self)@, 4, value),
    {
        self.bits = bit8_write(self.bits, 4, value);
    }

    /// Bit 5: low-power mode, on parts that support it.
    pub fn low_power_mode_enabled(self) -> (r: bool)
        ensures
            r == bit8(self@, 5),
    {
        bit8_read(self.bits, 5)
    }

    /// Writes bit 5.
    pub fn set_low_power_mode_enabled(&mut self, value: bool)
        ensures
            final(self)@ == bit8_with(old(self)@, 5, value),
    {
        self.bits = bit8_write(self.bits, 5, value);
    }
}

} // verus!
