//! The register file: 32 addressable bytes, and the two registers beside it
//! that no address reaches, the direction register and the option register.

use crate::nbitnumber::u5;
use vstd::prelude::*;

verus! {

/// The number of addressable registers.
pub const REGISTER_COUNT: usize = 32;

/// The status register after a power-on reset: time-out and power-down bits
/// set.
pub const STATUS_POR_VALUE: u8 = 0b0001_1000;

/// The file select register after a power-on reset.
pub const FSR_POR_VALUE: u8 = 0b1110_0000;

/// The oscillator calibration register after a power-on reset.
pub const OSCCAL_POR_VALUE: u8 = 0b1111_1110;

/// The comparator control register after a power-on reset.
pub const CMCON0_POR_VALUE: u8 = 0b1111_1111;

/// The direction register after a power-on reset: every pin an input.
pub const TRIS_POR_VALUE: u8 = 0b0000_1111;

/// The option register after a power-on reset.
pub const OPTION_POR_VALUE: u8 = 0b1111_1111;

/// The address of the indirect data register.
pub const INDF_ADDRESS: u16 = 0;

/// The address of the timer register.
pub const TMR0_ADDRESS: u16 = 1;

/// The address of the low byte of the program counter.
pub const PCL_ADDRESS: u16 = 2;

/// The address of the status register.
pub const STATUS_ADDRESS: u16 = 3;

/// The address of the file select register.
pub const FSR_ADDRESS: u16 = 4;

/// The address of the oscillator calibration register.
pub const OSCCAL_ADDRESS: u16 = 5;

/// The address of the port register.
pub const GPIO_ADDRESS: u16 = 6;

/// The address of the comparator control register.
pub const CMCON0_ADDRESS: u16 = 7;

/// The registers with a fixed purpose, which lie at the bottom of the
/// register file.
#[derive(Debug, Clone, Copy, PartialEq, Eq, Structural)]
pub enum SpecialPurposeRegisters {
    INDF,
    TMR0,
    PCL,
    STATUS,
    FSR,
    OSCCAL,
    GPIO,
    CMCON0,
}

impl SpecialPurposeRegisters {
    /// The address of the register.
    pub open spec fn spec_address(self) -> int {
        match self {
            SpecialPurposeRegisters::INDF => INDF_ADDRESS as int,
            SpecialPurposeRegisters::TMR0 => TMR0_ADDRESS as int,
            SpecialPurposeRegisters::PCL => PCL_ADDRESS as int,
            SpecialPurposeRegisters::STATUS => STATUS_ADDRESS as int,
            SpecialPurposeRegisters::FSR => FSR_ADDRESS as int,
            SpecialPurposeRegisters::OSCCAL => OSCCAL_ADDRESS as int,
            SpecialPurposeRegisters::GPIO => GPIO_ADDRESS as int,
            SpecialPurposeRegisters::CMCON0 => CMCON0_ADDRESS as int,
        }
    }

    /// The address of the register.
    pub fn address(self) -> (r: u5)
        ensures
            r@ == self.spec_address(),
    {
        match self {
            SpecialPurposeRegisters::INDF => u5::new(INDF_ADDRESS),
            SpecialPurposeRegisters::TMR0 => u5::new(TMR0_ADDRESS),
            SpecialPurposeRegisters::PCL => u5::new(PCL_ADDRESS),
            SpecialPurposeRegisters::STATUS => u5::new(STATUS_ADDRESS),
            SpecialPurposeRegisters::FSR => u5::new(FSR_ADDRESS),
            SpecialPurposeRegisters::OSCCAL => u5::new(OSCCAL_ADDRESS),
            SpecialPurposeRegisters::GPIO => u5::new(GPIO_ADDRESS),
            SpecialPurposeRegisters::CMCON0 => u5::new(CMCON0_ADDRESS),
        }
    }
}

/// What a register file holds: the 32 addressable bytes, the direction
/// register and the option register.
#[verifier::ext_equal]
pub struct RegisterFileState {
    pub registers: Seq<u8>,
    pub tris_register: u8,
    pub option_register: u8,
}

impl RegisterFileState {
    /// The state in which every register is zero.
    pub open spec fn blank() -> RegisterFileState {
        RegisterFileState {
            registers: Seq::new(REGISTER_COUNT as nat, |i: int| 0u8),
            tris_register: 0,
            option_register: 0,
        }
    }

    /// The byte at `address`.
    pub open spec fn read(self, address: int) -> u8 {
        self.registers[address]
    }

    /// The state after `value` was written to `address`.
    pub open spec fn write(self, address: int, value: u8) -> RegisterFileState {
        RegisterFileState { registers: self.registers.update(address, value), ..self }
    }
}

/// The register file.
#[derive(Debug)]
pub struct RegisterFile {
    pub registers: [u8; 32],
    /// The direction register; no address reaches it.
    pub tris_register: u8,
    /// The option register; no address reaches it.
    pub option_register: u8,
}

impl View for RegisterFile {
    type V = RegisterFileState;

    open spec fn view(&self) -> RegisterFileState {
        RegisterFileState {
            registers: self.registers@,
            tris_register: self.tris_register,
            option_register: self.option_register,
        }
    }
}

impl Clone for RegisterFile {
    /// A copy that holds the same bytes.
    fn clone(&self) -> (r: Self)
        ensures
            r@ == self@,
    {
        RegisterFile {
            registers: self.registers,
            tris_register: self.tris_register,
            option_register: self.option_register,
        }
    }
}

impl RegisterFile {
    /// A register file in which every register is zero.
    pub fn new() -> (r: RegisterFile)
        ensures
            r@ == RegisterFileState::blank(),
    {
        let r = RegisterFile { registers: [0u8;32], tris_register: 0, option_register: 0 };
        assert(r@.registers =~= RegisterFileState::blank().registers);
        r
    }

    /// The byte at `address`.
    pub fn read(&self, address: u5) -> (r: u8)
        ensures
            r == self@.read(address@),
    {
        self.registers[address.get() as usize]
    }

    /// Writes `value` to `address`; nothing else changes.
    pub fn write(&mut self, address: u5, value: u8)
        ensures
            final(self)@ == old(self)@.write(address@, value),
    {
        self.registers[address.get() as usize] = value;
    }

    /// Sets every register back to zero.
    pub fn flash(&mut self)
        ensures
            final(self)@ == RegisterFileState::blank(),
    {
        self.registers = [0u8;32];
        self.tris_register = 0;
        self.option_register = 0;
        assert(self@.registers =~= RegisterFileState::blank().registers);
    }
}

} // verus!
