//! The execution core: the program counter, the working register, the pins,
//! the call stack, the register file and the program memory, and the
//! pipeline that fetches, decodes and executes one instruction per tick.
//!
//! What every step does is stated over the mathematical state of
//! [`crate::state`].

use crate::data_memory::{
    RegisterFile, CMCON0_ADDRESS, CMCON0_POR_VALUE, FSR_ADDRESS, FSR_POR_VALUE, GPIO_ADDRESS,
    OPTION_POR_VALUE, OSCCAL_ADDRESS, OSCCAL_POR_VALUE, PCL_ADDRESS, STATUS_ADDRESS,
    STATUS_POR_VALUE, TRIS_POR_VALUE,
};
use crate::instructions::{
    lemma_decoders_agree, lemma_fields, PICInstruction, PICInstructionMnemonic, PICInstructionType,
};
use crate::nbitnumber::{u12, u5, u9};
use crate::program_memory::{image_of, ProgramMemory, PC_POR_MOVLW_OSCCAL_ADDRESS};
use crate::state::{
    alu_result, alu_status, bit_mask, driven_pin, literal_result, pin_bits, with_flag,
    CoreState, MOVLW_OSCCAL_INSTRUCTION, STATUS_C, STATUS_DC, STATUS_PD, STATUS_TO, STATUS_Z,
};
use vstd::prelude::*;

verus! {

/// The members of the chip family.
#[derive(Debug, Clone, Copy, PartialEq, Eq, Structural)]
pub enum PIC10F2Types {
    PIC10F200,
    PIC10F202,
    PIC10F204,
    PIC10F206,
}

/// The microcontroller.
#[derive(Debug)]
pub struct PIC10F200 {
    pub data_memory: RegisterFile,
    pub program_memory: ProgramMemory,
    pub program_counter: u9,
    pub instruction_register: PICInstruction,
    /// The two return addresses of the call stack, the most recent first.
    pub call_stack: [u9; 2],
    // these registers are not part of the data memory file register (not addressable)
    pub w_register: u8,
    pub io_pins: [bool; 3],
}

impl View for PIC10F200 {
    type V = CoreState;

    open spec fn view(&self) -> CoreState {
        CoreState {
            data_memory: self.data_memory@,
            program_memory: self.program_memory@,
            program_counter: self.program_counter@,
            instruction_register: self.instruction_register@,
            call_stack: seq![self.call_stack[0]@, self.call_stack[1]@],
            w_register: self.w_register,
            io_pins: self.io_pins@,
        }
    }
}

impl Clone for PIC10F200 {
    /// A copy in the same state.
    fn clone(&self) -> (r: Self)
        ensures
            r@ == self@,
    {
        PIC10F200 {
            data_memory: self.data_memory.clone(),
            program_memory: self.program_memory.clone(),
            program_counter: self.program_counter,
            instruction_register: self.instruction_register,
            call_stack: self.call_stack,
            w_register: self.w_register,
            io_pins: self.io_pins,
        }
    }
}

/// A chip whose program memory can be loaded.
pub trait Programmable {
    /// Loads a whole program image and resets the register file.
    fn program_chip(&mut self, new_program: [u12; 0x200]);
}

/// A machine that runs one instruction per tick through fetch, decode and
/// execute.
pub trait PipelinedTuringMachine {
    /// Brings the machine into its state after power-on.
    fn power_on_initialize(&mut self);

    /// Latches the next instruction.
    fn fetch(&mut self);

    /// Decodes and executes the latched instruction.
    fn execute(&mut self);

    /// One fetch, then one execute.
    fn tick(&mut self);

    /// The mnemonic of the latched instruction, which names the action to
    /// take.
    fn decode_mnemonic(&mut self) -> PICInstructionMnemonic;
}

/// `status` with the bits of `flag` set if `on`, cleared if not.
pub fn set_flag(status: u8, flag: u8, on: bool) -> (r: u8)
    ensures
        r == with_flag(status, flag, on),
{
    if on {
        status | flag
    } else {
        status & !flag
    }
}

/// The mask with only bit `index` set; bit 7 for an index above it.
pub fn mask_of_bit(index: u16) -> (r: u8)
    ensures
        r == bit_mask(index as int),
{
    if index == 0 {
        0b0000_0001
    } else if index == 1 {
        0b0000_0010
    } else if index == 2 {
        0b0000_0100
    } else if index == 3 {
        0b0000_1000
    } else if index == 4 {
        0b0001_0000
    } else if index == 5 {
        0b0010_0000
    } else if index == 6 {
        0b0100_0000
    } else {
        0b1000_0000
    }
}

/// The level of one pin after the port was driven.
pub fn drive_pin(level: bool, latch: u8, direction: u8, mask: u8) -> (r: bool)
    ensures
        r == driven_pin(level, latch, direction, mask),
{
    if direction & mask == 0 {
        latch & mask != 0
    } else {
        level
    }
}

/// What an ALU operation computes from W, the file register `v` and the
/// carry flag.
pub fn compute_alu_result(mnemonic: PICInstructionMnemonic, w: u8, v: u8, carry: bool) -> (r: u8)
    ensures
        r == alu_result(mnemonic, w, v, carry),
{
    match mnemonic {
        PICInstructionMnemonic::MOVWF => w,
        PICInstructionMnemonic::CLR => 0,
        PICInstructionMnemonic::SUBWF => ((256u16 + v as u16 - w as u16) % 256) as u8,
        PICInstructionMnemonic::DECF | PICInstructionMnemonic::DECFSZ => ((255u16 + v as u16)
            % 256) as u8,
        PICInstructionMnemonic::IORWF => w | v,
        PICInstructionMnemonic::ANDWF => w & v,
        PICInstructionMnemonic::XORWF => w ^ v,
        PICInstructionMnemonic::ADDWF => ((w as u16 + v as u16) % 256) as u8,
        PICInstructionMnemonic::MOVF => v,
        PICInstructionMnemonic::COMF => !v,
        PICInstructionMnemonic::INCF | PICInstructionMnemonic::INCFSZ => ((v as u16 + 1) % 256) as u8,
        PICInstructionMnemonic::RRF => (v >> 1) | (if carry {
            0b1000_0000u8
        } else {
            0u8
        }),
        PICInstructionMnemonic::RLF => (v << 1) | (if carry {
            0b0000_0001u8
        } else {
            0u8
        }),
        PICInstructionMnemonic::SWAPF => (v << 4) | (v >> 4),
        _ => v,
    }
}

/// The status register after an ALU operation.
pub fn compute_alu_status(
    mnemonic: PICInstructionMnemonic,
    w: u8,
    v: u8,
    carry: bool,
    status: u8,
) -> (r: u8)
    ensures
        r == alu_status(mnemonic, w, v, carry, status),
{
    let zero: bool = compute_alu_result(mnemonic, w, v, carry) == 0;
    match mnemonic {
        PICInstructionMnemonic::ADDWF => {
            let with_carry = set_flag(status, STATUS_C, w as u16 + v as u16 > 255);
            let with_digit = set_flag(with_carry, STATUS_DC, w % 16 + v % 16 > 15);
            set_flag(with_digit, STATUS_Z, zero)
        },
        PICInstructionMnemonic::SUBWF => {
            let with_carry = set_flag(status, STATUS_C, v >= w);
            let with_digit = set_flag(with_carry, STATUS_DC, v % 16 >= w % 16);
            set_flag(with_digit, STATUS_Z, zero)
        },
        PICInstructionMnemonic::CLR
        | PICInstructionMnemonic::DECF
        | PICInstructionMnemonic::IORWF
        | PICInstructionMnemonic::ANDWF
        | PICInstructionMnemonic::XORWF
        | PICInstructionMnemonic::MOVF
        | PICInstructionMnemonic::COMF
        | PICInstructionMnemonic::INCF => set_flag(status, STATUS_Z, zero),
        PICInstructionMnemonic::RRF => set_flag(status, STATUS_C, v & 0b0000_0001 != 0),
        PICInstructionMnemonic::RLF => set_flag(status, STATUS_C, v & 0b1000_0000 != 0),
        _ => status,
    }
}

/// What a literal operation leaves in W.
pub fn compute_literal_result(mnemonic: PICInstructionMnemonic, w: u8, k: u8) -> (r: u8)
    ensures
        r == literal_result(mnemonic, w, k),
{
    match mnemonic {
        PICInstructionMnemonic::IORLW => w | k,
        PICInstructionMnemonic::ANDLW => w & k,
        PICInstructionMnemonic::XORLW => w ^ k,
        _ => k,
    }
}

impl PIC10F200 {
    /// A chip with blank memories, before power-on.
    pub fn new() -> (r: PIC10F200)
        ensures
            r@.data_memory == crate::data_memory::RegisterFileState::blank(),
            r@.program_memory == crate::program_memory::blank_program(),
            r@.program_counter == 0,
            r@.instruction_register == crate::instructions::InstructionState::of_word(0),
            r@.call_stack == seq![0int, 0int],
            r@.w_register == 0,
            r@.io_pins == seq![false, false, false],
            r@.wf(),
    {
        let zero: u9 = u9::new(0);
        let r = PIC10F200 {
            data_memory: RegisterFile::new(),
            program_memory: ProgramMemory::new(),
            program_counter: zero,
            instruction_register: PICInstruction::from_u12(u12::new(0x000)),
            call_stack: [zero, zero],
            w_register: 0,
            io_pins: [false, false, false],
        };
        assert(r@.io_pins =~= seq![false, false, false]);
        r.validity();
        r
    }

    /// Tells the verifier that the chip is in a valid state, as every chip
    /// is that executable code can hold. Changes nothing.
    pub fn validity(&self)
        ensures
            self@.wf(),
    {
        let top: u9 = self.call_stack[0];
        let below: u9 = self.call_stack[1];
        proof {
            use_type_invariant(&self.program_memory);
            self.program_memory.lemma_valid();
            use_type_invariant(&self.program_counter);
            self.program_counter.lemma_valid();
            use_type_invariant(&self.instruction_register.instruction_raw);
            self.instruction_register.instruction_raw.lemma_valid();
            use_type_invariant(&top);
            top.lemma_valid();
            use_type_invariant(&below);
            below.lemma_valid();
        }
    }

    /// The status register.
    pub fn status(&self) -> (r: u8)
        ensures
            r == self@.status(),
    {
        self.data_memory.read(u5::new(STATUS_ADDRESS))
    }

    /// Puts `status` in the status register.
    pub fn set_status(&mut self, status: u8)
        ensures
            final(self)@ == old(self)@.set_status(status),
    {
        self.data_memory.write(u5::new(STATUS_ADDRESS), status);
    }

    /// The levels of the three pins as the low bits of a byte.
    pub fn pin_levels(&self) -> (r: u8)
        ensures
            r == pin_bits(self@.io_pins),
    {
        let low: u8 = if self.io_pins[0] {
            0b001u8
        } else {
            0u8
        };
        let middle: u8 = if self.io_pins[1] {
            0b010u8
        } else {
            0u8
        };
        let high: u8 = if self.io_pins[2] {
            0b100u8
        } else {
            0u8
        };
        low | middle | high
    }

    /// Drives the pins that `direction` makes outputs with the bits of
    /// `latch`.
    pub fn drive_pins(&mut self, latch: u8, direction: u8)
        ensures
            final(self)@ == (CoreState {
                io_pins: crate::state::driven_pins(old(self)@.io_pins, latch, direction),
                ..old(self)@
            }),
    {
        let low: bool = drive_pin(self.io_pins[0], latch, direction, 0b001);
        let middle: bool = drive_pin(self.io_pins[1], latch, direction, 0b010);
        let high: bool = drive_pin(self.io_pins[2], latch, direction, 0b100);
        self.io_pins = [low, middle, high];
        assert(self@.io_pins =~= crate::state::driven_pins(old(self)@.io_pins, latch, direction));
    }

    /// What an instruction reads from the file register `address`.
    pub fn read_register(&self, address: u5) -> (r: u8)
        ensures
            r == self@.read_register(address@),
    {
        let stored: u8 = self.data_memory.read(address);
        if address.get() == GPIO_ADDRESS {
            (stored & 0b1111_1000) | self.pin_levels()
        } else if address.get() == PCL_ADDRESS {
            ((stored as u16 + 1) % 256) as u8
        } else {
            stored
        }
    }

    /// Lets execution go on behind `address`.
    pub fn continue_behind(&mut self, address: u9)
        ensures
            final(self)@ == old(self)@.continue_behind(address@),
    {
        self.program_counter = address;
        self.data_memory.write(u5::new(PCL_ADDRESS), (address.get() % 256) as u8);
    }

    /// Retires the current instruction: execution goes on behind it.
    pub fn retire(&mut self)
        ensures
            final(self)@ == old(self)@.retire(),
    {
        self.continue_behind(self.program_counter);
    }

    /// Passes over the instruction after the current one.
    pub fn skip(&mut self)
        ensures
            final(self)@ == old(self)@.skip(),
    {
        self.continue_behind(self.program_counter + u9::new(1));
    }

    /// Makes the instruction at `target` the next one.
    pub fn jump(&mut self, target: u9)
        ensures
            final(self)@ == old(self)@.jump(target@),
    {
        self.continue_behind(target - u9::new(1));
    }

    /// Writes `value` to the file register `address` as an instruction does.
    pub fn write_register(&mut self, address: u5, value: u8)
        ensures
            final(self)@ == old(self)@.write_register(address@, value),
    {
        if address.get() == GPIO_ADDRESS {
            self.data_memory.write(address, value);
            self.drive_pins(value, self.data_memory.tris_register);
        } else if address.get() == PCL_ADDRESS {
            self.jump(u9::new(value as u16));
        } else {
            self.data_memory.write(address, value);
        }
    }

    /// Pushes `address` on the call stack.
    pub fn push(&mut self, address: u9)
        ensures
            final(self)@ == old(self)@.push(address@),
    {
        self.call_stack = [address, self.call_stack[0]];
        assert(self@.call_stack =~= old(self)@.push(address@).call_stack);
    }

    /// Returns to the address on top of the call stack.
    pub fn return_from_call(&mut self)
        ensures
            final(self)@ == old(self)@.return_from_call(),
    {
        let target: u9 = self.call_stack[0];
        self.call_stack = [self.call_stack[1], self.call_stack[1]];
        self.jump(target);
    }

    /// Executes an ALU operation on W and a file register.
    pub fn alu_operation(&mut self, mnemonic: PICInstructionMnemonic)
        ensures
            final(self)@ == old(self)@.alu_operation(mnemonic),
    {
        let address: u5 = self.instruction_register.extract_f();
        let v: u8 = self.read_register(address);
        let w: u8 = self.w_register;
        let carry: bool = self.status() & STATUS_C != 0;
        let result: u8 = compute_alu_result(mnemonic, w, v, carry);
        let to_file: bool = self.instruction_register.extract_d().get() == 1;
        if mnemonic == PICInstructionMnemonic::MOVWF || to_file {
            self.write_register(address, result);
        } else {
            self.w_register = result;
        }
        let status: u8 = compute_alu_status(mnemonic, w, v, carry, self.status());
        self.set_status(status);
        if (mnemonic == PICInstructionMnemonic::DECFSZ || mnemonic
            == PICInstructionMnemonic::INCFSZ) && result == 0 {
            self.skip();
        }
    }

    /// Executes a bit operation on a file register.
    pub fn bit_operation(&mut self, mnemonic: PICInstructionMnemonic)
        ensures
            final(self)@ == old(self)@.bit_operation(mnemonic),
    {
        let address: u5 = self.instruction_register.extract_f();
        let v: u8 = self.read_register(address);
        let mask: u8 = mask_of_bit(self.instruction_register.extract_b().get());
        match mnemonic {
            PICInstructionMnemonic::BCF => self.write_register(address, v & !mask),
            PICInstructionMnemonic::BSF => self.write_register(address, v | mask),
            PICInstructionMnemonic::BTFSC => if v & mask == 0 {
                self.skip();
            },
            PICInstructionMnemonic::BTFSS => if v & mask != 0 {
                self.skip();
            },
            _ => {},
        }
    }

    /// Executes an operation on W and a literal.
    pub fn literal_operation(&mut self, mnemonic: PICInstructionMnemonic)
        ensures
            final(self)@ == old(self)@.literal_operation(mnemonic),
    {
        let k: u8 = self.instruction_register.extract_k();
        let result: u8 = compute_literal_result(mnemonic, self.w_register, k);
        self.w_register = result;
        if mnemonic != PICInstructionMnemonic::MOVLW {
            let status: u8 = set_flag(self.status(), STATUS_Z, result == 0);
            self.set_status(status);
        }
    }

    /// Executes `TRIS`.
    pub fn load_direction(&mut self)
        ensures
            final(self)@ == old(self)@.load_direction(),
    {
        if self.instruction_register.extract_f_tris().get() == 2 {
            self.data_memory.tris_register = self.w_register;
            let latch: u8 = self.data_memory.read(u5::new(GPIO_ADDRESS));
            self.drive_pins(latch, self.w_register);
        }
    }

    /// Executes `OPTION`.
    pub fn load_option(&mut self)
        ensures
            final(self)@ == old(self)@.load_option(),
    {
        self.data_memory.option_register = self.w_register;
    }

    /// The halt action: changes nothing, so that the same word is fetched
    /// again.
    pub fn halt(&mut self)
        ensures
            *final(self) == *old(self),
    {
    }

    /// Executes `SLEEP`.
    pub fn sleep(&mut self)
        ensures
            final(self)@ == old(self)@.sleep(),
    {
        let timed: u8 = set_flag(self.status(), STATUS_TO, true);
        self.set_status(set_flag(timed, STATUS_PD, false));
    }

    /// Executes `CLRWDT`.
    pub fn clear_watchdog(&mut self)
        ensures
            final(self)@ == old(self)@.clear_watchdog(),
    {
        let timed: u8 = set_flag(self.status(), STATUS_TO, true);
        self.set_status(set_flag(timed, STATUS_PD, true));
    }

    /// Executes `CALL`.
    pub fn call(&mut self)
        ensures
            final(self)@ == old(self)@.call(),
    {
        let target: u8 = self.instruction_register.extract_k();
        self.push(self.program_counter + u9::new(1));
        self.jump(u9::new(target as u16));
    }

    /// Executes `RETLW`.
    pub fn return_with_literal(&mut self)
        ensures
            final(self)@ == old(self)@.return_with_literal(),
    {
        self.w_register = self.instruction_register.extract_k();
        self.return_from_call();
    }
}

impl Programmable for PIC10F200 {
    /// Loads the program image and sets every register to zero.
    fn program_chip(&mut self, new_program: [u12; 0x200])
        ensures
            final(self)@ == old(self)@.program(image_of(new_program)),
            final(self)@.wf(),
    {
        self.program_memory.flash(new_program);
        self.data_memory.flash();
        self.validity();
    }
}

impl PipelinedTuringMachine for PIC10F200 {
    /// Applies the power-on reset: the word that loads the oscillator
    /// calibration value into W is written to the top address, behind which
    /// the first fetch starts, and the special registers get their reset
    /// values.
    fn power_on_initialize(&mut self)
        ensures
            final(self)@ == old(self)@.power_on(),
            final(self)@.wf(),
    {
        let top: u9 = u9::new(PC_POR_MOVLW_OSCCAL_ADDRESS);
        self.program_memory.write(top, u12::new(MOVLW_OSCCAL_INSTRUCTION));
        self.data_memory.write(u5::new(PCL_ADDRESS), top.get() as u8);
        self.data_memory.write(u5::new(STATUS_ADDRESS), STATUS_POR_VALUE);
        self.data_memory.write(u5::new(FSR_ADDRESS), FSR_POR_VALUE);
        self.data_memory.write(u5::new(OSCCAL_ADDRESS), OSCCAL_POR_VALUE);
        self.data_memory.write(u5::new(CMCON0_ADDRESS), CMCON0_POR_VALUE);
        self.data_memory.tris_register = TRIS_POR_VALUE;  // not addressable
        self.data_memory.option_register = OPTION_POR_VALUE;  // not addressable
        self.validity();
    }

    /// One tick: exactly one fetch, then exactly one execute.
    fn tick(&mut self)
        ensures
            final(self)@ == old(self)@.tick(),
            final(self)@.wf(),
    {
        self.fetch();
        self.execute();
    }

    /// Steps the program counter on from the program counter register,
    /// clears its bit 8, and latches the instruction at that address.
    fn fetch(&mut self)
        ensures
            final(self)@ == old(self)@.fetch(),
            final(self)@.wf(),
            final(self)@.program_counter < 256,
            final(self)@.instruction_register.mnemonic == final(
                self
            )@.instruction_register.resolved(),
    {
        let pcl: u8 = self.data_memory.read(u5::new(PCL_ADDRESS));
        self.program_counter = u9::new(pcl as u16);
        self.program_counter = self.program_counter + u9::new(1);
        proof {
            lemma_fields(self.program_counter@ as u16);
        }
        self.program_counter = self.program_counter & u9::new(0x0FF);  // always clear the 9th bit
        let word: u12 = self.program_memory.fetch(self.program_counter);
        proof {
            lemma_decoders_agree(word@);
        }
        self.instruction_register = PICInstruction::from_u12(word);
        self.validity();
    }

    /// Decodes the latched instruction and executes it.
    fn execute(&mut self)
        ensures
            final(self)@ == old(self)@.execute(),
            final(self)@.wf(),
    {
        let mnemonic = self.decode_mnemonic();
        match mnemonic {
            PICInstructionMnemonic::UND
            | PICInstructionMnemonic::MOVLB
            | PICInstructionMnemonic::RETFIE
            | PICInstructionMnemonic::RETURN => self.halt(),
            PICInstructionMnemonic::SLEEP => self.sleep(),
            PICInstructionMnemonic::NOP => self.retire(),
            PICInstructionMnemonic::CLRWDT => {
                self.retire();
                self.clear_watchdog();
            },
            PICInstructionMnemonic::OPTION => {
                self.retire();
                self.load_option();
            },
            PICInstructionMnemonic::TRIS => {
                self.retire();
                self.load_direction();
            },
            PICInstructionMnemonic::MOVLW
            | PICInstructionMnemonic::IORLW
            | PICInstructionMnemonic::ANDLW
            | PICInstructionMnemonic::XORLW => {
                self.retire();
                self.literal_operation(mnemonic);
            },
            PICInstructionMnemonic::GOTO => {
                self.retire();
                self.jump(self.instruction_register.extract_k_goto());
            },
            PICInstructionMnemonic::CALL => {
                self.retire();
                self.call();
            },
            PICInstructionMnemonic::RETLW => {
                self.retire();
                self.return_with_literal();
            },
            PICInstructionMnemonic::BCF
            | PICInstructionMnemonic::BSF
            | PICInstructionMnemonic::BTFSC
            | PICInstructionMnemonic::BTFSS => {
                self.retire();
                self.bit_operation(mnemonic);
            },
            _ => {
                self.retire();
                self.alu_operation(mnemonic);
            },
        }
        self.validity();
    }

    /// What the latched instruction is by its category: the selector field
    /// of the category chooses the mnemonic, and so the action that
    /// `execute` takes.
    fn decode_mnemonic(&mut self) -> (r: PICInstructionMnemonic)
        ensures
            *final(self) == *old(self),
            r == old(self)@.instruction_register.resolved(),
    {
        let raw: u16 = self.instruction_register.instruction_raw.get();
        proof {
            lemma_fields(raw);
        }
        match self.instruction_register.instruction_category {
            PICInstructionType::ALUOperation => {
                //4 bit opcode 9 downto 6, right shifted by 6
                let selector: u16 = (raw & 0x3C0) >> 6;
                if selector == 0x000 {
                    PICInstructionMnemonic::MOVWF
                } else if selector == 0x001 {
                    PICInstructionMnemonic::CLR
                } else if selector == 0x002 {
                    PICInstructionMnemonic::SUBWF
                } else if selector == 0x003 {
                    PICInstructionMnemonic::DECF
                } else if selector == 0x004 {
                    PICInstructionMnemonic::IORWF
                } else if selector == 0x005 {
                    PICInstructionMnemonic::ANDWF
                } else if selector == 0x006 {
                    PICInstructionMnemonic::XORWF
                } else if selector == 0x007 {
                    PICInstructionMnemonic::ADDWF
                } else if selector == 0x008 {
                    PICInstructionMnemonic::MOVF
                } else if selector == 0x009 {
                    PICInstructionMnemonic::COMF
                } else if selector == 0x00A {
                    PICInstructionMnemonic::INCF
                } else if selector == 0x00B {
                    PICInstructionMnemonic::DECFSZ
                } else if selector == 0x00C {
                    PICInstructionMnemonic::RRF
                } else if selector == 0x00D {
                    PICInstructionMnemonic::RLF
                } else if selector == 0x00E {
                    PICInstructionMnemonic::SWAPF
                } else {
                    PICInstructionMnemonic::INCFSZ
                }
            },
            PICInstructionType::BitOperation => {
                //2 bit op code bits 9 & 8
                let selector: u16 = raw & 0x300;
                if selector == 0x000 {
                    PICInstructionMnemonic::BCF
                } else if selector == 0x100 {
                    PICInstructionMnemonic::BSF
                } else if selector == 0x200 {
                    PICInstructionMnemonic::BTFSC
                } else {
                    PICInstructionMnemonic::BTFSS
                }
            },
            PICInstructionType::ControlTransfer => {
                // the whole high nibble, bits 11-8
                let nibble: u16 = raw & 0xF00;
                if nibble == 0x800 {
                    PICInstructionMnemonic::RETLW
                } else if nibble == 0x900 {
                    PICInstructionMnemonic::CALL
                } else if nibble == 0xA00 || nibble == 0xB00 {
                    PICInstructionMnemonic::GOTO
                } else {
                    PICInstructionMnemonic::UND
                }
            },
            PICInstructionType::Miscellaneous => {
                // the low byte, against the list of the words that are an instruction
                let low: u16 = raw & 0x0FF;
                if low == 0x000 {
                    PICInstructionMnemonic::NOP
                } else if low == 0x004 {
                    PICInstructionMnemonic::CLRWDT
                } else if low == 0x002 {
                    PICInstructionMnemonic::OPTION
                } else if low == 0x003 {
                    PICInstructionMnemonic::SLEEP
                } else if 0x005 <= low && low <= 0x007 {
                    PICInstructionMnemonic::TRIS
                } else {
                    PICInstructionMnemonic::UND
                }
            },
            PICInstructionType::OperationsWithW => {
                //2 bit opcode 9 & 8 (within the 11xx category)
                let selector: u16 = raw & 0x300;
                if selector == 0x000 {
                    PICInstructionMnemonic::MOVLW
                } else if selector == 0x100 {
                    PICInstructionMnemonic::IORLW
                } else if selector == 0x200 {
                    PICInstructionMnemonic::ANDLW
                } else {
                    PICInstructionMnemonic::XORLW
                }
            },
        }
    }
}

} // verus!
