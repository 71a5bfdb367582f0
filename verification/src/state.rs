//! The microcontroller as a mathematical state, and what power-on, a fetch
//! and the execution of each instruction do to it.
//!
//! The program counter register (PCL) in the register file drives the
//! pipeline. A fetch reads it, steps to the next address and latches the word
//! found there; it does not write the register back. Executing an instruction
//! retires it: the register then holds the address of that instruction, so
//! that the next fetch steps on behind it. An instruction that halts is not
//! retired, and the same word is fetched again for ever.

use crate::data_memory::{
    RegisterFileState, CMCON0_ADDRESS, CMCON0_POR_VALUE, FSR_ADDRESS, FSR_POR_VALUE, GPIO_ADDRESS,
    OPTION_POR_VALUE, OSCCAL_ADDRESS, OSCCAL_POR_VALUE, PCL_ADDRESS, STATUS_ADDRESS,
    STATUS_POR_VALUE, TRIS_POR_VALUE,
};
use crate::instructions::{
    decode, encode, lemma_decoders_agree, lemma_encode_round_trip, InstructionState,
    PICInstructionMnemonic,
};
use crate::program_memory::PC_POR_MOVLW_OSCCAL_ADDRESS;
use vstd::prelude::*;

verus! {

/// The carry flag of the status register.
pub const STATUS_C: u8 = 0b0000_0001;

/// The digit carry flag of the status register.
pub const STATUS_DC: u8 = 0b0000_0010;

/// The zero flag of the status register.
pub const STATUS_Z: u8 = 0b0000_0100;

/// The power-down flag of the status register; clear while asleep.
pub const STATUS_PD: u8 = 0b0000_1000;

/// The time-out flag of the status register; clear after a watchdog
/// time-out.
pub const STATUS_TO: u8 = 0b0001_0000;

/// The word that loads the oscillator calibration value into W: `MOVLW`
/// with the reset value of the calibration register as its literal.
pub const MOVLW_OSCCAL_INSTRUCTION: u16 = 0xCFE;

/// `status` with the bits of `flag` set if `on`, cleared if not.
pub open spec fn with_flag(status: u8, flag: u8, on: bool) -> u8 {
    if on {
        status | flag
    } else {
        status & !flag
    }
}

/// The mask with only bit `index` set; bit 7 for an index above it.
pub open spec fn bit_mask(index: int) -> u8 {
    if index == 0 {
        0b0000_0001
    } else if index == 1 {
        0b0000_0010
    } else if index == 2 {
        0b0000_0100
    } else if index == 3 {
        0b0000_1000
    } else if index == 4 {
        0b0001_0000
    } else if index == 5 {
        0b0010_0000
    } else if index == 6 {
        0b0100_0000
    } else {
        0b1000_0000
    }
}

/// The levels of the three pins as the low bits of a byte.
pub open spec fn pin_bits(pins: Seq<bool>) -> u8 {
    (if pins[0] {
        0b001u8
    } else {
        0u8
    }) | (if pins[1] {
        0b010u8
    } else {
        0u8
    }) | (if pins[2] {
        0b100u8
    } else {
        0u8
    })
}

/// The level of one pin after the port was driven: the bit of the port
/// latch where the direction register makes the pin an output (its bit
/// clear), the level it had where it is an input.
pub open spec fn driven_pin(level: bool, latch: u8, direction: u8, mask: u8) -> bool {
    if direction & mask == 0 {
        latch & mask != 0
    } else {
        level
    }
}

/// The levels of the three pins after the port was driven.
pub open spec fn driven_pins(pins: Seq<bool>, latch: u8, direction: u8) -> Seq<bool> {
    seq![
        driven_pin(pins[0], latch, direction, 0b001),
        driven_pin(pins[1], latch, direction, 0b010),
        driven_pin(pins[2], latch, direction, 0b100),
    ]
}

/// Whether `mnemonic` halts the machine: `UND`, and the mnemonics that have
/// no instruction on this core.
pub open spec fn halts(mnemonic: PICInstructionMnemonic) -> bool {
    mnemonic == PICInstructionMnemonic::UND || mnemonic == PICInstructionMnemonic::MOVLB
        || mnemonic == PICInstructionMnemonic::RETFIE || mnemonic
        == PICInstructionMnemonic::RETURN
}

/// What an ALU operation computes from W, the file register `v` and the
/// carry flag.
pub open spec fn alu_result(mnemonic: PICInstructionMnemonic, w: u8, v: u8, carry: bool) -> u8 {
    match mnemonic {
        PICInstructionMnemonic::MOVWF => w,
        PICInstructionMnemonic::CLR => 0,
        PICInstructionMnemonic::SUBWF => ((v - w) % 256) as u8,
        PICInstructionMnemonic::DECF | PICInstructionMnemonic::DECFSZ => ((v - 1) % 256) as u8,
        PICInstructionMnemonic::IORWF => w | v,
        PICInstructionMnemonic::ANDWF => w & v,
        PICInstructionMnemonic::XORWF => w ^ v,
        PICInstructionMnemonic::ADDWF => ((w + v) % 256) as u8,
        PICInstructionMnemonic::MOVF => v,
        PICInstructionMnemonic::COMF => !v,
        PICInstructionMnemonic::INCF | PICInstructionMnemonic::INCFSZ => ((v + 1) % 256) as u8,
        PICInstructionMnemonic::RRF => (v >> 1) | (if carry {
            0b1000_0000u8
        } else {
            0u8
        }),
        PICInstructionMnemonic::RLF => (v << 1) | (if carry {
            0b0000_0001u8
        } else {
            0u8
        }),
        PICInstructionMnemonic::SWAPF => (v << 4) | (v >> 4),
        _ => v,
    }
}

/// The status register after an ALU operation. Addition and subtraction set
/// carry, digit carry and zero; the carry of a subtraction is set when there
/// was no borrow. The logic operations, moves, increments and decrements set
/// zero. The rotations set carry to the bit that was moved out. The other
/// operations leave the register as it is.
pub open spec fn alu_status(
    mnemonic: PICInstructionMnemonic,
    w: u8,
    v: u8,
    carry: bool,
    status: u8,
) -> u8 {
    let zero = alu_result(mnemonic, w, v, carry) == 0;
    match mnemonic {
        PICInstructionMnemonic::ADDWF => with_flag(
            with_flag(with_flag(status, STATUS_C, w + v > 255), STATUS_DC, w % 16 + v % 16 > 15),
            STATUS_Z,
            zero,
        ),
        PICInstructionMnemonic::SUBWF => with_flag(
            with_flag(with_flag(status, STATUS_C, v >= w), STATUS_DC, v % 16 >= w % 16),
            STATUS_Z,
            zero,
        ),
        PICInstructionMnemonic::CLR
        | PICInstructionMnemonic::DECF
        | PICInstructionMnemonic::IORWF
        | PICInstructionMnemonic::ANDWF
        | PICInstructionMnemonic::XORWF
        | PICInstructionMnemonic::MOVF
        | PICInstructionMnemonic::COMF
        | PICInstructionMnemonic::INCF => with_flag(status, STATUS_Z, zero),
        PICInstructionMnemonic::RRF => with_flag(status, STATUS_C, v & 0b0000_0001 != 0),
        PICInstructionMnemonic::RLF => with_flag(status, STATUS_C, v & 0b1000_0000 != 0),
        _ => status,
    }
}

/// What a literal operation leaves in W.
pub open spec fn literal_result(mnemonic: PICInstructionMnemonic, w: u8, k: u8) -> u8 {
    match mnemonic {
        PICInstructionMnemonic::IORLW => w | k,
        PICInstructionMnemonic::ANDLW => w & k,
        PICInstructionMnemonic::XORLW => w ^ k,
        _ => k,
    }
}

/// The state of the microcontroller.
#[verifier::ext_equal]
pub struct CoreState {
    pub data_memory: RegisterFileState,
    pub program_memory: Seq<int>,
    /// The 9-bit program counter.
    pub program_counter: int,
    pub instruction_register: InstructionState,
    /// The return addresses, the most recent first.
    pub call_stack: Seq<int>,
    pub w_register: u8,
    /// The levels of the three pins.
    pub io_pins: Seq<bool>,
}

impl CoreState {
    /// Validity: the register file has its 32 registers, the program memory
    /// its 512 words of 12 bits, the call stack its two levels of 9 bits,
    /// there are three pins, and the program counter and the latched word
    /// have their widths.
    pub open spec fn wf(self) -> bool {
        &&& self.data_memory.registers.len() == 32
        &&& self.program_memory.len() == 512
        &&& forall|i: int| 0 <= i < 512 ==> 0 <= #[trigger] self.program_memory[i] < 4096
        &&& 0 <= self.program_counter < 512
        &&& 0 <= self.instruction_register.raw < 4096
        &&& self.call_stack.len() == 2
        &&& forall|i: int| 0 <= i < 2 ==> 0 <= #[trigger] self.call_stack[i] < 512
        &&& self.io_pins.len() == 3
    }

    /// The status register.
    pub open spec fn status(self) -> u8 {
        self.data_memory.read(STATUS_ADDRESS as int)
    }

    /// The state with `status` in the status register.
    pub open spec fn set_status(self, status: u8) -> CoreState {
        CoreState { data_memory: self.data_memory.write(STATUS_ADDRESS as int, status), ..self }
    }

    /// What an instruction reads from the file register `address`. The port
    /// register gives the levels of the pins in its low three bits. The
    /// program counter register gives the address of the next instruction.
    pub open spec fn read_register(self, address: int) -> u8 {
        if address == GPIO_ADDRESS {
            (self.data_memory.read(address) & 0b1111_1000) | pin_bits(self.io_pins)
        } else if address == PCL_ADDRESS {
            ((self.data_memory.read(address) + 1) % 256) as u8
        } else {
            self.data_memory.read(address)
        }
    }

    /// The state after an instruction wrote `value` to the file register
    /// `address`. A write to the port register also drives the pins that are
    /// outputs. A write to the program counter register is a jump to
    /// `value`.
    pub open spec fn write_register(self, address: int, value: u8) -> CoreState {
        if address == GPIO_ADDRESS {
            CoreState {
                data_memory: self.data_memory.write(address, value),
                io_pins: driven_pins(self.io_pins, value, self.data_memory.tris_register),
                ..self
            }
        } else if address == PCL_ADDRESS {
            self.jump(value as int)
        } else {
            CoreState { data_memory: self.data_memory.write(address, value), ..self }
        }
    }

    /// The state in which execution goes on behind `address`: the program
    /// counter holds it, the program counter register its low byte, and the
    /// next fetch steps to the address after it.
    pub open spec fn continue_behind(self, address: int) -> CoreState {
        CoreState {
            program_counter: address,
            data_memory: self.data_memory.write(PCL_ADDRESS as int, (address % 256) as u8),
            ..self
        }
    }

    /// The state after the current instruction was retired: execution goes
    /// on behind it.
    pub open spec fn retire(self) -> CoreState {
        self.continue_behind(self.program_counter)
    }

    /// The state in which the instruction after the current one is passed
    /// over.
    pub open spec fn skip(self) -> CoreState {
        self.continue_behind((self.program_counter + 1) % 512)
    }

    /// The state in which the next instruction is the one at `target`:
    /// execution goes on behind the address before it.
    pub open spec fn jump(self, target: int) -> CoreState {
        self.continue_behind((target + 511) % 512)
    }

    /// The state with `address` pushed on the call stack. The stack has two
    /// levels; the older one is lost.
    pub open spec fn push(self, address: int) -> CoreState {
        CoreState { call_stack: seq![address, self.call_stack[0]], ..self }
    }

    /// The state after a return: the next instruction is the one at the top
    /// of the call stack, and the second level of the stack has moved up,
    /// leaving its copy behind.
    pub open spec fn return_from_call(self) -> CoreState {
        CoreState { call_stack: seq![self.call_stack[1], self.call_stack[1]], ..self }.jump(
            self.call_stack[0],
        )
    }

    /// The state after an ALU operation: the result of W and the file
    /// register goes to the file register or to W, the flags that the
    /// operation affects are set in the status register, and the
    /// decrement-and-skip and increment-and-skip operations pass over the
    /// next instruction when the result is zero.
    pub open spec fn alu_operation(self, mnemonic: PICInstructionMnemonic) -> CoreState {
        let address = self.instruction_register.file_address();
        let v = self.read_register(address);
        let w = self.w_register;
        let carry = self.status() & STATUS_C != 0;
        let result = alu_result(mnemonic, w, v, carry);
        let stored = if mnemonic == PICInstructionMnemonic::MOVWF
            || self.instruction_register.destination_is_file() {
            self.write_register(address, result)
        } else {
            CoreState { w_register: result, ..self }
        };
        let flagged = stored.set_status(alu_status(mnemonic, w, v, carry, stored.status()));
        if (mnemonic == PICInstructionMnemonic::DECFSZ || mnemonic
            == PICInstructionMnemonic::INCFSZ) && result == 0 {
            flagged.skip()
        } else {
            flagged
        }
    }

    /// The state after a bit operation: `BCF` clears and `BSF` sets one bit
    /// of the file register; `BTFSC` passes over the next instruction when
    /// the bit is clear, `BTFSS` when it is set.
    pub open spec fn bit_operation(self, mnemonic: PICInstructionMnemonic) -> CoreState {
        let address = self.instruction_register.file_address();
        let v = self.read_register(address);
        let mask = bit_mask(self.instruction_register.bit_index());
        match mnemonic {
            PICInstructionMnemonic::BCF => self.write_register(address, v & !mask),
            PICInstructionMnemonic::BSF => self.write_register(address, v | mask),
            PICInstructionMnemonic::BTFSC => if v & mask == 0 {
                self.skip()
            } else {
                self
            },
            PICInstructionMnemonic::BTFSS => if v & mask != 0 {
                self.skip()
            } else {
                self
            },
            _ => self,
        }
    }

    /// The state after a literal operation: W holds the literal, or W
    /// combined with it; the combining operations set the zero flag.
    pub open spec fn literal_operation(self, mnemonic: PICInstructionMnemonic) -> CoreState {
        let result = literal_result(mnemonic, self.w_register, self.instruction_register.literal());
        let loaded = CoreState { w_register: result, ..self };
        if mnemonic == PICInstructionMnemonic::MOVLW {
            loaded
        } else {
            loaded.set_status(with_flag(loaded.status(), STATUS_Z, result == 0))
        }
    }

    /// The state after `TRIS`: select 2, the port, loads the direction
    /// register from W and drives the pins that are outputs now; the other
    /// selects name ports that this chip does not have.
    pub open spec fn load_direction(self) -> CoreState {
        if self.instruction_register.direction_select() == 2 {
            CoreState {
                data_memory: RegisterFileState {
                    tris_register: self.w_register,
                    ..self.data_memory
                },
                io_pins: driven_pins(
                    self.io_pins,
                    self.data_memory.read(GPIO_ADDRESS as int),
                    self.w_register,
                ),
                ..self
            }
        } else {
            self
        }
    }

    /// The state after `OPTION`: the option register holds W.
    pub open spec fn load_option(self) -> CoreState {
        CoreState {
            data_memory: RegisterFileState { option_register: self.w_register, ..self.data_memory },
            ..self
        }
    }

    /// The state after `SLEEP`: the time-out flag is set and the power-down
    /// flag cleared.
    pub open spec fn sleep(self) -> CoreState {
        self.set_status(with_flag(with_flag(self.status(), STATUS_TO, true), STATUS_PD, false))
    }

    /// The state after `CLRWDT`: the time-out and power-down flags are set.
    pub open spec fn clear_watchdog(self) -> CoreState {
        self.set_status(with_flag(with_flag(self.status(), STATUS_TO, true), STATUS_PD, true))
    }

    /// The state after `CALL`: the address after the call is pushed, and the
    /// next instruction is the one at the 8-bit literal.
    pub open spec fn call(self) -> CoreState {
        self.push((self.program_counter + 1) % 512).jump(self.instruction_register.literal() as int)
    }

    /// The state after `RETLW`: W holds the literal, and execution returns
    /// to the address on top of the call stack.
    pub open spec fn return_with_literal(self) -> CoreState {
        CoreState { w_register: self.instruction_register.literal(), ..self }.return_from_call()
    }

    /// The state after the latched instruction was executed. What is
    /// executed is the mnemonic that the category and the selector field of
    /// the instruction give. A halting mnemonic changes nothing. `SLEEP` sets
    /// its flags, and execution does not go on: the chip sleeps until it is
    /// reset. Every other instruction is retired and then does its work.
    pub open spec fn execute(self) -> CoreState {
        let mnemonic = self.instruction_register.resolved();
        match mnemonic {
            PICInstructionMnemonic::UND
            | PICInstructionMnemonic::MOVLB
            | PICInstructionMnemonic::RETFIE
            | PICInstructionMnemonic::RETURN => self,
            PICInstructionMnemonic::SLEEP => self.sleep(),
            PICInstructionMnemonic::NOP => self.retire(),
            PICInstructionMnemonic::CLRWDT => self.retire().clear_watchdog(),
            PICInstructionMnemonic::OPTION => self.retire().load_option(),
            PICInstructionMnemonic::TRIS => self.retire().load_direction(),
            PICInstructionMnemonic::MOVLW
            | PICInstructionMnemonic::IORLW
            | PICInstructionMnemonic::ANDLW
            | PICInstructionMnemonic::XORLW => self.retire().literal_operation(mnemonic),
            PICInstructionMnemonic::GOTO => self.retire().jump(
                self.instruction_register.branch_target(),
            ),
            PICInstructionMnemonic::CALL => self.retire().call(),
            PICInstructionMnemonic::RETLW => self.retire().return_with_literal(),
            PICInstructionMnemonic::BCF
            | PICInstructionMnemonic::BSF
            | PICInstructionMnemonic::BTFSC
            | PICInstructionMnemonic::BTFSS => self.retire().bit_operation(mnemonic),
            _ => self.retire().alu_operation(mnemonic),
        }
    }

    /// The state after a fetch: the program counter is the program counter
    /// register plus one with bit 8 clear, and the instruction register
    /// holds the word at that address, decoded.
    pub open spec fn fetch(self) -> CoreState {
        let address = (self.data_memory.read(PCL_ADDRESS as int) + 1) % 256;
        CoreState {
            program_counter: address,
            instruction_register: InstructionState::of_word(self.program_memory[address]),
            ..self
        }
    }

    /// The state after one tick: a fetch, then the execution of what was
    /// fetched.
    pub open spec fn tick(self) -> CoreState {
        self.fetch().execute()
    }

    /// The state after a power-on reset: the special registers hold their
    /// reset values, and the word that loads the oscillator calibration
    /// value stands at the top address, to which the program counter
    /// register points.
    pub open spec fn power_on(self) -> CoreState {
        CoreState {
            program_memory: self.program_memory.update(
                PC_POR_MOVLW_OSCCAL_ADDRESS as int,
                MOVLW_OSCCAL_INSTRUCTION as int,
            ),
            data_memory: RegisterFileState {
                registers: self.data_memory.registers.update(
                    PCL_ADDRESS as int,
                    PC_POR_MOVLW_OSCCAL_ADDRESS as u8,
                ).update(STATUS_ADDRESS as int, STATUS_POR_VALUE).update(FSR_ADDRESS as int, FSR_POR_VALUE).update(
                    OSCCAL_ADDRESS as int,
                    OSCCAL_POR_VALUE,
                ).update(CMCON0_ADDRESS as int, CMCON0_POR_VALUE),
                tris_register: TRIS_POR_VALUE,
                option_register: OPTION_POR_VALUE,
            },
            ..self
        }
    }

    /// The state after the chip was programmed with `image`: the program
    /// memory holds the image, and every register is zero.
    pub open spec fn program(self, image: Seq<int>) -> CoreState {
        CoreState { program_memory: image, data_memory: RegisterFileState::blank(), ..self }
    }
}

/// A fetch always leaves bit 8 of the program counter clear.
pub proof fn lemma_fetch_clears_bit_8(s: CoreState)
    ensures
        (s.fetch().program_counter / 256) % 2 == 0,
        0 <= s.fetch().program_counter < 256,
{
}

/// A fetch changes the program counter and the instruction register and
/// nothing else, and what it latches is the same instruction by the opcode
/// table and by its category.
pub proof fn lemma_fetch_latches_one_instruction(s: CoreState)
    requires
        s.wf(),
    ensures
        s.fetch().wf(),
        s.fetch().data_memory == s.data_memory,
        s.fetch().program_memory == s.program_memory,
        s.fetch().instruction_register.resolved() == s.fetch().instruction_register.mnemonic,
        s.fetch().instruction_register.mnemonic == decode(
            s.program_memory[s.fetch().program_counter],
        ),
{
    lemma_decoders_agree(s.program_memory[s.fetch().program_counter]);
}

/// After power-on the word that loads the oscillator calibration value into
/// W stands at the top address, the program counter register holds that
/// address, and the first fetch goes on from it to address zero.
pub proof fn lemma_power_on(s: CoreState)
    requires
        s.wf(),
    ensures
        s.power_on().wf(),
        s.power_on().program_memory[PC_POR_MOVLW_OSCCAL_ADDRESS as int]
            == MOVLW_OSCCAL_INSTRUCTION,
        encode(PICInstructionMnemonic::MOVLW, Some(OSCCAL_POR_VALUE as u16), None) == Ok::<
            int,
            crate::instructions::EncodeError,
        >(MOVLW_OSCCAL_INSTRUCTION as int),
        decode(MOVLW_OSCCAL_INSTRUCTION as int) == PICInstructionMnemonic::MOVLW,
        s.power_on().data_memory.read(PCL_ADDRESS as int) == PC_POR_MOVLW_OSCCAL_ADDRESS,
        s.power_on().data_memory.read(STATUS_ADDRESS as int) == STATUS_POR_VALUE,
        s.power_on().data_memory.read(FSR_ADDRESS as int) == FSR_POR_VALUE,
        s.power_on().data_memory.read(OSCCAL_ADDRESS as int) == OSCCAL_POR_VALUE,
        s.power_on().data_memory.read(CMCON0_ADDRESS as int) == CMCON0_POR_VALUE,
        s.power_on().fetch().program_counter == 0,
        forall|i: int|
            0 <= i < 512 && i != PC_POR_MOVLW_OSCCAL_ADDRESS ==> s.power_on().program_memory[i]
                == s.program_memory[i],
{
    lemma_encode_round_trip(PICInstructionMnemonic::MOVLW, Some(OSCCAL_POR_VALUE as u16), None);
}

/// Executing a halting instruction changes nothing, and the machine does
/// not advance: a tick that fetches one leaves the state as the fetch left
/// it, and every later tick does the same.
pub proof fn lemma_halt_stops_execution(s: CoreState)
    requires
        halts(s.fetch().instruction_register.resolved()),
    ensures
        s.fetch().execute() == s.fetch(),
        s.tick() == s.fetch(),
        s.tick().tick() == s.tick(),
{
    assert(s.fetch().fetch() =~= s.fetch());
}

/// An undefined word halts: a tick that fetches a word which is no
/// instruction leaves the registers, W, the pins and the call stack as they
/// were, and so does every tick after it.
pub proof fn lemma_undefined_word_halts(s: CoreState)
    requires
        s.wf(),
        decode(s.program_memory[s.fetch().program_counter]) == PICInstructionMnemonic::UND,
    ensures
        s.tick() == s.fetch(),
        s.tick().data_memory == s.data_memory,
        s.tick().w_register == s.w_register,
        s.tick().io_pins == s.io_pins,
        s.tick().call_stack == s.call_stack,
        s.tick().tick() == s.tick(),
{
    lemma_fetch_latches_one_instruction(s);
    lemma_halt_stops_execution(s.fetch());
}

/// Behind a retired instruction the next fetch reads the address after it,
/// with bit 8 clear; a skip passes over one more.
pub proof fn lemma_fetch_behind_retired(s: CoreState)
    requires
        s.wf(),
    ensures
        s.retire().fetch().program_counter == (s.program_counter + 1) % 256,
        s.skip().fetch().program_counter == (s.program_counter + 2) % 256,
{
    let here = s.program_counter;
    lemma_fetch_behind(s, here);
    lemma_fetch_behind(s, (here + 1) % 512);
}

/// The fetch after execution was set to go on behind `address` reads the
/// address after it, with bit 8 clear.
pub proof fn lemma_fetch_behind(s: CoreState, address: int)
    requires
        s.wf(),
        0 <= address < 512,
    ensures
        s.continue_behind(address).fetch().program_counter == (address + 1) % 256,
{
    let low = address % 256;
    let stored = s.continue_behind(address).data_memory.read(PCL_ADDRESS as int);
    assert(stored == low as u8);
    assert(stored as int == low);
}

/// After a jump the next fetch reads the target, with bit 8 clear.
pub proof fn lemma_fetch_after_jump(s: CoreState, target: int)
    requires
        s.wf(),
        0 <= target < 512,
    ensures
        s.jump(target).fetch().program_counter == target % 256,
{
    let behind = (target + 511) % 512;
    assert(behind == if target == 0 {
        511
    } else {
        target - 1
    });
    lemma_fetch_behind(s, behind);
}

/// A return continues at the address that the last call pushed, and leaves
/// the level below it in both levels of the stack.
pub proof fn lemma_return_after_push(s: CoreState, address: int)
    requires
        s.wf(),
        0 <= address < 512,
    ensures
        s.push(address).return_from_call().fetch().program_counter == address % 256,
        s.push(address).return_from_call().call_stack == seq![s.call_stack[0], s.call_stack[0]],
{
    let pushed = s.push(address);
    let popped = CoreState { call_stack: seq![pushed.call_stack[1], pushed.call_stack[1]], ..pushed };
    assert(popped.wf());
    lemma_fetch_after_jump(popped, address);
}

/// Every step keeps a valid state valid: the memories keep their sizes and
/// the program counter, the stack and the program words their widths.
pub proof fn lemma_steps_keep_validity(s: CoreState, image: Seq<int>)
    requires
        s.wf(),
        image.len() == 512,
        forall|i: int| 0 <= i < 512 ==> 0 <= #[trigger] image[i] < 4096,
    ensures
        s.power_on().wf(),
        s.program(image).wf(),
        s.fetch().wf(),
        s.execute().wf(),
        s.tick().wf(),
{
    lemma_execute_keeps_validity(s);
    lemma_execute_keeps_validity(s.fetch());
}

/// Setting where execution goes on, writing a register and setting the
/// status register keep a valid state valid.
proof fn lemma_writes_keep_validity(s: CoreState, address: int, value: u8, target: int)
    requires
        s.wf(),
        0 <= address < 32,
        0 <= target < 512,
    ensures
        s.continue_behind(target).wf(),
        s.retire().wf(),
        s.skip().wf(),
        s.jump(target).wf(),
        s.write_register(address, value).wf(),
        s.set_status(value).wf(),
{
}

/// The operations on a file register keep a valid state valid.
proof fn lemma_file_operations_keep_validity(s: CoreState, mnemonic: PICInstructionMnemonic)
    requires
        s.wf(),
    ensures
        s.alu_operation(mnemonic).wf(),
        s.bit_operation(mnemonic).wf(),
{
    let address = s.instruction_register.file_address();
    let v = s.read_register(address);
    let carry = s.status() & STATUS_C != 0;
    let result = alu_result(mnemonic, s.w_register, v, carry);
    let mask = bit_mask(s.instruction_register.bit_index());
    lemma_writes_keep_validity(s, address, result, 0);
    lemma_writes_keep_validity(s, address, v & !mask, 0);
    lemma_writes_keep_validity(s, address, v | mask, 0);
    let stored = if mnemonic == PICInstructionMnemonic::MOVWF
        || s.instruction_register.destination_is_file() {
        s.write_register(address, result)
    } else {
        CoreState { w_register: result, ..s }
    };
    let status = alu_status(mnemonic, s.w_register, v, carry, stored.status());
    lemma_writes_keep_validity(stored, address, status, 0);
    lemma_writes_keep_validity(stored.set_status(status), address, 0, 0);
}

/// The operations on W, the shadow registers and the call stack keep a
/// valid state valid.
proof fn lemma_other_operations_keep_validity(s: CoreState, mnemonic: PICInstructionMnemonic)
    requires
        s.wf(),
    ensures
        s.literal_operation(mnemonic).wf(),
        s.load_direction().wf(),
        s.load_option().wf(),
        s.call().wf(),
        s.return_with_literal().wf(),
        s.jump(s.instruction_register.branch_target()).wf(),
{
    let pushed = s.push((s.program_counter + 1) % 512);
    assert(pushed.wf());
    lemma_writes_keep_validity(pushed, 0, 0, s.instruction_register.literal() as int);
    let loaded = CoreState { w_register: s.instruction_register.literal(), ..s };
    let popped = CoreState { call_stack: seq![loaded.call_stack[1], loaded.call_stack[1]], ..loaded };
    assert(popped.wf());
    lemma_writes_keep_validity(popped, 0, 0, loaded.call_stack[0]);
    lemma_writes_keep_validity(s, 0, 0, s.instruction_register.branch_target());
}

/// Executing an instruction keeps a valid state valid.
proof fn lemma_execute_keeps_validity(s: CoreState)
    requires
        s.wf(),
    ensures
        s.execute().wf(),
{
    let mnemonic = s.instruction_register.resolved();
    let retired = s.retire();
    lemma_writes_keep_validity(s, 0, 0, 0);
    lemma_writes_keep_validity(
        s,
        0,
        with_flag(with_flag(s.status(), STATUS_TO, true), STATUS_PD, false),
        0,
    );
    lemma_writes_keep_validity(
        retired,
        0,
        with_flag(with_flag(retired.status(), STATUS_TO, true), STATUS_PD, true),
        0,
    );
    assert(s.sleep().wf());
    assert(retired.clear_watchdog().wf());
    lemma_file_operations_keep_validity(retired, mnemonic);
    lemma_other_operations_keep_validity(retired, mnemonic);
}

} // verus!
