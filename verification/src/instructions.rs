//! The instruction set of the 12-bit core: mnemonics, the opcode table, and the
//! codec between raw instruction words and mnemonics with operands.
//!
//! A word is decoded in one of two ways that always agree
//! ([`lemma_decoders_agree`]): by walking the opcode table for the first
//! pattern that matches the word's leading bits, or by classifying the word by
//! its two top bits and reading the selector field of its category.

use crate::nbitnumber::{modulus, shift_down, shift_up, u12, u2, u3, u9, NBit, NBitNumber};
use vstd::prelude::*;

verus! {

/// The category of an instruction word, which fixes where its selector and
/// operand fields lie.
#[derive(Debug, Clone, Copy, PartialEq, Eq, Structural)]
pub enum PICInstructionType {
    Miscellaneous,
    BitOperation,
    ControlTransfer,
    OperationsWithW,
    ALUOperation,
}

/// The symbolic name of an instruction. `CLR` stands for both clear
/// instructions, which differ in their destination bit. `MOVLB`, `RETFIE` and
/// `RETURN` belong to larger cores and have no encoding here. `UND` is what a
/// word decodes to that is no instruction.
#[derive(Debug, Clone, Copy, PartialEq, Eq, Structural)]
pub enum PICInstructionMnemonic {
    // Miscellaneous
    NOP,
    CLRWDT,
    OPTION,
    RETFIE,
    SLEEP,
    MOVLB,
    TRIS,
    RETURN,
    // ALU operations
    MOVWF,
    CLR,
    SUBWF,
    DECF,
    IORWF,
    ANDWF,
    XORWF,
    ADDWF,
    MOVF,
    COMF,
    INCF,
    DECFSZ,
    RRF,
    RLF,
    SWAPF,
    INCFSZ,
    // Bit operations
    BCF,
    BSF,
    BTFSC,
    BTFSS,
    // Control transfer
    GOTO,
    CALL,
    RETLW,
    // Operations with W
    MOVLW,
    IORLW,
    ANDLW,
    XORLW,
    // Undefined instruction
    UND,
}

impl PICInstructionMnemonic {
    /// The name as the assembler writes it.
    pub open spec fn spec_name(self) -> Seq<char> {
        match self {
            PICInstructionMnemonic::NOP => "NOP"@,
            PICInstructionMnemonic::CLRWDT => "CLRWDT"@,
            PICInstructionMnemonic::OPTION => "OPTION"@,
            PICInstructionMnemonic::RETFIE => "RETFIE"@,
            PICInstructionMnemonic::SLEEP => "SLEEP"@,
            PICInstructionMnemonic::MOVLB => "MOVLB"@,
            PICInstructionMnemonic::TRIS => "TRIS"@,
            PICInstructionMnemonic::RETURN => "RETURN"@,
            PICInstructionMnemonic::MOVWF => "MOVWF"@,
            PICInstructionMnemonic::CLR => "CLR"@,
            PICInstructionMnemonic::SUBWF => "SUBWF"@,
            PICInstructionMnemonic::DECF => "DECF"@,
            PICInstructionMnemonic::IORWF => "IORWF"@,
            PICInstructionMnemonic::ANDWF => "ANDWF"@,
            PICInstructionMnemonic::XORWF => "XORWF"@,
            PICInstructionMnemonic::ADDWF => "ADDWF"@,
            PICInstructionMnemonic::MOVF => "MOVF"@,
            PICInstructionMnemonic::COMF => "COMF"@,
            PICInstructionMnemonic::INCF => "INCF"@,
            PICInstructionMnemonic::DECFSZ => "DECFSZ"@,
            PICInstructionMnemonic::RRF => "RRF"@,
            PICInstructionMnemonic::RLF => "RLF"@,
            PICInstructionMnemonic::SWAPF => "SWAPF"@,
            PICInstructionMnemonic::INCFSZ => "INCFSZ"@,
            PICInstructionMnemonic::BCF => "BCF"@,
            PICInstructionMnemonic::BSF => "BSF"@,
            PICInstructionMnemonic::BTFSC => "BTFSC"@,
            PICInstructionMnemonic::BTFSS => "BTFSS"@,
            PICInstructionMnemonic::GOTO => "GOTO"@,
            PICInstructionMnemonic::CALL => "CALL"@,
            PICInstructionMnemonic::RETLW => "RETLW"@,
            PICInstructionMnemonic::MOVLW => "MOVLW"@,
            PICInstructionMnemonic::IORLW => "IORLW"@,
            PICInstructionMnemonic::ANDLW => "ANDLW"@,
            PICInstructionMnemonic::XORLW => "XORLW"@,
            PICInstructionMnemonic::UND => "UND"@,
        }
    }

    /// The name as the assembler writes it.
    pub fn name(&self) -> (r: &'static str)
        ensures
            r@ == self.spec_name(),
    {
        match self {
            PICInstructionMnemonic::NOP => "NOP",
            PICInstructionMnemonic::CLRWDT => "CLRWDT",
            PICInstructionMnemonic::OPTION => "OPTION",
            PICInstructionMnemonic::RETFIE => "RETFIE",
            PICInstructionMnemonic::SLEEP => "SLEEP",
            PICInstructionMnemonic::MOVLB => "MOVLB",
            PICInstructionMnemonic::TRIS => "TRIS",
            PICInstructionMnemonic::RETURN => "RETURN",
            PICInstructionMnemonic::MOVWF => "MOVWF",
            PICInstructionMnemonic::CLR => "CLR",
            PICInstructionMnemonic::SUBWF => "SUBWF",
            PICInstructionMnemonic::DECF => "DECF",
            PICInstructionMnemonic::IORWF => "IORWF",
            PICInstructionMnemonic::ANDWF => "ANDWF",
            PICInstructionMnemonic::XORWF => "XORWF",
            PICInstructionMnemonic::ADDWF => "ADDWF",
            PICInstructionMnemonic::MOVF => "MOVF",
            PICInstructionMnemonic::COMF => "COMF",
            PICInstructionMnemonic::INCF => "INCF",
            PICInstructionMnemonic::DECFSZ => "DECFSZ",
            PICInstructionMnemonic::RRF => "RRF",
            PICInstructionMnemonic::RLF => "RLF",
            PICInstructionMnemonic::SWAPF => "SWAPF",
            PICInstructionMnemonic::INCFSZ => "INCFSZ",
            PICInstructionMnemonic::BCF => "BCF",
            PICInstructionMnemonic::BSF => "BSF",
            PICInstructionMnemonic::BTFSC => "BTFSC",
            PICInstructionMnemonic::BTFSS => "BTFSS",
            PICInstructionMnemonic::GOTO => "GOTO",
            PICInstructionMnemonic::CALL => "CALL",
            PICInstructionMnemonic::RETLW => "RETLW",
            PICInstructionMnemonic::MOVLW => "MOVLW",
            PICInstructionMnemonic::IORLW => "IORLW",
            PICInstructionMnemonic::ANDLW => "ANDLW",
            PICInstructionMnemonic::XORLW => "XORLW",
            PICInstructionMnemonic::UND => "UND",
        }
    }
}

/// One line of the opcode table, as numbers: the `width` leading bits of a
/// word that is this instruction are `bits`.
pub struct OpcodePattern {
    pub width: int,
    pub bits: int,
    pub mnemonic: PICInstructionMnemonic,
}

/// One line of the opcode table: the fixed leading bits of an instruction,
/// its mnemonic and its display name.
#[derive(Debug, Clone, Copy)]
pub struct Opcode {
    pub pattern: NBit,
    pub mnemonic: PICInstructionMnemonic,
    pub name: &'static str,
}

/// The number of lines of the opcode table.
pub const OPCODE_COUNT: usize = 33;

/// Line `i` of the opcode table. The lines are in ascending order of the
/// words they cover, and no word is covered twice.
pub open spec fn opcode_pattern(i: int) -> OpcodePattern {
    if i == 0 {
        OpcodePattern { width: 12, bits: 0b000000000000, mnemonic: PICInstructionMnemonic::NOP }
    } else if i == 1 {
        OpcodePattern { width: 12, bits: 0b000000000010, mnemonic: PICInstructionMnemonic::OPTION }
    } else if i == 2 {
        OpcodePattern { width: 12, bits: 0b000000000011, mnemonic: PICInstructionMnemonic::SLEEP }
    } else if i == 3 {
        OpcodePattern { width: 12, bits: 0b000000000100, mnemonic: PICInstructionMnemonic::CLRWDT }
    } else if i == 4 {
        OpcodePattern { width: 12, bits: 0b000000000101, mnemonic: PICInstructionMnemonic::TRIS }
    } else if i == 5 {
        OpcodePattern { width: 11, bits: 0b00000000011, mnemonic: PICInstructionMnemonic::TRIS }
    } else if i == 6 {
        OpcodePattern { width: 7, bits: 0b0000001, mnemonic: PICInstructionMnemonic::MOVWF }
    } else if i == 7 {
        OpcodePattern { width: 6, bits: 0b000001, mnemonic: PICInstructionMnemonic::CLR }
    } else if i == 8 {
        OpcodePattern { width: 6, bits: 0b000010, mnemonic: PICInstructionMnemonic::SUBWF }
    } else if i == 9 {
        OpcodePattern { width: 6, bits: 0b000011, mnemonic: PICInstructionMnemonic::DECF }
    } else if i == 10 {
        OpcodePattern { width: 6, bits: 0b000100, mnemonic: PICInstructionMnemonic::IORWF }
    } else if i == 11 {
        OpcodePattern { width: 6, bits: 0b000101, mnemonic: PICInstructionMnemonic::ANDWF }
    } else if i == 12 {
        OpcodePattern { width: 6, bits: 0b000110, mnemonic: PICInstructionMnemonic::XORWF }
    } else if i == 13 {
        OpcodePattern { width: 6, bits: 0b000111, mnemonic: PICInstructionMnemonic::ADDWF }
    } else if i == 14 {
        OpcodePattern { width: 6, bits: 0b001000, mnemonic: PICInstructionMnemonic::MOVF }
    } else if i == 15 {
        OpcodePattern { width: 6, bits: 0b001001, mnemonic: PICInstructionMnemonic::COMF }
    } else if i == 16 {
        OpcodePattern { width: 6, bits: 0b001010, mnemonic: PICInstructionMnemonic::INCF }
    } else if i == 17 {
        OpcodePattern { width: 6, bits: 0b001011, mnemonic: PICInstructionMnemonic::DECFSZ }
    } else if i == 18 {
        OpcodePattern { width: 6, bits: 0b001100, mnemonic: PICInstructionMnemonic::RRF }
    } else if i == 19 {
        OpcodePattern { width: 6, bits: 0b001101, mnemonic: PICInstructionMnemonic::RLF }
    } else if i == 20 {
        OpcodePattern { width: 6, bits: 0b001110, mnemonic: PICInstructionMnemonic::SWAPF }
    } else if i == 21 {
        OpcodePattern { width: 6, bits: 0b001111, mnemonic: PICInstructionMnemonic::INCFSZ }
    } else if i == 22 {
        OpcodePattern { width: 4, bits: 0b0100, mnemonic: PICInstructionMnemonic::BCF }
    } else if i == 23 {
        OpcodePattern { width: 4, bits: 0b0101, mnemonic: PICInstructionMnemonic::BSF }
    } else if i == 24 {
        OpcodePattern { width: 4, bits: 0b0110, mnemonic: PICInstructionMnemonic::BTFSC }
    } else if i == 25 {
        OpcodePattern { width: 4, bits: 0b0111, mnemonic: PICInstructionMnemonic::BTFSS }
    } else if i == 26 {
        OpcodePattern { width: 4, bits: 0b1000, mnemonic: PICInstructionMnemonic::RETLW }
    } else if i == 27 {
        OpcodePattern { width: 4, bits: 0b1001, mnemonic: PICInstructionMnemonic::CALL }
    } else if i == 28 {
        OpcodePattern { width: 3, bits: 0b101, mnemonic: PICInstructionMnemonic::GOTO }
    } else if i == 29 {
        OpcodePattern { width: 4, bits: 0b1100, mnemonic: PICInstructionMnemonic::MOVLW }
    } else if i == 30 {
        OpcodePattern { width: 4, bits: 0b1101, mnemonic: PICInstructionMnemonic::IORLW }
    } else if i == 31 {
        OpcodePattern { width: 4, bits: 0b1110, mnemonic: PICInstructionMnemonic::ANDLW }
    } else if i == 32 {
        OpcodePattern { width: 4, bits: 0b1111, mnemonic: PICInstructionMnemonic::XORLW }
    } else {
        OpcodePattern { width: 0, bits: 0, mnemonic: PICInstructionMnemonic::UND }
    }
}

impl OpcodePattern {
    /// Whether the leading `width` bits of the 12-bit word `raw` are `bits`.
    pub open spec fn matches(self, raw: int) -> bool {
        1 <= self.width <= 12 && shift_down(raw, 12 - self.width) == self.bits
    }

    /// The first word that the pattern covers.
    pub open spec fn first_word(self) -> int {
        shift_up(self.bits, 12 - self.width)
    }

    /// The number of words that the pattern covers.
    pub open spec fn span(self) -> int {
        modulus(12 - self.width)
    }
}

impl View for Opcode {
    type V = OpcodePattern;

    /// The line as numbers.
    open spec fn view(&self) -> OpcodePattern {
        OpcodePattern {
            width: self.pattern.width(),
            bits: self.pattern.number(),
            mnemonic: self.mnemonic,
        }
    }
}

/// The mnemonic of the first table line from `from` on that matches `raw`,
/// `UND` if none does.
pub open spec fn first_match(raw: int, from: int) -> PICInstructionMnemonic
    decreases OPCODE_COUNT - from,
{
    if from < 0 || from >= OPCODE_COUNT {
        PICInstructionMnemonic::UND
    } else if opcode_pattern(from).matches(raw) {
        opcode_pattern(from).mnemonic
    } else {
        first_match(raw, from + 1)
    }
}

/// What the 12-bit word `raw` decodes to by the opcode table.
pub open spec fn decode(raw: int) -> PICInstructionMnemonic {
    first_match(raw, 0)
}

/// The category of the 12-bit word `raw`: bits 11 and 10 choose it, and a
/// word that starts with `00` is miscellaneous when bits 9 to 5 are all zero.
pub open spec fn category_of(raw: int) -> PICInstructionType {
    let top = raw / 1024;
    if top == 0 {
        if (raw / 32) % 32 == 0 {
            PICInstructionType::Miscellaneous
        } else {
            PICInstructionType::ALUOperation
        }
    } else if top == 1 {
        PICInstructionType::BitOperation
    } else if top == 2 {
        PICInstructionType::ControlTransfer
    } else {
        PICInstructionType::OperationsWithW
    }
}

/// The ALU operation chosen by the four selector bits 9 to 6.
pub open spec fn alu_mnemonic(selector: int) -> PICInstructionMnemonic {
    if selector == 0 {
        PICInstructionMnemonic::MOVWF
    } else if selector == 1 {
        PICInstructionMnemonic::CLR
    } else if selector == 2 {
        PICInstructionMnemonic::SUBWF
    } else if selector == 3 {
        PICInstructionMnemonic::DECF
    } else if selector == 4 {
        PICInstructionMnemonic::IORWF
    } else if selector == 5 {
        PICInstructionMnemonic::ANDWF
    } else if selector == 6 {
        PICInstructionMnemonic::XORWF
    } else if selector == 7 {
        PICInstructionMnemonic::ADDWF
    } else if selector == 8 {
        PICInstructionMnemonic::MOVF
    } else if selector == 9 {
        PICInstructionMnemonic::COMF
    } else if selector == 10 {
        PICInstructionMnemonic::INCF
    } else if selector == 11 {
        PICInstructionMnemonic::DECFSZ
    } else if selector == 12 {
        PICInstructionMnemonic::RRF
    } else if selector == 13 {
        PICInstructionMnemonic::RLF
    } else if selector == 14 {
        PICInstructionMnemonic::SWAPF
    } else {
        PICInstructionMnemonic::INCFSZ
    }
}

/// The bit operation chosen by the two selector bits 9 and 8.
pub open spec fn bit_mnemonic(selector: int) -> PICInstructionMnemonic {
    if selector == 0 {
        PICInstructionMnemonic::BCF
    } else if selector == 1 {
        PICInstructionMnemonic::BSF
    } else if selector == 2 {
        PICInstructionMnemonic::BTFSC
    } else {
        PICInstructionMnemonic::BTFSS
    }
}

/// The control transfer chosen by the whole high nibble, bits 11 to 8.
pub open spec fn control_mnemonic(nibble: int) -> PICInstructionMnemonic {
    if nibble == 0x8 {
        PICInstructionMnemonic::RETLW
    } else if nibble == 0x9 {
        PICInstructionMnemonic::CALL
    } else if nibble == 0xA || nibble == 0xB {
        PICInstructionMnemonic::GOTO
    } else {
        PICInstructionMnemonic::UND
    }
}

/// The literal operation chosen by the two selector bits 9 and 8.
pub open spec fn literal_mnemonic(selector: int) -> PICInstructionMnemonic {
    if selector == 0 {
        PICInstructionMnemonic::MOVLW
    } else if selector == 1 {
        PICInstructionMnemonic::IORLW
    } else if selector == 2 {
        PICInstructionMnemonic::ANDLW
    } else {
        PICInstructionMnemonic::XORLW
    }
}

/// The miscellaneous instruction whose low byte is `low`, by the list of
/// the words that are one.
pub open spec fn miscellaneous_mnemonic(low: int) -> PICInstructionMnemonic {
    if low == 0x00 {
        PICInstructionMnemonic::NOP
    } else if low == 0x02 {
        PICInstructionMnemonic::OPTION
    } else if low == 0x03 {
        PICInstructionMnemonic::SLEEP
    } else if low == 0x04 {
        PICInstructionMnemonic::CLRWDT
    } else if 0x05 <= low <= 0x07 {
        PICInstructionMnemonic::TRIS
    } else {
        PICInstructionMnemonic::UND
    }
}

/// What the 12-bit word `raw` is within `category`, read from the selector
/// field of that category.
pub open spec fn mnemonic_in_category(
    category: PICInstructionType,
    raw: int,
) -> PICInstructionMnemonic {
    match category {
        PICInstructionType::ALUOperation => alu_mnemonic((raw / 64) % 16),
        PICInstructionType::BitOperation => bit_mnemonic((raw / 256) % 4),
        PICInstructionType::ControlTransfer => control_mnemonic(raw / 256),
        PICInstructionType::Miscellaneous => miscellaneous_mnemonic(raw % 256),
        PICInstructionType::OperationsWithW => literal_mnemonic((raw / 256) % 4),
    }
}

/// What the 12-bit word `raw` decodes to by its category.
pub open spec fn decode_by_category(raw: int) -> PICInstructionMnemonic {
    mnemonic_in_category(category_of(raw), raw)
}

/// The values that an operand field takes: from `least` up to, not
/// including, `limit`.
#[derive(Debug, Clone, Copy, PartialEq, Eq, Structural)]
pub struct OperandRange {
    pub least: u16,
    pub limit: u16,
}

/// The operands that an instruction takes. The first operand lies at bit 0 of
/// the word, the second at bit 5.
#[derive(Debug, Clone, Copy, PartialEq, Eq, Structural)]
pub enum Operands {
    /// No operand.
    Nothing,
    /// The select of a direction register, 1 to 3 (the registers 5 to 7).
    Select,
    /// The address of a file register, 5 bits.
    File,
    /// The address of a file register, and the destination select: 1 for the
    /// file register, 0 for W.
    FileAndDestination,
    /// The address of a file register, and the index of a bit in it, 3 bits.
    FileAndBit,
    /// A literal, 8 bits.
    Literal,
    /// The target of a branch, 9 bits.
    Target,
}

/// How an instruction is put together: the word without operands, and the
/// operands it takes.
#[derive(Debug, Clone, Copy, PartialEq, Eq, Structural)]
pub struct Encoding {
    pub base: u16,
    pub operands: Operands,
}

/// Why an instruction could not be encoded.
#[derive(Debug, Clone, Copy, PartialEq, Eq, Structural)]
pub enum EncodeError {
    /// The operand is missing, out of the range of its field, or given to an
    /// instruction that has no such field.
    InvalidOperand { mnemonic: PICInstructionMnemonic, operand: Option<u16> },
    /// The mnemonic has no encoding on this core.
    UnsupportedMnemonic { mnemonic: PICInstructionMnemonic },
}

impl Operands {
    /// The values of the first operand; `None` where there is none.
    pub open spec fn first_range(self) -> Option<OperandRange> {
        match self {
            Operands::Nothing => None,
            Operands::Select => Some(OperandRange { least: 1, limit: 4 }),
            Operands::File | Operands::FileAndDestination | Operands::FileAndBit => Some(
                OperandRange { least: 0, limit: 32 },
            ),
            Operands::Literal => Some(OperandRange { least: 0, limit: 256 }),
            Operands::Target => Some(OperandRange { least: 0, limit: 512 }),
        }
    }

    /// The values of the second operand; `None` where there is none.
    pub open spec fn second_range(self) -> Option<OperandRange> {
        match self {
            Operands::FileAndDestination => Some(OperandRange { least: 0, limit: 2 }),
            Operands::FileAndBit => Some(OperandRange { least: 0, limit: 8 }),
            _ => None,
        }
    }

    /// The values of the first operand; `None` where there is none.
    pub fn first(self) -> (r: Option<OperandRange>)
        ensures
            r == self.first_range(),
    {
        match self {
            Operands::Nothing => None,
            Operands::Select => Some(OperandRange { least: 1, limit: 4 }),
            Operands::File | Operands::FileAndDestination | Operands::FileAndBit => Some(
                OperandRange { least: 0, limit: 32 },
            ),
            Operands::Literal => Some(OperandRange { least: 0, limit: 256 }),
            Operands::Target => Some(OperandRange { least: 0, limit: 512 }),
        }
    }

    /// The values of the second operand; `None` where there is none.
    pub fn second(self) -> (r: Option<OperandRange>)
        ensures
            r == self.second_range(),
    {
        match self {
            Operands::FileAndDestination => Some(OperandRange { least: 0, limit: 2 }),
            Operands::FileAndBit => Some(OperandRange { least: 0, limit: 8 }),
            _ => None,
        }
    }
}

/// How `mnemonic` is encoded; `None` for a mnemonic that has no encoding on
/// this core.
pub open spec fn encoding_of(mnemonic: PICInstructionMnemonic) -> Option<Encoding> {
    match mnemonic {
        PICInstructionMnemonic::NOP => Some(Encoding { base: 0x000, operands: Operands::Nothing }),
        PICInstructionMnemonic::OPTION => Some(Encoding { base: 0x002, operands: Operands::Nothing }),
        PICInstructionMnemonic::SLEEP => Some(Encoding { base: 0x003, operands: Operands::Nothing }),
        PICInstructionMnemonic::CLRWDT => Some(Encoding { base: 0x004, operands: Operands::Nothing }),
        PICInstructionMnemonic::TRIS => Some(Encoding { base: 0x004, operands: Operands::Select }),
        PICInstructionMnemonic::MOVWF => Some(Encoding { base: 0x020, operands: Operands::File }),
        PICInstructionMnemonic::CLR => Some(
            Encoding { base: 0x040, operands: Operands::FileAndDestination },
        ),
        PICInstructionMnemonic::SUBWF => Some(
            Encoding { base: 0x080, operands: Operands::FileAndDestination },
        ),
        PICInstructionMnemonic::DECF => Some(
            Encoding { base: 0x0C0, operands: Operands::FileAndDestination },
        ),
        PICInstructionMnemonic::IORWF => Some(
            Encoding { base: 0x100, operands: Operands::FileAndDestination },
        ),
        PICInstructionMnemonic::ANDWF => Some(
            Encoding { base: 0x140, operands: Operands::FileAndDestination },
        ),
        PICInstructionMnemonic::XORWF => Some(
            Encoding { base: 0x180, operands: Operands::FileAndDestination },
        ),
        PICInstructionMnemonic::ADDWF => Some(
            Encoding { base: 0x1C0, operands: Operands::FileAndDestination },
        ),
        PICInstructionMnemonic::MOVF => Some(
            Encoding { base: 0x200, operands: Operands::FileAndDestination },
        ),
        PICInstructionMnemonic::COMF => Some(
            Encoding { base: 0x240, operands: Operands::FileAndDestination },
        ),
        PICInstructionMnemonic::INCF => Some(
            Encoding { base: 0x280, operands: Operands::FileAndDestination },
        ),
        PICInstructionMnemonic::DECFSZ => Some(
            Encoding { base: 0x2C0, operands: Operands::FileAndDestination },
        ),
        PICInstructionMnemonic::RRF => Some(
            Encoding { base: 0x300, operands: Operands::FileAndDestination },
        ),
        PICInstructionMnemonic::RLF => Some(
            Encoding { base: 0x340, operands: Operands::FileAndDestination },
        ),
        PICInstructionMnemonic::SWAPF => Some(
            Encoding { base: 0x380, operands: Operands::FileAndDestination },
        ),
        PICInstructionMnemonic::INCFSZ => Some(
            Encoding { base: 0x3C0, operands: Operands::FileAndDestination },
        ),
        PICInstructionMnemonic::BCF => Some(
            Encoding { base: 0x400, operands: Operands::FileAndBit },
        ),
        PICInstructionMnemonic::BSF => Some(
            Encoding { base: 0x500, operands: Operands::FileAndBit },
        ),
        PICInstructionMnemonic::BTFSC => Some(
            Encoding { base: 0x600, operands: Operands::FileAndBit },
        ),
        PICInstructionMnemonic::BTFSS => Some(
            Encoding { base: 0x700, operands: Operands::FileAndBit },
        ),
        PICInstructionMnemonic::RETLW => Some(
            Encoding { base: 0x800, operands: Operands::Literal },
        ),
        PICInstructionMnemonic::CALL => Some(
            Encoding { base: 0x900, operands: Operands::Literal },
        ),
        PICInstructionMnemonic::GOTO => Some(Encoding { base: 0xA00, operands: Operands::Target }),
        PICInstructionMnemonic::MOVLW => Some(
            Encoding { base: 0xC00, operands: Operands::Literal },
        ),
        PICInstructionMnemonic::IORLW => Some(
            Encoding { base: 0xD00, operands: Operands::Literal },
        ),
        PICInstructionMnemonic::ANDLW => Some(
            Encoding { base: 0xE00, operands: Operands::Literal },
        ),
        PICInstructionMnemonic::XORLW => Some(
            Encoding { base: 0xF00, operands: Operands::Literal },
        ),
        PICInstructionMnemonic::MOVLB
        | PICInstructionMnemonic::RETFIE
        | PICInstructionMnemonic::RETURN
        | PICInstructionMnemonic::UND => None,
    }
}

impl OperandRange {
    /// Whether `operand` is a value of the field.
    pub open spec fn holds(self, operand: int) -> bool {
        self.least <= operand < self.limit
    }
}

/// Whether `operand` is what `field` asks for: a value of the field where
/// there is one, nothing where there is none.
pub open spec fn operand_fits(field: Option<OperandRange>, operand: Option<u16>) -> bool {
    match field {
        Some(range) => operand is Some && range.holds(operand->0 as int),
        None => operand is None,
    }
}

/// The operand as a number; zero where there is none.
pub open spec fn operand_value(operand: Option<u16>) -> int {
    match operand {
        Some(v) => v as int,
        None => 0,
    }
}

/// The word that `mnemonic` with the operands `first` and `second` is, or why
/// there is none. The first operand is examined first.
pub open spec fn encode(
    mnemonic: PICInstructionMnemonic,
    first: Option<u16>,
    second: Option<u16>,
) -> Result<int, EncodeError> {
    match encoding_of(mnemonic) {
        None => Err(EncodeError::UnsupportedMnemonic { mnemonic }),
        Some(encoding) => if !operand_fits(encoding.operands.first_range(), first) {
            Err(EncodeError::InvalidOperand { mnemonic, operand: first })
        } else if !operand_fits(encoding.operands.second_range(), second) {
            Err(EncodeError::InvalidOperand { mnemonic, operand: second })
        } else {
            Ok(encoding.base + operand_value(first) + 32 * operand_value(second))
        },
    }
}

/// How `mnemonic` is encoded; `None` for a mnemonic that has no encoding on
/// this core.
pub fn encoding(mnemonic: PICInstructionMnemonic) -> (r: Option<Encoding>)
    ensures
        r == encoding_of(mnemonic),
{
    match mnemonic {
        PICInstructionMnemonic::NOP => Some(Encoding { base: 0x000, operands: Operands::Nothing }),
        PICInstructionMnemonic::OPTION => Some(Encoding { base: 0x002, operands: Operands::Nothing }),
        PICInstructionMnemonic::SLEEP => Some(Encoding { base: 0x003, operands: Operands::Nothing }),
        PICInstructionMnemonic::CLRWDT => Some(Encoding { base: 0x004, operands: Operands::Nothing }),
        PICInstructionMnemonic::TRIS => Some(Encoding { base: 0x004, operands: Operands::Select }),
        PICInstructionMnemonic::MOVWF => Some(Encoding { base: 0x020, operands: Operands::File }),
        PICInstructionMnemonic::CLR => Some(
            Encoding { base: 0x040, operands: Operands::FileAndDestination },
        ),
        PICInstructionMnemonic::SUBWF => Some(
            Encoding { base: 0x080, operands: Operands::FileAndDestination },
        ),
        PICInstructionMnemonic::DECF => Some(
            Encoding { base: 0x0C0, operands: Operands::FileAndDestination },
        ),
        PICInstructionMnemonic::IORWF => Some(
            Encoding { base: 0x100, operands: Operands::FileAndDestination },
        ),
        PICInstructionMnemonic::ANDWF => Some(
            Encoding { base: 0x140, operands: Operands::FileAndDestination },
        ),
        PICInstructionMnemonic::XORWF => Some(
            Encoding { base: 0x180, operands: Operands::FileAndDestination },
        ),
        PICInstructionMnemonic::ADDWF => Some(
            Encoding { base: 0x1C0, operands: Operands::FileAndDestination },
        ),
        PICInstructionMnemonic::MOVF => Some(
            Encoding { base: 0x200, operands: Operands::FileAndDestination },
        ),
        PICInstructionMnemonic::COMF => Some(
            Encoding { base: 0x240, operands: Operands::FileAndDestination },
        ),
        PICInstructionMnemonic::INCF => Some(
            Encoding { base: 0x280, operands: Operands::FileAndDestination },
        ),
        PICInstructionMnemonic::DECFSZ => Some(
            Encoding { base: 0x2C0, operands: Operands::FileAndDestination },
        ),
        PICInstructionMnemonic::RRF => Some(
            Encoding { base: 0x300, operands: Operands::FileAndDestination },
        ),
        PICInstructionMnemonic::RLF => Some(
            Encoding { base: 0x340, operands: Operands::FileAndDestination },
        ),
        PICInstructionMnemonic::SWAPF => Some(
            Encoding { base: 0x380, operands: Operands::FileAndDestination },
        ),
        PICInstructionMnemonic::INCFSZ => Some(
            Encoding { base: 0x3C0, operands: Operands::FileAndDestination },
        ),
        PICInstructionMnemonic::BCF => Some(
            Encoding { base: 0x400, operands: Operands::FileAndBit },
        ),
        PICInstructionMnemonic::BSF => Some(
            Encoding { base: 0x500, operands: Operands::FileAndBit },
        ),
        PICInstructionMnemonic::BTFSC => Some(
            Encoding { base: 0x600, operands: Operands::FileAndBit },
        ),
        PICInstructionMnemonic::BTFSS => Some(
            Encoding { base: 0x700, operands: Operands::FileAndBit },
        ),
        PICInstructionMnemonic::RETLW => Some(
            Encoding { base: 0x800, operands: Operands::Literal },
        ),
        PICInstructionMnemonic::CALL => Some(
            Encoding { base: 0x900, operands: Operands::Literal },
        ),
        PICInstructionMnemonic::GOTO => Some(Encoding { base: 0xA00, operands: Operands::Target }),
        PICInstructionMnemonic::MOVLW => Some(
            Encoding { base: 0xC00, operands: Operands::Literal },
        ),
        PICInstructionMnemonic::IORLW => Some(
            Encoding { base: 0xD00, operands: Operands::Literal },
        ),
        PICInstructionMnemonic::ANDLW => Some(
            Encoding { base: 0xE00, operands: Operands::Literal },
        ),
        PICInstructionMnemonic::XORLW => Some(
            Encoding { base: 0xF00, operands: Operands::Literal },
        ),
        PICInstructionMnemonic::MOVLB
        | PICInstructionMnemonic::RETFIE
        | PICInstructionMnemonic::RETURN
        | PICInstructionMnemonic::UND => None,
    }
}

/// Whether `operand` is what `field` asks for.
pub fn check_operand(field: Option<OperandRange>, operand: Option<u16>) -> (r: bool)
    ensures
        r == operand_fits(field, operand),
{
    match field {
        Some(range) => match operand {
            Some(value) => range.least <= value && value < range.limit,
            None => false,
        },
        None => operand.is_none(),
    }
}

/// The table line of `pattern` and `mnemonic`, under the name of the
/// mnemonic.
fn line(pattern: NBit, mnemonic: PICInstructionMnemonic) -> (r: Opcode)
    ensures
        r.pattern == pattern,
        r.mnemonic == mnemonic,
        r.name@ == mnemonic.spec_name(),
{
    Opcode { pattern, mnemonic, name: mnemonic.name() }
}

/// Line `i` of the opcode table.
pub fn opcode(i: usize) -> (line: Opcode)
    requires
        i < OPCODE_COUNT,
    ensures
        line@ == opcode_pattern(i as int),
        line.name@ == line.mnemonic.spec_name(),
{
    if i == 0 {
        line(NBit::N12(NBitNumber::<12>::new(0b000000000000)), PICInstructionMnemonic::NOP)
    } else if i == 1 {
        line(NBit::N12(NBitNumber::<12>::new(0b000000000010)), PICInstructionMnemonic::OPTION)
    } else if i == 2 {
        line(NBit::N12(NBitNumber::<12>::new(0b000000000011)), PICInstructionMnemonic::SLEEP)
    } else if i == 3 {
        line(NBit::N12(NBitNumber::<12>::new(0b000000000100)), PICInstructionMnemonic::CLRWDT)
    } else if i == 4 {
        line(NBit::N12(NBitNumber::<12>::new(0b000000000101)), PICInstructionMnemonic::TRIS)
    } else if i == 5 {
        line(NBit::N11(NBitNumber::<11>::new(0b00000000011)), PICInstructionMnemonic::TRIS)
    } else if i == 6 {
        line(NBit::N7(NBitNumber::<7>::new(0b0000001)), PICInstructionMnemonic::MOVWF)
    } else if i == 7 {
        line(NBit::N6(NBitNumber::<6>::new(0b000001)), PICInstructionMnemonic::CLR)
    } else if i == 8 {
        line(NBit::N6(NBitNumber::<6>::new(0b000010)), PICInstructionMnemonic::SUBWF)
    } else if i == 9 {
        line(NBit::N6(NBitNumber::<6>::new(0b000011)), PICInstructionMnemonic::DECF)
    } else if i == 10 {
        line(NBit::N6(NBitNumber::<6>::new(0b000100)), PICInstructionMnemonic::IORWF)
    } else if i == 11 {
        line(NBit::N6(NBitNumber::<6>::new(0b000101)), PICInstructionMnemonic::ANDWF)
    } else if i == 12 {
        line(NBit::N6(NBitNumber::<6>::new(0b000110)), PICInstructionMnemonic::XORWF)
    } else if i == 13 {
        line(NBit::N6(NBitNumber::<6>::new(0b000111)), PICInstructionMnemonic::ADDWF)
    } else if i == 14 {
        line(NBit::N6(NBitNumber::<6>::new(0b001000)), PICInstructionMnemonic::MOVF)
    } else if i == 15 {
        line(NBit::N6(NBitNumber::<6>::new(0b001001)), PICInstructionMnemonic::COMF)
    } else if i == 16 {
        line(NBit::N6(NBitNumber::<6>::new(0b001010)), PICInstructionMnemonic::INCF)
    } else if i == 17 {
        line(NBit::N6(NBitNumber::<6>::new(0b001011)), PICInstructionMnemonic::DECFSZ)
    } else if i == 18 {
        line(NBit::N6(NBitNumber::<6>::new(0b001100)), PICInstructionMnemonic::RRF)
    } else if i == 19 {
        line(NBit::N6(NBitNumber::<6>::new(0b001101)), PICInstructionMnemonic::RLF)
    } else if i == 20 {
        line(NBit::N6(NBitNumber::<6>::new(0b001110)), PICInstructionMnemonic::SWAPF)
    } else if i == 21 {
        line(NBit::N6(NBitNumber::<6>::new(0b001111)), PICInstructionMnemonic::INCFSZ)
    } else if i == 22 {
        line(NBit::N4(NBitNumber::<4>::new(0b0100)), PICInstructionMnemonic::BCF)
    } else if i == 23 {
        line(NBit::N4(NBitNumber::<4>::new(0b0101)), PICInstructionMnemonic::BSF)
    } else if i == 24 {
        line(NBit::N4(NBitNumber::<4>::new(0b0110)), PICInstructionMnemonic::BTFSC)
    } else if i == 25 {
        line(NBit::N4(NBitNumber::<4>::new(0b0111)), PICInstructionMnemonic::BTFSS)
    } else if i == 26 {
        line(NBit::N4(NBitNumber::<4>::new(0b1000)), PICInstructionMnemonic::RETLW)
    } else if i == 27 {
        line(NBit::N4(NBitNumber::<4>::new(0b1001)), PICInstructionMnemonic::CALL)
    } else if i == 28 {
        line(NBit::N3(NBitNumber::<3>::new(0b101)), PICInstructionMnemonic::GOTO)
    } else if i == 29 {
        line(NBit::N4(NBitNumber::<4>::new(0b1100)), PICInstructionMnemonic::MOVLW)
    } else if i == 30 {
        line(NBit::N4(NBitNumber::<4>::new(0b1101)), PICInstructionMnemonic::IORLW)
    } else if i == 31 {
        line(NBit::N4(NBitNumber::<4>::new(0b1110)), PICInstructionMnemonic::ANDLW)
    } else {
        line(NBit::N4(NBitNumber::<4>::new(0b1111)), PICInstructionMnemonic::XORLW)
    }
}

/// Moving a 12-bit pattern up by `s` places and clearing the `s` low bits of
/// a word, as arithmetic.
proof fn lemma_align(v: u16, word: u16, s: u16)
    by (bit_vector)
    requires
        s <= 11,
        v < modulus(12 - s),
        word < 4096,
    ensures
        (1u16 << s) >= 1,
        ((v << s) & !(((1u16 << s) - 1) as u16)) == shift_up(v as int, s as int),
        ((v << s) & !(((1u16 << s) - 1) as u16)) < 4096,
        (word & !(((1u16 << s) - 1) as u16)) == shift_up(shift_down(word as int, s as int), s as int),
        (word & !(((1u16 << s) - 1) as u16)) < 4096,
{
}

/// The fields of a 12-bit word, cut out with masks and shifts, as quotients
/// and remainders.
pub proof fn lemma_fields(raw: u16)
    by (bit_vector)
    requires
        raw < 4096,
    ensures
        raw & 0xC00 == 0x000 <==> raw / 1024 == 0,
        raw & 0xC00 == 0x400 <==> raw / 1024 == 1,
        raw & 0xC00 == 0x800 <==> raw / 1024 == 2,
        raw & 0xC00 == 0xC00 <==> raw / 1024 == 3,
        raw & 0x3E0 == 0 <==> (raw / 32) % 32 == 0,
        (raw & 0x3C0) >> 6 == (raw / 64) % 16,
        raw & 0x300 == 0x000 <==> (raw / 256) % 4 == 0,
        raw & 0x300 == 0x100 <==> (raw / 256) % 4 == 1,
        raw & 0x300 == 0x200 <==> (raw / 256) % 4 == 2,
        raw & 0x300 == 0x300 <==> (raw / 256) % 4 == 3,
        raw & 0xF00 == 0x800 <==> raw / 256 == 0x8,
        raw & 0xF00 == 0x900 <==> raw / 256 == 0x9,
        raw & 0xF00 == 0xA00 <==> raw / 256 == 0xA,
        raw & 0xF00 == 0xB00 <==> raw / 256 == 0xB,
        raw & 0x0FF == raw % 256,
        (raw >> 5) & 0x001 == (raw / 32) % 2,
        raw & 0x01F == raw % 32,
        (raw & 0x0E0) >> 5 == (raw / 32) % 8,
        raw & 0x1FF == raw % 512,
        raw & 0x007 == raw % 8,
        raw & 0x003 == raw % 4,
{
}

/// Moving two numbers up by the same number of places keeps them apart.
proof fn lemma_shift_up_injective(a: int, b: int, s: int)
    requires
        0 <= s <= 12,
    ensures
        shift_up(a, s) == shift_up(b, s) <==> a == b,
{
    if s == 0 {
        assert(shift_up(a, s) == a * 1);
        assert(shift_up(b, s) == b * 1);
    } else if s == 1 {
        assert(shift_up(a, s) == a * 2);
        assert(shift_up(b, s) == b * 2);
    } else if s == 2 {
        assert(shift_up(a, s) == a * 4);
        assert(shift_up(b, s) == b * 4);
    } else if s == 3 {
        assert(shift_up(a, s) == a * 8);
        assert(shift_up(b, s) == b * 8);
    } else if s == 4 {
        assert(shift_up(a, s) == a * 16);
        assert(shift_up(b, s) == b * 16);
    } else if s == 5 {
        assert(shift_up(a, s) == a * 32);
        assert(shift_up(b, s) == b * 32);
    } else if s == 6 {
        assert(shift_up(a, s) == a * 64);
        assert(shift_up(b, s) == b * 64);
    } else if s == 7 {
        assert(shift_up(a, s) == a * 128);
        assert(shift_up(b, s) == b * 128);
    } else if s == 8 {
        assert(shift_up(a, s) == a * 256);
        assert(shift_up(b, s) == b * 256);
    } else if s == 9 {
        assert(shift_up(a, s) == a * 512);
        assert(shift_up(b, s) == b * 512);
    } else if s == 10 {
        assert(shift_up(a, s) == a * 1024);
        assert(shift_up(b, s) == b * 1024);
    } else if s == 11 {
        assert(shift_up(a, s) == a * 2048);
        assert(shift_up(b, s) == b * 2048);
    } else {
        assert(shift_up(a, s) == a * 4096);
        assert(shift_up(b, s) == b * 4096);
    }
}

/// An instruction word together with what it decodes to.
#[derive(Debug, Clone, Copy)]
pub struct PICInstruction {
    pub instruction_raw: u12,
    pub instruction_mnemonic: PICInstructionMnemonic,
    pub instruction_category: PICInstructionType,
}

/// An instruction as numbers: its 12-bit word, and the mnemonic and category
/// it carries.
pub struct InstructionState {
    pub raw: int,
    pub mnemonic: PICInstructionMnemonic,
    pub category: PICInstructionType,
}

impl InstructionState {
    /// The instruction that the 12-bit word `raw` is.
    pub open spec fn of_word(raw: int) -> InstructionState {
        InstructionState { raw, mnemonic: decode(raw), category: category_of(raw) }
    }

    /// What the instruction is by its category and the selector field of
    /// that category: the mnemonic that is executed.
    pub open spec fn resolved(self) -> PICInstructionMnemonic {
        mnemonic_in_category(self.category, self.raw)
    }

    /// Bits 4 to 0: the file register address.
    pub open spec fn file_address(self) -> int {
        self.raw % 32
    }

    /// Bit 5: whether the result goes to the file register, not to W.
    pub open spec fn destination_is_file(self) -> bool {
        (self.raw / 32) % 2 == 1
    }

    /// Bits 7 to 5: the bit index of a bit operation.
    pub open spec fn bit_index(self) -> int {
        (self.raw / 32) % 8
    }

    /// Bits 7 to 0: the literal.
    pub open spec fn literal(self) -> u8 {
        (self.raw % 256) as u8
    }

    /// Bits 8 to 0: the target of a branch.
    pub open spec fn branch_target(self) -> int {
        self.raw % 512
    }

    /// Bits 1 and 0: the direction register select.
    pub open spec fn direction_select(self) -> int {
        self.raw % 4
    }
}

impl View for PICInstruction {
    type V = InstructionState;

    open spec fn view(&self) -> InstructionState {
        InstructionState {
            raw: self.instruction_raw@,
            mnemonic: self.instruction_mnemonic,
            category: self.instruction_category,
        }
    }
}

impl PICInstruction {
    /// The instruction that the word `instruction` is: its mnemonic by the
    /// opcode table, its category by its leading bits.
    pub fn from_u12(instruction: u12) -> (r: PICInstruction)
        ensures
            r.instruction_raw == instruction,
            r@ == InstructionState::of_word(instruction@),
    {
        PICInstruction {
            instruction_raw: instruction,
            instruction_mnemonic: PICInstruction::decode_mnemonic(instruction),
            instruction_category: PICInstruction::decode_category(instruction),
        }
    }

    /// An instruction that carries `mnemonic` and no operands: its word is
    /// zero, whatever the mnemonic.
    pub fn from_mnemonic(mnemonic: PICInstructionMnemonic) -> (r: PICInstruction)
        ensures
            r.instruction_raw@ == 0,
            r.instruction_mnemonic == mnemonic,
            r.instruction_category == PICInstructionType::Miscellaneous,
    {
        PICInstruction {
            instruction_raw: u12::new(0),
            instruction_mnemonic: mnemonic,
            instruction_category: PICInstructionType::Miscellaneous,
        }
    }

    /// The `N`-bit pattern moved to the top of a 12-bit word, with the
    /// `12 - N` bits below it clear.
    pub fn align_opcode<const N: usize>(n: NBitNumber<N>) -> (r: u12)
        requires
            N <= 12,
        ensures
            r@ == shift_up(n@, 12 - N),
    {
        let value: u16 = n.get();
        let mask_bits: u16 = (12 - N) as u16;
        proof {
            lemma_align(value, 0, mask_bits);
        }
        // move to the 12th bit position
        let shifted: u16 = value << mask_bits;
        let mask: u16 = (1u16 << mask_bits) - 1;
        let nmask: u16 = !mask;
        let result: u16 = shifted & nmask;
        NBitNumber::<12>::new(result)
    }

    /// The word with its `count` low bits cleared; zero when that is the
    /// whole word.
    pub fn clear_low_bits(word: u12, count: usize) -> (r: u12)
        ensures
            r@ == shift_up(shift_down(word@, count as int), count as int),
    {
        let value: u16 = word.get();
        if count >= 12 {
            u12::new(0)
        } else {
            let mask_bits: u16 = count as u16;
            proof {
                lemma_align(0, value, mask_bits);
            }
            let mask: u16 = (1u16 << mask_bits) - 1;
            let nmask: u16 = !mask;
            NBitNumber::<12>::new(value & nmask)
        }
    }

    /// Whether the leading `N` bits of `word` are the pattern `n`: both are
    /// aligned to the top of the 12-bit field, with the bits below the
    /// pattern cleared, and compared.
    fn matches_pattern<const N: usize>(n: NBitNumber<N>, word: u12) -> (r: bool)
        requires
            1 <= N <= 12,
        ensures
            r == (shift_down(word@, 12 - N) == n@),
    {
        let aligned_opcode: u12 = Self::align_opcode::<N>(n);
        let aligned_target: u12 = Self::clear_low_bits(word, 12 - N);
        proof {
            lemma_shift_up_injective(n@, shift_down(word@, 12 - N), 12 - N);
        }
        aligned_opcode == aligned_target
    }

    /// Whether `word` is the instruction of the table line `line`. A pattern
    /// wider than a word matches nothing.
    pub fn matches_opcode(line: &Opcode, raw_instruction: u12) -> (r: bool)
        ensures
            r == line@.matches(raw_instruction@),
    {
        match line.pattern {
            NBit::N1(n) => Self::matches_pattern::<1>(n, raw_instruction),
            NBit::N2(n) => Self::matches_pattern::<2>(n, raw_instruction),
            NBit::N3(n) => Self::matches_pattern::<3>(n, raw_instruction),
            NBit::N4(n) => Self::matches_pattern::<4>(n, raw_instruction),
            NBit::N5(n) => Self::matches_pattern::<5>(n, raw_instruction),
            NBit::N6(n) => Self::matches_pattern::<6>(n, raw_instruction),
            NBit::N7(n) => Self::matches_pattern::<7>(n, raw_instruction),
            NBit::N8(n) => Self::matches_pattern::<8>(n, raw_instruction),
            NBit::N9(n) => Self::matches_pattern::<9>(n, raw_instruction),
            NBit::N10(n) => Self::matches_pattern::<10>(n, raw_instruction),
            NBit::N11(n) => Self::matches_pattern::<11>(n, raw_instruction),
            NBit::N12(n) => Self::matches_pattern::<12>(n, raw_instruction),
            _ => false,
        }
    }

    /// Decodes the mnemonic from the raw instruction bits: the mnemonic of
    /// the first line of the opcode table whose pattern matches, `UND` if
    /// none does.
    pub fn decode_mnemonic(raw_instruction: NBitNumber<12>) -> (r: PICInstructionMnemonic)
        ensures
            r == decode(raw_instruction@),
    {
        let mut i: usize = 0;
        while i < OPCODE_COUNT
            invariant
                i <= OPCODE_COUNT,
                decode(raw_instruction@) == first_match(raw_instruction@, i as int),
            decreases OPCODE_COUNT - i,
        {
            let line = opcode(i);
            if Self::matches_opcode(&line, raw_instruction) {
                return line.mnemonic;
            }
            i += 1;
        }
        // no pattern matched
        PICInstructionMnemonic::UND
    }

    /// Assembles the word of `mnemonic` with its operands `first` (a file
    /// register address, a literal, a branch target or a direction register
    /// select) and `second` (a destination select or a bit index). An operand
    /// that is missing, out of range or not taken by the instruction is
    /// reported with the mnemonic; a mnemonic without an encoding on this
    /// core, `UND` among them, is reported as unsupported.
    pub fn encode_mnemonic(
        mnemonic: PICInstructionMnemonic,
        first: Option<u16>,
        second: Option<u16>,
    ) -> (r: Result<u12, EncodeError>)
        ensures
            match encode(mnemonic, first, second) {
                Ok(word) => r is Ok && r->Ok_0@ == word && decode(word) == mnemonic,
                Err(error) => r == Err::<u12, EncodeError>(error),
            },
    {
        match encoding(mnemonic) {
            None => Err(EncodeError::UnsupportedMnemonic { mnemonic }),
            Some(encoding) => {
                if !check_operand(encoding.operands.first(), first) {
                    Err(EncodeError::InvalidOperand { mnemonic, operand: first })
                } else if !check_operand(encoding.operands.second(), second) {
                    Err(EncodeError::InvalidOperand { mnemonic, operand: second })
                } else {
                    let low: u16 = match first {
                        Some(value) => value,
                        None => 0,
                    };
                    let high: u16 = match second {
                        Some(value) => value,
                        None => 0,
                    };
                    proof {
                        lemma_encode_round_trip(mnemonic, first, second);
                    }
                    Ok(u12::new(encoding.base + low + 32 * high))
                }
            },
        }
    }

    /// The category of the word, from bits 11 and 10 and, for words that
    /// start with `00`, from bits 9 to 5.
    pub fn decode_category(instruction: u12) -> (r: PICInstructionType)
        ensures
            r == category_of(instruction@),
    {
        let raw: u16 = instruction.get();
        proof {
            lemma_fields(raw);
        }
        let top: u16 = raw & 0xC00;
        // misc & alu -> 0000 | 0000 | 0000
        // bit  -> 0100 | 0000 | 0000
        // control 1000 | 0000 | 0000
        // operations = 1100 | 0000 | 0000
        if top == 0x000 {
            if raw & 0x3E0 == 0x000 {
                PICInstructionType::Miscellaneous
            } else {
                PICInstructionType::ALUOperation
            }
        } else if top == 0x400 {
            PICInstructionType::BitOperation
        } else if top == 0x800 {
            PICInstructionType::ControlTransfer
        } else {
            PICInstructionType::OperationsWithW
        }
    }

    /// The 8-bit literal: bits 7 to 0.
    pub fn extract_k(&self) -> (r: u8)
        ensures
            r == self.instruction_raw@ % 256,
            r == self@.literal(),
    {
        let raw: u16 = self.instruction_raw.get();
        proof {
            lemma_fields(raw);
        }
        (raw & 0x0FF) as u8
    }

    /// The destination select: bit 5.
    pub fn extract_d(&self) -> (r: NBitNumber<1>)
        ensures
            r@ == (self.instruction_raw@ / 32) % 2,
    {
        let raw: u16 = self.instruction_raw.get();
        proof {
            lemma_fields(raw);
        }
        NBitNumber::new((raw >> 5) & 0x001)
    }

    /// The file register address: bits 4 to 0.
    pub fn extract_f(&self) -> (r: NBitNumber<5>)
        ensures
            r@ == self.instruction_raw@ % 32,
    {
        let raw: u16 = self.instruction_raw.get();
        proof {
            lemma_fields(raw);
        }
        NBitNumber::new(raw & 0x01F)
    }

    /// The bit index of a bit operation: bits 7 to 5.
    pub fn extract_b(&self) -> (r: NBitNumber<3>)
        ensures
            r@ == (self.instruction_raw@ / 32) % 8,
    {
        let raw: u16 = self.instruction_raw.get();
        proof {
            lemma_fields(raw);
        }
        NBitNumber::new((raw & 0x0E0) >> 5)
    }

    /// The branch target: bits 8 to 0.
    pub fn extract_k_goto(&self) -> (r: NBitNumber<9>)
        ensures
            r@ == self.instruction_raw@ % 512,
    {
        let raw: u16 = self.instruction_raw.get();
        proof {
            lemma_fields(raw);
        }
        u9::new(raw & 0x1FF)
    }

    /// The bank select literal: bits 2 to 0.
    pub fn extract_k_movlb(&self) -> (r: NBitNumber<3>)
        ensures
            r@ == self.instruction_raw@ % 8,
    {
        let raw: u16 = self.instruction_raw.get();
        proof {
            lemma_fields(raw);
        }
        u3::new(raw & 0x007)
    }

    /// The direction register select: bits 1 and 0.
    pub fn extract_f_tris(&self) -> (r: NBitNumber<2>)
        ensures
            r@ == self.instruction_raw@ % 4,
    {
        let raw: u16 = self.instruction_raw.get();
        proof {
            lemma_fields(raw);
        }
        u2::new(raw & 0x003)
    }
}

/// Every line of the opcode table has a width from 1 to 12 bits, and its
/// pattern fits in that width.
pub proof fn lemma_table_is_well_formed(i: int)
    requires
        0 <= i < OPCODE_COUNT,
    ensures
        1 <= opcode_pattern(i).width <= 12,
        0 <= opcode_pattern(i).bits < modulus(opcode_pattern(i).width),
{
}

/// A line of the table matches the words of one range: from its first word,
/// as many words as its span.
pub proof fn lemma_match_is_range(i: int, raw: int)
    requires
        0 <= i < OPCODE_COUNT,
    ensures
        opcode_pattern(i).matches(raw) <==> opcode_pattern(i).first_word() <= raw
            < opcode_pattern(i).first_word() + opcode_pattern(i).span(),
{
}

/// The table is in ascending order: the words of a line end before those of
/// any later line begin, and the last line ends with the last 12-bit word.
pub proof fn lemma_table_is_ascending(i: int, j: int)
    requires
        0 <= i < j < OPCODE_COUNT,
    ensures
        0 <= opcode_pattern(i).first_word(),
        opcode_pattern(i).first_word() + opcode_pattern(i).span() <= opcode_pattern(
            j,
        ).first_word(),
        opcode_pattern(j).first_word() + opcode_pattern(j).span() <= 4096,
    decreases j - i,
{
    if j > i + 1 {
        lemma_table_is_ascending(i, j - 1);
        lemma_table_is_ascending(j - 1, j);
    }
}

/// No word matches two lines of the opcode table: decoding never depends on
/// the order in which the table is walked.
pub proof fn lemma_patterns_are_disjoint(i: int, j: int, raw: int)
    requires
        0 <= i < OPCODE_COUNT,
        0 <= j < OPCODE_COUNT,
        opcode_pattern(i).matches(raw),
        opcode_pattern(j).matches(raw),
    ensures
        i == j,
{
    lemma_match_is_range(i, raw);
    lemma_match_is_range(j, raw);
    if i < j {
        lemma_table_is_ascending(i, j);
    } else if j < i {
        lemma_table_is_ascending(j, i);
    }
}

/// The two decoders agree on every 12-bit word.
pub proof fn lemma_decoders_agree(raw: int)
    requires
        0 <= raw < 4096,
    ensures
        decode(raw) == decode_by_category(raw),
{
    reveal_with_fuel(first_match, 34);
}

/// The round trip: a word that `encode` assembles is a 12-bit word that both
/// decoders read as the mnemonic it was assembled from.
pub proof fn lemma_encode_round_trip(
    mnemonic: PICInstructionMnemonic,
    first: Option<u16>,
    second: Option<u16>,
)
    requires
        encode(mnemonic, first, second) is Ok,
    ensures
        0 <= encode(mnemonic, first, second)->Ok_0 < 4096,
        decode(encode(mnemonic, first, second)->Ok_0) == mnemonic,
        decode_by_category(encode(mnemonic, first, second)->Ok_0) == mnemonic,
{
    let word = encode(mnemonic, first, second)->Ok_0;
    assert(0 <= word < 4096);
    assert(decode_by_category(word) == mnemonic);
    lemma_decoders_agree(word);
}

/// The operands of an assembled word can be read back from its fields.
pub proof fn lemma_encode_keeps_operands(
    mnemonic: PICInstructionMnemonic,
    first: Option<u16>,
    second: Option<u16>,
)
    requires
        encode(mnemonic, first, second) is Ok,
    ensures
        ({
            let instruction = InstructionState::of_word(encode(mnemonic, first, second)->Ok_0);
            match encoding_of(mnemonic)->0.operands {
                Operands::Nothing => true,
                Operands::Select => instruction.direction_select() == first->0,
                Operands::File => instruction.file_address() == first->0,
                Operands::FileAndDestination => instruction.file_address() == first->0
                    && instruction.destination_is_file() == (second->0 == 1),
                Operands::FileAndBit => instruction.file_address() == first->0
                    && instruction.bit_index() == second->0,
                Operands::Literal => instruction.literal() == first->0,
                Operands::Target => instruction.branch_target() == first->0,
            }
        }),
{
    let layout = encoding_of(mnemonic)->0;
    let base = layout.base as int;
    let low = operand_value(first);
    let high = operand_value(second);
    let word = encode(mnemonic, first, second)->Ok_0;
    assert(word == base + low + 32 * high);
    match layout.operands {
        Operands::Nothing => {},
        Operands::Select => {
            assert(base % 4 == 0);
            assert(word % 4 == low);
        },
        Operands::File => {
            assert(base % 32 == 0);
            assert(word % 32 == low);
        },
        Operands::FileAndDestination => {
            assert(base % 64 == 0);
            assert(word % 32 == low);
            assert(word / 32 == 2 * (base / 64) + high);
            assert((word / 32) % 2 == high);
        },
        Operands::FileAndBit => {
            assert(base % 256 == 0);
            assert(word % 32 == low);
            assert(word / 32 == 8 * (base / 256) + high);
            assert((word / 32) % 8 == high);
        },
        Operands::Literal => {
            assert(base % 256 == 0);
            assert(word % 256 == low);
        },
        Operands::Target => {
            assert(base % 512 == 0);
            assert(word % 512 == low);
        },
    }
}

} // verus!
