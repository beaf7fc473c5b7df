//! The CHIP-8 instruction catalogue and the opcode decoder.
//!
//! An opcode is a 16-bit word laid out as four nibbles.  The decoder is a
//! pure, total function: every opcode maps to exactly one variant of
//! [`InstructionSet`], with unmatched patterns carried through as
//! `Unhandled` for diagnostics.

use vstd::prelude::*;
use vstd::string::StringExecFns;

verus! {

/// One decoded CHIP-8 instruction with its operands extracted.
#[derive(Clone, Copy)]
pub enum InstructionSet {
    MachineLanguageSubroutine(u16),
    ClearScreen,
    ReturnFromSubroutine,
    JumpToAddress(u16),
    ExecuteSubroutine(u16),
    SkipFollowingIfRegisterIsEqualToValue(u8, u8),
    SkipFollowingIfRegisterIsNotEqualToValue(u8, u8),
    SkipFollowingIfRegisterIsEqualToOtherRegister(u8, u8),
    SkipFollowingIfRegisterIsNotEqualToOtherRegister(u8, u8),
    StoreInRegister(u8, u8),
    AddToRegister(u8, u8),
    CopyRegisterValueToOtherRegister(u8, u8),
    SetVxToVxOrVy(u8, u8),
    SetVxToVxAndVy(u8, u8),
    SetVxToVxXorVy(u8, u8),
    AddValueOfRegisterVyToRegisterVx(u8, u8),
    SubtractValueOfRegisterVyFromRegisterVx(u8, u8),
    StoreValueOfRegisterVyShiftedRightOneBitInVx(u8, u8),
    SetVxToValueOfVyMinusVx(u8, u8),
    StoreValueOfRegisterVyShiftedLeftOneBitInVx(u8, u8),
    StoreAddressInRegisterI(u16),
    JumpToAddressWithV0Offset(u16),
    SetVxToRandomNumberWithAMaskOf(u8, u8),
    DrawSprite(u8, u8, u8),
    StoreDelayTimerInRegisterVx(u8),
    WaitForAKeyPress(u8),
    SkipFollowingInstructionIfKeyCorrespondingToVxIsPressed(u8),
    SkipFollowingInstructionIfKeyCorrespondingToVxIsNotPressed(u8),
    SetDelayTimerToVx(u8),
    SetSoundTimerToVx(u8),
    AddVxToRegisterI(u8),
    SetIToTheMemoryAddressOfSpriteCorrespondingToVx(u8),
    StoreTheBinaryCodedDecimalEquivalentOfVx(u8),
    StoreValuesOfV0ToVxInclusiveInMemoryStartingAtAddressI(u8),
    FillRegistersV0ToVxInclusiveWithMemoryStartingAtAddressI(u8),
    Unhandled(u16),
}

/// Low 12 bits of an opcode: a memory address.
pub open spec fn opcode_addr(opcode: u16) -> u16 {
    opcode & 0x0FFF
}

/// Low 8 bits of an opcode: an immediate byte.
pub open spec fn opcode_kk(opcode: u16) -> u8 {
    (opcode & 0x00FF) as u8
}

/// Bits 8..=11 of an opcode: the first register index.
pub open spec fn opcode_x(opcode: u16) -> u8 {
    ((opcode & 0x0F00) >> 8) as u8
}

/// Bits 4..=7 of an opcode: the second register index.
pub open spec fn opcode_y(opcode: u16) -> u8 {
    ((opcode & 0x00F0) >> 4) as u8
}

/// Low 4 bits of an opcode: a sprite height.
pub open spec fn opcode_n(opcode: u16) -> u8 {
    (opcode & 0x000F) as u8
}

/// The bit-field extraction always yields in-range operands: register
/// indices and sprite heights below 16, addresses below 0x1000.
pub proof fn lemma_opcode_fields_in_range(opcode: u16)
    ensures
        opcode_addr(opcode) < 0x1000,
        opcode_kk(opcode) < 0x100,
        opcode_x(opcode) < 16,
        opcode_y(opcode) < 16,
        opcode_n(opcode) < 16,
{
    assert((opcode & 0x0FFF) < 0x1000) by (bit_vector);
    assert((opcode & 0x00FF) < 0x100) by (bit_vector);
    assert(((opcode & 0x0F00) >> 8) < 16) by (bit_vector);
    assert(((opcode & 0x00F0) >> 4) < 16) by (bit_vector);
    assert((opcode & 0x000F) < 16) by (bit_vector);
}

/// What the decoder returns for every opcode: the primary dispatch is on the
/// top nibble, with a secondary dispatch on the low byte or low nibble for
/// the families that share a top nibble.
pub open spec fn spec_decode(opcode: u16) -> InstructionSet {
    let address = opcode_addr(opcode);
    let value = opcode_kk(opcode);
    let x = opcode_x(opcode);
    let y = opcode_y(opcode);
    match opcode & 0xF000 {
        0x0000 => match opcode {
            0x00E0 => InstructionSet::ClearScreen,
            0x00EE => InstructionSet::ReturnFromSubroutine,
            _ => InstructionSet::MachineLanguageSubroutine(opcode),
        },
        0x1000 => InstructionSet::JumpToAddress(address),
        0x2000 => InstructionSet::ExecuteSubroutine(address),
        0x3000 => InstructionSet::SkipFollowingIfRegisterIsEqualToValue(x, value),
        0x4000 => InstructionSet::SkipFollowingIfRegisterIsNotEqualToValue(x, value),
        0x5000 => match opcode & 0xF00F {
            0x5000 => InstructionSet::SkipFollowingIfRegisterIsEqualToOtherRegister(x, y),
            _ => InstructionSet::Unhandled(opcode),
        },
        0x6000 => InstructionSet::StoreInRegister(x, value),
        0x7000 => InstructionSet::AddToRegister(x, value),
        0x8000 => match opcode & 0xF00F {
            0x8000 => InstructionSet::CopyRegisterValueToOtherRegister(x, y),
            0x8001 => InstructionSet::SetVxToVxOrVy(x, y),
            0x8002 => InstructionSet::SetVxToVxAndVy(x, y),
            0x8003 => InstructionSet::SetVxToVxXorVy(x, y),
            0x8004 => InstructionSet::AddValueOfRegisterVyToRegisterVx(x, y),
            0x8005 => InstructionSet::SubtractValueOfRegisterVyFromRegisterVx(x, y),
            0x8006 => InstructionSet::StoreValueOfRegisterVyShiftedRightOneBitInVx(x, y),
            0x8007 => InstructionSet::SetVxToValueOfVyMinusVx(x, y),
            0x800E => InstructionSet::StoreValueOfRegisterVyShiftedLeftOneBitInVx(x, y),
            _ => InstructionSet::Unhandled(opcode),
        },
        0x9000 => match opcode & 0xF00F {
            0x9000 => InstructionSet::SkipFollowingIfRegisterIsNotEqualToOtherRegister(x, y),
            _ => InstructionSet::Unhandled(opcode),
        },
        0xA000 => InstructionSet::StoreAddressInRegisterI(address),
        0xB000 => InstructionSet::JumpToAddressWithV0Offset(address),
        0xC000 => InstructionSet::SetVxToRandomNumberWithAMaskOf(x, value),
        0xD000 => InstructionSet::DrawSprite(x, y, opcode_n(opcode)),
        0xE000 => match opcode & 0xF0FF {
            0xE09E => InstructionSet::SkipFollowingInstructionIfKeyCorrespondingToVxIsPressed(x),
            0xE0A1 => InstructionSet::SkipFollowingInstructionIfKeyCorrespondingToVxIsNotPressed(
                x,
            ),
            _ => InstructionSet::Unhandled(opcode),
        },
        0xF000 => match opcode & 0xF0FF {
            0xF007 => InstructionSet::StoreDelayTimerInRegisterVx(x),
            0xF00A => InstructionSet::WaitForAKeyPress(x),
            0xF015 => InstructionSet::SetDelayTimerToVx(x),
            0xF018 => InstructionSet::SetSoundTimerToVx(x),
            0xF01E => InstructionSet::AddVxToRegisterI(x),
            0xF029 => InstructionSet::SetIToTheMemoryAddressOfSpriteCorrespondingToVx(x),
            0xF033 => InstructionSet::StoreTheBinaryCodedDecimalEquivalentOfVx(x),
            0xF055 => InstructionSet::StoreValuesOfV0ToVxInclusiveInMemoryStartingAtAddressI(x),
            0xF065 => InstructionSet::FillRegistersV0ToVxInclusiveWithMemoryStartingAtAddressI(x),
            _ => InstructionSet::Unhandled(opcode),
        },
        _ => InstructionSet::Unhandled(opcode),
    }
}

/// Every operand a decoder output can carry is in range: register indices
/// and sprite heights below 16, addresses below 0x1000.
pub open spec fn wf_instruction(instruction: InstructionSet) -> bool {
    match instruction {
        InstructionSet::MachineLanguageSubroutine(_) => true,
        InstructionSet::ClearScreen => true,
        InstructionSet::ReturnFromSubroutine => true,
        InstructionSet::JumpToAddress(address) => address < 0x1000,
        InstructionSet::ExecuteSubroutine(address) => address < 0x1000,
        InstructionSet::SkipFollowingIfRegisterIsEqualToValue(x, _) => x < 16,
        InstructionSet::SkipFollowingIfRegisterIsNotEqualToValue(x, _) => x < 16,
        InstructionSet::SkipFollowingIfRegisterIsEqualToOtherRegister(x, y) => x < 16 && y < 16,
        InstructionSet::SkipFollowingIfRegisterIsNotEqualToOtherRegister(x, y) => x < 16 && y < 16,
        InstructionSet::StoreInRegister(x, _) => x < 16,
        InstructionSet::AddToRegister(x, _) => x < 16,
        InstructionSet::CopyRegisterValueToOtherRegister(x, y) => x < 16 && y < 16,
        InstructionSet::SetVxToVxOrVy(x, y) => x < 16 && y < 16,
        InstructionSet::SetVxToVxAndVy(x, y) => x < 16 && y < 16,
        InstructionSet::SetVxToVxXorVy(x, y) => x < 16 && y < 16,
        InstructionSet::AddValueOfRegisterVyToRegisterVx(x, y) => x < 16 && y < 16,
        InstructionSet::SubtractValueOfRegisterVyFromRegisterVx(x, y) => x < 16 && y < 16,
        InstructionSet::StoreValueOfRegisterVyShiftedRightOneBitInVx(x, y) => x < 16 && y < 16,
        InstructionSet::SetVxToValueOfVyMinusVx(x, y) => x < 16 && y < 16,
        InstructionSet::StoreValueOfRegisterVyShiftedLeftOneBitInVx(x, y) => x < 16 && y < 16,
        InstructionSet::StoreAddressInRegisterI(address) => address < 0x1000,
        InstructionSet::JumpToAddressWithV0Offset(address) => address < 0x1000,
        InstructionSet::SetVxToRandomNumberWithAMaskOf(x, _) => x < 16,
        InstructionSet::DrawSprite(x, y, n) => x < 16 && y < 16 && n < 16,
        InstructionSet::StoreDelayTimerInRegisterVx(x) => x < 16,
        InstructionSet::WaitForAKeyPress(x) => x < 16,
        InstructionSet::SkipFollowingInstructionIfKeyCorrespondingToVxIsPressed(x) => x < 16,
        InstructionSet::SkipFollowingInstructionIfKeyCorrespondingToVxIsNotPressed(x) => x < 16,
        InstructionSet::SetDelayTimerToVx(x) => x < 16,
        InstructionSet::SetSoundTimerToVx(x) => x < 16,
        InstructionSet::AddVxToRegisterI(x) => x < 16,
        InstructionSet::SetIToTheMemoryAddressOfSpriteCorrespondingToVx(x) => x < 16,
        InstructionSet::StoreTheBinaryCodedDecimalEquivalentOfVx(x) => x < 16,
        InstructionSet::StoreValuesOfV0ToVxInclusiveInMemoryStartingAtAddressI(x) => x < 16,
        InstructionSet::FillRegistersV0ToVxInclusiveWithMemoryStartingAtAddressI(x) => x < 16,
        InstructionSet::Unhandled(_) => true,
    }
}

/// Whatever the opcode, the decoder produces a well-formed instruction.
pub proof fn lemma_spec_decode_wf(opcode: u16)
    ensures
        wf_instruction(spec_decode(opcode)),
{
    lemma_opcode_fields_in_range(opcode);
}

/// Maps a 16-bit opcode to its decoded instruction.  Pure and total: an
/// opcode that matches no known pattern decodes to `Unhandled` carrying the
/// raw opcode.
pub fn decode_opcode(opcode: u16) -> (instruction: InstructionSet)
    ensures
        instruction == spec_decode(opcode),
{
    let address = opcode & 0x0FFF;
    let value = (opcode & 0x00FF) as u8;
    let x = ((opcode & 0x0F00) >> 8) as u8;
    let y = ((opcode & 0x00F0) >> 4) as u8;
    match opcode & 0xF000 {
        0x0000 => match opcode {
            0x00E0 => InstructionSet::ClearScreen,
            0x00EE => InstructionSet::ReturnFromSubroutine,
            _ => InstructionSet::MachineLanguageSubroutine(opcode),
        },
        0x1000 => InstructionSet::JumpToAddress(address),
        0x2000 => InstructionSet::ExecuteSubroutine(address),
        0x3000 => InstructionSet::SkipFollowingIfRegisterIsEqualToValue(x, value),
        0x4000 => InstructionSet::SkipFollowingIfRegisterIsNotEqualToValue(x, value),
        0x5000 => match opcode & 0xF00F {
            0x5000 => InstructionSet::SkipFollowingIfRegisterIsEqualToOtherRegister(x, y),
            _ => InstructionSet::Unhandled(opcode),
        },
        0x6000 => InstructionSet::StoreInRegister(x, value),
        0x7000 => InstructionSet::AddToRegister(x, value),
        0x8000 => match opcode & 0xF00F {
            0x8000 => InstructionSet::CopyRegisterValueToOtherRegister(x, y),
            0x8001 => InstructionSet::SetVxToVxOrVy(x, y),
            0x8002 => InstructionSet::SetVxToVxAndVy(x, y),
            0x8003 => InstructionSet::SetVxToVxXorVy(x, y),
            0x8004 => InstructionSet::AddValueOfRegisterVyToRegisterVx(x, y),
            0x8005 => InstructionSet::SubtractValueOfRegisterVyFromRegisterVx(x, y),
            0x8006 => InstructionSet::StoreValueOfRegisterVyShiftedRightOneBitInVx(x, y),
            0x8007 => InstructionSet::SetVxToValueOfVyMinusVx(x, y),
            0x800E => InstructionSet::StoreValueOfRegisterVyShiftedLeftOneBitInVx(x, y),
            _ => InstructionSet::Unhandled(opcode),
        },
        0x9000 => match opcode & 0xF00F {
            0x9000 => InstructionSet::SkipFollowingIfRegisterIsNotEqualToOtherRegister(x, y),
            _ => InstructionSet::Unhandled(opcode),
        },
        0xA000 => InstructionSet::StoreAddressInRegisterI(address),
        0xB000 => InstructionSet::JumpToAddressWithV0Offset(address),
        0xC000 => InstructionSet::SetVxToRandomNumberWithAMaskOf(x, value),
        0xD000 => {
            let sprite_data = (opcode & 0x000F) as u8;
            InstructionSet::DrawSprite(x, y, sprite_data)
        },
        0xE000 => match opcode & 0xF0FF {
            0xE09E => InstructionSet::SkipFollowingInstructionIfKeyCorrespondingToVxIsPressed(x),
            0xE0A1 => InstructionSet::SkipFollowingInstructionIfKeyCorrespondingToVxIsNotPressed(
                x,
            ),
            _ => InstructionSet::Unhandled(opcode),
        },
        0xF000 => match opcode & 0xF0FF {
            0xF007 => InstructionSet::StoreDelayTimerInRegisterVx(x),
            0xF00A => InstructionSet::WaitForAKeyPress(x),
            0xF015 => InstructionSet::SetDelayTimerToVx(x),
            0xF018 => InstructionSet::SetSoundTimerToVx(x),
            0xF01E => InstructionSet::AddVxToRegisterI(x),
            0xF029 => InstructionSet::SetIToTheMemoryAddressOfSpriteCorrespondingToVx(x),
            0xF033 => InstructionSet::StoreTheBinaryCodedDecimalEquivalentOfVx(x),
            0xF055 => InstructionSet::StoreValuesOfV0ToVxInclusiveInMemoryStartingAtAddressI(x),
            0xF065 => InstructionSet::FillRegistersV0ToVxInclusiveWithMemoryStartingAtAddressI(x),
            _ => InstructionSet::Unhandled(opcode),
        },
        _ => InstructionSet::Unhandled(opcode),
    }
}

/// The single uppercase hex digit for a value below 16.
pub open spec fn hex_digit_seq(n: int) -> Seq<char> {
    if n == 0x0 { "0"@ } else if n == 0x1 { "1"@ } else if n == 0x2 { "2"@ }
    else if n == 0x3 { "3"@ } else if n == 0x4 { "4"@ } else if n == 0x5 { "5"@ }
    else if n == 0x6 { "6"@ } else if n == 0x7 { "7"@ } else if n == 0x8 { "8"@ }
    else if n == 0x9 { "9"@ } else if n == 0xA { "A"@ } else if n == 0xB { "B"@ }
    else if n == 0xC { "C"@ } else if n == 0xD { "D"@ } else if n == 0xE { "E"@ }
    else { "F"@ }
}

/// A byte as two uppercase hex digits.
pub open spec fn hex_byte_seq(value: u8) -> Seq<char> {
    hex_digit_seq((value / 16) as int) + hex_digit_seq((value % 16) as int)
}

/// A 12-bit address as three uppercase hex digits.
pub open spec fn hex_addr_seq(address: u16) -> Seq<char> {
    hex_digit_seq((address / 256) as int) + hex_digit_seq(((address / 16) % 16) as int)
        + hex_digit_seq((address % 16) as int)
}

fn hex_digit_str(n: u8) -> (s: &'static str)
    requires
        n < 16,
    ensures
        s@ == hex_digit_seq(n as int),
{
    match n {
        0x0 => "0", 0x1 => "1", 0x2 => "2", 0x3 => "3",
        0x4 => "4", 0x5 => "5", 0x6 => "6", 0x7 => "7",
        0x8 => "8", 0x9 => "9", 0xA => "A", 0xB => "B",
        0xC => "C", 0xD => "D", 0xE => "E", _ => "F",
    }
}

fn hex_byte_string(value: u8) -> (s: String)
    ensures
        s@ == hex_byte_seq(value),
{
    let mut s = String::new();
    s.append(hex_digit_str(value / 16));
    s.append(hex_digit_str(value % 16));
    proof {
        assert(s@ =~= hex_byte_seq(value));
    }
    s
}

fn hex_addr_string(address: u16) -> (s: String)
    requires
        address < 0x1000,
    ensures
        s@ == hex_addr_seq(address),
{
    let mut s = String::new();
    s.append(hex_digit_str((address / 256) as u8));
    s.append(hex_digit_str(((address / 16) % 16) as u8));
    s.append(hex_digit_str((address % 16) as u8));
    proof {
        assert(s@ =~= hex_addr_seq(address));
    }
    s
}

/// `prefix`, one bracketed hex field, `suffix`.
fn join1(prefix: &str, field: String, suffix: &str) -> (s: String)
    ensures
        s@ == prefix@ + field@ + suffix@,
{
    let mut s = String::new();
    s.append(prefix);
    s.append(field.as_str());
    s.append(suffix);
    proof {
        assert(s@ =~= prefix@ + field@ + suffix@);
    }
    s
}

/// `prefix`, two bracketed hex fields around `mid`, `suffix`.
fn join2(prefix: &str, first: String, mid: &str, second: String, suffix: &str) -> (s: String)
    ensures
        s@ == prefix@ + first@ + mid@ + second@ + suffix@,
{
    let mut s = String::new();
    s.append(prefix);
    s.append(first.as_str());
    s.append(mid);
    s.append(second.as_str());
    s.append(suffix);
    proof {
        assert(s@ =~= prefix@ + first@ + mid@ + second@ + suffix@);
    }
    s
}

/// The diagnostic line for each instruction, character for character.
pub open spec fn spec_description(instruction: InstructionSet) -> Seq<char> {
    match instruction {
        InstructionSet::ClearScreen => "Clearing the Screen"@,
        InstructionSet::JumpToAddress(address) => "Jump To Address ["@ + hex_addr_seq(address)
            + "]"@,
        InstructionSet::ExecuteSubroutine(_) => "Execute Subroutine"@,
        InstructionSet::StoreInRegister(index, value) => "Store Value ["@ + hex_byte_seq(value)
            + "] In Register ["@ + hex_byte_seq(index) + "]"@,
        InstructionSet::AddToRegister(index, value) => "Add Value ["@ + hex_byte_seq(value)
            + "] To Register ["@ + hex_byte_seq(index) + "]"@,
        InstructionSet::CopyRegisterValueToOtherRegister(x, y) => "Copy Register ["@
            + hex_byte_seq(y) + "] Value To Other Register ["@ + hex_byte_seq(x) + "]"@,
        InstructionSet::Unhandled(_) => "Not Handled Opcode"@,
        InstructionSet::SkipFollowingIfRegisterIsEqualToValue(register, value) =>
            "Skip Following If Register ["@ + hex_byte_seq(register) + "] Is Equal To Value ["@
            + hex_byte_seq(value) + "]"@,
        InstructionSet::SetVxToVxOrVy(x, y) => "Set Vx To Vx ["@ + hex_byte_seq(x) + "] Or Vy ["@
            + hex_byte_seq(y) + "]"@,
        InstructionSet::SetVxToVxAndVy(x, y) => "Set Vx ["@ + hex_byte_seq(x)
            + "] To Vx And Vy ["@ + hex_byte_seq(y) + "]"@,
        InstructionSet::SetVxToVxXorVy(x, y) => "Set Vx ["@ + hex_byte_seq(x)
            + "] To Vx Xor Vy ["@ + hex_byte_seq(y) + "]"@,
        InstructionSet::SkipFollowingIfRegisterIsNotEqualToValue(register, value) =>
            "Skip Following If Register ["@ + hex_byte_seq(register)
            + "] Is Not Equal To Value ["@ + hex_byte_seq(value) + "]"@,
        InstructionSet::SkipFollowingIfRegisterIsEqualToOtherRegister(x, y) =>
            "Skip Following If Register ["@ + hex_byte_seq(x)
            + "] Is Equal To Other Register ["@ + hex_byte_seq(y) + "]"@,
        InstructionSet::AddValueOfRegisterVyToRegisterVx(x, y) => "Add Value Of Register Vy ["@
            + hex_byte_seq(y) + "] To Register Vx ["@ + hex_byte_seq(x) + "]"@,
        InstructionSet::MachineLanguageSubroutine(_) => "Machine Language Subroutine"@,
        InstructionSet::StoreAddressInRegisterI(address) => "Store Address ["@ + hex_addr_seq(
            address,
        ) + "] In Register I"@,
        InstructionSet::JumpToAddressWithV0Offset(address) => "Jump To Address ["@ + hex_addr_seq(
            address,
        ) + "] With V0 Offset"@,
        InstructionSet::SetVxToRandomNumberWithAMaskOf(x, mask) => "Set Vx ["@ + hex_byte_seq(x)
            + "] To Random Number With A Mask Of ["@ + hex_byte_seq(mask) + "]"@,
        InstructionSet::DrawSprite(x, y, sprite_data) => "Draw a sprite at position VX ["@
            + hex_byte_seq(x) + "], VY ["@ + hex_byte_seq(y) + "] with N ["@ + hex_byte_seq(
            sprite_data,
        ) + "] bytes of sprite data starting at the address stored in I"@,
        InstructionSet::ReturnFromSubroutine => "Return From Subroutine"@,
        InstructionSet::SkipFollowingIfRegisterIsNotEqualToOtherRegister(x, y) =>
            "Skip Following If Register ["@ + hex_byte_seq(x)
            + "] Is Not Equal To Other Register  ["@ + hex_byte_seq(y) + "]"@,
        InstructionSet::SubtractValueOfRegisterVyFromRegisterVx(x, y) =>
            "Subtract Value Of Register Vy ["@ + hex_byte_seq(y) + "] From Register Vx ["@
            + hex_byte_seq(x) + "]"@,
        InstructionSet::StoreValueOfRegisterVyShiftedRightOneBitInVx(x, y) =>
            "Store Value Of Register Vy ["@ + hex_byte_seq(y)
            + "] Shifted Right One Bit In Vx ["@ + hex_byte_seq(x) + "]"@,
        InstructionSet::SetVxToValueOfVyMinusVx(x, y) => "Set Vx ["@ + hex_byte_seq(x)
            + "] To Value Of Vy ["@ + hex_byte_seq(y) + "] Minus Vx"@,
        InstructionSet::StoreValueOfRegisterVyShiftedLeftOneBitInVx(x, y) =>
            "Store Value Of Register Vy ["@ + hex_byte_seq(y) + "] Shifted Left One Bit In Vx ["@
            + hex_byte_seq(x) + "]"@,
        InstructionSet::StoreDelayTimerInRegisterVx(x) => "Store Delay Timer In Register Vx ["@
            + hex_byte_seq(x) + "]"@,
        InstructionSet::WaitForAKeyPress(x) =>
            "Wait For A Key Press And Store The Result In Register VX ["@ + hex_byte_seq(x)
            + "]"@,
        InstructionSet::SkipFollowingInstructionIfKeyCorrespondingToVxIsPressed(x) =>
            "Skip Following Instruction If Key Corresponding To Vx ["@ + hex_byte_seq(x)
            + "] Is Pressed"@,
        InstructionSet::SkipFollowingInstructionIfKeyCorrespondingToVxIsNotPressed(x) =>
            "Skip Following Instruction If Key Corresponding To Vx ["@ + hex_byte_seq(x)
            + "] Is Not Pressed"@,
        InstructionSet::SetDelayTimerToVx(x) => "Set Delay Timer To Vx ["@ + hex_byte_seq(x)
            + "]"@,
        InstructionSet::SetSoundTimerToVx(x) => "Set Sound Timer To Vx ["@ + hex_byte_seq(x)
            + "]"@,
        InstructionSet::AddVxToRegisterI(x) => "Add Vx ["@ + hex_byte_seq(x) + "] To Register I"@,
        InstructionSet::SetIToTheMemoryAddressOfSpriteCorrespondingToVx(x) =>
            "Set I To The Memory Address Of Sprite Corresponding To Vx ["@ + hex_byte_seq(x)
            + "]"@,
        InstructionSet::StoreTheBinaryCodedDecimalEquivalentOfVx(x) =>
            "Store The Binary-Coded Decimal Equivalent Of Vx ["@ + hex_byte_seq(x) + "]"@,
        InstructionSet::StoreValuesOfV0ToVxInclusiveInMemoryStartingAtAddressI(x) =>
            "Store Values Of V0 To Vx ["@ + hex_byte_seq(x)
            + "] Inclusive In Memory Starting At Address I"@,
        InstructionSet::FillRegistersV0ToVxInclusiveWithMemoryStartingAtAddressI(x) =>
            "Fill Registers V0 To Vx ["@ + hex_byte_seq(x)
            + "] Inclusive With Memory Starting At Address I"@,
    }
}

impl InstructionSet {
    /// The diagnostic line for this instruction, in words with the decoded
    /// operands in uppercase hex.
    pub fn to_string(&self) -> (s: String)
        requires
            wf_instruction(*self),
        ensures
            s@ == spec_description(*self),
    {
        match *self {
            InstructionSet::ClearScreen => String::from_str("Clearing the Screen"),
            InstructionSet::JumpToAddress(address) => join1(
                "Jump To Address [",
                hex_addr_string(address),
                "]",
            ),
            InstructionSet::ExecuteSubroutine(_) => String::from_str("Execute Subroutine"),
            InstructionSet::StoreInRegister(index, value) => join2(
                "Store Value [",
                hex_byte_string(value),
                "] In Register [",
                hex_byte_string(index),
                "]",
            ),
            InstructionSet::AddToRegister(index, value) => join2(
                "Add Value [",
                hex_byte_string(value),
                "] To Register [",
                hex_byte_string(index),
                "]",
            ),
            InstructionSet::CopyRegisterValueToOtherRegister(x, y) => join2(
                "Copy Register [",
                hex_byte_string(y),
                "] Value To Other Register [",
                hex_byte_string(x),
                "]",
            ),
            InstructionSet::Unhandled(_) => String::from_str("Not Handled Opcode"),
            InstructionSet::SkipFollowingIfRegisterIsEqualToValue(register, value) => join2(
                "Skip Following If Register [",
                hex_byte_string(register),
                "] Is Equal To Value [",
                hex_byte_string(value),
                "]",
            ),
            InstructionSet::SetVxToVxOrVy(x, y) => join2(
                "Set Vx To Vx [",
                hex_byte_string(x),
                "] Or Vy [",
                hex_byte_string(y),
                "]",
            ),
            InstructionSet::SetVxToVxAndVy(x, y) => join2(
                "Set Vx [",
                hex_byte_string(x),
                "] To Vx And Vy [",
                hex_byte_string(y),
                "]",
            ),
            InstructionSet::SetVxToVxXorVy(x, y) => join2(
                "Set Vx [",
                hex_byte_string(x),
                "] To Vx Xor Vy [",
                hex_byte_string(y),
                "]",
            ),
            InstructionSet::SkipFollowingIfRegisterIsNotEqualToValue(register, value) => join2(
                "Skip Following If Register [",
                hex_byte_string(register),
                "] Is Not Equal To Value [",
                hex_byte_string(value),
                "]",
            ),
            InstructionSet::SkipFollowingIfRegisterIsEqualToOtherRegister(x, y) => join2(
                "Skip Following If Register [",
                hex_byte_string(x),
                "] Is Equal To Other Register [",
                hex_byte_string(y),
                "]",
            ),
            InstructionSet::AddValueOfRegisterVyToRegisterVx(x, y) => join2(
                "Add Value Of Register Vy [",
                hex_byte_string(y),
                "] To Register Vx [",
                hex_byte_string(x),
                "]",
            ),
            InstructionSet::MachineLanguageSubroutine(_) => String::from_str(
                "Machine Language Subroutine",
            ),
            InstructionSet::StoreAddressInRegisterI(address) => join1(
                "Store Address [",
                hex_addr_string(address),
                "] In Register I",
            ),
            InstructionSet::JumpToAddressWithV0Offset(address) => join1(
                "Jump To Address [",
                hex_addr_string(address),
                "] With V0 Offset",
            ),
            InstructionSet::SetVxToRandomNumberWithAMaskOf(x, mask) => join2(
                "Set Vx [",
                hex_byte_string(x),
                "] To Random Number With A Mask Of [",
                hex_byte_string(mask),
                "]",
            ),
            InstructionSet::DrawSprite(x, y, sprite_data) => {
                let mut s = join2(
                    "Draw a sprite at position VX [",
                    hex_byte_string(x),
                    "], VY [",
                    hex_byte_string(y),
                    "] with N [",
                );
                s.append(hex_byte_string(sprite_data).as_str());
                s.append("] bytes of sprite data starting at the address stored in I");
                proof {
                    assert(s@ =~= spec_description(*self));
                }
                s
            },
            InstructionSet::ReturnFromSubroutine => String::from_str("Return From Subroutine"),
            InstructionSet::SkipFollowingIfRegisterIsNotEqualToOtherRegister(x, y) => join2(
                "Skip Following If Register [",
                hex_byte_string(x),
                "] Is Not Equal To Other Register  [",
                hex_byte_string(y),
                "]",
            ),
            InstructionSet::SubtractValueOfRegisterVyFromRegisterVx(x, y) => join2(
                "Subtract Value Of Register Vy [",
                hex_byte_string(y),
                "] From Register Vx [",
                hex_byte_string(x),
                "]",
            ),
            InstructionSet::StoreValueOfRegisterVyShiftedRightOneBitInVx(x, y) => join2(
                "Store Value Of Register Vy [",
                hex_byte_string(y),
                "] Shifted Right One Bit In Vx [",
                hex_byte_string(x),
                "]",
            ),
            InstructionSet::SetVxToValueOfVyMinusVx(x, y) => join2(
                "Set Vx [",
                hex_byte_string(x),
                "] To Value Of Vy [",
                hex_byte_string(y),
                "] Minus Vx",
            ),
            InstructionSet::StoreValueOfRegisterVyShiftedLeftOneBitInVx(x, y) => join2(
                "Store Value Of Register Vy [",
                hex_byte_string(y),
                "] Shifted Left One Bit In Vx [",
                hex_byte_string(x),
                "]",
            ),
            InstructionSet::StoreDelayTimerInRegisterVx(x) => join1(
                "Store Delay Timer In Register Vx [",
                hex_byte_string(x),
                "]",
            ),
            InstructionSet::WaitForAKeyPress(x) => join1(
                "Wait For A Key Press And Store The Result In Register VX [",
                hex_byte_string(x),
                "]",
            ),
            InstructionSet::SkipFollowingInstructionIfKeyCorrespondingToVxIsPressed(x) => join1(
                "Skip Following Instruction If Key Corresponding To Vx [",
                hex_byte_string(x),
                "] Is Pressed",
            ),
            InstructionSet::SkipFollowingInstructionIfKeyCorrespondingToVxIsNotPressed(x) => join1(
                "Skip Following Instruction If Key Corresponding To Vx [",
                hex_byte_string(x),
                "] Is Not Pressed",
            ),
            InstructionSet::SetDelayTimerToVx(x) => join1(
                "Set Delay Timer To Vx [",
                hex_byte_string(x),
                "]",
            ),
            InstructionSet::SetSoundTimerToVx(x) => join1(
                "Set Sound Timer To Vx [",
                hex_byte_string(x),
                "]",
            ),
            InstructionSet::AddVxToRegisterI(x) => join1(
                "Add Vx [",
                hex_byte_string(x),
                "] To Register I",
            ),
            InstructionSet::SetIToTheMemoryAddressOfSpriteCorrespondingToVx(x) => join1(
                "Set I To The Memory Address Of Sprite Corresponding To Vx [",
                hex_byte_string(x),
                "]",
            ),
            InstructionSet::StoreTheBinaryCodedDecimalEquivalentOfVx(x) => join1(
                "Store The Binary-Coded Decimal Equivalent Of Vx [",
                hex_byte_string(x),
                "]",
            ),
            InstructionSet::StoreValuesOfV0ToVxInclusiveInMemoryStartingAtAddressI(x) => join1(
                "Store Values Of V0 To Vx [",
                hex_byte_string(x),
                "] Inclusive In Memory Starting At Address I",
            ),
            InstructionSet::FillRegistersV0ToVxInclusiveWithMemoryStartingAtAddressI(x) => join1(
                "Fill Registers V0 To Vx [",
                hex_byte_string(x),
                "] Inclusive With Memory Starting At Address I",
            ),
        }
    }
}

} // verus!
