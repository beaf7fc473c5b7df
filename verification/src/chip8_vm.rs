//! The CHIP-8 machine state and the instruction executor.
//!
//! [`Chip8VM`] is the single mutable aggregate the whole core works on.
//! Its mathematical model is [`VmModel`]: the same fields with sequences in
//! place of arrays.  Every instruction's effect is stated once, as the pure
//! function [`step_spec`] on models, and [`Chip8VM::execute_instruction`]
//! is proved to realise it.

use vstd::prelude::*;
use vstd::arithmetic::div_mod::lemma_fundamental_div_mod;
use vstd::arithmetic::div_mod::lemma_fundamental_div_mod_converse;
use crate::chip8_state::Chip8State;
use crate::fonts_sprites::font_byte;
use crate::instructions::InstructionSet;
use crate::instructions::decode_opcode;
use crate::instructions::spec_decode;
use crate::instructions::wf_instruction;
use crate::instructions::lemma_spec_decode_wf;
use crate::write_to_memory::write_font_data_to_memory;
use crate::write_to_memory::write_rom_data_to_memory;
use crate::display::DISPLAY_CELLS;
use crate::display::draw_display;
use crate::display::draw_collision;
use crate::display::collision_upto;
use crate::display::draw_cell_upto;
use crate::display::cell_index;
use crate::display::sprite_bit;
use crate::display::wrap_row;
use crate::display::wrap_col;
use crate::display::lemma_cell_index_inverse;
use crate::display::lemma_cell_index_complete;
use crate::display::lemma_draw_twice_restores;

pub use crate::chip8_state::MEMORY_SIZE;
pub use crate::chip8_state::CHIP8_RESERVED_MEMORY_SIZE;

verus! {

broadcast use vstd::array::group_array_axioms;

/// The machine state: memory, registers, timers, call stack, display and
/// the key-wait bookkeeping.
pub struct Chip8VM {
    pub memory: [u8; MEMORY_SIZE],
    pub v: [u8; 16],
    pub i: u16,
    pub delay_timer: u8,
    pub sound_timer: u8,
    pub program_counter: u16,
    pub stack_pointer: u8,
    pub stack: [u16; 16],
    pub pressed_key: Option<u8>,
    pub display_data: [bool; DISPLAY_CELLS],
    pub waiting_for_key_press: bool,
    pub key_index_store: u8,
}

/// The mathematical model of the machine state: arrays become sequences,
/// everything else is carried over unchanged.
#[verifier::ext_equal]
pub ghost struct VmModel {
    pub memory: Seq<u8>,
    pub v: Seq<u8>,
    pub i: u16,
    pub delay_timer: u8,
    pub sound_timer: u8,
    pub program_counter: u16,
    pub stack_pointer: u8,
    pub stack: Seq<u16>,
    pub pressed_key: Option<u8>,
    pub display: Seq<bool>,
    pub waiting_for_key_press: bool,
    pub key_index_store: u8,
}

impl View for Chip8VM {
    type V = VmModel;

    open spec fn view(&self) -> VmModel {
        VmModel {
            memory: self.memory@,
            v: self.v@,
            i: self.i,
            delay_timer: self.delay_timer,
            sound_timer: self.sound_timer,
            program_counter: self.program_counter,
            stack_pointer: self.stack_pointer,
            stack: self.stack@,
            pressed_key: self.pressed_key,
            display: self.display_data@,
            waiting_for_key_press: self.waiting_for_key_press,
            key_index_store: self.key_index_store,
        }
    }
}

/// When an instruction can be executed without violating a machine limit:
/// register indices in range, the stack within its 16 slots, and every
/// memory or address-register access within bounds.
pub open spec fn can_execute(m: VmModel, instruction: InstructionSet) -> bool {
    match instruction {
        InstructionSet::MachineLanguageSubroutine(_) => true,
        InstructionSet::ClearScreen => true,
        InstructionSet::ReturnFromSubroutine => 1 <= m.stack_pointer <= 16,
        InstructionSet::JumpToAddress(address) => address >= 2,
        InstructionSet::ExecuteSubroutine(address) => address >= 2 && m.stack_pointer < 16,
        InstructionSet::SkipFollowingIfRegisterIsEqualToValue(x, _) => x < 16
            && m.program_counter + 2 <= u16::MAX,
        InstructionSet::SkipFollowingIfRegisterIsNotEqualToValue(x, _) => x < 16
            && m.program_counter + 2 <= u16::MAX,
        InstructionSet::SkipFollowingIfRegisterIsEqualToOtherRegister(x, y) => x < 16 && y < 16
            && m.program_counter + 2 <= u16::MAX,
        InstructionSet::SkipFollowingIfRegisterIsNotEqualToOtherRegister(x, y) => x < 16 && y < 16
            && m.program_counter + 2 <= u16::MAX,
        InstructionSet::StoreInRegister(x, _) => x < 16,
        InstructionSet::AddToRegister(x, _) => x < 16,
        InstructionSet::CopyRegisterValueToOtherRegister(x, y) => x < 16 && y < 16,
        InstructionSet::SetVxToVxOrVy(x, y) => x < 16 && y < 16,
        InstructionSet::SetVxToVxAndVy(x, y) => x < 16 && y < 16,
        InstructionSet::SetVxToVxXorVy(x, y) => x < 16 && y < 16,
        InstructionSet::AddValueOfRegisterVyToRegisterVx(x, y) => x < 16 && y < 16,
        InstructionSet::SubtractValueOfRegisterVyFromRegisterVx(x, y) => x < 16 && y < 16,
        InstructionSet::StoreValueOfRegisterVyShiftedRightOneBitInVx(x, y) => x < 16 && y < 16,
        InstructionSet::SetVxToValueOfVyMinusVx(x, y) => x < 16 && y < 16,
        InstructionSet::StoreValueOfRegisterVyShiftedLeftOneBitInVx(x, y) => x < 16 && y < 16,
        InstructionSet::StoreAddressInRegisterI(_) => true,
        InstructionSet::JumpToAddressWithV0Offset(address) => address < 0x1000 && address + m.v[0]
            >= 2,
        InstructionSet::SetVxToRandomNumberWithAMaskOf(x, _) => x < 16,
        InstructionSet::DrawSprite(x, y, n) => x < 16 && y < 16 && n < 16 && m.i + n <= 4096,
        InstructionSet::StoreDelayTimerInRegisterVx(x) => x < 16,
        InstructionSet::WaitForAKeyPress(x) => x < 16,
        InstructionSet::SkipFollowingInstructionIfKeyCorrespondingToVxIsPressed(x) => x < 16
            && m.program_counter + 2 <= u16::MAX,
        InstructionSet::SkipFollowingInstructionIfKeyCorrespondingToVxIsNotPressed(x) => x < 16
            && m.program_counter + 2 <= u16::MAX,
        InstructionSet::SetDelayTimerToVx(x) => x < 16,
        InstructionSet::SetSoundTimerToVx(x) => x < 16,
        InstructionSet::AddVxToRegisterI(x) => x < 16 && m.i + m.v[x as int] <= u16::MAX,
        InstructionSet::SetIToTheMemoryAddressOfSpriteCorrespondingToVx(x) => x < 16,
        InstructionSet::StoreTheBinaryCodedDecimalEquivalentOfVx(x) => x < 16 && m.i + 2 < 4096,
        InstructionSet::StoreValuesOfV0ToVxInclusiveInMemoryStartingAtAddressI(x) => x < 16
            && m.i + x < 4096,
        InstructionSet::FillRegistersV0ToVxInclusiveWithMemoryStartingAtAddressI(x) => x < 16
            && m.i + x < 4096,
        InstructionSet::Unhandled(_) => true,
    }
}

/// The effect of one instruction on the machine state.  Jumps and calls
/// set the program counter to the target minus 2, so that the uniform +2
/// the run loop applies after every cycle lands on the intended address.
/// `rnd` is the byte the random source produced; only the random
/// instruction reads it.
pub open spec fn step_spec(m: VmModel, instruction: InstructionSet, rnd: u8) -> VmModel {
    match instruction {
        InstructionSet::MachineLanguageSubroutine(_) => m,
        InstructionSet::ClearScreen => VmModel {
            display: Seq::new(2048, |idx: int| false),
            ..m
        },
        InstructionSet::ReturnFromSubroutine => VmModel {
            stack_pointer: (m.stack_pointer - 1) as u8,
            program_counter: m.stack[m.stack_pointer - 1],
            ..m
        },
        InstructionSet::JumpToAddress(address) => VmModel {
            program_counter: (address - 2) as u16,
            ..m
        },
        InstructionSet::ExecuteSubroutine(address) => VmModel {
            stack: m.stack.update(m.stack_pointer as int, m.program_counter),
            stack_pointer: (m.stack_pointer + 1) as u8,
            program_counter: (address - 2) as u16,
            ..m
        },
        InstructionSet::SkipFollowingIfRegisterIsEqualToValue(x, value) => VmModel {
            program_counter: if m.v[x as int] == value {
                (m.program_counter + 2) as u16
            } else {
                m.program_counter
            },
            ..m
        },
        InstructionSet::SkipFollowingIfRegisterIsNotEqualToValue(x, value) => VmModel {
            program_counter: if m.v[x as int] != value {
                (m.program_counter + 2) as u16
            } else {
                m.program_counter
            },
            ..m
        },
        InstructionSet::SkipFollowingIfRegisterIsEqualToOtherRegister(x, y) => VmModel {
            program_counter: if m.v[x as int] == m.v[y as int] {
                (m.program_counter + 2) as u16
            } else {
                m.program_counter
            },
            ..m
        },
        InstructionSet::SkipFollowingIfRegisterIsNotEqualToOtherRegister(x, y) => VmModel {
            program_counter: if m.v[x as int] != m.v[y as int] {
                (m.program_counter + 2) as u16
            } else {
                m.program_counter
            },
            ..m
        },
        InstructionSet::StoreInRegister(x, value) => VmModel {
            v: m.v.update(x as int, value),
            ..m
        },
        InstructionSet::AddToRegister(x, value) => VmModel {
            v: m.v.update(x as int, ((m.v[x as int] + value) % 256) as u8),
            ..m
        },
        InstructionSet::CopyRegisterValueToOtherRegister(x, y) => VmModel {
            v: m.v.update(x as int, m.v[y as int]),
            ..m
        },
        InstructionSet::SetVxToVxOrVy(x, y) => VmModel {
            v: m.v.update(x as int, m.v[x as int] | m.v[y as int]),
            ..m
        },
        InstructionSet::SetVxToVxAndVy(x, y) => VmModel {
            v: m.v.update(x as int, m.v[x as int] & m.v[y as int]),
            ..m
        },
        InstructionSet::SetVxToVxXorVy(x, y) => VmModel {
            v: m.v.update(x as int, m.v[x as int] ^ m.v[y as int]),
            ..m
        },
        InstructionSet::AddValueOfRegisterVyToRegisterVx(x, y) => VmModel {
            v: m.v.update(
                15,
                if m.v[x as int] + m.v[y as int] > 255 {
                    1u8
                } else {
                    0u8
                },
            ).update(x as int, ((m.v[x as int] + m.v[y as int]) % 256) as u8),
            ..m
        },
        InstructionSet::SubtractValueOfRegisterVyFromRegisterVx(x, y) => VmModel {
            v: m.v.update(
                15,
                if m.v[x as int] > m.v[y as int] {
                    1u8
                } else {
                    0u8
                },
            ).update(x as int, ((m.v[x as int] - m.v[y as int]) % 256) as u8),
            ..m
        },
        InstructionSet::StoreValueOfRegisterVyShiftedRightOneBitInVx(x, y) => VmModel {
            v: m.v.update(x as int, (m.v[y as int] / 2) as u8).update(
                15,
                (m.v[y as int] % 2) as u8,
            ),
            ..m
        },
        InstructionSet::SetVxToValueOfVyMinusVx(x, y) => VmModel {
            v: m.v.update(
                15,
                if m.v[y as int] > m.v[x as int] {
                    1u8
                } else {
                    0u8
                },
            ).update(x as int, ((m.v[y as int] - m.v[x as int]) % 256) as u8),
            ..m
        },
        InstructionSet::StoreValueOfRegisterVyShiftedLeftOneBitInVx(x, y) => VmModel {
            v: m.v.update(x as int, ((m.v[y as int] * 2) % 256) as u8).update(
                15,
                (m.v[y as int] / 128) as u8,
            ),
            ..m
        },
        InstructionSet::StoreAddressInRegisterI(address) => VmModel { i: address, ..m },
        InstructionSet::JumpToAddressWithV0Offset(address) => VmModel {
            program_counter: (address + m.v[0] - 2) as u16,
            ..m
        },
        InstructionSet::SetVxToRandomNumberWithAMaskOf(x, mask) => VmModel {
            v: m.v.update(x as int, rnd & mask),
            ..m
        },
        InstructionSet::DrawSprite(x, y, n) => VmModel {
            display: draw_display(
                m.display,
                m.memory,
                m.i as int,
                m.v[x as int],
                m.v[y as int],
                n,
            ),
            v: m.v.update(
                15,
                if draw_collision(m.display, m.memory, m.i as int, m.v[x as int], m.v[y as int], n) {
                    1u8
                } else {
                    0u8
                },
            ),
            ..m
        },
        InstructionSet::StoreDelayTimerInRegisterVx(x) => VmModel {
            v: m.v.update(x as int, m.delay_timer),
            ..m
        },
        InstructionSet::WaitForAKeyPress(x) => VmModel {
            waiting_for_key_press: true,
            key_index_store: x,
            ..m
        },
        InstructionSet::SkipFollowingInstructionIfKeyCorrespondingToVxIsPressed(x) => VmModel {
            program_counter: if m.pressed_key == Some(m.v[x as int]) {
                (m.program_counter + 2) as u16
            } else {
                m.program_counter
            },
            ..m
        },
        InstructionSet::SkipFollowingInstructionIfKeyCorrespondingToVxIsNotPressed(x) => VmModel {
            program_counter: if m.pressed_key != Some(m.v[x as int]) {
                (m.program_counter + 2) as u16
            } else {
                m.program_counter
            },
            ..m
        },
        InstructionSet::SetDelayTimerToVx(x) => VmModel { delay_timer: m.v[x as int], ..m },
        InstructionSet::SetSoundTimerToVx(x) => VmModel { sound_timer: m.v[x as int], ..m },
        InstructionSet::AddVxToRegisterI(x) => VmModel { i: (m.i + m.v[x as int]) as u16, ..m },
        InstructionSet::SetIToTheMemoryAddressOfSpriteCorrespondingToVx(x) => VmModel {
            i: (m.v[x as int] * 5) as u16,
            ..m
        },
        InstructionSet::StoreTheBinaryCodedDecimalEquivalentOfVx(x) => VmModel {
            memory: m.memory.update(m.i as int, (m.v[x as int] / 100) as u8).update(
                m.i + 1,
                ((m.v[x as int] / 10) % 10) as u8,
            ).update(m.i + 2, (m.v[x as int] % 10) as u8),
            ..m
        },
        InstructionSet::StoreValuesOfV0ToVxInclusiveInMemoryStartingAtAddressI(x) => VmModel {
            memory: Seq::new(
                4096,
                |k: int|
                    if m.i <= k <= m.i + x {
                        m.v[k - m.i]
                    } else {
                        m.memory[k]
                    },
            ),
            i: (m.i + x + 1) as u16,
            ..m
        },
        InstructionSet::FillRegistersV0ToVxInclusiveWithMemoryStartingAtAddressI(x) => VmModel {
            v: Seq::new(
                16,
                |k: int|
                    if 0 <= k <= x {
                        m.memory[m.i + k]
                    } else {
                        m.v[k]
                    },
            ),
            i: (m.i + x + 1) as u16,
            ..m
        },
        InstructionSet::Unhandled(_) => m,
    }
}

/// Relies on `rand::random_range` over the half-open range `0..255`:
/// draws a byte below 255 from the thread-local generator.
#[verifier::external_body]
fn random_byte_below_255() -> (r: u8)
    ensures
        r < 255,
{
    rand::random_range(0u8..255)
}

impl Chip8VM {
    /// Applies one decoded instruction to the machine state.  The raw
    /// opcode accompanies the instruction for diagnostic purposes only and
    /// has no effect here.
    pub fn execute_instruction(&mut self, instruction: InstructionSet, _opcode: u16)
        requires
            can_execute(old(self)@, instruction),
        ensures
            !(instruction is SetVxToRandomNumberWithAMaskOf) ==> final(self)@ == step_spec(
                old(self)@,
                instruction,
                0,
            ),
            instruction is SetVxToRandomNumberWithAMaskOf ==> exists|rnd: u8|
                final(self)@ == step_spec(old(self)@, instruction, rnd),
    {
        match instruction {
            InstructionSet::ClearScreen => {
                self.display_data = [false; DISPLAY_CELLS];
                proof {
                    assert(self@.display =~= step_spec(old(self)@, instruction, 0).display);
                }
            },
            InstructionSet::ReturnFromSubroutine => {
                self.stack_pointer = self.stack_pointer - 1;
                self.program_counter = self.stack[self.stack_pointer as usize];
            },
            InstructionSet::JumpToAddress(address) => {
                self.program_counter = address - 2;
            },
            InstructionSet::ExecuteSubroutine(address) => {
                self.stack[self.stack_pointer as usize] = self.program_counter;
                self.stack_pointer = self.stack_pointer + 1;
                self.program_counter = address - 2;
            },
            InstructionSet::AddToRegister(index, value) => {
                let sum: u16 = self.v[index as usize] as u16 + value as u16;
                self.v[index as usize] = (sum % 256) as u8;
            },
            InstructionSet::StoreInRegister(index, value) => {
                self.v[index as usize] = value;
            },
            InstructionSet::CopyRegisterValueToOtherRegister(x, y) => {
                self.v[x as usize] = self.v[y as usize];
            },
            InstructionSet::SkipFollowingIfRegisterIsEqualToValue(index, value) => {
                if self.v[index as usize] == value {
                    self.program_counter = self.program_counter + 2;
                }
            },
            InstructionSet::SkipFollowingIfRegisterIsNotEqualToValue(index, value) => {
                if self.v[index as usize] != value {
                    self.program_counter = self.program_counter + 2;
                }
            },
            InstructionSet::SkipFollowingIfRegisterIsEqualToOtherRegister(x, y) => {
                if self.v[x as usize] == self.v[y as usize] {
                    self.program_counter = self.program_counter + 2;
                }
            },
            InstructionSet::SkipFollowingIfRegisterIsNotEqualToOtherRegister(x, y) => {
                if self.v[x as usize] != self.v[y as usize] {
                    self.program_counter = self.program_counter + 2;
                }
            },
            InstructionSet::SetVxToVxOrVy(x, y) => {
                self.v[x as usize] = self.v[x as usize] | self.v[y as usize];
            },
            InstructionSet::SetVxToVxAndVy(x, y) => {
                self.v[x as usize] = self.v[x as usize] & self.v[y as usize];
            },
            InstructionSet::SetVxToVxXorVy(x, y) => {
                self.v[x as usize] = self.v[x as usize] ^ self.v[y as usize];
            },
            InstructionSet::AddValueOfRegisterVyToRegisterVx(x, y) => {
                let sum: u16 = self.v[x as usize] as u16 + self.v[y as usize] as u16;
                self.v[0xF] = if sum > 255 {
                    1
                } else {
                    0
                };
                self.v[x as usize] = (sum % 256) as u8;
            },
            InstructionSet::SubtractValueOfRegisterVyFromRegisterVx(x, y) => {
                let vx_value = self.v[x as usize];
                let vy_value = self.v[y as usize];
                self.v[0xF] = if vx_value > vy_value {
                    1
                } else {
                    0
                };
                self.v[x as usize] = vx_value.wrapping_sub(vy_value);
                proof {
                    lemma_wrapping_sub_is_mod(vx_value, vy_value);
                }
            },
            InstructionSet::StoreValueOfRegisterVyShiftedRightOneBitInVx(x, y) => {
                let vy_value = self.v[y as usize];
                self.v[x as usize] = vy_value / 2;
                self.v[0xF] = vy_value % 2;
            },
            InstructionSet::SetVxToValueOfVyMinusVx(x, y) => {
                let vx_value = self.v[x as usize];
                let vy_value = self.v[y as usize];
                self.v[0xF] = if vy_value > vx_value {
                    1
                } else {
                    0
                };
                self.v[x as usize] = vy_value.wrapping_sub(vx_value);
                proof {
                    lemma_wrapping_sub_is_mod(vy_value, vx_value);
                }
            },
            InstructionSet::StoreValueOfRegisterVyShiftedLeftOneBitInVx(x, y) => {
                let vy_value = self.v[y as usize];
                let doubled: u16 = vy_value as u16 * 2;
                self.v[x as usize] = (doubled % 256) as u8;
                self.v[0xF] = vy_value / 128;
            },
            InstructionSet::StoreDelayTimerInRegisterVx(index) => {
                self.v[index as usize] = self.delay_timer;
            },
            InstructionSet::WaitForAKeyPress(index) => {
                self.waiting_for_key_press = true;
                self.key_index_store = index;
            },
            InstructionSet::SetDelayTimerToVx(index) => {
                self.delay_timer = self.v[index as usize];
            },
            InstructionSet::SetSoundTimerToVx(index) => {
                self.sound_timer = self.v[index as usize];
            },
            InstructionSet::AddVxToRegisterI(index) => {
                self.i = self.i + self.v[index as usize] as u16;
            },
            InstructionSet::SetIToTheMemoryAddressOfSpriteCorrespondingToVx(index) => {
                self.i = self.v[index as usize] as u16 * 5;
            },
            InstructionSet::StoreTheBinaryCodedDecimalEquivalentOfVx(index) => {
                let value = self.v[index as usize];
                let hundreds_digit = value / 100;
                let tens_digit = (value / 10) % 10;
                let units_digit = value % 10;
                self.memory[self.i as usize] = hundreds_digit;
                self.memory[self.i as usize + 1] = tens_digit;
                self.memory[self.i as usize + 2] = units_digit;
            },
            InstructionSet::StoreValuesOfV0ToVxInclusiveInMemoryStartingAtAddressI(index) => {
                let mut k: usize = 0;
                while k < index as usize + 1
                    invariant
                        index < 16,
                        k <= index + 1,
                        old(self).i + index < 4096,
                        self@ == (VmModel { memory: self@.memory, ..old(self)@ }),
                        forall|j: int|
                            0 <= j < k ==> self.memory@[old(self).i + j] == old(self).v@[j],
                        forall|j: int|
                            0 <= j < 4096 && !(old(self).i <= j < old(self).i + k)
                                ==> self.memory@[j] == old(self).memory@[j],
                    decreases index + 1 - k,
                {
                    self.memory[self.i as usize + k] = self.v[k];
                    k = k + 1;
                }
                self.i = self.i + index as u16 + 1;
                proof {
                    assert(self@.memory =~= step_spec(old(self)@, instruction, 0).memory);
                }
            },
            InstructionSet::FillRegistersV0ToVxInclusiveWithMemoryStartingAtAddressI(index) => {
                let mut k: usize = 0;
                while k < index as usize + 1
                    invariant
                        index < 16,
                        k <= index + 1,
                        old(self).i + index < 4096,
                        self@ == (VmModel { v: self@.v, ..old(self)@ }),
                        forall|j: int| 0 <= j < k ==> self.v@[j] == old(self).memory@[old(self).i + j],
                        forall|j: int| k <= j < 16 ==> self.v@[j] == old(self).v@[j],
                    decreases index + 1 - k,
                {
                    self.v[k] = self.memory[self.i as usize + k];
                    k = k + 1;
                }
                self.i = self.i + index as u16 + 1;
                proof {
                    assert(self@.v =~= step_spec(old(self)@, instruction, 0).v);
                }
            },
            InstructionSet::DrawSprite(x, y, sprite_data) => {
                self.draw_sprite(x, y, sprite_data);
            },
            InstructionSet::SkipFollowingInstructionIfKeyCorrespondingToVxIsNotPressed(index) => {
                let is_pressed = match self.pressed_key {
                    Some(code) => code == self.v[index as usize],
                    None => false,
                };
                if !is_pressed {
                    self.program_counter = self.program_counter + 2;
                }
            },
            InstructionSet::SkipFollowingInstructionIfKeyCorrespondingToVxIsPressed(index) => {
                let is_pressed = match self.pressed_key {
                    Some(code) => code == self.v[index as usize],
                    None => false,
                };
                if is_pressed {
                    self.program_counter = self.program_counter + 2;
                }
            },
            InstructionSet::StoreAddressInRegisterI(address) => {
                self.i = address;
            },
            InstructionSet::SetVxToRandomNumberWithAMaskOf(index, mask) => {
                let drawn = random_byte_below_255();
                self.v[index as usize] = drawn & mask;
                proof {
                    assert(final(self)@ == step_spec(old(self)@, instruction, drawn));
                }
            },
            InstructionSet::JumpToAddressWithV0Offset(address) => {
                self.program_counter = address + self.v[0] as u16 - 2;
            },
            InstructionSet::MachineLanguageSubroutine(_) => {},
            InstructionSet::Unhandled(_) => {},
        }
    }

    /// XORs an `n`-row sprite, read from memory at the address register,
    /// onto the display at the position held in registers `x` and `y`,
    /// wrapping both coordinates, and sets register 0xF to 1 exactly when
    /// a lit cell was turned off.
    fn draw_sprite(&mut self, x: u8, y: u8, n: u8)
        requires
            x < 16,
            y < 16,
            n < 16,
            old(self).i + n <= 4096,
        ensures
            final(self)@ == (VmModel {
                display: draw_display(
                    old(self)@.display,
                    old(self)@.memory,
                    old(self).i as int,
                    old(self)@.v[x as int],
                    old(self)@.v[y as int],
                    n,
                ),
                v: old(self)@.v.update(
                    15,
                    if draw_collision(
                        old(self)@.display,
                        old(self)@.memory,
                        old(self).i as int,
                        old(self)@.v[x as int],
                        old(self)@.v[y as int],
                        n,
                    ) {
                        1u8
                    } else {
                        0u8
                    },
                ),
                ..old(self)@
            }),
    {
        let vx = self.v[x as usize];
        let vy = self.v[y as usize];
        let ghost orig = self@;
        let mut collision: bool = false;
        let end: usize = 8 * (n as usize);
        let mut t: usize = 0;
        while t < end
            invariant
                end == 8 * n,
                t <= end,
                n < 16,
                vx == orig.v[x as int],
                vy == orig.v[y as int],
                orig.i + n <= 4096,
                self@ == (VmModel { display: self@.display, ..orig }),
                forall|idx: int|
                    0 <= idx < 2048 ==> self.display_data@[idx] == draw_cell_upto(
                        orig.display,
                        orig.memory,
                        orig.i as int,
                        vx,
                        vy,
                        t as int,
                        idx,
                    ),
                collision == collision_upto(
                    orig.display,
                    orig.memory,
                    orig.i as int,
                    vx,
                    vy,
                    t as int,
                ),
            decreases end - t,
        {
            let ghost display_before = self.display_data@;
            let r = t / 8;
            let c = t % 8;
            proof {
                lemma_fundamental_div_mod(t as int, 8);
                assert(r < n && c < 8);
                lemma_cell_index_inverse(vx, vy, r as int, c as int);
            }
            let row_byte = self.memory[self.i as usize + r];
            let x_pos = (vx as usize + c) % 64;
            let y_pos = (vy as usize + r) % 32;
            let idx = y_pos * 64 + x_pos;
            proof {
                assert(x_pos == wrap_col(vx, c as int));
                assert(y_pos == wrap_row(vy, r as int));
                assert(idx == cell_index(vx, vy, r as int, c as int));
            }
            let bit = (row_byte >> ((7 - c) as u8)) % 2 == 1;
            proof {
                assert(bit == sprite_bit(orig.memory, orig.i as int, r as int, c as int));
            }
            let old_cell = self.display_data[idx];
            let new_cell = old_cell != bit;
            if old_cell && bit {
                collision = true;
            }
            self.display_data[idx] = new_cell;
            proof {
                assert(8 * (r as int) + (c as int) == t);
                assert(old_cell == orig.display[idx as int]);
                assert forall|j: int| 0 <= j < 2048 implies self.display_data@[j]
                    == draw_cell_upto(
                    orig.display,
                    orig.memory,
                    orig.i as int,
                    vx,
                    vy,
                    t + 1,
                    j,
                ) by {
                    lemma_cell_index_complete(vx, vy, j);
                    let hr = crate::display::hit_row(vy, j);
                    let hc = crate::display::hit_col(vx, j);
                    if j != idx {
                        if hc < 8 && 8 * hr + hc == t {
                            lemma_fundamental_div_mod_converse(t as int, 8, hr, hc);
                            assert(hr == r && hc == c);
                            assert(j == idx);
                        }
                        assert(self.display_data@[j] == display_before[j]);
                    }
                }
                assert(collision == collision_upto(
                    orig.display,
                    orig.memory,
                    orig.i as int,
                    vx,
                    vy,
                    t + 1,
                )) by {
                    let ghost i0 = orig.i as int;
                    if collision {
                        if old_cell && bit {
                            assert(sprite_bit(orig.memory, i0, t as int / 8, t as int % 8)
                                && orig.display[cell_index(vx, vy, t as int / 8, t as int % 8)]);
                        } else {
                            let w = choose|w: int|
                                0 <= w < t && #[trigger] sprite_bit(orig.memory, i0, w / 8, w % 8)
                                    && orig.display[cell_index(vx, vy, w / 8, w % 8)];
                            assert(0 <= w < t + 1 && sprite_bit(orig.memory, i0, w / 8, w % 8)
                                && orig.display[cell_index(vx, vy, w / 8, w % 8)]);
                        }
                    } else {
                        if collision_upto(orig.display, orig.memory, i0, vx, vy, t + 1) {
                            let w = choose|w: int|
                                0 <= w < t + 1 && #[trigger] sprite_bit(
                                    orig.memory,
                                    i0,
                                    w / 8,
                                    w % 8,
                                ) && orig.display[cell_index(vx, vy, w / 8, w % 8)];
                            if w < t {
                                assert(collision_upto(orig.display, orig.memory, i0, vx, vy,
                                    t as int));
                                assert(false);
                            } else {
                                assert(w == t);
                                lemma_fundamental_div_mod_converse(t as int, 8, r as int, c as int);
                                assert(sprite_bit(orig.memory, i0, r as int, c as int));
                                assert(orig.display[idx as int]);
                                assert(false);
                            }
                        }
                    }
                }
            }
            t = t + 1;
        }
        self.v[0xF] = if collision {
            1
        } else {
            0
        };
        proof {
            assert(self.display_data@ =~= draw_display(
                orig.display,
                orig.memory,
                orig.i as int,
                vx,
                vy,
                n,
            ));
            assert(final(self)@.v =~= orig.v.update(
                15,
                if draw_collision(orig.display, orig.memory, orig.i as int, vx, vy, n) {
                    1u8
                } else {
                    0u8
                },
            ));
        }
    }

    /// One tick of the host clock for the two countdown timers: each is
    /// decremented by 1 while nonzero and clamps at 0.
    pub fn tick_timers(&mut self)
        ensures
            final(self)@ == (VmModel {
                delay_timer: if old(self).delay_timer > 0 {
                    (old(self).delay_timer - 1) as u8
                } else {
                    0u8
                },
                sound_timer: if old(self).sound_timer > 0 {
                    (old(self).sound_timer - 1) as u8
                } else {
                    0u8
                },
                ..old(self)@
            }),
    {
        if self.delay_timer > 0 {
            self.delay_timer = self.delay_timer - 1;
        }
        if self.sound_timer > 0 {
            self.sound_timer = self.sound_timer - 1;
        }
    }
}

/// The 16-bit opcode stored big-endian at address `pc`.
pub open spec fn opcode_at(mem: Seq<u8>, pc: int) -> u16 {
    (mem[pc] * 256 + mem[pc + 1]) as u16
}

/// Whether a 2-byte opcode can be fetched at the current program counter.
pub open spec fn can_fetch(m: VmModel) -> bool {
    m.program_counter + 1 < m.memory.len()
}

/// Reads the 2-byte opcode at `pc`, failing when the address or the byte
/// after it lies outside memory.
pub fn fetch_opcode(memory: &[u8], pc: u16) -> (fetched: Result<u16, ()>)
    ensures
        fetched is Ok <==> pc + 1 < memory@.len(),
        fetched matches Ok(opcode) ==> opcode == opcode_at(memory@, pc as int),
{
    if (pc as usize) + 1 < memory.len() {
        let high = memory[pc as usize];
        let low = memory[pc as usize + 1];
        let opcode = ((high as u16) << 8) | (low as u16);
        proof {
            assert(((high as u16) << 8) | (low as u16) == high * 256 + low) by (bit_vector);
        }
        Ok(opcode)
    } else {
        Err(())
    }
}

/// The distinct ways a cycle can fail: a fetch past the end of memory, and
/// the invariant violations that the run loop treats as fatal.
#[derive(Clone, Copy, Debug, PartialEq, Eq, Structural)]
pub enum CycleError {
    FetchOutOfBounds,
    StackUnderflow,
    StackOverflow,
    AddressOutOfBounds,
}

/// The fault, if any, that executing `instruction` in state `m` would
/// raise: stack underflow on a return with an empty stack, stack overflow
/// on a call with a full one, and out-of-range addresses everywhere an
/// address is formed or memory is touched.
pub open spec fn cycle_fault(m: VmModel, instruction: InstructionSet) -> Option<CycleError> {
    match instruction {
        InstructionSet::ReturnFromSubroutine => if m.stack_pointer < 1 {
            Some(CycleError::StackUnderflow)
        } else if m.stack[m.stack_pointer - 1] + 2 > u16::MAX {
            Some(CycleError::AddressOutOfBounds)
        } else {
            None
        },
        InstructionSet::JumpToAddress(address) => if address < 2 {
            Some(CycleError::AddressOutOfBounds)
        } else {
            None
        },
        InstructionSet::ExecuteSubroutine(address) => if m.stack_pointer >= 16 {
            Some(CycleError::StackOverflow)
        } else if address < 2 {
            Some(CycleError::AddressOutOfBounds)
        } else {
            None
        },
        InstructionSet::JumpToAddressWithV0Offset(address) => if address + m.v[0] < 2 {
            Some(CycleError::AddressOutOfBounds)
        } else {
            None
        },
        InstructionSet::AddVxToRegisterI(x) => if m.i + m.v[x as int] > u16::MAX {
            Some(CycleError::AddressOutOfBounds)
        } else {
            None
        },
        InstructionSet::StoreTheBinaryCodedDecimalEquivalentOfVx(_) => if m.i + 2 >= 4096 {
            Some(CycleError::AddressOutOfBounds)
        } else {
            None
        },
        InstructionSet::StoreValuesOfV0ToVxInclusiveInMemoryStartingAtAddressI(x) => if m.i + x
            >= 4096 {
            Some(CycleError::AddressOutOfBounds)
        } else {
            None
        },
        InstructionSet::FillRegistersV0ToVxInclusiveWithMemoryStartingAtAddressI(x) => if m.i + x
            >= 4096 {
            Some(CycleError::AddressOutOfBounds)
        } else {
            None
        },
        InstructionSet::DrawSprite(_, _, n) => if m.i + n > 4096 {
            Some(CycleError::AddressOutOfBounds)
        } else {
            None
        },
        _ => None,
    }
}

/// The uniform program-counter advance the run loop applies after every
/// executed instruction.
pub open spec fn advance_pc(m: VmModel) -> VmModel {
    VmModel { program_counter: (m.program_counter + 2) as u16, ..m }
}

/// A well-formed, fault-free instruction meets every machine limit the
/// executor asks for, as long as the program counter itself has room.
proof fn lemma_fault_free_can_execute(m: VmModel, instruction: InstructionSet)
    requires
        wf_instruction(instruction),
        cycle_fault(m, instruction) is None,
        m.stack_pointer <= 16,
        m.program_counter + 2 <= u16::MAX,
    ensures
        can_execute(m, instruction),
{
}

/// Executing a well-formed, fault-free instruction keeps the program
/// counter low enough for the run loop's +2, the stack pointer within its
/// 16 slots, and the recorded key register in range.
proof fn lemma_step_invariants(m: VmModel, instruction: InstructionSet, rnd: u8)
    requires
        wf_instruction(instruction),
        cycle_fault(m, instruction) is None,
        m.stack_pointer <= 16,
        m.key_index_store < 16,
        m.program_counter + 1 < 4096,
    ensures
        step_spec(m, instruction, rnd).program_counter + 2 <= u16::MAX,
        step_spec(m, instruction, rnd).stack_pointer <= 16,
        step_spec(m, instruction, rnd).key_index_store < 16,
{
}

impl Chip8VM {
    /// A freshly constructed machine: memory zeroed apart from the font
    /// table at its start and the program image from 0x200 on, all
    /// registers and timers zero, the program counter at 0x200, the stack
    /// empty, the display unlit, no key held and no key wait pending.
    pub fn new(rom_data: &[u8]) -> (vm: Self)
        requires
            rom_data@.len() <= MEMORY_SIZE - CHIP8_RESERVED_MEMORY_SIZE,
        ensures
            forall|k: int| 0 <= k < 80 ==> vm@.memory[k] == font_byte(k),
            forall|k: int| 80 <= k < CHIP8_RESERVED_MEMORY_SIZE ==> vm@.memory[k] == 0,
            forall|k: int|
                0 <= k < rom_data@.len() ==> vm@.memory[CHIP8_RESERVED_MEMORY_SIZE + k]
                    == rom_data@[k],
            forall|k: int|
                CHIP8_RESERVED_MEMORY_SIZE + rom_data@.len() <= k < MEMORY_SIZE ==> vm@.memory[k]
                    == 0,
            forall|k: int| 0 <= k < 16 ==> vm@.v[k] == 0,
            vm@.i == 0,
            vm@.delay_timer == 0,
            vm@.sound_timer == 0,
            vm@.program_counter == 0x200,
            vm@.stack_pointer == 0,
            forall|k: int| 0 <= k < 16 ==> vm@.stack[k] == 0,
            vm@.pressed_key is None,
            forall|k: int| 0 <= k < 2048 ==> !vm@.display[k],
            !vm@.waiting_for_key_press,
            vm@.key_index_store == 0,
    {
        let mut memory: [u8; MEMORY_SIZE] = [0; MEMORY_SIZE];
        write_font_data_to_memory(&mut memory);
        write_rom_data_to_memory(&mut memory, rom_data);
        Chip8VM {
            waiting_for_key_press: false,
            key_index_store: 0x00,
            display_data: [false; DISPLAY_CELLS],
            memory,
            v: [0; 16],
            i: 0,
            delay_timer: 0,
            sound_timer: 0,
            program_counter: 0x200,
            stack_pointer: 0,
            stack: [0; 16],
            pressed_key: None,
        }
    }

    /// A read-only snapshot of the register/memory/timer/stack core, for a
    /// host's debug overlay.
    pub fn core_state(&self) -> (snapshot: Chip8State)
        ensures
            snapshot.memory@ == self@.memory,
            snapshot.v@ == self@.v,
            snapshot.i == self@.i,
            snapshot.delay_timer == self@.delay_timer,
            snapshot.sound_timer == self@.sound_timer,
            snapshot.program_counter == self@.program_counter,
            snapshot.stack_pointer == self@.stack_pointer,
            snapshot.stack@ == self@.stack,
    {
        Chip8State {
            memory: self.memory,
            v: self.v,
            i: self.i,
            delay_timer: self.delay_timer,
            sound_timer: self.sound_timer,
            program_counter: self.program_counter,
            stack_pointer: self.stack_pointer,
            stack: self.stack,
        }
    }

    /// The fault, if any, that executing `instruction` now would raise.
    fn instruction_fault(&self, instruction: InstructionSet) -> (fault: Option<CycleError>)
        requires
            self.stack_pointer <= 16,
            wf_instruction(instruction),
        ensures
            fault == cycle_fault(self@, instruction),
    {
        match instruction {
            InstructionSet::ReturnFromSubroutine => {
                if self.stack_pointer < 1 {
                    Some(CycleError::StackUnderflow)
                } else if self.stack[(self.stack_pointer - 1) as usize] > u16::MAX - 2 {
                    Some(CycleError::AddressOutOfBounds)
                } else {
                    None
                }
            },
            InstructionSet::JumpToAddress(address) => {
                if address < 2 {
                    Some(CycleError::AddressOutOfBounds)
                } else {
                    None
                }
            },
            InstructionSet::ExecuteSubroutine(address) => {
                if self.stack_pointer >= 16 {
                    Some(CycleError::StackOverflow)
                } else if address < 2 {
                    Some(CycleError::AddressOutOfBounds)
                } else {
                    None
                }
            },
            InstructionSet::JumpToAddressWithV0Offset(address) => {
                if (address as u32) + (self.v[0] as u32) < 2 {
                    Some(CycleError::AddressOutOfBounds)
                } else {
                    None
                }
            },
            InstructionSet::AddVxToRegisterI(x) => {
                if (self.i as u32) + (self.v[x as usize] as u32) > u16::MAX as u32 {
                    Some(CycleError::AddressOutOfBounds)
                } else {
                    None
                }
            },
            InstructionSet::StoreTheBinaryCodedDecimalEquivalentOfVx(_) => {
                if (self.i as usize) + 2 >= 4096 {
                    Some(CycleError::AddressOutOfBounds)
                } else {
                    None
                }
            },
            InstructionSet::StoreValuesOfV0ToVxInclusiveInMemoryStartingAtAddressI(x) => {
                if (self.i as usize) + (x as usize) >= 4096 {
                    Some(CycleError::AddressOutOfBounds)
                } else {
                    None
                }
            },
            InstructionSet::FillRegistersV0ToVxInclusiveWithMemoryStartingAtAddressI(x) => {
                if (self.i as usize) + (x as usize) >= 4096 {
                    Some(CycleError::AddressOutOfBounds)
                } else {
                    None
                }
            },
            InstructionSet::DrawSprite(_, _, n) => {
                if (self.i as usize) + (n as usize) > 4096 {
                    Some(CycleError::AddressOutOfBounds)
                } else {
                    None
                }
            },
            _ => None,
        }
    }

    /// One cycle of the machine.  While waiting for a key, no instruction
    /// runs: a held key is captured into the recorded register and the
    /// machine resumes, and the program counter does not move.  Otherwise
    /// the opcode at the program counter is fetched (out-of-bounds is a
    /// distinct, fatal error), decoded, checked against the machine's
    /// invariants (a violation is fatal and leaves the state untouched),
    /// executed, and the program counter advances by 2.
    ///
    /// The cycle that executes the wait-for-key instruction itself is an
    /// ordinary executing cycle, so the program counter advances on it;
    /// the waiting cycles that follow consume no instruction and leave the
    /// counter alone.  This is the one accounting rule this machine uses.
    pub fn run_cycle(&mut self) -> (outcome: Result<(), CycleError>)
        requires
            old(self).stack_pointer <= 16,
            old(self).key_index_store < 16,
        ensures
            final(self).stack_pointer <= 16,
            final(self).key_index_store < 16,
            old(self).waiting_for_key_press ==> match old(self).pressed_key {
                Some(code) => outcome is Ok && final(self)@ == (VmModel {
                    v: old(self)@.v.update(old(self).key_index_store as int, code),
                    waiting_for_key_press: false,
                    ..old(self)@
                }),
                None => outcome is Ok && final(self)@ == old(self)@,
            },
            !old(self).waiting_for_key_press && !can_fetch(old(self)@) ==> outcome == Err::<
                (),
                CycleError,
            >(CycleError::FetchOutOfBounds) && final(self)@ == old(self)@,
            !old(self).waiting_for_key_press && can_fetch(old(self)@) ==> ({
                let instruction = spec_decode(
                    opcode_at(old(self)@.memory, old(self).program_counter as int),
                );
                match cycle_fault(old(self)@, instruction) {
                    Some(fault) => outcome == Err::<(), CycleError>(fault) && final(self)@ == old(
                        self,
                    )@,
                    None => outcome is Ok && if instruction is SetVxToRandomNumberWithAMaskOf {
                        exists|rnd: u8|
                            final(self)@ == advance_pc(step_spec(old(self)@, instruction, rnd))
                    } else {
                        final(self)@ == advance_pc(step_spec(old(self)@, instruction, 0))
                    },
                }
            }),
    {
        if self.waiting_for_key_press {
            match self.pressed_key {
                Some(code) => {
                    let target = self.key_index_store;
                    self.v[target as usize] = code;
                    self.waiting_for_key_press = false;
                    Ok(())
                },
                None => Ok(()),
            }
        } else {
            match fetch_opcode(self.memory.as_slice(), self.program_counter) {
                Err(_) => Err(CycleError::FetchOutOfBounds),
                Ok(opcode) => {
                    let instruction = decode_opcode(opcode);
                    proof {
                        lemma_spec_decode_wf(opcode);
                    }
                    match self.instruction_fault(instruction) {
                        Some(fault) => Err(fault),
                        None => {
                            proof {
                                lemma_fault_free_can_execute(self@, instruction);
                            }
                            self.execute_instruction(instruction, opcode);
                            let ghost mid = self@;
                            let ghost rnd_used: u8 = if instruction
                                is SetVxToRandomNumberWithAMaskOf {
                                choose|rnd: u8| mid == step_spec(old(self)@, instruction, rnd)
                            } else {
                                0
                            };
                            proof {
                                assert(mid == step_spec(old(self)@, instruction, rnd_used));
                                lemma_step_invariants(old(self)@, instruction, rnd_used);
                            }
                            self.program_counter = self.program_counter + 2;
                            proof {
                                assert(self@ == advance_pc(
                                    step_spec(old(self)@, instruction, rnd_used),
                                ));
                            }
                            Ok(())
                        },
                    }
                },
            }
        }
    }
}

/// After storing a value into a register and then comparing the same
/// register against that value, the skip is always taken: the program
/// counter moves 2 further than the run loop's uniform advance, 4 in all.
pub proof fn lemma_store_then_skip_taken(m: VmModel, x: u8, value: u8)
    requires
        x < 16,
        m.v.len() == 16,
        m.program_counter + 2 <= u16::MAX,
    ensures
        ({
            let stored = step_spec(m, InstructionSet::StoreInRegister(x, value), 0);
            let skipped = step_spec(
                stored,
                InstructionSet::SkipFollowingIfRegisterIsEqualToValue(x, value),
                0,
            );
            skipped.program_counter == stored.program_counter + 2
        }),
{
}

/// Drawing the same sprite twice at the same position returns every
/// display cell to its state before the first draw; and when the first
/// draw turned any cell from unlit to lit, the second draw must unset at
/// least that cell, so it reports a collision in register 0xF.  The
/// position registers must not be 0xF itself, which the draw repurposes
/// for the collision flag.
pub proof fn lemma_draw_twice_is_identity(m: VmModel, x: u8, y: u8, n: u8)
    requires
        x < 15,
        y < 15,
        n < 16,
        m.v.len() == 16,
        m.display.len() == 2048,
    ensures
        ({
            let once = step_spec(m, InstructionSet::DrawSprite(x, y, n), 0);
            let twice = step_spec(once, InstructionSet::DrawSprite(x, y, n), 0);
            &&& forall|idx: int| 0 <= idx < 2048 ==> twice.display[idx] == m.display[idx]
            &&& (exists|idx: int| 0 <= idx < 2048 && !m.display[idx] && once.display[idx])
                ==> twice.v[15] == 1
        }),
{
    let once = step_spec(m, InstructionSet::DrawSprite(x, y, n), 0);
    assert(once.v[x as int] == m.v[x as int] && once.v[y as int] == m.v[y as int]);
    lemma_draw_twice_restores(
        m.display,
        m.memory,
        m.i as int,
        m.v[x as int],
        m.v[y as int],
        n,
    );
}

/// Storing registers 0 to `x` to memory at the address register and then
/// loading registers 0 to `x` back from the same address reproduces every
/// register exactly, and either operation leaves the address register at
/// its old value plus `x + 1`.
pub proof fn lemma_store_load_round_trip(m: VmModel, x: u8)
    requires
        x < 16,
        m.v.len() == 16,
        m.memory.len() == 4096,
        m.i + x < 4096,
    ensures
        ({
            let stored = step_spec(
                m,
                InstructionSet::StoreValuesOfV0ToVxInclusiveInMemoryStartingAtAddressI(x),
                0,
            );
            let rewound = VmModel { i: m.i, ..stored };
            let loaded = step_spec(
                rewound,
                InstructionSet::FillRegistersV0ToVxInclusiveWithMemoryStartingAtAddressI(x),
                0,
            );
            &&& stored.i == m.i + x + 1
            &&& loaded.i == m.i + x + 1
            &&& forall|k: int| 0 <= k < 16 ==> loaded.v[k] == m.v[k]
        }),
{
}

/// Clearing the screen leaves every one of the 2048 display cells unlit,
/// whatever they held before.
pub proof fn lemma_clear_screen_unlights_all(m: VmModel)
    ensures
        forall|idx: int|
            0 <= idx < 2048 ==> !step_spec(m, InstructionSet::ClearScreen, 0).display[idx],
{
}

/// Wrapping subtraction of bytes is subtraction modulo 256.
proof fn lemma_wrapping_sub_is_mod(a: u8, b: u8)
    ensures
        ((a - b) % 256) as u8 == if a >= b {
            (a - b) as u8
        } else {
            (a - b + 256) as u8
        },
{
    if a >= b {
        lemma_fundamental_div_mod_converse(a - b, 256, 0, a - b);
    } else {
        lemma_fundamental_div_mod_converse(a - b, 256, -1, a - b + 256);
    }
}

} // verus!
