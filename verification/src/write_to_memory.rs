//! Filling machine memory at start-up: the font table into the reserved
//! low region, the program image from 0x200 on.

use vstd::prelude::*;
use vstd::arithmetic::div_mod::lemma_fundamental_div_mod;
use crate::chip8_state::MEMORY_SIZE;
use crate::chip8_state::CHIP8_RESERVED_MEMORY_SIZE;
use crate::fonts_sprites::font_byte;
use crate::fonts_sprites::font_sprite_row_value;

verus! {

/// Writes the program image verbatim into memory starting at the first
/// address past the reserved region; everything else is left untouched.
pub fn write_rom_data_to_memory(memory: &mut [u8; MEMORY_SIZE], rom_data: &[u8])
    requires
        rom_data@.len() <= MEMORY_SIZE - CHIP8_RESERVED_MEMORY_SIZE,
    ensures
        forall|k: int|
            0 <= k < rom_data@.len() ==> final(memory)@[CHIP8_RESERVED_MEMORY_SIZE + k]
                == rom_data@[k],
        forall|k: int| 0 <= k < CHIP8_RESERVED_MEMORY_SIZE ==> final(memory)@[k] == old(memory)@[k],
        forall|k: int|
            CHIP8_RESERVED_MEMORY_SIZE + rom_data@.len() <= k < MEMORY_SIZE ==> final(memory)@[k]
                == old(memory)@[k],
{
    let mut k: usize = 0;
    while k < rom_data.len()
        invariant
            k <= rom_data@.len(),
            rom_data@.len() <= MEMORY_SIZE - CHIP8_RESERVED_MEMORY_SIZE,
            forall|j: int|
                0 <= j < k ==> memory@[CHIP8_RESERVED_MEMORY_SIZE + j] == rom_data@[j],
            forall|j: int|
                0 <= j < MEMORY_SIZE && !(CHIP8_RESERVED_MEMORY_SIZE <= j
                    < CHIP8_RESERVED_MEMORY_SIZE + k) ==> memory@[j] == old(memory)@[j],
        decreases rom_data@.len() - k,
    {
        memory[CHIP8_RESERVED_MEMORY_SIZE + k] = rom_data[k];
        k = k + 1;
    }
}

/// Writes the 80-byte font table into the start of the reserved region, in
/// digit order 0 to F; everything past it is left untouched.
pub fn write_font_data_to_memory(memory: &mut [u8; MEMORY_SIZE])
    ensures
        forall|k: int| 0 <= k < 80 ==> final(memory)@[k] == font_byte(k),
        forall|k: int| 80 <= k < MEMORY_SIZE ==> final(memory)@[k] == old(memory)@[k],
{
    let mut k: usize = 0;
    while k < 80
        invariant
            k <= 80,
            forall|j: int| 0 <= j < k ==> memory@[j] == font_byte(j),
            forall|j: int| k <= j < MEMORY_SIZE ==> memory@[j] == old(memory)@[j],
        decreases 80 - k,
    {
        proof {
            lemma_fundamental_div_mod(k as int, 5);
        }
        memory[k] = font_sprite_row_value(k / 5, k % 5);
        k = k + 1;
    }
}

} // verus!
