//! Bit-level facts shared by the flag words, descriptor fields and page table entries.

use vstd::prelude::*;

verus! {

/// Setting a mask makes every bit of it set, clearing it makes every bit of it clear, and
/// neither touches the bits outside the mask.
pub proof fn lemma_u32_mask(v: u32, m: u32)
    by (bit_vector)
    ensures
        (v | m) & m == m,
        (v & !m) & m == 0,
        (v | m) & !m == v & !m,
        (v & !m) & !m == v & !m,
{
}

/// A page-aligned part and a part below 4096 combine without overlapping.
pub proof fn lemma_u32_page_split(a: u32, t: u32)
    by (bit_vector)
    requires
        t < 4096,
    ensures
        ((a & 0xfffff000u32) | t) & 0xfffff000u32 == a & 0xfffff000u32,
        ((a & 0xfffff000u32) | t) & 0xfffu32 == t,
        forall|x: u32, m: u32| #![auto] m < 4096 ==> x & m == (x & 0xfffu32) & m,
{
}

/// Values of the constant bit combinations used by the descriptor and entry constructors.
pub proof fn lemma_bit_constants()
    by (bit_vector)
    ensures
        (8u16 & !7u16) | 0 == 8u16,
        (16u16 & !7u16) | 0 == 16u16,
        (24u16 & !7u16) | 3 == 27u16,
        (32u16 & !7u16) | 3 == 35u16,
        (40u16 & !7u16) | 0 == 40u16,
        8u16 & !7u16 == 8u16,
        16u16 & !7u16 == 16u16,
        24u16 & !7u16 == 24u16,
        27u16 & !7u16 == 24u16,
        32u16 & !7u16 == 32u16,
        35u16 & !7u16 == 32u16,
        40u16 & !7u16 == 40u16,
        1u32 | 2u32 == 3u32,
        1u32 | 4u32 == 5u32,
        1u32 | 4u32 | 2u32 == 7u32,
        0xb8000u32 >> 12u32 == 184,
        0xb8000u32 >> 22u32 == 0,
{
}

/// How a 32-bit virtual address splits into a directory slot, a page number and a table slot.
pub proof fn lemma_u32_page_indices(a: u32)
    by (bit_vector)
    ensures
        a >> 22u32 < 1024,
        a >> 12u32 < 1048576,
        a >> 22u32 == (a >> 12u32) / 1024,
{
}

/// The frame number of an address is that of its frame and fits in 20 bits, and two addresses
/// lie in one frame exactly when their frame numbers agree.
pub proof fn lemma_u32_frame_number(a: u32, b: u32)
    by (bit_vector)
    ensures
        a >> 12u32 < 1048576,
        (a & 0xfffff000u32) >> 12u32 == a >> 12u32,
        ((a & 0xfffff000u32) == (b & 0xfffff000u32)) == (a >> 12u32 == b >> 12u32),
{
}

} // verus!
