//! CRC-16/CCITT-FALSE over the leading bits of a 128-bit line word.

use vstd::prelude::*;

verus! {

/// Generator polynomial of CRC-16/CCITT-FALSE.
pub const CRC16_CCITT_POLY: u16 = 0x1021;

/// One update of the CRC shift register for a single input bit
/// (the low bit of `bit`; higher bits of `bit` are ignored by the test).
pub open spec fn crc16_step(crc: u16, bit: u16) -> u16 {
    if ((crc >> 15) ^ bit) & 1 == 1 {
        (crc << 1) ^ CRC16_CCITT_POLY
    } else {
        crc << 1
    }
}

/// CRC-16/CCITT-FALSE of the low `bits` bits of `data`, consumed most
/// significant bit first: register initialized to 0xFFFF, polynomial 0x1021,
/// no reflection, no final XOR.
pub open spec fn crc16_spec(data: u128, bits: nat) -> u16
    decreases bits,
{
    if bits == 0 {
        0xFFFF
    } else {
        crc16_step(crc16_spec(data >> 1, (bits - 1) as nat), (data & 1) as u16)
    }
}

/// A line word with the CRC of its upper 112 bits ORed into bits [15:0].
pub open spec fn crc_sealed(data: u128) -> u128 {
    data | (crc16_spec(data >> 16, 112) as u128)
}

/// Computes CRC-16/CCITT-FALSE over the low `bits` bits of `data`, most
/// significant bit first. `bits` must be a byte multiple in [8, 128].
pub fn get_crc16_ccitt_false(data: u128, bits: u8) -> (crc: u16)
    requires
        8 <= bits <= 128,
        bits % 8 == 0,
    ensures
        crc == crc16_spec(data, bits as nat),
{
    let mut crc: u16 = 0xffff;
    let mut k: u8 = 0;
    while k < bits
        invariant
            bits <= 128,
            k <= bits,
            k == 0 ==> crc == 0xFFFF,
            k > 0 ==> crc == crc16_spec(data >> ((bits - k) as u128), k as nat),
        decreases bits - k,
    {
        let pos: u8 = bits - k - 1;
        let bit: u16 = ((data >> pos) & 1) as u16;
        let xor_flag = ((crc >> 15) ^ bit) & 1 == 1;
        let next_crc = if xor_flag {
            (crc << 1) ^ CRC16_CCITT_POLY
        } else {
            crc << 1
        };
        proof {
            let d: u128 = data >> (pos as u128);
            assert(d >> 1 == data >> ((pos + 1) as u128) && (d & 1) as u16 == d & 1) by (bit_vector)
                requires
                    d == data >> (pos as u128),
                    pos <= 127,
            ;
            assert(crc16_spec(data >> (pos as u128), (k + 1) as nat) == crc16_step(
                crc16_spec(data >> ((pos + 1) as u128), k as nat),
                (d & 1) as u16,
            ));
            assert(next_crc == crc16_step(crc, bit));
        }
        crc = next_crc;
        k = k + 1;
    }
    proof {
        assert(data >> 0u128 == data) by (bit_vector);
    }
    crc
}

/// Seals a line word whose low 16 bits are clear: ORs the CRC-16/CCITT-FALSE
/// of its upper 112 bits into bits [15:0]. The sealed word keeps the upper
/// 112 bits unchanged and carries exactly that CRC in its low 16 bits.
pub fn add_crc_to_data(data: u128) -> (r: u128)
    requires
        data & 0xFFFF == 0,
    ensures
        r == crc_sealed(data),
        r & 0xFFFF == crc16_spec(data >> 16, 112),
        r >> 16 == data >> 16,
{
    let crc = get_crc16_ccitt_false(data >> 16, 112);
    proof {
        assert((data | crc as u128) & 0xFFFF == crc && (data | crc as u128) >> 16 == data >> 16)
            by (bit_vector)
            requires
                data & 0xFFFF == 0,
        ;
    }
    data | (crc as u128)
}

} // verus!
