//! The diagnostic channel: a stream of bytes for whoever listens on the
//! debug port.
//!
//! The functions here append to `port`, the bytes that are due on the
//! wire, oldest first. Nothing is translated and nothing is held back:
//! what a function appends is exactly what it sends, in order.

use vstd::prelude::*;
use vstd::string::StringSliceAdditionalSpecFns;

verus! {

/// The character that shows the hexadecimal digit `n`, in upper case.
pub open spec fn hex_char(n: int) -> u8
    recommends
        0 <= n < 16,
{
    if n < 10 {
        (0x30 + n) as u8
    } else {
        (0x41 + (n - 10)) as u8
    }
}

/// The last `count` hexadecimal digits of `value`, most significant
/// first, as characters.
pub open spec fn hex_digits(value: nat, count: nat) -> Seq<u8>
    decreases count,
{
    if count == 0 {
        Seq::empty()
    } else {
        hex_digits(value / 16, (count - 1) as nat).push(hex_char((value % 16) as int))
    }
}

/// The bytes of the prefix of a hexadecimal number, `0x`.
pub open spec fn hex_prefix() -> Seq<u8> {
    seq![0x30u8, 0x78u8]
}

/// The line that marks a kernel stage: a line feed, `[KERNEL-STAGE-`, the
/// character `stage` places behind `0`, `] `, the message, a line feed.
pub open spec fn stage_marker(stage: u8, message: Seq<u8>) -> Seq<u8> {
    "\n[KERNEL-STAGE-".spec_bytes() + seq![(0x30 + stage) as u8] + "] ".spec_bytes() + message
        + "\n".spec_bytes()
}

/// Sends one byte.
pub fn debug_write_byte(port: &mut Vec<u8>, byte: u8)
    ensures
        final(port)@ == old(port)@.push(byte),
{
    port.push(byte);
}

/// Sends the bytes of a string, first to last.
pub fn debug_write_str(port: &mut Vec<u8>, s: &str)
    ensures
        final(port)@ == old(port)@ + s.spec_bytes(),
{
    let bytes = s.as_bytes();
    for i in 0..bytes.len()
        invariant
            bytes@ == s.spec_bytes(),
            port@ == old(port)@ + bytes@.take(i as int),
    {
        debug_write_byte(port, bytes[i]);
        assert(bytes@.take(i + 1) == bytes@.take(i as int).push(bytes@[i as int]));
    }
    assert(bytes@.take(bytes.len() as int) == bytes@);
}

/// Sends `value` as `0x` and sixteen upper-case hexadecimal digits.
pub fn debug_write_hex(port: &mut Vec<u8>, value: u64)
    ensures
        final(port)@ == old(port)@ + hex_prefix() + hex_digits(value as nat, 16),
{
    debug_write_byte(port, 0x30);
    debug_write_byte(port, 0x78);
    assert(port@ == old(port)@ + hex_prefix());
    let ghost mut above: u64 = 0;
    let mut left: u32 = 16;
    assert((value >> 60) / 16 == 0) by (bit_vector);
    while left > 0
        invariant
            left <= 16,
            port@ == old(port)@ + hex_prefix() + hex_digits(above as nat, (16 - left) as nat),
            left > 0 ==> (value >> ((left - 1) * 4) as u64) / 16 == above,
            left == 0 ==> above == value,
        decreases left,
    {
        left -= 1;
        let shift: u64 = (left * 4) as u64;
        let shifted: u64 = value >> shift;
        let nibble: u8 = (shifted & 0xF) as u8;
        assert(nibble == shifted % 16 && nibble < 16) by (bit_vector)
            requires
                nibble == (shifted & 0xF) as u8,
        ;
        let digit: u8 = if nibble < 10 {
            0x30 + nibble
        } else {
            0x41 + (nibble - 10)
        };
        debug_write_byte(port, digit);
        proof {
            assert(hex_digits(shifted as nat, (16 - left) as nat) == hex_digits(
                above as nat,
                (15 - left) as nat,
            ).push(digit));
            assert(port@ == old(port)@ + hex_prefix() + hex_digits(
                shifted as nat,
                (16 - left) as nat,
            ));
            if left > 0 {
                let next: u64 = ((left - 1) * 4) as u64;
                assert((value >> next) / 16 == value >> shift) by (bit_vector)
                    requires
                        next + 4 == shift,
                        shift <= 60,
                ;
            } else {
                assert(value >> 0 == value) by (bit_vector);
            }
            above = shifted;
        }
    }
}

/// Sends the line that marks kernel stage `stage`, with `message`.
pub fn mark_kernel_stage(port: &mut Vec<u8>, stage: u8, message: &str)
    requires
        0x30 + stage <= u8::MAX,
    ensures
        final(port)@ == old(port)@ + stage_marker(stage, message.spec_bytes()),
{
    debug_write_str(port, "\n[KERNEL-STAGE-");
    debug_write_byte(port, 0x30 + stage);
    debug_write_str(port, "] ");
    debug_write_str(port, message);
    debug_write_str(port, "\n");
    assert(port@ == old(port)@ + stage_marker(stage, message.spec_bytes()));
}

} // verus!
