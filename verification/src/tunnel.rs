//! What the tunnel device glue computes: the unit number in a tunnel's
//! name, and the length of a frame behind the device's own header.

use vstd::prelude::*;

verus! {

/// A tunnel name that is not `utun` followed by a decimal number.
#[derive(Debug, Clone, Copy, PartialEq, Eq, Structural)]
pub struct InvalidName;

/// The value of a decimal digit, given as its ASCII code.
pub open spec fn digit_value(code: u8) -> nat {
    (code - 0x30) as nat
}

/// Whether `code` is the ASCII code of a decimal digit.
pub open spec fn is_digit(code: u8) -> bool {
    0x30 <= code <= 0x39
}

/// Whether every byte of `text` is a decimal digit.
pub open spec fn all_digits(text: Seq<u8>) -> bool {
    forall|k: int| 0 <= k < text.len() ==> is_digit(#[trigger] text[k])
}

/// The number that the decimal digits `text` spell.
pub open spec fn decimal(text: Seq<u8>) -> nat
    decreases text.len(),
{
    if text.len() == 0 {
        0
    } else {
        decimal(text.drop_last()) * 10 + digit_value(text.last())
    }
}

/// The four bytes that every tunnel name starts with.
pub open spec fn utun_prefix() -> Seq<u8> {
    seq![0x75u8, 0x74u8, 0x75u8, 0x6eu8]
}

/// The ASCII code of the plus sign.
pub const PLUS: u8 = 0x2b;

/// The digits of a tunnel name that has any: what follows `utun` and, if
/// there is one, a plus sign.
pub open spec fn unit_digits(name: Seq<u8>) -> Seq<u8> {
    if name.len() > 4 && name[4] == PLUS {
        name.skip(5)
    } else {
        name.skip(4)
    }
}

/// The unit that a tunnel name asks for: zero for the bare name `utun`,
/// which lets the system choose, and one more than the number for `utun`
/// followed by a decimal number, which is one or more digits, with or
/// without a plus sign before them. Any other name asks for none; nor does
/// a number too large for its successor to fit 32 bits.
pub open spec fn utun_unit(name: Seq<u8>) -> Option<u32> {
    if name.len() < 4 || name.take(4) != utun_prefix() {
        None
    } else if name.len() == 4 {
        Some(0u32)
    } else if unit_digits(name).len() > 0 && all_digits(unit_digits(name)) && decimal(
        unit_digits(name),
    ) < u32::MAX {
        Some((decimal(unit_digits(name)) + 1) as u32)
    } else {
        None
    }
}

/// More digits never spell a smaller number.
pub proof fn lemma_decimal_grows(text: Seq<u8>, n: int)
    requires
        0 <= n <= text.len(),
        all_digits(text),
    ensures
        decimal(text.take(n)) <= decimal(text),
    decreases text.len() - n,
{
    if n < text.len() {
        lemma_decimal_grows(text, n + 1);
        assert(text.take(n + 1).drop_last() =~= text.take(n));
        assert(is_digit(text[n]));
    } else {
        assert(text.take(n) =~= text);
    }
}

/// Reads the unit number out of a tunnel name.
pub fn parse_utun_name(name: &[u8]) -> (unit: Result<u32, InvalidName>)
    ensures
        unit is Ok <==> utun_unit(name@) is Some,
        unit matches Ok(n) ==> utun_unit(name@) == Some(n),
{
    let len: usize = name.len();
    if len < 4 || name[0] != 0x75 || name[1] != 0x74 || name[2] != 0x75 || name[3] != 0x6e {
        proof {
            if len >= 4 {
                assert(name@.take(4)[0] == name@[0]);
                assert(name@.take(4)[1] == name@[1]);
                assert(name@.take(4)[2] == name@[2]);
                assert(name@.take(4)[3] == name@[3]);
            }
        }
        return Err(InvalidName);
    }
    assert(name@.take(4) =~= utun_prefix());
    if len == 4 {
        return Ok(0);
    }
    let start: usize = if name[4] == PLUS {
        5
    } else {
        4
    };
    if start == len {
        return Err(InvalidName);
    }
    let ghost digits = unit_digits(name@);
    let mut value: u64 = 0;
    let mut i: usize = start;
    while i < len
        invariant
            4 <= start <= i <= len,
            len == name@.len(),
            name@.take(4) == utun_prefix(),
            digits == unit_digits(name@),
            digits == name@.skip(start as int),
            all_digits(digits.take(i - start)),
            value == decimal(digits.take(i - start)),
            value < u32::MAX,
        decreases len - i,
    {
        let code: u8 = name[i];
        assert(digits[i - start] == code);
        if code < 0x30 || code > 0x39 {
            assert(!is_digit(digits[i - start]));
            return Err(InvalidName);
        }
        assert(digits.take(i - start + 1).drop_last() =~= digits.take(i - start));
        value = value * 10 + (code - 0x30) as u64;
        if value >= 0xffff_ffff {
            proof {
                assert(all_digits(digits.take(i - start + 1)));
                if all_digits(digits) {
                    lemma_decimal_grows(digits, i - start + 1);
                }
            }
            return Err(InvalidName);
        }
        i = i + 1;
    }
    assert(digits.take(len - start) =~= digits);
    Ok((value + 1) as u32)
}

/// The length of the device's own header before each frame.
pub const FRAME_HEADER_LEN: usize = 4;

/// The length of the frame in a read of `read` bytes: what lies behind the
/// device's header, and nothing for a read that ends within it.
pub open spec fn frame_len(read: nat) -> nat {
    if read <= 4 {
        0
    } else {
        (read - 4) as nat
    }
}

/// Computes the length of the frame in a read of `read` bytes.
pub fn received_len(read: usize) -> (len: usize)
    ensures
        len == frame_len(read as nat),
{
    if read <= FRAME_HEADER_LEN {
        0
    } else {
        read - FRAME_HEADER_LEN
    }
}

} // verus!
