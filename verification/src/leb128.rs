//! Little-Endian Base 128 (LEB128) variable-length integer encoding.
//!
//! Each byte carries seven value bits and a continuation bit; the value
//! bits of later bytes are more significant. An encoding of a 64-bit value
//! spans at most ten bytes; in the tenth byte only the lowest value bit is
//! in range, and an encoding that carries anything more is rejected.

use vstd::prelude::*;

verus! {

use vstd::arithmetic::power2::pow2;
use vstd::arithmetic::power2::lemma_pow2_adds;
use vstd::arithmetic::power2::lemma_pow2_strictly_increases;
use vstd::arithmetic::power2::lemma2_to64;
use vstd::arithmetic::power2::lemma2_to64_rest;
use crate::read::Error;
use crate::read::reader::Reader;

/// The unsigned LEB128 decoding of the front of `b`, seen from bit
/// position `shift`: the decoded contribution of the remaining bytes and
/// how many bytes it spans, or the error that stops the decoding.
pub open spec fn spec_uleb128_rec(b: Seq<u8>, shift: nat) -> Result<(int, int), Error>
    decreases b.len(),
{
    if b.len() == 0 {
        Err(Error::UnexpectedEof)
    } else {
        let byte = b[0];
        if shift == 63 && byte != 0x00 && byte != 0x01 {
            Err(Error::BadUnsignedLeb128)
        } else {
            let low = (byte % 0x80) as int;
            if byte < 0x80 {
                Ok((low * pow2(shift), 1))
            } else {
                match spec_uleb128_rec(b.skip(1), (shift + 7) as nat) {
                    Ok((v, n)) => Ok((low * pow2(shift) + v, n + 1)),
                    Err(e) => Err(e),
                }
            }
        }
    }
}

/// The unsigned LEB128 decoding of the front of `b`: the value and the
/// number of bytes it spans, or the error that stops the decoding.
pub open spec fn spec_uleb128(b: Seq<u8>) -> Result<(u64, int), Error> {
    match spec_uleb128_rec(b, 0) {
        Ok((v, n)) => Ok((v as u64, n)),
        Err(e) => Err(e),
    }
}

/// The signed LEB128 decoding of the front of `b`, seen from bit position
/// `shift`. The final byte's 0x40 bit makes the contribution negative by
/// two's complement.
pub open spec fn spec_sleb128_rec(b: Seq<u8>, shift: nat) -> Result<(int, int), Error>
    decreases b.len(),
{
    if b.len() == 0 {
        Err(Error::UnexpectedEof)
    } else {
        let byte = b[0];
        if shift == 63 && byte != 0x00 && byte != 0x7f {
            Err(Error::BadSignedLeb128)
        } else {
            let low = (byte % 0x80) as int;
            if byte < 0x80 {
                let v = if shift == 63 {
                    if byte == 0x7f {
                        -(pow2(63) as int)
                    } else {
                        0
                    }
                } else if low >= 0x40 {
                    (low - 0x80) * pow2(shift)
                } else {
                    low * pow2(shift)
                };
                Ok((v, 1))
            } else {
                match spec_sleb128_rec(b.skip(1), (shift + 7) as nat) {
                    Ok((v, n)) => Ok((low * pow2(shift) + v, n + 1)),
                    Err(e) => Err(e),
                }
            }
        }
    }
}

/// The signed LEB128 decoding of the front of `b`: the value and the
/// number of bytes it spans, or the error that stops the decoding.
pub open spec fn spec_sleb128(b: Seq<u8>) -> Result<(i64, int), Error> {
    match spec_sleb128_rec(b, 0) {
        Ok((v, n)) => Ok((v as i64, n)),
        Err(e) => Err(e),
    }
}

/// A decoded unsigned contribution at bit position `shift` fits below
/// `2^64` with room for the bits underneath it, and spans at least one of
/// the remaining bytes.
pub proof fn lemma_uleb128_range(b: Seq<u8>, shift: nat)
    requires
        shift % 7 == 0,
        shift <= 63,
    ensures
        match spec_uleb128_rec(b, shift) {
            Ok((v, n)) => 0 <= v <= pow2(64) - pow2(shift) && 1 <= n <= b.len(),
            Err(_) => true,
        },
    decreases b.len(),
{
    lemma2_to64();
    lemma2_to64_rest();
    if b.len() != 0 {
        let byte = b[0];
        let low = (byte % 0x80) as int;
        let p = pow2(shift) as int;
        if shift < 64 {
            lemma_pow2_strictly_increases(shift, 64);
        }
        if !(shift == 63 && byte != 0x00 && byte != 0x01) {
            if byte < 0x80 {
                if shift == 63 {
                    assert(low * p <= 1 * p) by (nonlinear_arith)
                        requires
                            low <= 1,
                            p >= 0,
                    ;
                    assert(pow2(64) == 2 * pow2(63)) by {
                        lemma_pow2_adds(63, 1);
                    }
                } else {
                    lemma_pow2_adds(shift, 7);
                    lemma_pow2_strictly_increases(shift + 7, 64);
                    assert(low * p <= 127 * p) by (nonlinear_arith)
                        requires
                            low <= 127,
                            p >= 0,
                    ;
                }
            } else {
                assert(shift != 63);
                lemma_uleb128_range(b.skip(1), (shift + 7) as nat);
                lemma_pow2_adds(shift, 7);
                match spec_uleb128_rec(b.skip(1), (shift + 7) as nat) {
                    Ok((v, n)) => {
                        assert(low * p <= 127 * p) by (nonlinear_arith)
                            requires
                                low <= 127,
                                p >= 0,
                        ;
                        assert(pow2((shift + 7) as nat) == 128 * p);
                    },
                    Err(_) => {},
                }
            }
        }
    }
}

/// A decoded signed contribution at bit position `shift` lies within the
/// 64-bit two's-complement range, leaving room for the bits underneath it.
pub proof fn lemma_sleb128_range(b: Seq<u8>, shift: nat)
    requires
        shift % 7 == 0,
        shift <= 63,
    ensures
        match spec_sleb128_rec(b, shift) {
            Ok((v, n)) => -(pow2(63) as int) <= v <= pow2(63) - pow2(shift) && 1 <= n <= b.len(),
            Err(_) => true,
        },
    decreases b.len(),
{
    lemma2_to64();
    lemma2_to64_rest();
    if b.len() != 0 {
        let byte = b[0];
        let low = (byte % 0x80) as int;
        let p = pow2(shift) as int;
        if shift < 63 {
            lemma_pow2_strictly_increases(shift, 63);
        }
        if !(shift == 63 && byte != 0x00 && byte != 0x7f) {
            if byte < 0x80 {
                if shift != 63 {
                    lemma_pow2_adds(shift, 7);
                    if shift + 7 < 63 {
                        lemma_pow2_strictly_increases(shift + 7, 63);
                    }
                    if low >= 0x40 {
                        lemma_pow2_adds(shift, 6);
                        if shift + 6 < 63 {
                            lemma_pow2_strictly_increases(shift + 6, 63);
                        }
                        assert(-(64 * p) <= (low - 0x80) * p <= (-1) * p) by (nonlinear_arith)
                            requires
                                0x40 <= low <= 127,
                                p >= 0,
                        ;
                    } else {
                        assert(0 <= low * p <= 63 * p) by (nonlinear_arith)
                            requires
                                0 <= low <= 63,
                                p >= 0,
                        ;
                    }
                }
            } else {
                assert(shift != 63);
                lemma_sleb128_range(b.skip(1), (shift + 7) as nat);
                lemma_pow2_adds(shift, 7);
                match spec_sleb128_rec(b.skip(1), (shift + 7) as nat) {
                    Ok((v, n)) => {
                        assert(0 <= low * p <= 127 * p) by (nonlinear_arith)
                            requires
                                0 <= low <= 127,
                                p >= 0,
                        ;
                        assert(pow2((shift + 7) as nat) == 128 * p);
                    },
                    Err(_) => {},
                }
            }
        }
    }
}

/// `pow2` of a bit position at most 56 is bounded by `2^56`.
proof fn lemma_pow2_le56(shift: nat)
    requires
        shift <= 56,
    ensures
        pow2(shift) <= 0x100_0000_0000_0000,
{
    lemma2_to64();
    lemma2_to64_rest();
    if shift < 56 {
        lemma_pow2_strictly_increases(shift, 56);
    }
}

/// Read an unsigned LEB128 encoded integer.
pub fn read_unsigned<R: Reader>(r: &mut R) -> (res: Result<u64, Error>)
    ensures
        final(r).endianness() == old(r).endianness(),
        match spec_uleb128(old(r).bytes()) {
            Ok((v, n)) => res == Ok::<u64, Error>(v) && final(r).bytes() == old(r).bytes().skip(n),
            Err(e) => res == Err::<u64, Error>(e),
        },
{
    proof {
        lemma_uleb128_range(r.bytes(), 0);
        lemma2_to64();
    }
    let ghost orig = *r;
    let ghost mut k: int = 0;
    let mut acc: u64 = 0;
    let mut mult: u64 = 1;
    let mut shift: u32 = 0;
    loop
        invariant
            orig == *old(r),
            0 <= k <= orig.bytes().len(),
            r.bytes() == orig.bytes().skip(k),
            r.endianness() == orig.endianness(),
            shift == 7 * k,
            shift <= 63,
            mult == pow2(shift as nat),
            acc < mult,
            spec_uleb128_rec(orig.bytes(), 0) == match spec_uleb128_rec(
                orig.bytes().skip(k),
                shift as nat,
            ) {
                Ok((v, n)) => Ok::<(int, int), Error>((acc + v, n + k)),
                Err(e) => Err::<(int, int), Error>(e),
            },
        decreases orig.bytes().len() - k,
    {
        let ghost rest = orig.bytes().skip(k);
        let byte = match r.read_u8() {
            Ok(b) => b,
            Err(e) => {
                proof {
                    assert(rest.len() == 0);
                }
                return Err(e);
            },
        };
        proof {
            assert(rest[0] == byte);
            assert(r.bytes() =~= orig.bytes().skip(k + 1));
        }
        if shift == 63 {
            if byte == 0x00 || byte == 0x01 {
                proof {
                    lemma2_to64_rest();
                    assert((byte % 0x80) as int * pow2(63) == byte * 0x8000_0000_0000_0000)
                        by (nonlinear_arith)
                        requires
                            byte < 0x80,
                            pow2(63) == 0x8000_0000_0000_0000,
                    ;
                    lemma_uleb128_range(orig.bytes(), 0);
                }
                return Ok(acc + (byte as u64) * 0x8000_0000_0000_0000);
            } else {
                return Err(Error::BadUnsignedLeb128);
            }
        }
        let low = byte % 0x80;
        proof {
            lemma_pow2_le56(shift as nat);
            assert((low as int) * (mult as int) <= 127 * (mult as int)) by (nonlinear_arith)
                requires
                    low <= 127,
                    mult >= 0,
            ;
        }
        let contribution = (low as u64) * mult;
        if byte < 0x80 {
            proof {
                lemma_uleb128_range(orig.bytes(), 0);
            }
            return Ok(acc + contribution);
        }
        acc = acc + contribution;
        mult = mult * 128;
        shift = shift + 7;
        proof {
            lemma_pow2_adds((shift - 7) as nat, 7);
            lemma2_to64();
            k = k + 1;
        }
    }
}

/// Read a signed LEB128 encoded integer.
pub fn read_signed<R: Reader>(r: &mut R) -> (res: Result<i64, Error>)
    ensures
        final(r).endianness() == old(r).endianness(),
        match spec_sleb128(old(r).bytes()) {
            Ok((v, n)) => res == Ok::<i64, Error>(v) && final(r).bytes() == old(r).bytes().skip(n),
            Err(e) => res == Err::<i64, Error>(e),
        },
{
    proof {
        lemma_sleb128_range(r.bytes(), 0);
        lemma2_to64();
    }
    let ghost orig = *r;
    let ghost mut k: int = 0;
    let mut acc: u64 = 0;
    let mut mult: u64 = 1;
    let mut shift: u32 = 0;
    loop
        invariant
            orig == *old(r),
            0 <= k <= orig.bytes().len(),
            r.bytes() == orig.bytes().skip(k),
            r.endianness() == orig.endianness(),
            shift == 7 * k,
            shift <= 63,
            mult == pow2(shift as nat),
            acc < mult,
            spec_sleb128_rec(orig.bytes(), 0) == match spec_sleb128_rec(
                orig.bytes().skip(k),
                shift as nat,
            ) {
                Ok((v, n)) => Ok::<(int, int), Error>((acc + v, n + k)),
                Err(e) => Err::<(int, int), Error>(e),
            },
        decreases orig.bytes().len() - k,
    {
        let ghost rest = orig.bytes().skip(k);
        let byte = match r.read_u8() {
            Ok(b) => b,
            Err(e) => {
                proof {
                    assert(rest.len() == 0);
                }
                return Err(e);
            },
        };
        proof {
            assert(rest[0] == byte);
            assert(r.bytes() =~= orig.bytes().skip(k + 1));
            lemma_sleb128_range(orig.bytes(), 0);
            lemma2_to64_rest();
        }
        if shift == 63 {
            if byte == 0x00 {
                return Ok(acc as i64);
            } else if byte == 0x7f {
                return Ok(((acc as i128) - 0x8000_0000_0000_0000_i128) as i64);
            } else {
                return Err(Error::BadSignedLeb128);
            }
        }
        let low = byte % 0x80;
        proof {
            lemma_pow2_le56(shift as nat);
            assert((low as int) * (mult as int) <= 127 * (mult as int)) by (nonlinear_arith)
                requires
                    low <= 127,
                    mult >= 0,
            ;
        }
        let contribution = (low as u64) * mult;
        if byte < 0x80 {
            if low >= 0x40 {
                proof {
                    assert((low as int - 0x80) * (mult as int) == (contribution as int) - 128 * (
                    mult as int)) by (nonlinear_arith)
                        requires
                            contribution == (low as int) * (mult as int),
                    ;
                }
                return Ok(
                    (((acc as i128) + (contribution as i128)) - (mult as i128) * 128) as i64,
                );
            } else {
                return Ok((acc + contribution) as i64);
            }
        }
        acc = acc + contribution;
        mult = mult * 128;
        shift = shift + 7;
        proof {
            lemma_pow2_adds((shift - 7) as nat, 7);
            lemma2_to64();
            k = k + 1;
        }
    }
}

} // verus!
