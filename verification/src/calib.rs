use crate::transport::TransportError;
use vstd::assert_seqs_equal;
use vstd::prelude::*;

verus! {

/// Factory trim coefficients of one physical sensor, decoded from the
/// 32-byte calibration dump. All three sets are populated together: the
/// decoder never hands out a partial set.
#[derive(Clone, Copy, Debug, PartialEq)]
pub struct CalibParams {
    /// Three temperature coefficients; positions 1 and 2 are sign-extended.
    pub temperature: [i32; 3],
    /// Nine pressure coefficients; positions 1 through 8 are sign-extended.
    pub pressure: [i32; 9],
    /// Six humidity coefficients; positions 1, 3, 4 and 5 are sign-extended.
    pub humidity: [i32; 6],
}

/// Two's-complement reading of a 16-bit pattern: patterns with bit 15 set
/// denote negative values, all others stand for themselves.
pub open spec fn sext16(v: int) -> int {
    if v >= 0x8000 {
        v - 0x10000
    } else {
        v
    }
}

/// Little-endian 16-bit word over the bytes at offsets `lo` and `lo + 1`.
pub open spec fn word_at(b: Seq<u8>, lo: int) -> int {
    b[lo + 1] * 256 + b[lo]
}

/// How each coefficient of `c` is obtained from the 32-byte calibration
/// dump `b`: temperature words at offsets 0..5, pressure words at offsets
/// 6..23, the irregular humidity layout over bytes 24..31, with 16-bit
/// sign extension at temperature positions 1-2, pressure positions 1-8
/// and humidity positions 1, 3, 4 and 5.
pub open spec fn calib_decodes(c: CalibParams, b: Seq<u8>) -> bool {
    &&& c.temperature@[0] == word_at(b, 0)
    &&& c.temperature@[1] == sext16(word_at(b, 2))
    &&& c.temperature@[2] == sext16(word_at(b, 4))
    &&& c.pressure@[0] == word_at(b, 6)
    &&& c.pressure@[1] == sext16(word_at(b, 8))
    &&& c.pressure@[2] == sext16(word_at(b, 10))
    &&& c.pressure@[3] == sext16(word_at(b, 12))
    &&& c.pressure@[4] == sext16(word_at(b, 14))
    &&& c.pressure@[5] == sext16(word_at(b, 16))
    &&& c.pressure@[6] == sext16(word_at(b, 18))
    &&& c.pressure@[7] == sext16(word_at(b, 20))
    &&& c.pressure@[8] == sext16(word_at(b, 22))
    &&& c.humidity@[0] == b[24]
    &&& c.humidity@[1] == sext16(word_at(b, 25))
    &&& c.humidity@[2] == b[27]
    &&& c.humidity@[3] == sext16(b[28] * 16 + b[29] % 16)
    &&& c.humidity@[4] == sext16(b[30] * 16 + b[29] / 16)
    &&& c.humidity@[5] == sext16(b[31] as int)
}

/// Sign-extend a value in 16-bit range to its two's-complement meaning,
/// using wider storage: a pattern with bit 15 set becomes the negative
/// integer it encodes, any other pattern is returned unchanged.
pub fn sign_extend16(v: i32) -> (r: i32)
    requires
        0 <= v <= 0xFFFF,
    ensures
        r == sext16(v as int),
{
    if v & 0x8000 == 0x8000 {
        let nv: i32 = -v;
        let w: i32 = nv ^ 0xFFFF;
        proof {
            assert(nv ^ 0xFFFF == v - 0x10000 - 1 && v >= 0x8000) by (bit_vector)
                requires
                    0 <= v <= 0xFFFF && v & 0x8000 == 0x8000 && nv == -v,
            ;
        }
        w + 1
    } else {
        proof {
            assert(v < 0x8000) by (bit_vector)
                requires
                    0 <= v <= 0xFFFF && v & 0x8000 != 0x8000,
            ;
        }
        v
    }
}

/// Pack two bytes into a little-endian 16-bit word: `hi` shifted up by
/// eight bits, `lo` in the low byte.
fn pack_word(hi: u8, lo: u8) -> (r: i32)
    ensures
        r == hi * 256 + lo,
{
    let h: i32 = hi as i32;
    let l: i32 = lo as i32;
    let r: i32 = (h << 8) | l;
    proof {
        assert((h << 8) | l == h * 256 + l) by (bit_vector)
            requires
                0 <= h < 256 && 0 <= l < 256,
        ;
    }
    r
}

/// Pack a 12-bit humidity coefficient from a full byte and the low nibble
/// of its shared neighbour.
fn pack_nibble_low(hi: u8, shared: u8) -> (r: i32)
    ensures
        r == hi * 16 + shared % 16,
{
    let h: i32 = hi as i32;
    let s: i32 = shared as i32;
    let r: i32 = (h << 4) | (s & 0x0F);
    proof {
        assert((h << 4) | (s & 0x0F) == h * 16 + s % 16) by (bit_vector)
            requires
                0 <= h < 256 && 0 <= s < 256,
        ;
    }
    r
}

/// Pack a 12-bit humidity coefficient from a full byte and the high nibble
/// of its shared neighbour.
fn pack_nibble_high(hi: u8, shared: u8) -> (r: i32)
    ensures
        r == hi * 16 + shared / 16,
{
    let h: i32 = hi as i32;
    let s: i32 = shared as i32;
    let r: i32 = (h << 4) | ((s >> 4) & 0x0F);
    proof {
        assert((h << 4) | ((s >> 4) & 0x0F) == h * 16 + s / 16) by (bit_vector)
            requires
                0 <= h < 256 && 0 <= s < 256,
        ;
    }
    r
}

/// Decode the flat 32-byte calibration dump into the three coefficient
/// sets, applying 16-bit sign extension where the register map calls for
/// it. A pure function of the buffer: equal dumps give equal coefficients.
pub fn decode_calib(buf: &[u8; 32]) -> (c: CalibParams)
    ensures
        calib_decodes(c, buf@),
{
    let temperature: [i32; 3] = [
        pack_word(buf[1], buf[0]),
        sign_extend16(pack_word(buf[3], buf[2])),
        sign_extend16(pack_word(buf[5], buf[4])),
    ];
    let pressure: [i32; 9] = [
        pack_word(buf[7], buf[6]),
        sign_extend16(pack_word(buf[9], buf[8])),
        sign_extend16(pack_word(buf[11], buf[10])),
        sign_extend16(pack_word(buf[13], buf[12])),
        sign_extend16(pack_word(buf[15], buf[14])),
        sign_extend16(pack_word(buf[17], buf[16])),
        sign_extend16(pack_word(buf[19], buf[18])),
        sign_extend16(pack_word(buf[21], buf[20])),
        sign_extend16(pack_word(buf[23], buf[22])),
    ];
    let humidity: [i32; 6] = [
        buf[24] as i32,
        sign_extend16(pack_word(buf[26], buf[25])),
        buf[27] as i32,
        sign_extend16(pack_nibble_low(buf[28], buf[29])),
        sign_extend16(pack_nibble_high(buf[30], buf[29])),
        sign_extend16(buf[31] as i32),
    ];
    CalibParams { temperature, pressure, humidity }
}

/// Turn the outcome of reading the 32 calibration bytes into the outcome
/// of calibration as a whole: a failed read surfaces unchanged and no
/// partial coefficient set is ever produced; a complete dump decodes to
/// the full set.
pub fn calib_from_read(bytes: Result<[u8; 32], TransportError>) -> (r: Result<
    CalibParams,
    TransportError,
>)
    ensures
        bytes matches Ok(b) ==> (r matches Ok(c) && calib_decodes(c, b@)),
        bytes matches Err(e) ==> r == Result::<CalibParams, TransportError>::Err(e),
{
    match bytes {
        Ok(buf) => Ok(decode_calib(&buf)),
        Err(e) => Err(e),
    }
}

/// Decoding is deterministic: any two coefficient sets that both decode
/// from the same 32-byte dump are equal, set by set.
pub proof fn lemma_decode_deterministic(c1: CalibParams, c2: CalibParams, b: Seq<u8>)
    requires
        calib_decodes(c1, b),
        calib_decodes(c2, b),
    ensures
        c1.temperature@ == c2.temperature@,
        c1.pressure@ == c2.pressure@,
        c1.humidity@ == c2.humidity@,
{
    assert_seqs_equal!(c1.temperature@ == c2.temperature@);
    assert_seqs_equal!(c1.pressure@ == c2.pressure@);
    assert_seqs_equal!(c1.humidity@ == c2.humidity@);
}

} // verus!
