use crate::transport::TransportError;
use vstd::prelude::*;

verus! {

/// One raw ADC reading: three unsigned samples of up to 20 bits each,
/// carried in wider storage. Created fresh on every read and immediately
/// consumed by the compensation formulas.
#[derive(Clone, Copy, Debug, PartialEq, Eq, Structural)]
pub struct EnvData {
    /// Raw temperature sample (20 bits).
    pub temperature: u32,
    /// Raw pressure sample (20 bits).
    pub pressure: u32,
    /// Raw humidity sample (16 bits).
    pub humidity: u32,
}

/// 20-bit sample over three consecutive register bytes: the first byte
/// shifted up twelve bits, the second up four, and the high nibble of the
/// third in the low four bits.
pub open spec fn raw20(b0: u8, b1: u8, b2: u8) -> int {
    b0 * 4096 + b1 * 16 + b2 / 16
}

/// 16-bit sample over two consecutive register bytes, big-endian.
pub open spec fn raw16(b0: u8, b1: u8) -> int {
    b0 * 256 + b1
}

/// How each sample of `s` is assembled from the 8-byte ADC output block
/// `b`: pressure over bytes 0-2, temperature over bytes 3-5, humidity over
/// bytes 6-7.
pub open spec fn sample_decodes(s: EnvData, b: Seq<u8>) -> bool {
    &&& s.pressure == raw20(b[0], b[1], b[2])
    &&& s.temperature == raw20(b[3], b[4], b[5])
    &&& s.humidity == raw16(b[6], b[7])
}

/// Assemble one 20-bit sample from its three register bytes.
fn pack20(b0: u8, b1: u8, b2: u8) -> (r: u32)
    ensures
        r == raw20(b0, b1, b2),
{
    let x0: u32 = b0 as u32;
    let x1: u32 = b1 as u32;
    let x2: u32 = b2 as u32;
    let r: u32 = (x0 << 12) | (x1 << 4) | (x2 >> 4);
    proof {
        assert((x0 << 12) | (x1 << 4) | (x2 >> 4) == x0 * 4096 + x1 * 16 + x2 / 16)
            by (bit_vector)
            requires
                x0 < 256 && x1 < 256 && x2 < 256,
        ;
    }
    r
}

/// Assemble one 16-bit sample from its two register bytes.
fn pack16(b0: u8, b1: u8) -> (r: u32)
    ensures
        r == raw16(b0, b1),
{
    let x0: u32 = b0 as u32;
    let x1: u32 = b1 as u32;
    let r: u32 = (x0 << 8) | x1;
    proof {
        assert((x0 << 8) | x1 == x0 * 256 + x1) by (bit_vector)
            requires
                x0 < 256 && x1 < 256,
        ;
    }
    r
}

/// Assemble the three raw samples from the flat 8-byte ADC output block.
/// A pure function of the buffer.
pub fn assemble_sample(buf: &[u8; 8]) -> (s: EnvData)
    ensures
        sample_decodes(s, buf@),
{
    EnvData {
        pressure: pack20(buf[0], buf[1], buf[2]),
        temperature: pack20(buf[3], buf[4], buf[5]),
        humidity: pack16(buf[6], buf[7]),
    }
}

/// Turn the outcome of reading the 8 ADC bytes into the outcome of the
/// sample read as a whole: a failed read surfaces unchanged and no partial
/// sample is ever produced; a complete block assembles to all three
/// samples.
pub fn sample_from_read(bytes: Result<[u8; 8], TransportError>) -> (r: Result<
    EnvData,
    TransportError,
>)
    ensures
        bytes matches Ok(b) ==> (r matches Ok(s) && sample_decodes(s, b@)),
        bytes matches Err(e) ==> r == Result::<EnvData, TransportError>::Err(e),
{
    match bytes {
        Ok(buf) => Ok(assemble_sample(&buf)),
        Err(e) => Err(e),
    }
}

} // verus!
