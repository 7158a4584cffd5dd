use vstd::prelude::*;

verus! {

/// Encode the measurement control register byte: temperature oversampling
/// in bits 7-5, pressure oversampling in bits 4-2, operating mode in bits
/// 1-0. Each field is a 3-bit (mode: 2-bit) code from the sensor's
/// register map.
pub fn encode_ctrl_meas(osrs_t: u8, osrs_p: u8, mode: u8) -> (r: u8)
    requires
        osrs_t < 8,
        osrs_p < 8,
        mode < 4,
    ensures
        r == osrs_t * 32 + osrs_p * 4 + mode,
{
    let r: u8 = (osrs_t << 5) | (osrs_p << 2) | mode;
    proof {
        assert((osrs_t << 5) | (osrs_p << 2) | mode == osrs_t * 32 + osrs_p * 4 + mode)
            by (bit_vector)
            requires
                osrs_t < 8 && osrs_p < 8 && mode < 4,
        ;
    }
    r
}

/// Encode the configuration register byte: standby time in bits 7-5, IIR
/// filter coefficient in bits 4-2, 3-wire SPI enable in bit 0.
pub fn encode_config(t_sb: u8, filter: u8, spi3w_en: u8) -> (r: u8)
    requires
        t_sb < 8,
        filter < 8,
        spi3w_en < 2,
    ensures
        r == t_sb * 32 + filter * 4 + spi3w_en,
{
    let r: u8 = (t_sb << 5) | (filter << 2) | spi3w_en;
    proof {
        assert((t_sb << 5) | (filter << 2) | spi3w_en == t_sb * 32 + filter * 4 + spi3w_en)
            by (bit_vector)
            requires
                t_sb < 8 && filter < 8 && spi3w_en < 2,
        ;
    }
    r
}

} // verus!
