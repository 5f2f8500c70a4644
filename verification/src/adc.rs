//! The MCP3008 ADC message protocol.
//!
//! The converter is driven over SPI with a three-byte exchange: a start
//! byte, a configuration byte selecting single-ended mode and the channel,
//! and a dummy byte that clocks out the rest of the conversion. The
//! 10-bit result comes back spread over the last two response bytes. The
//! SPI transfer itself is hardware I/O and happens outside this crate;
//! these functions build the request and read the response.

use crate::errors::GpmError;
use vstd::prelude::*;

verus! {

/// The three-byte SPI request that samples `channel` single-ended:
/// a start bit, then mode and channel in the upper config bits, then a
/// dummy byte. Fails exactly on a channel outside 0..=7.
pub fn adc_request_frame(channel: u8) -> (r: Result<[u8; 3], GpmError>)
    ensures
        r is Err <==> channel > 7,
        r is Err ==> r->Err_0 == GpmError::InvalidChannel,
        r is Ok ==> ({
            let tx = r->Ok_0;
            &&& tx[0] == 1u8
            &&& tx[1] == 0x80u8 + channel * 16
            &&& tx[2] == 0u8
        }),
{
    if channel > 7 {
        return Result::Err(GpmError::InvalidChannel);
    }
    let start_bit: u8 = 0b00000001;
    let config_bits: u8 = 0b10000000 | (channel << 4);
    proof {
        assert(channel <= 7 ==> (0b10000000u8 | (channel << 4)) == 0x80u8 + channel * 16)
            by (bit_vector);
    }
    Result::Ok([start_bit, config_bits, 0x00])
}

/// The 10-bit conversion result carried by a three-byte SPI response:
/// the low two bits of the second byte are the high bits of the result,
/// the third byte the low bits.
pub fn adc_parse_response(rx: &[u8; 3]) -> (v: u16)
    ensures
        v == (rx[1] % 4) * 256 + rx[2],
        v < 1024,
{
    let high = rx[1];
    let low = rx[2];
    let v = ((high & 0b00000011) as u16) << 8 | (low as u16);
    proof {
        assert((((high & 0b00000011) as u16) << 8 | (low as u16)) == (high % 4) * 256 + low)
            by (bit_vector);
        assert((((high & 0b00000011) as u16) << 8 | (low as u16)) < 1024) by (bit_vector);
    }
    v
}

} // verus!
