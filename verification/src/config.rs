//! Stream configuration and the decoder of the peer's 64-bit control word.

use vstd::prelude::*;

verus! {

/// The tunable shape of one stream: the tag byte carried in the high byte of
/// every payload, and the nominal delay between two emissions.
#[derive(Clone, Copy, Debug, PartialEq, Eq, Structural)]
pub struct StreamConfig {
    pub prefix: u8,
    pub interval_ms: u16,
}

/// The configuration of the notify stream held in a control word:
/// bits 0..=15 are the interval, bits 16..=23 the prefix.
pub open spec fn spec_notify_config(control: u64) -> StreamConfig {
    StreamConfig {
        prefix: ((control >> 16) & 0xFF) as u8,
        interval_ms: (control & 0xFFFF) as u16,
    }
}

/// The configuration of the indicate stream held in a control word:
/// bits 24..=39 are the interval, bits 40..=47 the prefix.
pub open spec fn spec_indicate_config(control: u64) -> StreamConfig {
    StreamConfig {
        prefix: ((control >> 40) & 0xFF) as u8,
        interval_ms: ((control >> 24) & 0xFFFF) as u16,
    }
}

/// Splits a control word into the notify and the indicate configuration.
/// Every bit pattern is valid; bits 48..=63 are not read.
pub fn decode(control: u64) -> (configs: (StreamConfig, StreamConfig))
    ensures
        configs.0 == spec_notify_config(control),
        configs.1 == spec_indicate_config(control),
{
    assert((control >> 16) & 0xFF <= 0xFF) by (bit_vector);
    assert(control & 0xFFFF <= 0xFFFF) by (bit_vector);
    assert((control >> 40) & 0xFF <= 0xFF) by (bit_vector);
    assert((control >> 24) & 0xFFFF <= 0xFFFF) by (bit_vector);
    let notify = StreamConfig {
        prefix: ((control >> 16) & 0xFF) as u8,
        interval_ms: (control & 0xFFFF) as u16,
    };
    let indicate = StreamConfig {
        prefix: ((control >> 40) & 0xFF) as u8,
        interval_ms: ((control >> 24) & 0xFFFF) as u16,
    };
    (notify, indicate)
}

/// The four fields read as digits of the control word: the notify interval
/// is the word modulo 2^16, the notify prefix the next byte, the indicate
/// interval the 16 bits from bit 24, the indicate prefix the byte from bit 40.
pub proof fn lemma_decode_fields(control: u64)
    ensures
        spec_notify_config(control).interval_ms == control % 0x1_0000,
        spec_notify_config(control).prefix == (control / 0x1_0000) % 0x100,
        spec_indicate_config(control).interval_ms == (control / 0x100_0000) % 0x1_0000,
        spec_indicate_config(control).prefix == (control / 0x100_0000_0000) % 0x100,
{
    assert(control & 0xFFFF == control % 0x1_0000) by (bit_vector);
    assert((control >> 16) & 0xFF == (control / 0x1_0000) % 0x100) by (bit_vector);
    assert((control >> 24) & 0xFFFF == (control / 0x100_0000) % 0x1_0000) by (bit_vector);
    assert((control >> 40) & 0xFF == (control / 0x100_0000_0000) % 0x100) by (bit_vector);
}

/// Two control words that agree in bits 0..=47 decode alike: the upper 16
/// bits are reserved and not read.
pub proof fn lemma_reserved_bits_ignored(a: u64, b: u64)
    requires
        a & 0xFFFF_FFFF_FFFF == b & 0xFFFF_FFFF_FFFF,
    ensures
        spec_notify_config(a) == spec_notify_config(b),
        spec_indicate_config(a) == spec_indicate_config(b),
{
    assert(a & 0xFFFF == b & 0xFFFF && (a >> 16) & 0xFF == (b >> 16) & 0xFF && (a >> 24) & 0xFFFF
        == (b >> 24) & 0xFFFF && (a >> 40) & 0xFF == (b >> 40) & 0xFF) by (bit_vector)
        requires
            a & 0xFFFF_FFFF_FFFF == b & 0xFFFF_FFFF_FFFF,
    ;
}

/// The two halves of a control word do not interact: the notify
/// configuration rests on bits 0..=23 alone, the indicate configuration on
/// bits 24..=47 alone.
pub proof fn lemma_halves_independent(a: u64, b: u64)
    ensures
        a & 0xFF_FFFF == b & 0xFF_FFFF ==> spec_notify_config(a) == spec_notify_config(b),
        (a >> 24) & 0xFF_FFFF == (b >> 24) & 0xFF_FFFF ==> spec_indicate_config(a)
            == spec_indicate_config(b),
{
    assert(a & 0xFF_FFFF == b & 0xFF_FFFF ==> a & 0xFFFF == b & 0xFFFF && (a >> 16) & 0xFF == (b
        >> 16) & 0xFF) by (bit_vector);
    assert((a >> 24) & 0xFF_FFFF == (b >> 24) & 0xFF_FFFF ==> (a >> 24) & 0xFFFF == (b >> 24)
        & 0xFFFF && (a >> 40) & 0xFF == (b >> 40) & 0xFF) by (bit_vector);
}

} // verus!
