//! The ADC plan: where each conversion of a regular sequence is programmed,
//! where each channel's sample time is programmed, how long the voltage
//! regulator is given to start, and which channel measures which input.
use vstd::prelude::*;

verus! {

/// Number of conversions a regular sequence can hold.
pub const SEQUENCE_LEN: usize = 16;

/// Number of channels whose sample time is programmed.
pub const SAMPLED_CHANNELS: usize = 17;

/// Channels whose sample time sits in the first sample-time register.
pub const SMPR_CHANNELS_PER_REGISTER: usize = 10;

/// The regulator start-up wait is a fortieth of a second.
pub const REGULATOR_DELAY_DIVISOR: u32 = 40;

/// Number of measured inputs: eight shunt currents and eight voltages.
pub const INPUT_COUNT: usize = 8;

/// Counts subtracted from every current reading: the current amplifier's
/// output offset.
pub const INA_OFFSET: u16 = 2;

/// The sequence register (1 to 4, SQR1 to SQR4) that holds conversion `n`.
pub open spec fn spec_sequence_register(n: int) -> int {
    if n < 4 {
        1
    } else if n < 9 {
        2
    } else if n < 14 {
        3
    } else {
        4
    }
}

/// The first conversion that a sequence register holds.
pub open spec fn spec_register_base(reg: int) -> int {
    if reg == 1 {
        0
    } else if reg == 2 {
        4
    } else if reg == 3 {
        9
    } else {
        14
    }
}

/// The number of conversions a sequence register holds (SQR1 shares its
/// first field with the sequence length).
pub open spec fn spec_register_slots(reg: int) -> int {
    if reg == 1 {
        4
    } else if reg == 4 {
        2
    } else {
        5
    }
}

/// Where conversion `n` of the regular sequence is programmed: the sequence
/// register (1 to 4) and the field within it.
pub fn sequence_position(n: usize) -> (r: (u8, usize))
    requires
        n < SEQUENCE_LEN,
    ensures
        r.0 == spec_sequence_register(n as int),
        r.1 == n - spec_register_base(r.0 as int),
        r.1 < spec_register_slots(r.0 as int),
        n < 4 ==> r == (1u8, n),
        4 <= n < 9 ==> r == (2u8, (n - 4) as usize),
        9 <= n < 14 ==> r == (3u8, (n - 9) as usize),
        14 <= n ==> r == (4u8, (n - 14) as usize),
{
    if n < 4 {
        (1, n)
    } else if n < 9 {
        (2, n - 4)
    } else if n < 14 {
        (3, n - 9)
    } else {
        (4, n - 14)
    }
}

/// Distinct conversions are programmed into distinct fields, so programming
/// one never overwrites another.
pub proof fn lemma_sequence_positions_distinct(n1: int, n2: int)
    requires
        0 <= n1 < SEQUENCE_LEN,
        0 <= n2 < SEQUENCE_LEN,
        n1 != n2,
    ensures
        spec_sequence_register(n1) != spec_sequence_register(n2) || n1 - spec_register_base(
            spec_sequence_register(n1),
        ) != n2 - spec_register_base(spec_sequence_register(n2)),
{
}

/// Where the sample time of `channel` is programmed: the sample-time
/// register (0 or 1) and the field within it.
pub fn sample_time_position(channel: usize) -> (r: (usize, usize))
    requires
        channel < SAMPLED_CHANNELS,
    ensures
        r.0 == (if channel < SMPR_CHANNELS_PER_REGISTER {
            0int
        } else {
            1
        }),
        r.1 == channel - SMPR_CHANNELS_PER_REGISTER * r.0,
        r.1 < SMPR_CHANNELS_PER_REGISTER,
{
    if channel < SMPR_CHANNELS_PER_REGISTER {
        (0, channel)
    } else {
        (1, channel - SMPR_CHANNELS_PER_REGISTER)
    }
}

/// CPU cycles to wait for the ADC voltage regulator: a fortieth of a second
/// at `cpu_freq` hertz.
pub fn regulator_delay_cycles(cpu_freq: u32) -> (r: u32)
    ensures
        r == cpu_freq / REGULATOR_DELAY_DIVISOR,
{
    cpu_freq / REGULATOR_DELAY_DIVISOR
}

/// The ADC channel that measures the current of input `i`.
pub open spec fn spec_current_channel(i: int) -> int {
    16 - 2 * i
}

/// The ADC channel that measures the voltage of input `i`.
pub open spec fn spec_voltage_channel(i: int) -> int {
    15 - 2 * i
}

pub fn current_channel(i: usize) -> (r: u8)
    requires
        i < INPUT_COUNT,
    ensures
        r == spec_current_channel(i as int),
        r == 16 - 2 * i,
{
    let table: [u8; 8] = [16, 14, 12, 10, 8, 6, 4, 2];
    table[i]
}

pub fn voltage_channel(i: usize) -> (r: u8)
    requires
        i < INPUT_COUNT,
    ensures
        r == spec_voltage_channel(i as int),
        r == 15 - 2 * i,
{
    let table: [u8; 8] = [15, 13, 11, 9, 7, 5, 3, 1];
    table[i]
}

/// The sixteen measurement channels are 1 to 16, each used once: input `i`
/// reads its current on an even channel and its voltage on the odd channel
/// just below it.
pub proof fn lemma_channels_cover_once(i: int, j: int)
    requires
        0 <= i < INPUT_COUNT,
        0 <= j < INPUT_COUNT,
    ensures
        1 <= spec_voltage_channel(i) < spec_current_channel(i) <= 16,
        spec_current_channel(i) == spec_voltage_channel(i) + 1,
        spec_current_channel(i) != spec_voltage_channel(j),
        i != j ==> spec_current_channel(i) != spec_current_channel(j) && spec_voltage_channel(i)
            != spec_voltage_channel(j),
        spec_current_channel(i) < SEQUENCE_LEN + 1,
{
}

/// Every channel 1 to 16 measures exactly one input.
pub proof fn lemma_every_channel_used(ch: int)
    requires
        1 <= ch <= 16,
    ensures
        ch % 2 == 0 ==> 0 <= (16 - ch) / 2 < INPUT_COUNT && spec_current_channel((16 - ch) / 2)
            == ch,
        ch % 2 == 1 ==> 0 <= (15 - ch) / 2 < INPUT_COUNT && spec_voltage_channel((15 - ch) / 2)
            == ch,
{
}

/// A current reading with the amplifier offset removed (never below zero).
pub fn current_counts(raw: u16) -> (r: u16)
    ensures
        r == (if raw >= INA_OFFSET {
            raw - INA_OFFSET
        } else {
            0
        }),
{
    raw.saturating_sub(INA_OFFSET)
}

} // verus!
