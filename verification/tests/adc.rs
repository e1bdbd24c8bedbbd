use canshunt::adc::{
    current_channel, current_counts, regulator_delay_cycles, sample_time_position,
    sequence_position, voltage_channel,
};

#[test]
fn sequence_fields() {
    assert_eq!(sequence_position(0), (1, 0));
    assert_eq!(sequence_position(3), (1, 3));
    assert_eq!(sequence_position(4), (2, 0));
    assert_eq!(sequence_position(8), (2, 4));
    assert_eq!(sequence_position(9), (3, 0));
    assert_eq!(sequence_position(13), (3, 4));
    assert_eq!(sequence_position(14), (4, 0));
    assert_eq!(sequence_position(15), (4, 1));
}

#[test]
fn sample_time_fields() {
    assert_eq!(sample_time_position(0), (0, 0));
    assert_eq!(sample_time_position(9), (0, 9));
    assert_eq!(sample_time_position(10), (1, 0));
    assert_eq!(sample_time_position(16), (1, 6));
}

#[test]
fn regulator_delay() {
    assert_eq!(regulator_delay_cycles(16_000_000), 400_000);
    assert_eq!(regulator_delay_cycles(39), 0);
}

#[test]
fn channel_tables() {
    let currents: Vec<u8> = (0..8).map(current_channel).collect();
    let voltages: Vec<u8> = (0..8).map(voltage_channel).collect();
    assert_eq!(currents, vec![16, 14, 12, 10, 8, 6, 4, 2]);
    assert_eq!(voltages, vec![15, 13, 11, 9, 7, 5, 3, 1]);
}

#[test]
fn current_offset() {
    assert_eq!(current_counts(0), 0);
    assert_eq!(current_counts(1), 0);
    assert_eq!(current_counts(2), 0);
    assert_eq!(current_counts(1000), 998);
    assert_eq!(current_counts(u16::MAX), u16::MAX - 2);
}
