use snowprints::codec::{
    LOGICAL_VOLUME_BIT_LEN, LOGICAL_VOLUME_BIT_MASK, MAX_LOGICAL_VOLUMES, MAX_SEQUENCES,
    MAX_TIMESTAMPS, SEQUENCE_BIT_LEN, SEQUENCE_BIT_MASK, TIMESTAMP_BIT_LEN,
};
use snowprints::{compose_snowprint, decompose_snowprint};

#[test]
fn compose_gives_the_weighted_sum_of_the_fields() {
    assert_eq!(compose_snowprint(0, 0, 0), 0);
    assert_eq!(compose_snowprint(0, 0, 1), 1);
    assert_eq!(compose_snowprint(0, 1, 0), 1024);
    assert_eq!(compose_snowprint(1, 0, 0), 8388608);
    assert_eq!(compose_snowprint(1, 1, 1), 8389633);
    assert_eq!(compose_snowprint(987654321, 7890, 956), 8285044946455484);
    assert_eq!(compose_snowprint(1704096000000, 7890, 956), 14294993338376080316);
}

#[test]
fn compose_of_the_largest_fields_fills_all_64_bits() {
    assert_eq!(compose_snowprint(2199023255551, 8191, 1023), u64::MAX);
    assert_eq!(decompose_snowprint(u64::MAX), (2199023255551, 8191, 1023));
}

#[test]
fn decompose_reads_each_field_from_its_place() {
    assert_eq!(decompose_snowprint(0), (0, 0, 0));
    assert_eq!(decompose_snowprint(1023), (0, 0, 1023));
    assert_eq!(decompose_snowprint(1024), (0, 1, 0));
    assert_eq!(decompose_snowprint(8388607), (0, 8191, 1023));
    assert_eq!(decompose_snowprint(8388608), (1, 0, 0));
    assert_eq!(decompose_snowprint(8389633), (1, 1, 1));
    assert_eq!(decompose_snowprint(8285044946455484), (987654321, 7890, 956));
}

#[test]
fn round_trip_holds_at_the_edges_of_each_field() {
    let timestamps = [0, 1, 2, 4096, 1704096000000, MAX_TIMESTAMPS - 2, MAX_TIMESTAMPS - 1];
    let logical_ids = [0, 1, 2, 4095, 4096, MAX_LOGICAL_VOLUMES - 2, MAX_LOGICAL_VOLUMES - 1];
    let ticket_ids = [0, 1, 2, 511, 512, MAX_SEQUENCES - 2, MAX_SEQUENCES - 1];
    for t in timestamps {
        for l in logical_ids {
            for s in ticket_ids {
                let snowprint = compose_snowprint(t, l, s);
                assert_eq!(decompose_snowprint(snowprint), (t, l, s));
                assert_eq!(snowprint, t * 8388608 + l * 1024 + s);
            }
        }
    }
}

#[test]
fn every_number_is_the_identifier_of_its_own_fields() {
    let numbers = [0, 1, 1023, 1024, 8388607, 8388608, 0xdead_beef_cafe_f00d, u64::MAX - 1, u64::MAX];
    for n in numbers {
        let (t, l, s) = decompose_snowprint(n);
        assert!(t < MAX_TIMESTAMPS);
        assert!(l < MAX_LOGICAL_VOLUMES);
        assert!(s < MAX_SEQUENCES);
        assert_eq!(compose_snowprint(t, l, s), n);
    }
}

#[test]
fn fields_beyond_their_width_spill_onto_the_field_above() {
    // one sequence too many reads as the next logical volume
    assert_eq!(compose_snowprint(0, 0, 1024), 1024);
    assert_eq!(decompose_snowprint(compose_snowprint(0, 0, 1024)), (0, 1, 0));
    // one logical volume too many reads as the next millisecond
    assert_eq!(compose_snowprint(0, 8192, 0), 8388608);
    assert_eq!(decompose_snowprint(compose_snowprint(0, 8192, 0)), (1, 0, 0));
    // a timestamp beyond 41 bits loses its high bits
    assert_eq!(compose_snowprint(MAX_TIMESTAMPS, 0, 0), 0);
    assert_eq!(compose_snowprint(MAX_TIMESTAMPS + 5, 3, 7), compose_snowprint(5, 3, 7));
    assert_eq!(compose_snowprint(u64::MAX, u64::MAX, u64::MAX), u64::MAX);
}

#[test]
fn identifiers_sort_by_timestamp_first() {
    assert!(compose_snowprint(5, 8191, 1023) < compose_snowprint(6, 0, 0));
    assert!(compose_snowprint(0, 8191, 1023) < compose_snowprint(1, 0, 0));
    assert!(compose_snowprint(MAX_TIMESTAMPS - 2, 8191, 1023) < compose_snowprint(MAX_TIMESTAMPS - 1, 0, 0));
    // within one millisecond the logical volume decides, then the sequence
    assert!(compose_snowprint(5, 1, 1023) < compose_snowprint(5, 2, 0));
    assert!(compose_snowprint(5, 2, 0) < compose_snowprint(5, 2, 1));
}

#[test]
fn widths_masks_and_counts_agree() {
    assert_eq!(SEQUENCE_BIT_LEN + LOGICAL_VOLUME_BIT_LEN + TIMESTAMP_BIT_LEN, 64);
    assert_eq!(MAX_SEQUENCES, 1 << SEQUENCE_BIT_LEN);
    assert_eq!(MAX_LOGICAL_VOLUMES, 1 << LOGICAL_VOLUME_BIT_LEN);
    assert_eq!(MAX_TIMESTAMPS, 1 << TIMESTAMP_BIT_LEN);
    assert_eq!(SEQUENCE_BIT_MASK, MAX_SEQUENCES - 1);
    assert_eq!(LOGICAL_VOLUME_BIT_MASK, (MAX_LOGICAL_VOLUMES - 1) << SEQUENCE_BIT_LEN);
}
