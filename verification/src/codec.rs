//! Packing and unpacking of the three fields of an identifier.

use vstd::prelude::*;

verus! {

/// Width of the sequence field, the least significant one.
pub const SEQUENCE_BIT_LEN: u64 = 10;

/// Width of the logical volume field, which sits above the sequence.
pub const LOGICAL_VOLUME_BIT_LEN: u64 = 13;

/// Width of the timestamp field, which takes the remaining high bits.
pub const TIMESTAMP_BIT_LEN: u64 = 41;

/// Mask of the sequence field within an identifier.
pub const SEQUENCE_BIT_MASK: u64 = 0x3ff;

/// Mask of the logical volume field within an identifier.
pub const LOGICAL_VOLUME_BIT_MASK: u64 = 0x7f_fc00;

/// Number of sequence values: `2^10`.
pub const MAX_SEQUENCES: u64 = 1024;

/// Number of logical volumes: `2^13`.
pub const MAX_LOGICAL_VOLUMES: u64 = 8192;

/// Number of timestamps, in milliseconds: `2^41`.
pub const MAX_TIMESTAMPS: u64 = 0x200_0000_0000;

/// The three fields each fit their width, so that packing loses nothing.
pub open spec fn fields_fit(ms_timestamp: u64, logical_id: u64, ticket_id: u64) -> bool {
    &&& ms_timestamp < MAX_TIMESTAMPS
    &&& logical_id < MAX_LOGICAL_VOLUMES
    &&& ticket_id < MAX_SEQUENCES
}

/// The identifier made of three fields: each is shifted to its place within
/// 64 bits and the three are or-ed together. Bits of a field beyond its
/// width fall onto the field above, or off the top.
pub open spec fn packed(ms_timestamp: u64, logical_id: u64, ticket_id: u64) -> u64 {
    (ms_timestamp << 23) | (logical_id << 10) | ticket_id
}

/// The timestamp field of an identifier: its 41 high bits.
pub open spec fn timestamp_of(snowprint: u64) -> u64 {
    snowprint / 0x80_0000
}

/// The logical volume field of an identifier: the 13 bits in the middle.
pub open spec fn logical_id_of(snowprint: u64) -> u64 {
    (snowprint / 1024) % 8192
}

/// The sequence field of an identifier: its 10 low bits.
pub open spec fn ticket_id_of(snowprint: u64) -> u64 {
    snowprint % 1024
}

/// The three fields of an identifier, most significant first.
pub open spec fn unpacked(snowprint: u64) -> (u64, u64, u64) {
    (timestamp_of(snowprint), logical_id_of(snowprint), ticket_id_of(snowprint))
}

/// Packs a timestamp, a logical volume and a sequence into one identifier.
///
/// No range is checked. Fields that fit their widths are laid side by side,
/// and the identifier is then their weighted sum.
pub fn compose_snowprint(ms_timestamp: u64, logical_id: u64, ticket_id: u64) -> (snowprint: u64)
    ensures
        snowprint == packed(ms_timestamp, logical_id, ticket_id),
        fields_fit(ms_timestamp, logical_id, ticket_id) ==> snowprint == ms_timestamp * 0x80_0000
            + logical_id * 1024 + ticket_id,
        fields_fit(ms_timestamp, logical_id, ticket_id) ==> unpacked(snowprint) == (
            ms_timestamp,
            logical_id,
            ticket_id,
        ),
    no_unwind
{
    proof {
        if fields_fit(ms_timestamp, logical_id, ticket_id) {
            lemma_packed_is_sum(ms_timestamp, logical_id, ticket_id);
            lemma_unpack_packed(ms_timestamp, logical_id, ticket_id);
        }
    }
    ms_timestamp << (LOGICAL_VOLUME_BIT_LEN + SEQUENCE_BIT_LEN) | logical_id << SEQUENCE_BIT_LEN
        | ticket_id
}

/// Splits an identifier into its timestamp, logical volume and sequence.
pub fn decompose_snowprint(snowprint: u64) -> (fields: (u64, u64, u64))
    ensures
        fields == unpacked(snowprint),
        fields_fit(fields.0, fields.1, fields.2),
        packed(fields.0, fields.1, fields.2) == snowprint,
{
    let time = snowprint >> (LOGICAL_VOLUME_BIT_LEN + SEQUENCE_BIT_LEN);
    let logical_id = (snowprint & LOGICAL_VOLUME_BIT_MASK) >> SEQUENCE_BIT_LEN;
    let ticket_id = snowprint & SEQUENCE_BIT_MASK;
    proof {
        assert(snowprint >> 23 == snowprint / 0x80_0000) by (bit_vector);
        assert((snowprint & 0x7f_fc00) >> 10 == (snowprint / 1024) % 8192) by (bit_vector);
        assert(snowprint & 0x3ff == snowprint % 1024) by (bit_vector);
        lemma_pack_unpacked(snowprint);
    }
    (time, logical_id, ticket_id)
}

/// Fields that fit their widths do not overlap once shifted: the packed
/// identifier is `timestamp * 2^23 + logical_id * 2^10 + sequence`.
pub proof fn lemma_packed_is_sum(ms_timestamp: u64, logical_id: u64, ticket_id: u64)
    requires
        fields_fit(ms_timestamp, logical_id, ticket_id),
    ensures
        packed(ms_timestamp, logical_id, ticket_id) == ms_timestamp * 0x80_0000 + logical_id * 1024
            + ticket_id,
{
    assert(ms_timestamp < 0x200_0000_0000 && logical_id < 8192 && ticket_id < 1024 ==> (ms_timestamp
        << 23) | (logical_id << 10) | ticket_id == ms_timestamp * 0x80_0000 + logical_id * 1024
        + ticket_id) by (bit_vector);
}

/// Round trip: unpacking what was packed from fields that fit their widths
/// gives those fields back.
pub proof fn lemma_unpack_packed(ms_timestamp: u64, logical_id: u64, ticket_id: u64)
    requires
        fields_fit(ms_timestamp, logical_id, ticket_id),
    ensures
        unpacked(packed(ms_timestamp, logical_id, ticket_id)) == (
            ms_timestamp,
            logical_id,
            ticket_id,
        ),
{
    let t = ms_timestamp;
    let l = logical_id;
    let s = ticket_id;
    assert(t < 0x200_0000_0000 && l < 8192 && s < 1024 ==> ((t << 23) | (l << 10) | s) / 0x80_0000
        == t) by (bit_vector);
    assert(t < 0x200_0000_0000 && l < 8192 && s < 1024 ==> (((t << 23) | (l << 10) | s) / 1024)
        % 8192 == l) by (bit_vector);
    assert(t < 0x200_0000_0000 && l < 8192 && s < 1024 ==> ((t << 23) | (l << 10) | s) % 1024 == s)
        by (bit_vector);
}

/// The other way round: every 64-bit value is the identifier of its own
/// three fields, and those fields fit their widths.
pub proof fn lemma_pack_unpacked(snowprint: u64)
    ensures
        fields_fit(timestamp_of(snowprint), logical_id_of(snowprint), ticket_id_of(snowprint)),
        packed(timestamp_of(snowprint), logical_id_of(snowprint), ticket_id_of(snowprint))
            == snowprint,
{
    assert(snowprint / 0x80_0000 < 0x200_0000_0000) by (bit_vector);
    assert((snowprint / 1024) % 8192 < 8192) by (bit_vector);
    assert(snowprint % 1024 < 1024) by (bit_vector);
    assert(((snowprint / 0x80_0000) as u64) << 23 | (((snowprint / 1024) % 8192) as u64) << 10
        | (snowprint % 1024) as u64 == snowprint) by (bit_vector);
}

/// Identifiers sort by time: of two identifiers made of fields that fit, the
/// one with the smaller timestamp is the smaller number, whatever the other
/// fields hold.
pub proof fn lemma_sorted_by_timestamp(
    ms_timestamp_a: u64,
    logical_id_a: u64,
    ticket_id_a: u64,
    ms_timestamp_b: u64,
    logical_id_b: u64,
    ticket_id_b: u64,
)
    requires
        fields_fit(ms_timestamp_a, logical_id_a, ticket_id_a),
        fields_fit(ms_timestamp_b, logical_id_b, ticket_id_b),
        ms_timestamp_a < ms_timestamp_b,
    ensures
        packed(ms_timestamp_a, logical_id_a, ticket_id_a) < packed(
            ms_timestamp_b,
            logical_id_b,
            ticket_id_b,
        ),
{
    lemma_packed_is_sum(ms_timestamp_a, logical_id_a, ticket_id_a);
    lemma_packed_is_sum(ms_timestamp_b, logical_id_b, ticket_id_b);
}

} // verus!
