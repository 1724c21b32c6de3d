//! Time distribution payloads: the spacecraft-elapsed-time frame carries
//! three bytes of fine time and four of coarse time, the UTC frame two
//! bytes of sub-milliseconds, four of milliseconds of day and two of day
//! count. All fields are packed most significant byte first, and unpacked
//! the same way, so distribution and reception are symmetric.

use vstd::prelude::*;

verus! {

/// SCET payload: fine time in three bytes, then coarse time in four, each
/// most significant byte first.
pub open spec fn scet_payload(coarse_time: u32, fine_time: u32) -> Seq<u8> {
    seq![
        (fine_time >> 16u32) as u8,
        (fine_time >> 8u32) as u8,
        fine_time as u8,
        (coarse_time >> 24u32) as u8,
        (coarse_time >> 16u32) as u8,
        (coarse_time >> 8u32) as u8,
        coarse_time as u8,
    ]
}

/// Fine time read back from an SCET payload.
pub open spec fn scet_fine_of(d: Seq<u8>) -> u32
    recommends
        d.len() >= 3,
{
    ((d[0] as u32) << 16u32) | ((d[1] as u32) << 8u32) | (d[2] as u32)
}

/// Coarse time read back from an SCET payload.
pub open spec fn scet_coarse_of(d: Seq<u8>) -> u32
    recommends
        d.len() >= 7,
{
    ((d[3] as u32) << 24u32) | ((d[4] as u32) << 16u32) | ((d[5] as u32) << 8u32) | (d[6] as u32)
}

/// UTC payload: sub-milliseconds in two bytes, milliseconds of day in four,
/// day count in two, each most significant byte first.
pub open spec fn utc_payload(day: u32, ms_of_day: u32, sub_ms: u32) -> Seq<u8> {
    seq![
        (sub_ms >> 8u32) as u8,
        sub_ms as u8,
        (ms_of_day >> 24u32) as u8,
        (ms_of_day >> 16u32) as u8,
        (ms_of_day >> 8u32) as u8,
        ms_of_day as u8,
        (day >> 8u32) as u8,
        day as u8,
    ]
}

/// Sub-milliseconds read back from a UTC payload.
pub open spec fn utc_sub_ms_of(d: Seq<u8>) -> u16
    recommends
        d.len() >= 2,
{
    ((d[0] as u16) << 8u16) | (d[1] as u16)
}

/// Milliseconds of day read back from a UTC payload.
pub open spec fn utc_ms_of_day_of(d: Seq<u8>) -> u32
    recommends
        d.len() >= 6,
{
    ((d[2] as u32) << 24u32) | ((d[3] as u32) << 16u32) | ((d[4] as u32) << 8u32) | (d[5] as u32)
}

/// Day count read back from a UTC payload.
pub open spec fn utc_day_of(d: Seq<u8>) -> u16
    recommends
        d.len() >= 8,
{
    ((d[6] as u16) << 8u16) | (d[7] as u16)
}

/// Unpacking a packed SCET payload recovers the coarse time exactly, and
/// the fine time exactly when it fits its three bytes.
pub proof fn lemma_scet_round_trip(coarse_time: u32, fine_time: u32)
    ensures
        scet_coarse_of(scet_payload(coarse_time, fine_time)) == coarse_time,
        fine_time < 0x1000000 ==> scet_fine_of(scet_payload(coarse_time, fine_time)) == fine_time,
{
    let d = scet_payload(coarse_time, fine_time);
    assert(d[0] == (fine_time >> 16u32) as u8 && d[1] == (fine_time >> 8u32) as u8 && d[2]
        == fine_time as u8 && d[3] == (coarse_time >> 24u32) as u8 && d[4] == (coarse_time
        >> 16u32) as u8 && d[5] == (coarse_time >> 8u32) as u8 && d[6] == coarse_time as u8);
    assert((((coarse_time >> 24u32) as u8 as u32) << 24u32) | (((coarse_time >> 16u32) as u8
        as u32) << 16u32) | (((coarse_time >> 8u32) as u8 as u32) << 8u32) | (coarse_time as u8
        as u32) == coarse_time) by (bit_vector);
    if fine_time < 0x1000000 {
        assert((((fine_time >> 16u32) as u8 as u32) << 16u32) | (((fine_time >> 8u32) as u8
            as u32) << 8u32) | (fine_time as u8 as u32) == fine_time) by (bit_vector)
            requires
                fine_time < 0x1000000u32,
        ;
    }
}

/// Unpacking a packed UTC payload recovers each field exactly when it fits
/// its bytes.
pub proof fn lemma_utc_round_trip(day: u32, ms_of_day: u32, sub_ms: u32)
    ensures
        utc_ms_of_day_of(utc_payload(day, ms_of_day, sub_ms)) == ms_of_day,
        day < 0x10000 ==> utc_day_of(utc_payload(day, ms_of_day, sub_ms)) == day,
        sub_ms < 0x10000 ==> utc_sub_ms_of(utc_payload(day, ms_of_day, sub_ms)) == sub_ms,
{
    let d = utc_payload(day, ms_of_day, sub_ms);
    assert(d[0] == (sub_ms >> 8u32) as u8 && d[1] == sub_ms as u8 && d[2] == (ms_of_day
        >> 24u32) as u8 && d[3] == (ms_of_day >> 16u32) as u8 && d[4] == (ms_of_day >> 8u32) as u8
        && d[5] == ms_of_day as u8 && d[6] == (day >> 8u32) as u8 && d[7] == day as u8);
    assert((((ms_of_day >> 24u32) as u8 as u32) << 24u32) | (((ms_of_day >> 16u32) as u8 as u32)
        << 16u32) | (((ms_of_day >> 8u32) as u8 as u32) << 8u32) | (ms_of_day as u8 as u32)
        == ms_of_day) by (bit_vector);
    if day < 0x10000 {
        assert(((((day >> 8u32) as u8) as u16) << 8u16) | ((day as u8) as u16) == day as u16)
            by (bit_vector);
        assert(day as u16 == day) by (bit_vector)
            requires
                day < 0x10000u32,
        ;
    }
    if sub_ms < 0x10000 {
        assert(((((sub_ms >> 8u32) as u8) as u16) << 8u16) | ((sub_ms as u8) as u16) == sub_ms
            as u16) by (bit_vector);
        assert(sub_ms as u16 == sub_ms) by (bit_vector)
            requires
                sub_ms < 0x10000u32,
        ;
    }
}

} // verus!
