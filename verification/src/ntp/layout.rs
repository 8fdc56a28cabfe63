//! The layout of the shared segment: 96 bytes, every number in little-endian
//! order.
//!
//! | bytes  | field                                  |
//! |--------|----------------------------------------|
//! | 0..4   | mode                                   |
//! | 4..8   | count                                  |
//! | 8..16  | clock time stamp, seconds              |
//! | 16..20 | clock time stamp, microseconds         |
//! | 20..24 | not used                               |
//! | 24..32 | receive time stamp, seconds            |
//! | 32..36 | receive time stamp, microseconds       |
//! | 36..40 | leap indicator                         |
//! | 40..44 | precision                              |
//! | 44..48 | number of samples                      |
//! | 48..52 | validity flag                          |
//! | 52..56 | clock time stamp, nanoseconds          |
//! | 56..60 | receive time stamp, nanoseconds        |
//! | 60..92 | eight words kept free                  |
//! | 92..96 | not used                               |

use crate::ntp::sync::NtpShmTime;
use crate::ntp::sync::NTP_SHM_SIZE;
use vstd::bytes::*;
use vstd::prelude::*;
use vstd::slice::slice_subrange;

verus! {

/// The signed number that the 32 bits of `x` stand for in two's complement.
pub open spec fn signed32(x: u32) -> i32 {
    if x < 0x8000_0000 {
        x as i32
    } else {
        (x - 0x1_0000_0000) as i32
    }
}

/// The 32 bits that stand for `v` in two's complement.
pub open spec fn unsigned32(v: i32) -> u32 {
    if v >= 0 {
        v as u32
    } else {
        (v + 0x1_0000_0000) as u32
    }
}

/// The signed number that the 64 bits of `x` stand for in two's complement.
pub open spec fn signed64(x: u64) -> i64 {
    if x < 0x8000_0000_0000_0000 {
        x as i64
    } else {
        (x - 0x1_0000_0000_0000_0000) as i64
    }
}

/// The 64 bits that stand for `v` in two's complement.
pub open spec fn unsigned64(v: i64) -> u64 {
    if v >= 0 {
        v as u64
    } else {
        (v + 0x1_0000_0000_0000_0000) as u64
    }
}

/// The number that the four bytes of `bytes` from `at` on write.
pub open spec fn word_at(bytes: Seq<u8>, at: int) -> u32 {
    spec_u32_from_le_bytes(bytes.subrange(at, at + 4))
}

/// The number that the eight bytes of `bytes` from `at` on write.
pub open spec fn long_at(bytes: Seq<u8>, at: int) -> u64 {
    spec_u64_from_le_bytes(bytes.subrange(at, at + 8))
}

/// Whether the bytes of `bytes` from `from` up to `to` are all zero.
pub open spec fn zero_between(bytes: Seq<u8>, from: int, to: int) -> bool {
    forall|i: int| from <= i < to ==> bytes[i] == 0
}

fn read_word(bytes: &[u8], at: usize) -> (r: u32)
    requires
        at + 4 <= bytes@.len() <= usize::MAX,
    ensures
        r == word_at(bytes@, at as int),
{
    u32_from_le_bytes(slice_subrange(bytes, at, at + 4))
}

fn read_signed(bytes: &[u8], at: usize) -> (r: i32)
    requires
        at + 4 <= bytes@.len() <= usize::MAX,
    ensures
        r == signed32(word_at(bytes@, at as int)),
{
    let x = read_word(bytes, at);
    if x < 0x8000_0000 {
        x as i32
    } else {
        (x as i64 - 0x1_0000_0000) as i32
    }
}

fn read_signed_long(bytes: &[u8], at: usize) -> (r: i64)
    requires
        at + 8 <= bytes@.len() <= usize::MAX,
    ensures
        r == signed64(long_at(bytes@, at as int)),
{
    let x = u64_from_le_bytes(slice_subrange(bytes, at, at + 8));
    if x < 0x8000_0000_0000_0000 {
        x as i64
    } else {
        (x as i128 - 0x1_0000_0000_0000_0000) as i64
    }
}

fn put_word(out: &mut Vec<u8>, x: u32)
    ensures
        final(out)@.len() == old(out)@.len() + 4,
        word_at(final(out)@, old(out)@.len() as int) == x,
        forall|i: int| 0 <= i < old(out)@.len() ==> final(out)@[i] == old(out)@[i],
{
    let mut piece = u32_to_le_bytes(x);
    let ghost written = piece@;
    out.append(&mut piece);
    proof {
        lemma_auto_spec_u32_to_from_le_bytes();
        assert(out@.subrange(old(out)@.len() as int, old(out)@.len() as int + 4) =~= written);
    }
}

fn put_signed(out: &mut Vec<u8>, v: i32)
    ensures
        final(out)@.len() == old(out)@.len() + 4,
        signed32(word_at(final(out)@, old(out)@.len() as int)) == v,
        forall|i: int| 0 <= i < old(out)@.len() ==> final(out)@[i] == old(out)@[i],
{
    let x: u32 = if v >= 0 {
        v as u32
    } else {
        (v as i64 + 0x1_0000_0000) as u32
    };
    put_word(out, x);
}

fn put_signed_long(out: &mut Vec<u8>, v: i64)
    ensures
        final(out)@.len() == old(out)@.len() + 8,
        signed64(long_at(final(out)@, old(out)@.len() as int)) == v,
        forall|i: int| 0 <= i < old(out)@.len() ==> final(out)@[i] == old(out)@[i],
{
    let x: u64 = if v >= 0 {
        v as u64
    } else {
        (v as i128 + 0x1_0000_0000_0000_0000) as u64
    };
    let mut piece = u64_to_le_bytes(x);
    let ghost written = piece@;
    out.append(&mut piece);
    proof {
        lemma_auto_spec_u64_to_from_le_bytes();
        assert(out@.subrange(old(out)@.len() as int, old(out)@.len() as int + 8) =~= written);
    }
}

/// What is written at `at` stays what it is when the bytes before `len`
/// stay and `at` lies before it.
proof fn lemma_word_stays(before: Seq<u8>, after: Seq<u8>, at: int)
    requires
        0 <= at,
        at + 4 <= before.len() <= after.len(),
        forall|i: int| 0 <= i < before.len() ==> after[i] == before[i],
    ensures
        word_at(after, at) == word_at(before, at),
{
    assert(after.subrange(at, at + 4) =~= before.subrange(at, at + 4));
}

proof fn lemma_long_stays(before: Seq<u8>, after: Seq<u8>, at: int)
    requires
        0 <= at,
        at + 8 <= before.len() <= after.len(),
        forall|i: int| 0 <= i < before.len() ==> after[i] == before[i],
    ensures
        long_at(after, at) == long_at(before, at),
{
    assert(after.subrange(at, at + 8) =~= before.subrange(at, at + 8));
}

impl NtpShmTime {
    /// The record is the one that the 96 bytes `bytes` write.
    pub open spec fn is_read_from(&self, bytes: Seq<u8>) -> bool {
        &&& bytes.len() == NTP_SHM_SIZE
        &&& self.mode == signed32(word_at(bytes, 0))
        &&& self.count == signed32(word_at(bytes, 4))
        &&& self.clock_time_sec == signed64(long_at(bytes, 8))
        &&& self.clock_time_usec == signed32(word_at(bytes, 16))
        &&& self.receive_time_sec == signed64(long_at(bytes, 24))
        &&& self.receive_time_usec == signed32(word_at(bytes, 32))
        &&& self.leap == signed32(word_at(bytes, 36))
        &&& self.precision == signed32(word_at(bytes, 40))
        &&& self.nsamples == signed32(word_at(bytes, 44))
        &&& self.valid == signed32(word_at(bytes, 48))
        &&& self.clock_time_stamp_nsec == word_at(bytes, 52)
        &&& self.receive_time_stamp_nsec == word_at(bytes, 56)
        &&& forall|i: int| 0 <= i < 8 ==> self.dummy[i] == signed32(word_at(bytes, 60 + 4 * i))
    }

    /// Reads the record out of the bytes of the segment.
    ///
    /// Gives `None` where there are not exactly 96 bytes, and on no other
    /// occasion.
    pub fn from_bytes(bytes: &[u8]) -> (r: Option<NtpShmTime>)
        ensures
            r is Some <==> bytes@.len() == NTP_SHM_SIZE,
            r matches Some(record) ==> record.is_read_from(bytes@),
    {
        if bytes.len() != NTP_SHM_SIZE {
            return None;
        }
        let mut dummy: [i32; 8] = [0;8];
        let mut i: usize = 0;
        while i < 8
            invariant
                i <= 8,
                bytes@.len() == NTP_SHM_SIZE,
                forall|j: int| 0 <= j < i ==> dummy[j] == signed32(word_at(bytes@, 60 + 4 * j)),
            decreases 8 - i,
        {
            dummy[i] = read_signed(bytes, 60 + 4 * i);
            i += 1;
        }
        Some(
            NtpShmTime {
                mode: read_signed(bytes, 0),
                count: read_signed(bytes, 4),
                clock_time_sec: read_signed_long(bytes, 8),
                clock_time_usec: read_signed(bytes, 16),
                receive_time_sec: read_signed_long(bytes, 24),
                receive_time_usec: read_signed(bytes, 32),
                leap: read_signed(bytes, 36),
                precision: read_signed(bytes, 40),
                nsamples: read_signed(bytes, 44),
                valid: read_signed(bytes, 48),
                clock_time_stamp_nsec: read_word(bytes, 52),
                receive_time_stamp_nsec: read_word(bytes, 56),
                dummy,
            },
        )
    }

    /// Writes the record as the bytes of the segment; the bytes that are not
    /// used are zero.
    pub fn to_bytes(&self) -> (r: Vec<u8>)
        ensures
            self.is_read_from(r@),
            zero_between(r@, 20, 24),
            zero_between(r@, 92, 96),
    {
        let mut out: Vec<u8> = Vec::new();
        put_signed(&mut out, self.mode);
        let ghost s_mode = out@;
        put_signed(&mut out, self.count);
        let ghost s_count = out@;
        put_signed_long(&mut out, self.clock_time_sec);
        let ghost s_clock_sec = out@;
        put_signed(&mut out, self.clock_time_usec);
        let ghost s_clock_usec = out@;
        out.push(0);
        out.push(0);
        out.push(0);
        out.push(0);
        put_signed_long(&mut out, self.receive_time_sec);
        let ghost s_receive_sec = out@;
        put_signed(&mut out, self.receive_time_usec);
        let ghost s_receive_usec = out@;
        put_signed(&mut out, self.leap);
        let ghost s_leap = out@;
        put_signed(&mut out, self.precision);
        let ghost s_precision = out@;
        put_signed(&mut out, self.nsamples);
        let ghost s_nsamples = out@;
        put_signed(&mut out, self.valid);
        let ghost s_valid = out@;
        put_word(&mut out, self.clock_time_stamp_nsec);
        let ghost s_clock_nsec = out@;
        put_word(&mut out, self.receive_time_stamp_nsec);
        let ghost s_fixed = out@;
        proof {
            lemma_word_stays(s_mode, s_fixed, 0);
            lemma_word_stays(s_count, s_fixed, 4);
            lemma_long_stays(s_clock_sec, s_fixed, 8);
            lemma_word_stays(s_clock_usec, s_fixed, 16);
            lemma_long_stays(s_receive_sec, s_fixed, 24);
            lemma_word_stays(s_receive_usec, s_fixed, 32);
            lemma_word_stays(s_leap, s_fixed, 36);
            lemma_word_stays(s_precision, s_fixed, 40);
            lemma_word_stays(s_nsamples, s_fixed, 44);
            lemma_word_stays(s_valid, s_fixed, 48);
            lemma_word_stays(s_clock_nsec, s_fixed, 52);
        }
        let mut i: usize = 0;
        while i < 8
            invariant
                i <= 8,
                s_fixed.len() == 60,
                out@.len() == 60 + 4 * i,
                forall|k: int| 0 <= k < 60 ==> out@[k] == s_fixed[k],
                zero_between(s_fixed, 20, 24),
                forall|j: int| 0 <= j < i ==> self.dummy[j] == signed32(word_at(out@, 60 + 4 * j)),
            decreases 8 - i,
        {
            let ghost before = out@;
            put_signed(&mut out, self.dummy[i]);
            proof {
                assert forall|j: int| 0 <= j < i implies self.dummy[j] == signed32(
                    word_at(out@, 60 + 4 * j),
                ) by {
                    lemma_word_stays(before, out@, 60 + 4 * j);
                }
            }
            i += 1;
        }
        let ghost s_words = out@;
        out.push(0);
        out.push(0);
        out.push(0);
        out.push(0);
        proof {
            assert forall|k: int| 20 <= k < 24 implies out@[k] == 0 by {
                assert(s_words[k] == s_fixed[k]);
            }
            lemma_word_stays(s_fixed, out@, 0);
            lemma_word_stays(s_fixed, out@, 4);
            lemma_long_stays(s_fixed, out@, 8);
            lemma_word_stays(s_fixed, out@, 16);
            lemma_long_stays(s_fixed, out@, 24);
            lemma_word_stays(s_fixed, out@, 32);
            lemma_word_stays(s_fixed, out@, 36);
            lemma_word_stays(s_fixed, out@, 40);
            lemma_word_stays(s_fixed, out@, 44);
            lemma_word_stays(s_fixed, out@, 48);
            lemma_word_stays(s_fixed, out@, 52);
            lemma_word_stays(s_fixed, out@, 56);
            assert forall|j: int| 0 <= j < 8 implies self.dummy[j] == signed32(
                word_at(out@, 60 + 4 * j),
            ) by {
                lemma_word_stays(s_words, out@, 60 + 4 * j);
            }
        }
        out
    }
}

/// The bytes settle the record: two records that the same bytes write are
/// one record. So a record that is written and read again is the record
/// that was written.
pub proof fn lemma_bytes_settle_record(a: NtpShmTime, b: NtpShmTime, bytes: Seq<u8>)
    requires
        a.is_read_from(bytes),
        b.is_read_from(bytes),
    ensures
        a == b,
{
    assert(a.dummy =~= b.dummy);
}

} // verus!
