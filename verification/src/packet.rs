//! Packet segmentation and reassembly: an arbitrary-length payload is split
//! into ordered chunks, each prefixed with a two-byte header holding the
//! total segment count minus one and the chunk's zero-based index; a
//! per-source buffer accumulates segments until every index is present and
//! then yields the payload back, independent of arrival order.

use vstd::prelude::*;
use vstd::slice::{slice_subrange, slice_to_vec};
use crate::frame::CanFrame;

verus! {

/// Payload bytes carried by one segment frame: eight minus the two header
/// bytes.
pub const MAX_DATA_LENGTH: usize = 6;

/// Errors of the segmentation layer.
#[derive(Debug, Clone, Copy, PartialEq, Eq, Structural)]
pub enum SegmentError {
    /// A segment header whose index exceeds the declared last index.
    MalformedSegment,
}

/// An application-level data packet.
#[derive(Debug)]
pub struct Packet {
    /// Payload bytes of the packet.
    pub data: Vec<u8>,
}

impl View for Packet {
    type V = Seq<u8>;

    open spec fn view(&self) -> Seq<u8> {
        self.data@
    }
}

impl Clone for Packet {
    fn clone(&self) -> (r: Self)
        ensures
            r@ == self@,
    {
        Packet { data: slice_to_vec(self.data.as_slice()) }
    }
}

/// Number of chunks a payload of `len` bytes yields at chunk size `c`:
/// the ceiling of `len / c`, and at least one even for an empty payload.
pub open spec fn num_chunks(len: int, c: int) -> int
    recommends
        len >= 0,
        c >= 1,
{
    if len <= 0 {
        1
    } else {
        (len - 1) / c + 1
    }
}

/// Payload bytes of chunk `i`: the `i`-th window of at most `c` bytes.
pub open spec fn chunk_data(data: Seq<u8>, c: int, i: int) -> Seq<u8>
    recommends
        c >= 1,
        0 <= i < num_chunks(data.len() as int, c),
{
    data.subrange(
        i * c,
        if (i + 1) * c <= data.len() {
            (i + 1) * c
        } else {
            data.len() as int
        },
    )
}

/// Full wire content of chunk `i`: header (count minus one, index) then the
/// chunk's payload bytes.
pub open spec fn chunk_frame(data: Seq<u8>, c: int, i: int) -> Seq<u8>
    recommends
        c >= 1,
        num_chunks(data.len() as int, c) <= 256,
        0 <= i < num_chunks(data.len() as int, c),
{
    seq![(num_chunks(data.len() as int, c) - 1) as u8, i as u8] + chunk_data(data, c, i)
}

/// The reassembly buffer a full split produces: each chunk index mapped to
/// that chunk's payload bytes.
pub open spec fn split_map(data: Seq<u8>, c: int) -> Map<u8, Seq<u8>> {
    Map::new(
        |i: u8| (i as int) < num_chunks(data.len() as int, c),
        |i: u8| chunk_data(data, c, i as int),
    )
}

/// A buffer holds every index of a packet whose last index is `total`.
pub open spec fn complete(m: Map<u8, Seq<u8>>, total: u8) -> bool {
    forall|j: u8| j <= total ==> m.contains_key(j)
}

/// Concatenation of the segments at indices `0 .. upto`, in index order.
pub open spec fn assemble(m: Map<u8, Seq<u8>>, upto: int) -> Seq<u8>
    decreases upto,
{
    if upto <= 0 {
        Seq::empty()
    } else {
        assemble(m, upto - 1) + m[(upto - 1) as u8]
    }
}

/// The reassembly state a segment leaves for its key: the remainder stored
/// at its index, on top of whatever the key had accumulated before.
pub open spec fn buffer_after(
    pre: Map<u32, Map<u8, Seq<u8>>>,
    key: u32,
    index: u8,
    remainder: Seq<u8>,
) -> Map<u8, Seq<u8>> {
    (if pre.contains_key(key) {
        pre[key]
    } else {
        Map::empty()
    }).insert(index, remainder)
}

/// Result of a reassembly step, at the level of byte strings.
pub open spec fn packet_result_view(r: Result<Option<Packet>, SegmentError>) -> Result<
    Option<Seq<u8>>,
    SegmentError,
> {
    match r {
        Ok(Some(p)) => Ok(Some(p@)),
        Ok(None) => Ok(None),
        Err(e) => Err(e),
    }
}

/// How one segment `(key, total, index, remainder)` transforms the
/// reassembly state `pre` into `post` and yields `r`: a malformed header
/// (index beyond the declared last index) is rejected and changes nothing;
/// otherwise the remainder is stored, and the moment every index up to
/// `total` is present the key's buffer is removed and the concatenation in
/// index order is returned; anything short of that is "incomplete".
pub open spec fn segment_step(
    pre: Map<u32, Map<u8, Seq<u8>>>,
    post: Map<u32, Map<u8, Seq<u8>>>,
    key: u32,
    total: u8,
    index: u8,
    remainder: Seq<u8>,
    r: Result<Option<Seq<u8>>, SegmentError>,
) -> bool {
    let m1 = buffer_after(pre, key, index, remainder);
    if index > total {
        r == Err::<Option<Seq<u8>>, SegmentError>(SegmentError::MalformedSegment) && post == pre
    } else if complete(m1, total) {
        match r {
            Ok(Some(p)) => p == assemble(m1, total as int + 1) && post == pre.remove(key),
            _ => false,
        }
    } else {
        r == Ok::<Option<Seq<u8>>, SegmentError>(None) && post == pre.insert(key, m1)
    }
}

/// How one segment frame transforms the reassembly state: its identifier is
/// the key, its first two payload bytes the header, the rest the remainder;
/// a frame too short to hold a header is rejected and changes nothing.
pub open spec fn frame_step(
    pre: Map<u32, Map<u8, Seq<u8>>>,
    post: Map<u32, Map<u8, Seq<u8>>>,
    f: crate::frame::FrameView,
    r: Result<Option<Seq<u8>>, SegmentError>,
) -> bool {
    if f.data.len() < 2 {
        r == Err::<Option<Seq<u8>>, SegmentError>(SegmentError::MalformedSegment) && post == pre
    } else {
        segment_step(pre, post, f.id, f.data[0], f.data[1], f.data.subrange(2, f.data.len() as int), r)
    }
}

impl Packet {
    /// Wraps payload bytes into a packet; a missing payload means empty.
    pub fn new(data: Option<Vec<u8>>) -> (r: Self)
        ensures
            r@ == match data {
                Some(v) => v@,
                None => Seq::<u8>::empty(),
            },
    {
        let data = match data {
            Some(v) => v,
            None => Vec::new(),
        };
        Packet { data }
    }

    /// Splits the payload into chunks of at most `max_len` bytes, each
    /// prefixed with the (count minus one, index) header. The header bytes
    /// bound the payload to 256 chunks.
    pub fn split_with(&self, max_len: usize) -> (r: Vec<Vec<u8>>)
        requires
            max_len >= 1,
            num_chunks(self@.len() as int, max_len as int) <= 256,
        ensures
            r@.len() == num_chunks(self@.len() as int, max_len as int),
            forall|i: int|
                0 <= i < r@.len() ==> #[trigger] r@[i]@ == chunk_frame(
                    self@,
                    max_len as int,
                    i,
                ),
    {
        let len = self.data.len();
        let total: usize = if len == 0 {
            1
        } else {
            (len - 1) / max_len + 1
        };
        let ghost c = max_len as int;
        let mut frames: Vec<Vec<u8>> = Vec::new();
        let mut i: usize = 0;
        let mut start: usize = 0;
        while i < total
            invariant
                1 <= max_len,
                len == self@.len(),
                total == num_chunks(len as int, c),
                total <= 256,
                c == max_len as int,
                0 <= i <= total,
                i < total ==> start as int == i * c,
                frames@.len() == i,
                forall|k: int| 0 <= k < i ==> #[trigger] frames@[k]@ == chunk_frame(self@, c, k),
            decreases total - i,
        {
            proof {
                lemma_chunk_start(len as int, c, i as int);
                assert((i + 1) * c == i * c + c) by (nonlinear_arith);
            }
            let take = if len - start > max_len {
                max_len
            } else {
                len - start
            };
            let mut frame: Vec<u8> = Vec::new();
            frame.push((total - 1) as u8);
            frame.push(i as u8);
            let mut tail = slice_to_vec(slice_subrange(self.data.as_slice(), start, start + take));
            frame.append(&mut tail);
            assert(frame@ =~= chunk_frame(self@, c, i as int));
            frames.push(frame);
            i = i + 1;
            proof {
                // When another chunk follows, this one was full: a partial
                // chunk would have to be the last, since the next chunk
                // would otherwise start past the payload's end.
                if i < total {
                    lemma_chunk_start(len as int, c, i as int);
                    if len - start <= max_len {
                        assert(false);
                    }
                }
            }
            start = if take == max_len {
                start + take
            } else {
                len
            };
        }
        frames
    }

    /// Splits the payload into chunks of at most six bytes, so that each
    /// chunk with its header fits an eight-byte CAN frame payload.
    pub fn split(&self) -> (r: Vec<Vec<u8>>)
        requires
            num_chunks(self@.len() as int, MAX_DATA_LENGTH as int) <= 256,
        ensures
            r@.len() == num_chunks(self@.len() as int, MAX_DATA_LENGTH as int),
            forall|i: int|
                0 <= i < r@.len() ==> #[trigger] r@[i]@ == chunk_frame(
                    self@,
                    MAX_DATA_LENGTH as int,
                    i,
                ),
    {
        self.split_with(MAX_DATA_LENGTH)
    }
}

/// Chunk `i` of a split starts no later than the payload's end.
proof fn lemma_chunk_start(len: int, c: int, i: int)
    requires
        len >= 0,
        c >= 1,
        0 <= i < num_chunks(len, c),
    ensures
        0 <= i * c,
        len >= 1 ==> i * c <= len - 1,
        len == 0 ==> i * c == 0,
{
    vstd::arithmetic::mul::lemma_mul_nonnegative(i, c);
    if len >= 1 {
        let d = (len - 1) / c;
        vstd::arithmetic::div_mod::lemma_fundamental_div_mod(len - 1, c);
        vstd::arithmetic::mul::lemma_mul_inequality(i, d, c);
        vstd::arithmetic::div_mod::lemma_mod_bound(len - 1, c);
        assert(d * c == c * d) by (nonlinear_arith);
        assert(i * c <= d * c);
        assert(d * c <= len - 1);
    } else {
        assert(i == 0);
        assert(i * c == 0) by (nonlinear_arith)
            requires
                i == 0,
        ;
    }
}

/// Reassembly state, keyed by source identifier: maps each key to the
/// segments (index to payload bytes) received so far for that key.
pub struct PacketAssembler {
    buffer: Vec<(u32, Vec<Option<Vec<u8>>>)>,
}

/// Segment map held by one key's slot vector: each index whose slot is
/// filled, mapped to the bytes stored there.
pub open spec fn slots_map(s: Seq<Option<Vec<u8>>>) -> Map<u8, Seq<u8>>
    recommends
        s.len() == 256,
{
    Map::new(|k: u8| s[k as int] is Some, |k: u8| s[k as int].unwrap()@)
}

/// Reassembly map held by an association list of keyed slot vectors.
pub open spec fn buf_map(s: Seq<(u32, Vec<Option<Vec<u8>>>)>) -> Map<u32, Map<u8, Seq<u8>>>
    decreases s.len(),
{
    if s.len() == 0 {
        Map::empty()
    } else {
        buf_map(s.drop_last()).insert(s.last().0, slots_map(s.last().1@))
    }
}

/// Some entry of the association list carries this key.
pub open spec fn has_key(s: Seq<(u32, Vec<Option<Vec<u8>>>)>, key: u32) -> bool {
    exists|i: int| 0 <= i < s.len() && (#[trigger] s[i]).0 == key
}

/// No two entries of the association list share a key.
pub open spec fn unique_keys(s: Seq<(u32, Vec<Option<Vec<u8>>>)>) -> bool {
    forall|i: int, j: int| 0 <= i < j < s.len() ==> (#[trigger] s[i]).0 != (#[trigger] s[j]).0
}

/// The association list's map has exactly the listed keys.
proof fn lemma_buf_map_dom(s: Seq<(u32, Vec<Option<Vec<u8>>>)>)
    ensures
        forall|k: u32| #[trigger] buf_map(s).contains_key(k) <==> has_key(s, k),
    decreases s.len(),
{
    if s.len() > 0 {
        lemma_buf_map_dom(s.drop_last());
        assert forall|k: u32| #[trigger] buf_map(s).contains_key(k) implies has_key(s, k) by {
            if k == s.last().0 {
                assert((s[s.len() - 1]).0 == k);
            } else {
                assert(buf_map(s.drop_last()).contains_key(k));
                assert(has_key(s.drop_last(), k));
                let i = choose|i: int|
                    0 <= i < s.drop_last().len() && (#[trigger] s.drop_last()[i]).0 == k;
                assert(s.drop_last()[i] == s[i]);
                assert((s[i]).0 == k);
            }
        }
        assert forall|k: u32| has_key(s, k) implies #[trigger] buf_map(s).contains_key(k) by {
            let i = choose|i: int| 0 <= i < s.len() && (#[trigger] s[i]).0 == k;
            if i < s.len() - 1 {
                assert(s.drop_last()[i] == s[i]);
                assert(has_key(s.drop_last(), k));
                assert(buf_map(s.drop_last()).contains_key(k));
            }
        }
    }
}

/// Removing an entry keeps keys unique, takes out exactly that entry's key,
/// and shifts the remaining entries in place.
proof fn lemma_remove_entry(s: Seq<(u32, Vec<Option<Vec<u8>>>)>, i: int)
    requires
        unique_keys(s),
        0 <= i < s.len(),
    ensures
        unique_keys(s.remove(i)),
        !has_key(s.remove(i), s[i].0),
        forall|x: int|
            0 <= x < s.remove(i).len() ==> #[trigger] s.remove(i)[x] == (if x < i {
                s[x]
            } else {
                s[x + 1]
            }),
{
    s.remove_ensures(i);
    let t = s.remove(i);
    assert forall|x: int| 0 <= x < t.len() implies #[trigger] t[x] == (if x < i {
        s[x]
    } else {
        s[x + 1]
    }) by {}
    assert forall|a: int, b: int| 0 <= a < b < t.len() implies (#[trigger] t[a]).0
        != (#[trigger] t[b]).0 by {
        let sa = if a < i {
            a
        } else {
            a + 1
        };
        let sb = if b < i {
            b
        } else {
            b + 1
        };
        assert(t[a] == s[sa] && t[b] == s[sb] && sa < sb);
    }
    if has_key(t, s[i].0) {
        let x = choose|x: int| 0 <= x < t.len() && (#[trigger] t[x]).0 == s[i].0;
        let sx = if x < i {
            x
        } else {
            x + 1
        };
        assert(s[sx].0 == s[i].0 && sx != i);
        assert(false);
    }
}

/// With unique keys, the map sends each listed key to its entry's segments.
proof fn lemma_buf_map_at(s: Seq<(u32, Vec<Option<Vec<u8>>>)>, i: int)
    requires
        unique_keys(s),
        0 <= i < s.len(),
    ensures
        buf_map(s).contains_key(s[i].0),
        buf_map(s)[s[i].0] == slots_map(s[i].1@),
    decreases s.len(),
{
    lemma_buf_map_dom(s);
    if i == s.len() - 1 {
    } else {
        assert(unique_keys(s.drop_last()));
        lemma_buf_map_at(s.drop_last(), i);
        assert(s.drop_last()[i] == s[i]);
        assert(s[i].0 != s.last().0);
    }
}

/// With unique keys, removing an entry removes exactly its key's segments.
proof fn lemma_buf_map_remove(s: Seq<(u32, Vec<Option<Vec<u8>>>)>, i: int)
    requires
        unique_keys(s),
        0 <= i < s.len(),
    ensures
        buf_map(s.remove(i)) == buf_map(s).remove(s[i].0),
    decreases s.len(),
{
    lemma_buf_map_dom(s);
    lemma_buf_map_dom(s.drop_last());
    if i == s.len() - 1 {
        assert(s.remove(i) =~= s.drop_last());
        assert(!has_key(s.drop_last(), s[i].0));
        assert(buf_map(s.drop_last()) =~= buf_map(s).remove(s[i].0));
    } else {
        assert(unique_keys(s.drop_last()));
        lemma_buf_map_remove(s.drop_last(), i);
        assert(s.remove(i).drop_last() =~= s.drop_last().remove(i));
        assert(s.remove(i).last() == s.last());
        assert(s.remove(i).len() == s.len() - 1 > 0);
        assert(buf_map(s.remove(i)) == buf_map(s.drop_last().remove(i)).insert(
            s.last().0,
            slots_map(s.last().1@),
        ));
        assert(s.drop_last()[i] == s[i]);
        assert(s[i].0 != s.last().0);
        assert(buf_map(s.drop_last()).remove(s[i].0).insert(s.last().0, slots_map(s.last().1@))
            =~= buf_map(s.drop_last()).insert(s.last().0, slots_map(s.last().1@)).remove(s[i].0));
    }
}

impl View for PacketAssembler {
    type V = Map<u32, Map<u8, Seq<u8>>>;

    closed spec fn view(&self) -> Map<u32, Map<u8, Seq<u8>>> {
        buf_map(self.buffer@)
    }
}

impl PacketAssembler {
    /// Internal representation: keys listed once, each slot vector sized for
    /// every possible index byte. Established by the constructor and
    /// preserved by every method.
    pub closed spec fn wf(self) -> bool {
        unique_keys(self.buffer@) && (forall|i: int|
            0 <= i < self.buffer@.len() ==> (#[trigger] self.buffer@[i]).1@.len() == 256)
    }

    /// An assembler with no partial packets.
    pub fn new() -> (r: Self)
        ensures
            r.wf(),
            r@ == Map::<u32, Map<u8, Seq<u8>>>::empty(),
    {
        PacketAssembler { buffer: Vec::new() }
    }

    /// Position of a key's entry, if the key has one.
    fn find_key(&self, key: u32) -> (r: Option<usize>)
        ensures
            match r {
                Some(i) => i < self.buffer@.len() && self.buffer@[i as int].0 == key,
                None => !has_key(self.buffer@, key),
            },
    {
        let mut i: usize = 0;
        while i < self.buffer.len()
            invariant
                0 <= i <= self.buffer@.len(),
                forall|j: int| 0 <= j < i ==> (#[trigger] self.buffer@[j]).0 != key,
            decreases self.buffer@.len() - i,
        {
            if self.buffer[i].0 == key {
                return Some(i);
            }
            i = i + 1;
        }
        None
    }

    /// Stores one segment for `key`. A header whose index exceeds the
    /// declared last index `total` is rejected and the buffer is untouched.
    /// Otherwise the remainder is stored at its index (overwriting any
    /// earlier bytes there); once indices `0 ..= total` are all present the
    /// key's buffer is removed and the payload is returned, concatenated in
    /// index order. An incomplete set of segments yields no packet.
    pub fn process_segment(
        &mut self,
        key: u32,
        total: u8,
        index: u8,
        remainder: Vec<u8>,
    ) -> (r: Result<Option<Packet>, SegmentError>)
        requires
            old(self).wf(),
        ensures
            final(self).wf(),
            segment_step(old(self)@, final(self)@, key, total, index, remainder@, packet_result_view(r)),
    {
        if index > total {
            return Err(SegmentError::MalformedSegment);
        }
        let ghost pre = self@;
        let ghost pre_list = self.buffer@;

        // Take the key's slot vector out of the list, or start a fresh one.
        let mut slots: Vec<Option<Vec<u8>>> = match self.find_key(key) {
            Some(pos) => {
                proof {
                    lemma_buf_map_at(pre_list, pos as int);
                    lemma_buf_map_remove(pre_list, pos as int);
                    lemma_remove_entry(pre_list, pos as int);
                }
                let entry = self.buffer.remove(pos);
                proof {
                    assert(entry == pre_list[pos as int]);
                    assert(entry.1@.len() == 256);
                    assert(pre.contains_key(key) && pre[key] == slots_map(entry.1@));
                    assert forall|x: int|
                        0 <= x < self.buffer@.len() implies (#[trigger] self.buffer@[x]).1@.len()
                        == 256 by {
                        assert(self.buffer@[x] == (if x < pos as int {
                            pre_list[x]
                        } else {
                            pre_list[x + 1]
                        }));
                    }
                }
                entry.1
            },
            None => {
                proof {
                    lemma_buf_map_dom(pre_list);
                    assert(!pre.contains_key(key));
                    assert(buf_map(self.buffer@) =~= pre.remove(key));
                }
                let mut fresh: Vec<Option<Vec<u8>>> = Vec::new();
                let mut n: usize = 0;
                while n < 256
                    invariant
                        fresh@.len() == n,
                        n <= 256,
                        forall|j: int| 0 <= j < n ==> (#[trigger] fresh@[j]) is None,
                    decreases 256 - n,
                {
                    fresh.push(None);
                    n = n + 1;
                }
                proof {
                    assert(slots_map(fresh@) =~= Map::<u8, Seq<u8>>::empty());
                }
                fresh
            },
        };
        let ghost prior = slots_map(slots@);
        proof {
            // In either case the list now lacks `key`, keys stay unique, the
            // overall map is `pre` without the key, and `prior` is what the
            // key had accumulated.
            assert(!has_key(self.buffer@, key));
            assert(unique_keys(self.buffer@));
            assert(buf_map(self.buffer@) == pre.remove(key));
            assert(prior == (if pre.contains_key(key) {
                pre[key]
            } else {
                Map::<u8, Seq<u8>>::empty()
            }));
        }

        // Store the remainder at its index.
        slots[index as usize] = Some(remainder);
        let ghost m1 = slots_map(slots@);
        proof {
            assert(m1 =~= prior.insert(index, remainder@));
            assert(m1 == buffer_after(pre, key, index, remainder@));
        }

        // Scan for the first missing index at or below `total`.
        let last = total as usize;
        let mut j: usize = 0;
        let mut all_present = true;
        while j <= last
            invariant
                slots@.len() == 256,
                last <= 255,
                0 <= j <= last + 1,
                m1 == slots_map(slots@),
                all_present <==> (forall|jj: u8| jj < j ==> m1.contains_key(jj)),
            decreases last + 1 - j,
        {
            let ghost was_all = all_present;
            if slots[j].is_none() {
                proof {
                    assert(!m1.contains_key(j as u8));
                }
                all_present = false;
            }
            proof {
                if all_present {
                    assert(m1.contains_key(j as u8));
                    assert forall|jj: u8| jj < j + 1 implies m1.contains_key(jj) by {
                        if jj < j {
                        } else {
                            assert(jj == j as u8);
                        }
                    }
                } else {
                    if was_all {
                        assert(!m1.contains_key(j as u8));
                        assert((j as u8) < j + 1);
                    } else {
                        let jj = choose|jj: u8| !(jj < j ==> m1.contains_key(jj));
                        assert(!(jj < j + 1 ==> m1.contains_key(jj)));
                    }
                }
            }
            j = j + 1;
        }
        proof {
            if all_present {
                assert forall|jj: u8| jj <= total implies m1.contains_key(jj) by {
                    assert(jj < j);
                }
            } else {
                let jj = choose|jj: u8| !(jj < j ==> m1.contains_key(jj));
                assert(jj <= total && !m1.contains_key(jj));
                assert(!complete(m1, total));
            }
        }

        if !all_present {
            // Incomplete: keep the accumulated segments for the key.
            let ghost list_before_push = self.buffer@;
            self.buffer.push((key, slots));
            proof {
                assert(self.buffer@.drop_last() =~= list_before_push);
                assert(self.buffer@.last() == (key, slots));
                assert(buf_map(self.buffer@) == buf_map(list_before_push).insert(key, m1));
                assert(buf_map(self.buffer@) =~= pre.insert(key, m1));
                assert(unique_keys(self.buffer@)) by {
                    assert forall|a: int, b: int|
                        0 <= a < b < self.buffer@.len() implies (#[trigger] self.buffer@[a]).0
                        != (#[trigger] self.buffer@[b]).0 by {
                        if b == self.buffer@.len() - 1 {
                            assert(self.buffer@[a] == list_before_push[a]);
                            if self.buffer@[a].0 == key {
                                assert(has_key(list_before_push, key));
                            }
                        } else {
                            assert(self.buffer@[a] == list_before_push[a]);
                            assert(self.buffer@[b] == list_before_push[b]);
                        }
                    }
                }
                assert forall|x: int|
                    0 <= x < self.buffer@.len() implies (#[trigger] self.buffer@[x]).1@.len()
                    == 256 by {
                    if x < self.buffer@.len() - 1 {
                        assert(self.buffer@[x] == list_before_push[x]);
                    } else {
                        assert(self.buffer@[x] == (key, slots));
                    }
                }
            }
            return Ok(None);
        }

        // Complete: concatenate in index order; the key's buffer stays
        // removed from the list.
        let mut out: Vec<u8> = Vec::new();
        let mut j: usize = 0;
        while j <= last
            invariant
                slots@.len() == 256,
                last <= 255,
                total == last as u8,
                0 <= j <= last + 1,
                m1 == slots_map(slots@),
                complete(m1, total),
                out@ == assemble(m1, j as int),
            decreases last + 1 - j,
        {
            match &slots[j] {
                Some(part) => {
                    proof {
                        assert(m1.contains_key(j as u8));
                        assert(m1[j as u8] == part@);
                        assert(assemble(m1, j as int + 1) == assemble(m1, j as int)
                            + m1[((j as int) as u8)]);
                    }
                    let mut tail = slice_to_vec(part.as_slice());
                    out.append(&mut tail);
                },
                None => {
                    proof {
                        assert(j as u8 <= total);
                        assert(m1.contains_key(j as u8));
                        assert(false);
                    }
                    vstd::pervasive::unreached()
                },
            }
            j = j + 1;
        }
        proof {
            assert(out@ == assemble(m1, total as int + 1));
        }
        Ok(Some(Packet { data: out }))
    }

    /// Reads a segment frame: the source identifier keys the buffer, the
    /// first two payload bytes are the header, the rest is the remainder.
    /// A frame with fewer than two payload bytes has no header and is
    /// rejected as malformed, leaving the buffer untouched.
    pub fn process_frame(&mut self, can_frame: CanFrame) -> (r: Result<Option<Packet>, SegmentError>)
        requires
            old(self).wf(),
        ensures
            final(self).wf(),
            frame_step(old(self)@, final(self)@, can_frame@, packet_result_view(r)),
    {
        if can_frame.len() < 2 {
            return Err(SegmentError::MalformedSegment);
        }
        let key = can_frame.can_id();
        let data = can_frame.data();
        let total = data[0];
        let index = data[1];
        let rest = slice_to_vec(slice_subrange(data.as_slice(), 2, data.len()));
        self.process_segment(key, total, index, rest)
    }
}

/// What feeding one frame to a node's reassembler produced.
#[derive(Debug)]
pub enum AssemblyStatus {
    /// The node runs no packet service; the frame was not fed to one.
    NotRun,
    /// The segment was stored; the packet is not yet complete.
    Incomplete,
    /// The segment header was malformed; the buffer is untouched.
    Malformed,
    /// The packet completed with this payload.
    Complete(Packet),
}

/// The assembly outcome reported for a frame agrees with the reassembler's
/// state transition: absent service means no run, otherwise the status is
/// the reassembly step's own result.
pub open spec fn assembly_matches(
    pre: Option<Map<u32, Map<u8, Seq<u8>>>>,
    post: Option<Map<u32, Map<u8, Seq<u8>>>>,
    f: crate::frame::FrameView,
    a: AssemblyStatus,
) -> bool {
    match pre {
        None => post is None && a is NotRun,
        Some(m0) => match post {
            Some(m) => match a {
                AssemblyStatus::NotRun => false,
                AssemblyStatus::Malformed => frame_step(
                    m0,
                    m,
                    f,
                    Err(SegmentError::MalformedSegment),
                ),
                AssemblyStatus::Incomplete => frame_step(m0, m, f, Ok(None)),
                AssemblyStatus::Complete(p) => frame_step(m0, m, f, Ok(Some(p@))),
            },
            None => false,
        },
    }
}

/// Splitting a payload fills the reassembly buffer with every index up to
/// the chunk count, and concatenating those chunks in index order restores
/// the payload exactly. Together with the buffer-insertion contract of
/// `process_segment` this makes reassembly of a full split lossless, in
/// whatever order the chunks arrive: the buffer reached is the same map.
pub proof fn lemma_split_reassemble(data: Seq<u8>, c: int)
    requires
        c >= 1,
        num_chunks(data.len() as int, c) <= 256,
    ensures
        complete(split_map(data, c), (num_chunks(data.len() as int, c) - 1) as u8),
        assemble(split_map(data, c), num_chunks(data.len() as int, c)) == data,
{
    let total = num_chunks(data.len() as int, c);
    assert forall|j: u8| j <= (total - 1) as u8 implies split_map(data, c).contains_key(j) by {
        assert((j as int) < total);
    }
    lemma_assemble_prefix(data, c, total);
    let len = data.len() as int;
    if len >= 1 {
        lemma_chunk_start(len, c, total - 1);
        assert(total * c >= len) by {
            let d = (len - 1) / c;
            vstd::arithmetic::div_mod::lemma_fundamental_div_mod(len - 1, c);
            vstd::arithmetic::div_mod::lemma_mod_bound(len - 1, c);
            assert((d + 1) * c == d * c + c) by (nonlinear_arith);
            assert(d * c == c * d) by (nonlinear_arith);
        }
        assert(assemble(split_map(data, c), total) =~= data);
    } else {
        assert(assemble(split_map(data, c), total) =~= data);
    }
}

/// The first `j` chunks of a split concatenate to the payload's prefix of
/// `j` chunk widths.
proof fn lemma_assemble_prefix(data: Seq<u8>, c: int, j: int)
    requires
        c >= 1,
        num_chunks(data.len() as int, c) <= 256,
        0 <= j <= num_chunks(data.len() as int, c),
    ensures
        assemble(split_map(data, c), j) == data.subrange(
            0,
            if j * c <= data.len() {
                j * c
            } else {
                data.len() as int
            },
        ),
    decreases j,
{
    let len = data.len() as int;
    let m = split_map(data, c);
    if j == 0 {
        assert(0 * c == 0) by (nonlinear_arith);
        assert(assemble(m, 0) =~= data.subrange(0, 0));
    } else {
        lemma_assemble_prefix(data, c, j - 1);
        lemma_chunk_start(len, c, j - 1);
        assert((j - 1) * c + c == j * c) by (nonlinear_arith);
        assert(m.contains_key((j - 1) as u8));
        assert(m[(j - 1) as u8] == chunk_data(data, c, j - 1));
        let prev_end = if (j - 1) * c <= len {
            (j - 1) * c
        } else {
            len
        };
        let end = if j * c <= len {
            j * c
        } else {
            len
        };
        assert(prev_end == (j - 1) * c);
        assert(data.subrange(0, prev_end) + data.subrange(prev_end, end) =~= data.subrange(0, end));
        assert(assemble(m, j) == assemble(m, j - 1) + m[(j - 1) as u8]);
    }
}

/// A split chunk parses back into its own header and payload: its first
/// byte declares the chunk count minus one, its second its index, and what
/// follows the header is exactly the chunk's payload bytes. Feeding split
/// chunks through the reassembler therefore stores exactly the split map's
/// segments.
pub proof fn lemma_chunk_frame_parts(data: Seq<u8>, c: int, i: int)
    requires
        c >= 1,
        num_chunks(data.len() as int, c) <= 256,
        0 <= i < num_chunks(data.len() as int, c),
    ensures
        chunk_frame(data, c, i).len() >= 2,
        chunk_frame(data, c, i)[0] == (num_chunks(data.len() as int, c) - 1) as u8,
        chunk_frame(data, c, i)[1] == i as u8,
        chunk_frame(data, c, i).subrange(2, chunk_frame(data, c, i).len() as int) == chunk_data(
            data,
            c,
            i,
        ),
{
    assert(chunk_frame(data, c, i).subrange(2, chunk_frame(data, c, i).len() as int) =~= chunk_data(
        data,
        c,
        i,
    ));
}

/// A buffer missing any index at or below the declared last one is not
/// complete, so a reassembly step on it reports "incomplete" rather than a
/// packet.
pub proof fn lemma_partial_incomplete(m: Map<u8, Seq<u8>>, total: u8, j: u8)
    requires
        j <= total,
        !m.contains_key(j),
    ensures
        !complete(m, total),
{
}

/// Completion removes the key, so delivering one of a multi-segment
/// packet's segments again afterwards starts an empty buffer and stays
/// incomplete: completion is not re-triggered.
pub proof fn lemma_no_completion_after_removal(
    post: Map<u32, Map<u8, Seq<u8>>>,
    key: u32,
    total: u8,
    index: u8,
    remainder: Seq<u8>,
)
    requires
        !post.contains_key(key),
        total >= 1,
        index <= total,
    ensures
        !complete(buffer_after(post, key, index, remainder), total),
{
    let m1 = buffer_after(post, key, index, remainder);
    let missing: u8 = if index == 0 {
        1
    } else {
        0
    };
    assert(!m1.contains_key(missing));
}

/// Storing two segments with distinct indices reaches the same buffer in
/// either order: reassembly is independent of delivery order.
pub proof fn lemma_insert_order_irrelevant(
    m: Map<u8, Seq<u8>>,
    k1: u8,
    v1: Seq<u8>,
    k2: u8,
    v2: Seq<u8>,
)
    requires
        k1 != k2,
    ensures
        m.insert(k1, v1).insert(k2, v2) == m.insert(k2, v2).insert(k1, v1),
{
    assert(m.insert(k1, v1).insert(k2, v2) =~= m.insert(k2, v2).insert(k1, v1));
}

} // verus!
