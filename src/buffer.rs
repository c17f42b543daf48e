//! A fixed-capacity byte buffer that accumulates the chunks of a stream and
//! carries the unconsumed tail of one chunk over to the next.
use vstd::prelude::*;
use vstd::slice::slice_subrange;

use crate::errors::Error;

verus! {

/// Relies on safemem::copy_over: a `memmove` of `len` elements from
/// `src_idx` to `dest_idx` inside one slice, correct where the two ranges
/// overlap. It panics where an index is not below the slice's length or
/// where a range runs past its end.
pub assume_specification<T: Copy>[ safemem::copy_over::<T> ](
    slice: &mut [T],
    src_idx: usize,
    dest_idx: usize,
    len: usize,
)
    requires
        src_idx < old(slice)@.len(),
        dest_idx < old(slice)@.len(),
        src_idx + len <= old(slice)@.len(),
        dest_idx + len <= old(slice)@.len(),
    ensures
        final(slice)@.len() == old(slice)@.len(),
        forall|i: int|
            dest_idx <= i < dest_idx + len
                ==> #[trigger] final(slice)@[i] == old(slice)@[i - dest_idx + src_idx],
        forall|i: int|
            0 <= i < old(slice)@.len() && !(dest_idx <= i < dest_idx + len)
                ==> #[trigger] final(slice)@[i] == old(slice)@[i],
;

/// The bytes held after `bytes` are added behind `data` in a buffer of
/// `capacity` bytes, or `None` where they do not fit.
pub open spec fn appended(data: Seq<u8>, capacity: nat, bytes: Seq<u8>) -> Option<Seq<u8>> {
    if data.len() + bytes.len() <= capacity {
        Some(data + bytes)
    } else {
        None
    }
}

/// The last `n` bytes of `data`.
pub open spec fn tail(data: Seq<u8>, n: nat) -> Seq<u8> {
    data.subrange(data.len() - n, data.len() as int)
}

/// The chunks joined in order.
pub open spec fn concat(chunks: Seq<Seq<u8>>) -> Seq<u8>
    decreases chunks.len(),
{
    if chunks.len() == 0 {
        Seq::empty()
    } else {
        concat(chunks.drop_last()) + chunks.last()
    }
}

/// The bytes held after each of `chunks` in turn is appended behind `data`,
/// or `None` where one of the appends fails.
pub open spec fn append_each(data: Seq<u8>, capacity: nat, chunks: Seq<Seq<u8>>) -> Option<
    Seq<u8>,
>
    decreases chunks.len(),
{
    if chunks.len() == 0 {
        Some(data)
    } else {
        match append_each(data, capacity, chunks.drop_last()) {
            Some(d) => appended(d, capacity, chunks.last()),
            None => None,
        }
    }
}

/// Appending chunks whose total length fits the capacity to an empty buffer
/// never fails, and after each append the buffer holds exactly the chunks
/// appended so far, joined in order.
pub proof fn lemma_appends_within_capacity(capacity: nat, chunks: Seq<Seq<u8>>)
    requires
        concat(chunks).len() <= capacity,
    ensures
        forall|i: int|
            0 <= i <= chunks.len() ==> #[trigger] append_each(Seq::empty(), capacity, chunks.take(i))
                == Some(concat(chunks.take(i))),
    decreases chunks.len(),
{
    if chunks.len() == 0 {
        assert(chunks.take(0) =~= chunks);
    } else {
        let init = chunks.drop_last();
        lemma_appends_within_capacity(capacity, init);
        assert(init.take(init.len() as int) =~= init);
        assert forall|i: int| 0 <= i <= chunks.len() implies #[trigger] append_each(
            Seq::empty(),
            capacity,
            chunks.take(i),
        ) == Some(concat(chunks.take(i))) by {
            if i < chunks.len() {
                assert(chunks.take(i) =~= init.take(i));
            } else {
                assert(chunks.take(i) =~= chunks);
                assert(append_each(Seq::empty(), capacity, init.take(init.len() as int)) == Some(
                    concat(init.take(init.len() as int)),
                ));
            }
        }
    }
}

/// Once the buffer keeps only the last `n` of its bytes `data`, an append
/// that fits leaves those `n` bytes followed by the appended ones.
pub proof fn lemma_shrink_then_append(data: Seq<u8>, capacity: nat, n: nat, bytes: Seq<u8>)
    requires
        n <= data.len(),
        n + bytes.len() <= capacity,
    ensures
        appended(tail(data, n), capacity, bytes) == Some(
            data.subrange(data.len() - n, data.len() as int) + bytes,
        ),
{
}

/// One allocation per stream, never resized. `data[..watermark]` is the
/// valid region; the bytes behind it are stale.
#[derive(Debug)]
pub struct Buffer {
    data: Vec<u8>,
    capacity: usize,
    watermark: usize,
    last: bool,
}

impl View for Buffer {
    type V = Seq<u8>;

    /// The valid bytes: all that a consumer may read.
    closed spec fn view(&self) -> Seq<u8> {
        self.data@.subrange(0, self.watermark as int)
    }
}

impl Buffer {
    /// The allocation has the fixed capacity, and the valid region fits it.
    pub closed spec fn wf(&self) -> bool {
        &&& self.data@.len() == self.capacity
        &&& self.watermark <= self.capacity
    }

    pub closed spec fn spec_capacity(&self) -> nat {
        self.capacity as nat
    }

    pub closed spec fn spec_is_last(&self) -> bool {
        self.last
    }

    /// The valid region never outgrows the capacity.
    pub proof fn lemma_view_fits(&self)
        requires
            self.wf(),
        ensures
            self@.len() <= self.spec_capacity(),
    {
    }

    pub fn new(capacity: usize) -> (b: Self)
        ensures
            b.wf(),
            b@ == Seq::<u8>::empty(),
            b.spec_capacity() == capacity,
            !b.spec_is_last(),
    {
        let b = Buffer { data: vec![0; capacity], capacity, watermark: 0, last: false };
        assert(b@ =~= Seq::<u8>::empty());
        b
    }

    pub fn mark_as_last_input(&mut self)
        requires
            old(self).wf(),
        ensures
            final(self).wf(),
            final(self)@ == old(self)@,
            final(self).spec_capacity() == old(self).spec_capacity(),
            final(self).spec_is_last(),
    {
        self.last = true;
    }

    /// Adds `slice` behind the valid bytes where it fits; otherwise fails
    /// and changes nothing.
    pub fn append(&mut self, slice: &[u8]) -> (r: Result<(), Error>)
        requires
            old(self).wf(),
        ensures
            final(self).wf(),
            final(self).spec_capacity() == old(self).spec_capacity(),
            final(self).spec_is_last() == old(self).spec_is_last(),
            match appended(old(self)@, old(self).spec_capacity(), slice@) {
                Some(v) => r == Ok::<(), Error>(()) && final(self)@ == v,
                None => r == Err::<(), Error>(Error::BufferCapacityExceeded) && *final(self)
                    == *old(self),
            },
    {
        let slice_len = slice.len();

        if slice_len <= self.capacity - self.watermark {
            let start = self.watermark;
            let mut i: usize = 0;
            while i < slice_len
                invariant
                    self.data@.len() == old(self).data@.len(),
                    self.capacity == old(self).capacity,
                    self.watermark == old(self).watermark,
                    self.last == old(self).last,
                    old(self).wf(),
                    start == old(self).watermark,
                    start + slice_len <= self.capacity,
                    i <= slice_len,
                    slice_len == slice@.len(),
                    forall|j: int| 0 <= j < start ==> #[trigger] self.data@[j] == old(self).data@[j],
                    forall|j: int|
                        start <= j < start + i ==> #[trigger] self.data@[j] == slice@[j - start],
                decreases slice_len - i,
            {
                self.data[start + i] = slice[i];
                i = i + 1;
            }
            self.watermark = start + slice_len;
            assert(self@ =~= old(self)@ + slice@);
            Ok(())
        } else {
            Err(Error::BufferCapacityExceeded)
        }
    }

    /// Drops the valid bytes, then adds `slice` as `append` does.
    pub fn init_with(&mut self, slice: &[u8]) -> (r: Result<(), Error>)
        requires
            old(self).wf(),
        ensures
            final(self).wf(),
            final(self).spec_capacity() == old(self).spec_capacity(),
            final(self).spec_is_last() == old(self).spec_is_last(),
            r is Ok <==> slice@.len() <= old(self).spec_capacity(),
            r is Ok ==> final(self)@ == slice@,
            r is Err ==> r == Err::<(), Error>(Error::BufferCapacityExceeded) && final(self)@
                == Seq::<u8>::empty(),
    {
        self.watermark = 0;
        assert(self@ =~= Seq::<u8>::empty());
        let r = self.append(slice);
        proof {
            if r is Ok {
                assert(Seq::<u8>::empty() + slice@ =~= slice@);
            }
        }
        r
    }

    /// Keeps only the last `byte_count` valid bytes, moved to the front.
    pub fn shrink_to_last(&mut self, byte_count: usize)
        requires
            old(self).wf(),
            byte_count <= old(self)@.len(),
        ensures
            final(self).wf(),
            final(self).spec_capacity() == old(self).spec_capacity(),
            final(self).spec_is_last() == old(self).spec_is_last(),
            final(self)@ == tail(old(self)@, byte_count as nat),
    {
        if byte_count > 0 {
            safemem::copy_over(
                self.data.as_mut_slice(),
                self.watermark - byte_count,
                0,
                byte_count,
            );
        }
        self.watermark = byte_count;
        assert(self@ =~= tail(old(self)@, byte_count as nat));
    }

    pub fn is_last(&self) -> (r: bool)
        ensures
            r == self.spec_is_last(),
    {
        self.last
    }

    /// The valid bytes.
    pub fn get_data(&self) -> (r: &[u8])
        requires
            self.wf(),
        ensures
            r@ == self@,
    {
        slice_subrange(self.data.as_slice(), 0, self.watermark)
    }
}

} // verus!
