//! The Resource Store: typed GPU buffer wrappers with host-visible or
//! device-local memory, one-shot upload, partial update, staging
//! transfer for immutable setup data, and a test-only read-back path.
//!
//! Device-local buffers are never written from host code after
//! creation: `update` rejects them, and data reaches them only through
//! the staging path or through writes on the modelled GPU timeline.

use vstd::prelude::*;

verus! {

#[derive(Clone, Copy, PartialEq, Eq, Structural, Debug)]
pub enum MemoryKind {
    HostVisible,
    DeviceLocal,
}

/// Usage flags a buffer is created with.
#[derive(Clone, Copy, PartialEq, Eq, Structural, Debug)]
pub struct Usage {
    pub storage: bool,
    pub vertex: bool,
    pub index: bool,
    pub transfer_src: bool,
    pub transfer_dst: bool,
}

/// One memory type the device advertises.
#[derive(Clone, Copy, PartialEq, Eq, Structural, Debug)]
pub struct MemoryType {
    pub host_visible: bool,
    pub device_local: bool,
}

pub open spec fn compatible(mt: MemoryType, kind: MemoryKind) -> bool {
    match kind {
        MemoryKind::HostVisible => mt.host_visible,
        MemoryKind::DeviceLocal => mt.device_local,
    }
}

pub open spec fn has_compatible(mts: Seq<MemoryType>, kind: MemoryKind) -> bool {
    exists|i: int| 0 <= i < mts.len() && compatible(#[trigger] mts[i], kind)
}

/// Size and placement of a buffer; `len` counts words.
#[derive(Clone, Copy, PartialEq, Eq, Structural, Debug)]
pub struct BufferDesc {
    pub kind: MemoryKind,
    pub usage: Usage,
    pub len: usize,
}

pub struct Buffer {
    pub desc: BufferDesc,
    pub data: Vec<u32>,
}

#[derive(Clone, Copy, PartialEq, Eq, Structural, Debug)]
pub enum StoreError {
    /// No advertised memory type satisfies the requested kind.
    Allocation,
    /// Host write to a device-local buffer.
    DeviceLocalWrite,
    /// A write or copy past the end of the buffer.
    OutOfBounds,
    /// The handle does not name a buffer of this store.
    UnknownHandle,
    /// The buffer was not created with the usage the operation needs.
    UsageMismatch,
}

/// A buffer's contents after writing `src` at word offset `off`.
pub open spec fn spliced(orig: Seq<u32>, off: int, src: Seq<u32>) -> Seq<u32> {
    orig.subrange(0, off) + src + orig.subrange(off + src.len(), orig.len() as int)
}

/// When `src` fills the whole buffer, writing it and reading the buffer
/// back returns `src` unchanged: the staging round trip is the identity.
pub proof fn lemma_splice_round_trip(orig: Seq<u32>, src: Seq<u32>)
    requires
        orig.len() == src.len(),
    ensures
        spliced(orig, 0, src) == src,
{
    assert(spliced(orig, 0, src) =~= src);
}

/// The store owns every buffer's memory; stages and the engine hold
/// plain handles (indices) into it.
pub struct Store {
    pub memory_types: Vec<MemoryType>,
    pub buffers: Vec<Buffer>,
}

impl Store {
    /// Every buffer holds exactly as many words as its descriptor says.
    pub open spec fn wf(self) -> bool {
        forall|i: int|
            0 <= i < self.buffers.len() ==> (#[trigger] self.buffers[i]).data.len()
                == self.buffers[i].desc.len
    }

    pub open spec fn data_of(self, h: int) -> Seq<u32> {
        self.buffers[h].data@
    }

    pub fn new(memory_types: Vec<MemoryType>) -> (s: Store)
        ensures
            s.wf(),
            s.memory_types == memory_types,
            s.buffers@.len() == 0,
    {
        Store { memory_types, buffers: Vec::new() }
    }

    fn find_memory_type(&self, kind: MemoryKind) -> (r: Option<usize>)
        ensures
            match r {
                Some(i) => i < self.memory_types@.len()
                    && compatible(self.memory_types@[i as int], kind),
                None => !has_compatible(self.memory_types@, kind),
            },
    {
        let mut i: usize = 0;
        while i < self.memory_types.len()
            invariant
                i <= self.memory_types@.len(),
                forall|k: int| 0 <= k < i ==> !compatible(#[trigger] self.memory_types@[k], kind),
            decreases self.memory_types@.len() - i,
        {
            let mt = self.memory_types[i];
            let ok = match kind {
                MemoryKind::HostVisible => mt.host_visible,
                MemoryKind::DeviceLocal => mt.device_local,
            };
            if ok {
                return Some(i);
            }
            i += 1;
        }
        None
    }

    /// Allocates a host-visible buffer and writes its initial contents
    /// immediately; fails exactly when no host-visible memory type exists.
    pub fn create_with_data(&mut self, usage: Usage, data: Vec<u32>) -> (r: Result<
        usize,
        StoreError,
    >)
        requires
            old(self).wf(),
        ensures
            final(self).wf(),
            final(self).memory_types == old(self).memory_types,
            r is Ok <==> has_compatible(old(self).memory_types@, MemoryKind::HostVisible),
            match r {
                Ok(h) => {
                    &&& h == old(self).buffers@.len()
                    &&& final(self).buffers@ == old(self).buffers@.push(
                        Buffer {
                            desc: BufferDesc {
                                kind: MemoryKind::HostVisible,
                                usage,
                                len: data.len(),
                            },
                            data,
                        },
                    )
                },
                Err(e) => e == StoreError::Allocation && final(self).buffers == old(self).buffers,
            },
    {
        match self.find_memory_type(MemoryKind::HostVisible) {
            Some(_) => {
                let h = self.buffers.len();
                let len = data.len();
                self.buffers.push(
                    Buffer { desc: BufferDesc { kind: MemoryKind::HostVisible, usage, len }, data },
                );
                Ok(h)
            },
            None => Err(StoreError::Allocation),
        }
    }

    /// Allocates a zero-initialized buffer of `len` words in the given
    /// memory kind; fails exactly when no compatible memory type exists.
    /// Zero-initialization keeps device-local allocations free of
    /// uninitialized contents.
    pub fn create_empty(&mut self, kind: MemoryKind, usage: Usage, len: usize) -> (r: Result<
        usize,
        StoreError,
    >)
        requires
            old(self).wf(),
        ensures
            final(self).wf(),
            final(self).memory_types == old(self).memory_types,
            r is Ok <==> has_compatible(old(self).memory_types@, kind),
            match r {
                Ok(h) => {
                    &&& h == old(self).buffers@.len()
                    &&& final(self).buffers@.len() == old(self).buffers@.len() + 1
                    &&& forall|k: int|
                        0 <= k < old(self).buffers@.len() ==> final(self).buffers@[k] == old(
                            self,
                        ).buffers@[k]
                    &&& final(self).buffers@[h as int].desc == BufferDesc { kind, usage, len }
                    &&& final(self).data_of(h as int) == Seq::<u32>::new(len as nat, |i: int| 0u32)
                },
                Err(e) => e == StoreError::Allocation && final(self).buffers == old(self).buffers,
            },
    {
        match self.find_memory_type(kind) {
            Some(_) => {
                let h = self.buffers.len();
                let data: Vec<u32> = zero_words(len);
                self.buffers.push(Buffer { desc: BufferDesc { kind, usage, len }, data });
                proof {
                    assert(final(self).data_of(h as int) =~= Seq::<u32>::new(
                        len as nat,
                        |i: int| 0u32,
                    ));
                }
                Ok(h)
            },
            None => Err(StoreError::Allocation),
        }
    }

    /// Replaces the buffer at `h`, keeping every other buffer.
    fn replace_data(&mut self, h: usize, data: Vec<u32>)
        requires
            old(self).wf(),
            h < old(self).buffers@.len(),
            data@.len() == old(self).buffers@[h as int].desc.len,
        ensures
            final(self).wf(),
            final(self).memory_types == old(self).memory_types,
            final(self).buffers@ == old(self).buffers@.update(
                h as int,
                Buffer { desc: old(self).buffers@[h as int].desc, data },
            ),
    {
        let b = self.buffers.remove(h);
        self.buffers.insert(h, Buffer { desc: b.desc, data });
        proof {
            assert(final(self).buffers@ =~= old(self).buffers@.update(
                h as int,
                Buffer { desc: old(self).buffers@[h as int].desc, data },
            ));
        }
    }

    /// Partial host update, valid only for host-visible buffers; a
    /// write to device-local memory is a programmer error and is
    /// rejected, never deferred to the GPU timeline.
    pub fn update(&mut self, h: usize, offset: usize, src: &Vec<u32>) -> (r: Result<
        (),
        StoreError,
    >)
        requires
            old(self).wf(),
        ensures
            final(self).wf(),
            final(self).memory_types == old(self).memory_types,
            r is Ok <==> {
                &&& h < old(self).buffers@.len()
                &&& old(self).buffers@[h as int].desc.kind is HostVisible
                &&& offset + src@.len() <= old(self).buffers@[h as int].desc.len
            },
            match r {
                Ok(_) => final(self).buffers@ == old(self).buffers@.update(
                    h as int,
                    Buffer {
                        desc: old(self).buffers@[h as int].desc,
                        data: final(self).buffers@[h as int].data,
                    },
                ) && final(self).data_of(h as int) == spliced(
                    old(self).data_of(h as int),
                    offset as int,
                    src@,
                ),
                Err(e) => {
                    &&& final(self).buffers == old(self).buffers
                    &&& e == StoreError::UnknownHandle <==> h >= old(self).buffers@.len()
                    &&& e == StoreError::DeviceLocalWrite <==> h < old(self).buffers@.len()
                        && old(self).buffers@[h as int].desc.kind is DeviceLocal
                    &&& e == StoreError::OutOfBounds <==> h < old(self).buffers@.len() && old(
                        self,
                    ).buffers@[h as int].desc.kind is HostVisible && offset + src@.len() > old(
                        self,
                    ).buffers@[h as int].desc.len
                },
            },
    {
        if h >= self.buffers.len() {
            return Err(StoreError::UnknownHandle);
        }
        let kind = self.buffers[h].desc.kind;
        if matches!(kind, MemoryKind::DeviceLocal) {
            return Err(StoreError::DeviceLocalWrite);
        }
        let blen = self.buffers[h].desc.len;
        if offset > blen || src.len() > blen - offset {
            return Err(StoreError::OutOfBounds);
        }
        let written = splice_words(&self.buffers[h].data, offset, src);
        self.replace_data(h, written);
        Ok(())
    }

    /// Write performed on the modelled GPU timeline (a dispatch or a
    /// transfer command), which may target device-local memory.
    pub(crate) fn device_write(&mut self, h: usize, data: Vec<u32>)
        requires
            old(self).wf(),
            h < old(self).buffers@.len(),
            data@.len() == old(self).buffers@[h as int].desc.len,
        ensures
            final(self).wf(),
            final(self).memory_types == old(self).memory_types,
            final(self).buffers@ == old(self).buffers@.update(
                h as int,
                Buffer { desc: old(self).buffers@[h as int].desc, data },
            ),
    {
        self.replace_data(h, data);
    }

    /// The staging path for immutable setup data: a transient
    /// host-visible staging buffer takes `src`, a one-shot command
    /// copies it into the transfer destination `dst`, and a dedicated
    /// fence blocks until the copy completes, after which the staging
    /// buffer is released.  Succeeds exactly when `dst` is a transfer
    /// destination large enough for `src` and host-visible staging
    /// memory exists.
    pub fn upload_via_staging(&mut self, src: &Vec<u32>, dst: usize) -> (r: Result<
        (),
        StoreError,
    >)
        requires
            old(self).wf(),
        ensures
            final(self).wf(),
            final(self).memory_types == old(self).memory_types,
            r is Ok <==> {
                &&& dst < old(self).buffers@.len()
                &&& old(self).buffers@[dst as int].desc.usage.transfer_dst
                &&& src@.len() <= old(self).buffers@[dst as int].desc.len
                &&& has_compatible(old(self).memory_types@, MemoryKind::HostVisible)
            },
            match r {
                Ok(_) => final(self).buffers@ == old(self).buffers@.update(
                    dst as int,
                    Buffer {
                        desc: old(self).buffers@[dst as int].desc,
                        data: final(self).buffers@[dst as int].data,
                    },
                ) && final(self).data_of(dst as int) == spliced(
                    old(self).data_of(dst as int),
                    0,
                    src@,
                ),
                Err(e) => {
                    &&& final(self).buffers == old(self).buffers
                    &&& e == StoreError::UnknownHandle <==> dst >= old(self).buffers@.len()
                    &&& e == StoreError::UsageMismatch <==> dst < old(self).buffers@.len()
                        && !old(self).buffers@[dst as int].desc.usage.transfer_dst
                    &&& e == StoreError::OutOfBounds <==> dst < old(self).buffers@.len() && old(
                        self,
                    ).buffers@[dst as int].desc.usage.transfer_dst && src@.len() > old(
                        self,
                    ).buffers@[dst as int].desc.len
                    &&& e == StoreError::Allocation <==> dst < old(self).buffers@.len() && old(
                        self,
                    ).buffers@[dst as int].desc.usage.transfer_dst && src@.len() <= old(
                        self,
                    ).buffers@[dst as int].desc.len && !has_compatible(
                        old(self).memory_types@,
                        MemoryKind::HostVisible,
                    )
                },
            },
    {
        if dst >= self.buffers.len() {
            return Err(StoreError::UnknownHandle);
        }
        if !self.buffers[dst].desc.usage.transfer_dst {
            return Err(StoreError::UsageMismatch);
        }
        if src.len() > self.buffers[dst].desc.len {
            return Err(StoreError::OutOfBounds);
        }
        if self.find_memory_type(MemoryKind::HostVisible).is_none() {
            return Err(StoreError::Allocation);
        }
        // The transient staging buffer, filled from `src` and released
        // once the copy's fence has signalled.
        let staging = Buffer {
            desc: BufferDesc {
                kind: MemoryKind::HostVisible,
                usage: Usage {
                    storage: false,
                    vertex: false,
                    index: false,
                    transfer_src: true,
                    transfer_dst: false,
                },
                len: src.len(),
            },
            data: copy_words(src),
        };
        let written = splice_words(&self.buffers[dst].data, 0, &staging.data);
        self.replace_data(dst, written);
        Ok(())
    }

    /// Test-only read-back of a buffer's full contents through a
    /// host-visible copy.
    pub fn read_back(&self, h: usize) -> (r: Result<Vec<u32>, StoreError>)
        ensures
            r is Ok <==> h < self.buffers@.len(),
            match r {
                Ok(v) => v@ == self.data_of(h as int),
                Err(e) => e == StoreError::UnknownHandle,
            },
    {
        if h >= self.buffers.len() {
            return Err(StoreError::UnknownHandle);
        }
        Ok(copy_words(&self.buffers[h].data))
    }
}

/// `n` zeroed words, as every fresh allocation starts.
pub(crate) fn zero_words(n: usize) -> (r: Vec<u32>)
    ensures
        r@ == Seq::<u32>::new(n as nat, |i: int| 0u32),
{
    let mut r: Vec<u32> = Vec::new();
    let mut i: usize = 0;
    while i < n
        invariant
            i <= n,
            r@ == Seq::<u32>::new(i as nat, |k: int| 0u32),
        decreases n - i,
    {
        r.push(0u32);
        i += 1;
        proof {
            assert(r@ =~= Seq::<u32>::new(i as nat, |k: int| 0u32));
        }
    }
    r
}

pub(crate) fn copy_words(src: &Vec<u32>) -> (r: Vec<u32>)
    ensures
        r@ == src@,
{
    let mut r: Vec<u32> = Vec::new();
    let mut i: usize = 0;
    while i < src.len()
        invariant
            i <= src@.len(),
            r@ == src@.subrange(0, i as int),
        decreases src@.len() - i,
    {
        r.push(src[i]);
        i += 1;
        proof {
            assert(r@ =~= src@.subrange(0, i as int));
        }
    }
    proof {
        assert(src@.subrange(0, src@.len() as int) =~= src@);
    }
    r
}

/// `orig` with `src` written at word offset `off`.
fn splice_words(orig: &Vec<u32>, off: usize, src: &Vec<u32>) -> (r: Vec<u32>)
    requires
        off + src@.len() <= orig@.len(),
    ensures
        r@ == spliced(orig@, off as int, src@),
        r@.len() == orig@.len(),
{
    let mut r: Vec<u32> = Vec::new();
    let mut i: usize = 0;
    while i < off
        invariant
            i <= off,
            off + src@.len() <= orig@.len(),
            r@ == orig@.subrange(0, i as int),
        decreases off - i,
    {
        r.push(orig[i]);
        i += 1;
        proof {
            assert(r@ =~= orig@.subrange(0, i as int));
        }
    }
    let mut j: usize = 0;
    while j < src.len()
        invariant
            j <= src@.len(),
            off + src@.len() <= orig@.len(),
            r@ == orig@.subrange(0, off as int) + src@.subrange(0, j as int),
        decreases src@.len() - j,
    {
        r.push(src[j]);
        j += 1;
        proof {
            assert(r@ =~= orig@.subrange(0, off as int) + src@.subrange(0, j as int));
        }
    }
    let olen = orig.len();
    let mut k: usize = off + src.len();
    while k < orig.len()
        invariant
            off + src@.len() <= k <= orig@.len(),
            r@ == orig@.subrange(0, off as int) + src@ + orig@.subrange(
                off + src@.len(),
                k as int,
            ),
        decreases orig@.len() - k,
    {
        r.push(orig[k]);
        k += 1;
        proof {
            assert(r@ =~= orig@.subrange(0, off as int) + src@ + orig@.subrange(
                off + src@.len(),
                k as int,
            ));
        }
    }
    proof {
        assert(src@.subrange(0, src@.len() as int) =~= src@);
        assert(r@ =~= spliced(orig@, off as int, src@));
    }
    r
}

} // verus!
