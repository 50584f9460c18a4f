//! Bookkeeping of the DMA buffers handed to userspace by handle.
//!
//! The buffers themselves are allocated and mapped by the platform; the pool
//! keeps, per handle, the bus address and length it was given, in handle
//! order, and answers lookups by handle and by bus address.
use vstd::prelude::*;
use crate::err::RknpuError;
use crate::ioctrl::{RknpuMemCreate, RknpuMemSync};

verus! {

/// One buffer of the pool.
#[derive(Debug, Clone, Copy, PartialEq, Eq, Structural)]
pub struct GemBuffer {
    /// Handle userspace names the buffer by.
    pub handle: u32,
    /// Bus address the NPU uses.
    pub bus_addr: u64,
    /// Length in bytes.
    pub len: usize,
}

/// Pool of DMA buffers indexed by `u32` handles, handed out from 1 upward.
#[derive(Debug, Clone)]
pub struct GemPool {
    /// The buffers, in increasing handle order.
    pub pool: Vec<GemBuffer>,
    /// Next handle to hand out.
    pub handle_counter: u32,
}

/// Handles strictly increase along the sequence.
pub open spec fn sorted_unique(s: Seq<GemBuffer>) -> bool {
    forall|i: int, j: int| 0 <= i < j < s.len() ==> #[trigger] s[i].handle < #[trigger] s[j].handle
}

/// The bus address and length kept for `h`, if any.
pub open spec fn lookup(s: Seq<GemBuffer>, h: u32) -> Option<(u64, usize)> {
    if exists|i: int| 0 <= i < s.len() && #[trigger] s[i].handle == h {
        let i = choose|i: int| 0 <= i < s.len() && #[trigger] s[i].handle == h;
        Some((s[i].bus_addr, s[i].len))
    } else {
        None
    }
}

/// In a sorted pool the entry of a handle is the one at its position.
pub proof fn lemma_lookup_at(s: Seq<GemBuffer>, i: int)
    requires
        sorted_unique(s),
        0 <= i < s.len(),
    ensures
        lookup(s, s[i].handle) == Some((s[i].bus_addr, s[i].len)),
{
    let h = s[i].handle;
    assert(exists|k: int| 0 <= k < s.len() && #[trigger] s[k].handle == h);
    let k = choose|k: int| 0 <= k < s.len() && #[trigger] s[k].handle == h;
    if k < i {
        assert(s[k].handle < s[i].handle);
    } else if i < k {
        assert(s[i].handle < s[k].handle);
    }
}

/// Number of entries whose handle is below `h`, counting from position `i`.
pub open spec fn count_below_from(s: Seq<GemBuffer>, h: u32, i: nat) -> int
    decreases s.len() - i,
{
    if i >= s.len() {
        s.len() as int
    } else if s[i as int].handle >= h {
        i as int
    } else {
        count_below_from(s, h, i + 1)
    }
}

/// Position at which a buffer with handle `h` belongs.
pub open spec fn insert_position(s: Seq<GemBuffer>, h: u32) -> int {
    count_below_from(s, h, 0)
}

/// Characterization of the insert position of a sorted pool.
pub proof fn lemma_insert_position(s: Seq<GemBuffer>, h: u32, i: nat)
    requires
        sorted_unique(s),
        i <= s.len(),
        forall|k: int| 0 <= k < i ==> #[trigger] s[k].handle < h,
    ensures
        i <= count_below_from(s, h, i) <= s.len(),
        forall|k: int| 0 <= k < count_below_from(s, h, i) ==> #[trigger] s[k].handle < h,
        forall|k: int| count_below_from(s, h, i) <= k < s.len() ==> #[trigger] s[k].handle >= h,
    decreases s.len() - i,
{
    if i < s.len() {
        if s[i as int].handle >= h {
            assert forall|k: int| i <= k < s.len() implies #[trigger] s[k].handle >= h by {
                if k > i {
                    assert(s[i as int].handle < s[k].handle);
                }
            }
        } else {
            lemma_insert_position(s, h, i + 1);
        }
    }
}

/// The pool after keeping `b`: it replaces the buffer of the same handle,
/// or is inserted in handle order.
pub open spec fn pool_with(s: Seq<GemBuffer>, b: GemBuffer) -> Seq<GemBuffer> {
    let p = insert_position(s, b.handle);
    if p < s.len() && s[p].handle == b.handle {
        s.update(p, b)
    } else {
        s.insert(p, b)
    }
}

/// Keeping `b` keeps the pool sorted, makes `b` the buffer of its handle
/// and changes no other handle's buffer.
pub proof fn lemma_pool_with(s: Seq<GemBuffer>, b: GemBuffer)
    requires
        sorted_unique(s),
    ensures
        sorted_unique(pool_with(s, b)),
        lookup(pool_with(s, b), b.handle) == Some((b.bus_addr, b.len)),
        forall|h: u32| h != b.handle ==> #[trigger] lookup(pool_with(s, b), h) == lookup(s, h),
{
    lemma_insert_position(s, b.handle, 0);
    let p = insert_position(s, b.handle);
    let t = pool_with(s, b);
    if p < s.len() && s[p].handle == b.handle {
        assert(t == s.update(p, b));
        assert(sorted_unique(t)) by {
            assert forall|i: int, j: int| 0 <= i < j < t.len() implies #[trigger] t[i].handle < #[trigger] t[j].handle by {
                assert(s[i].handle < s[j].handle);
            }
        }
        lemma_lookup_at(t, p);
        assert forall|h: u32| h != b.handle implies #[trigger] lookup(t, h) == lookup(s, h) by {
            if exists|i: int| 0 <= i < s.len() && #[trigger] s[i].handle == h {
                let i = choose|i: int| 0 <= i < s.len() && #[trigger] s[i].handle == h;
                lemma_lookup_at(s, i);
                assert(t[i] == s[i]);
                lemma_lookup_at(t, i);
            } else {
                assert(!(exists|i: int| 0 <= i < t.len() && #[trigger] t[i].handle == h)) by {
                    if exists|i: int| 0 <= i < t.len() && #[trigger] t[i].handle == h {
                        let i = choose|i: int| 0 <= i < t.len() && #[trigger] t[i].handle == h;
                        assert(s[i].handle == h);
                    }
                }
            }
        }
    } else {
        assert(t == s.insert(p, b));
        assert(sorted_unique(t)) by {
            assert forall|i: int, j: int| 0 <= i < j < t.len() implies #[trigger] t[i].handle < #[trigger] t[j].handle by {
                if j < p {
                    assert(s[i].handle < s[j].handle);
                } else if j == p {
                    assert(s[i].handle < b.handle);
                } else if i < p {
                    assert(s[i].handle < b.handle);
                    assert(s[j - 1].handle >= b.handle);
                } else if i == p {
                    assert(s[j - 1].handle >= b.handle);
                    assert(s[j - 1].handle != b.handle) by {
                        if j - 1 > p {
                            assert(s[p].handle < s[j - 1].handle);
                        }
                    }
                } else {
                    assert(s[i - 1].handle < s[j - 1].handle);
                }
            }
        }
        lemma_lookup_at(t, p);
        assert forall|h: u32| h != b.handle implies #[trigger] lookup(t, h) == lookup(s, h) by {
            if exists|i: int| 0 <= i < s.len() && #[trigger] s[i].handle == h {
                let i = choose|i: int| 0 <= i < s.len() && #[trigger] s[i].handle == h;
                lemma_lookup_at(s, i);
                if i < p {
                    assert(t[i] == s[i]);
                    lemma_lookup_at(t, i);
                } else {
                    assert(t[i + 1] == s[i]);
                    lemma_lookup_at(t, i + 1);
                }
            } else {
                assert(!(exists|i: int| 0 <= i < t.len() && #[trigger] t[i].handle == h)) by {
                    if exists|i: int| 0 <= i < t.len() && #[trigger] t[i].handle == h {
                        let i = choose|i: int| 0 <= i < t.len() && #[trigger] t[i].handle == h;
                        if i < p {
                            assert(s[i].handle == h);
                        } else if i > p {
                            assert(s[i - 1].handle == h);
                        }
                    }
                }
            }
        }
    }
}

/// Removing the buffer at `k` removes its handle and keeps every other.
pub proof fn lemma_pool_remove(s: Seq<GemBuffer>, k: int)
    requires
        sorted_unique(s),
        0 <= k < s.len(),
    ensures
        sorted_unique(s.remove(k)),
        lookup(s.remove(k), s[k].handle) is None,
        forall|h: u32| h != s[k].handle ==> #[trigger] lookup(s.remove(k), h) == lookup(s, h),
{
    let t = s.remove(k);
    assert(sorted_unique(t)) by {
        assert forall|i: int, j: int| 0 <= i < j < t.len() implies #[trigger] t[i].handle < #[trigger] t[j].handle by {
            if j < k {
                assert(s[i].handle < s[j].handle);
            } else if i < k {
                assert(s[i].handle < s[j + 1].handle);
            } else {
                assert(s[i + 1].handle < s[j + 1].handle);
            }
        }
    }
    assert(!(exists|i: int| 0 <= i < t.len() && #[trigger] t[i].handle == s[k].handle)) by {
        if exists|i: int| 0 <= i < t.len() && #[trigger] t[i].handle == s[k].handle {
            let i = choose|i: int| 0 <= i < t.len() && #[trigger] t[i].handle == s[k].handle;
            if i < k {
                assert(s[i].handle < s[k].handle);
            } else {
                assert(s[k].handle < s[i + 1].handle);
            }
        }
    }
    assert forall|h: u32| h != s[k].handle implies #[trigger] lookup(t, h) == lookup(s, h) by {
        if exists|i: int| 0 <= i < s.len() && #[trigger] s[i].handle == h {
            let i = choose|i: int| 0 <= i < s.len() && #[trigger] s[i].handle == h;
            lemma_lookup_at(s, i);
            if i < k {
                assert(t[i] == s[i]);
                lemma_lookup_at(t, i);
            } else {
                assert(i != k);
                assert(t[i - 1] == s[i]);
                lemma_lookup_at(t, i - 1);
            }
        } else {
            assert(!(exists|i: int| 0 <= i < t.len() && #[trigger] t[i].handle == h)) by {
                if exists|i: int| 0 <= i < t.len() && #[trigger] t[i].handle == h {
                    let i = choose|i: int| 0 <= i < t.len() && #[trigger] t[i].handle == h;
                    if i < k {
                        assert(s[i].handle == h);
                    } else {
                        assert(s[i + 1].handle == h);
                    }
                }
            }
        }
    }
}

impl GemPool {
    /// Handles strictly increase along the pool.
    pub open spec fn wf(&self) -> bool {
        sorted_unique(self.pool@)
    }

    /// An empty pool whose first handle is 1.
    pub fn new() -> (p: GemPool)
        ensures
            p.wf(),
            p.pool@.len() == 0,
            p.handle_counter == 1,
    {
        GemPool { pool: Vec::new(), handle_counter: 1 }
    }

    /// Position of the buffer of `handle`.
    fn find(&self, handle: u32) -> (r: Option<usize>)
        requires
            self.wf(),
        ensures
            match r {
                Some(i) => i < self.pool@.len() && self.pool@[i as int].handle == handle,
                None => lookup(self.pool@, handle) is None,
            },
    {
        let mut i: usize = 0;
        while i < self.pool.len()
            invariant
                i <= self.pool@.len(),
                forall|k: int| 0 <= k < i ==> #[trigger] self.pool@[k].handle != handle,
            decreases self.pool@.len() - i,
        {
            if self.pool[i].handle == handle {
                return Some(i);
            }
            i = i + 1;
        }
        None
    }

    /// Keep buffer `b`, replacing the buffer of the same handle.
    fn keep(&mut self, b: GemBuffer)
        requires
            old(self).wf(),
        ensures
            final(self).wf(),
            final(self).pool@ == pool_with(old(self).pool@, b),
            final(self).handle_counter == old(self).handle_counter,
    {
        proof {
            lemma_insert_position(self.pool@, b.handle, 0);
        }
        let mut p: usize = 0;
        while p < self.pool.len() && self.pool[p].handle < b.handle
            invariant
                p <= self.pool@.len(),
                self.pool@ == old(self).pool@,
                sorted_unique(self.pool@),
                forall|k: int| 0 <= k < p ==> #[trigger] self.pool@[k].handle < b.handle,
                count_below_from(self.pool@, b.handle, 0) == count_below_from(self.pool@, b.handle, p as nat),
            decreases self.pool@.len() - p,
        {
            p = p + 1;
        }
        proof {
            lemma_pool_with(old(self).pool@, b);
        }
        if p < self.pool.len() && self.pool[p].handle == b.handle {
            self.pool.set(p, b);
        } else {
            self.pool.insert(p, b);
        }
    }

    /// Register a buffer the platform allocated for `args`: hand out the
    /// next handle (wrapping) and report the buffer's handle, size and
    /// addresses in `args`.
    pub fn create(&mut self, args: &mut RknpuMemCreate, bus_addr: u64, cpu_addr: u64, len: usize) -> (r: Result<(), RknpuError>)
        requires
            old(self).wf(),
        ensures
            r is Ok,
            final(self).wf(),
            final(self).handle_counter == (if old(self).handle_counter == u32::MAX {
                0
            } else {
                (old(self).handle_counter + 1) as u32
            }),
            final(self).pool@ == pool_with(
                old(self).pool@,
                GemBuffer { handle: old(self).handle_counter, bus_addr, len },
            ),
            *final(args) == (RknpuMemCreate {
                handle: old(self).handle_counter,
                sram_size: len as u64,
                dma_addr: bus_addr,
                obj_addr: cpu_addr,
                ..*old(args)
            }),
    {
        let handle = self.handle_counter;
        self.handle_counter = self.handle_counter.wrapping_add(1);
        args.handle = handle;
        args.sram_size = len as u64;
        args.dma_addr = bus_addr;
        args.obj_addr = cpu_addr;
        self.keep(GemBuffer { handle, bus_addr, len });
        Ok(())
    }

    /// Bus address and length of the buffer of `handle`.
    pub fn get_phys_addr_and_size(&self, handle: u32) -> (r: Option<(u64, usize)>)
        requires
            self.wf(),
        ensures
            r == lookup(self.pool@, handle),
    {
        match self.find(handle) {
            Some(i) => {
                proof {
                    lemma_lookup_at(self.pool@, i as int);
                }
                Some((self.pool[i].bus_addr, self.pool[i].len))
            },
            None => None,
        }
    }

    /// Forget the buffer of `handle`; the handle becomes invalid.
    pub fn destroy(&mut self, handle: u32)
        requires
            old(self).wf(),
        ensures
            final(self).wf(),
            final(self).handle_counter == old(self).handle_counter,
            lookup(final(self).pool@, handle) is None,
            forall|h: u32| h != handle ==> #[trigger] lookup(final(self).pool@, h) == lookup(old(self).pool@, h),
    {
        match self.find(handle) {
            Some(i) => {
                proof {
                    lemma_pool_remove(self.pool@, i as int);
                }
                let _ = self.pool.remove(i);
            },
            None => {},
        }
    }

    /// Cache synchronization of a buffer range: the pool keeps no cache
    /// state, so neither the pool nor the request changes.
    pub fn sync(&mut self, args: &mut RknpuMemSync)
        ensures
            *final(self) == *old(self),
            *final(args) == *old(args),
    {
    }
}

/// Buffer `b` holds `byte_len` bytes from bus address `start`.
pub open spec fn holds(b: GemBuffer, start: u64, byte_len: u64) -> bool {
    &&& b.bus_addr + b.len <= u64::MAX
    &&& start + byte_len <= u64::MAX
    &&& b.bus_addr <= start
    &&& start + byte_len <= b.bus_addr + b.len
}

/// Position of the first buffer among the first `n` that holds the range,
/// or -1.
pub open spec fn first_holding(s: Seq<GemBuffer>, start: u64, byte_len: u64, n: nat) -> int
    decreases n,
{
    if n == 0 {
        -1
    } else {
        let r = first_holding(s, start, byte_len, (n - 1) as nat);
        if r >= 0 {
            r
        } else if holds(s[n - 1], start, byte_len) {
            n - 1
        } else {
            -1
        }
    }
}

/// Characterization of `first_holding`.
pub proof fn lemma_first_holding(s: Seq<GemBuffer>, start: u64, byte_len: u64, n: nat)
    requires
        n <= s.len(),
    ensures
        -1 <= first_holding(s, start, byte_len, n) < n,
        first_holding(s, start, byte_len, n) >= 0 ==> holds(s[first_holding(s, start, byte_len, n)], start, byte_len),
        forall|k: int| 0 <= k < n && (first_holding(s, start, byte_len, n) == -1 || k < first_holding(s, start, byte_len, n))
            ==> !holds(#[trigger] s[k], start, byte_len),
    decreases n,
{
    if n > 0 {
        lemma_first_holding(s, start, byte_len, (n - 1) as nat);
    }
}

/// Where `word_count` command words at `dma_addr + byte_offset` lie: the
/// handle of the first buffer, in handle order, that holds them all, and
/// their byte offset in it.
pub open spec fn spec_locate(s: Seq<GemBuffer>, dma_addr: u64, byte_offset: usize, word_count: usize) -> Option<(u32, usize)> {
    if dma_addr + byte_offset > u64::MAX || word_count * 8 > usize::MAX {
        None
    } else {
        let start = (dma_addr + byte_offset) as u64;
        let k = first_holding(s, start, (word_count * 8) as u64, s.len());
        if k >= 0 {
            Some((s[k].handle, (start - s[k].bus_addr) as usize))
        } else {
            None
        }
    }
}

impl GemPool {
    /// Find the buffer holding a command stream given by bus address.
    pub fn locate_regcmd_words(&self, dma_addr: u64, byte_offset: usize, word_count: usize) -> (r: Option<(u32, usize)>)
        ensures
            r == spec_locate(self.pool@, dma_addr, byte_offset, word_count),
    {
        let start = match dma_addr.checked_add(byte_offset as u64) {
            Some(s) => s,
            None => { return None; },
        };
        let byte_len = match word_count.checked_mul(8) {
            Some(b) => b,
            None => { return None; },
        };
        let mut i: usize = 0;
        while i < self.pool.len()
            invariant
                i <= self.pool@.len(),
                start == dma_addr + byte_offset,
                byte_len == word_count * 8,
                first_holding(self.pool@, start, byte_len as u64, i as nat) == -1,
            decreases self.pool@.len() - i,
        {
            let b = self.pool[i];
            let fits = match b.bus_addr.checked_add(b.len as u64) {
                None => false,
                Some(end) => match start.checked_add(byte_len as u64) {
                    None => false,
                    Some(stop) => start >= b.bus_addr && stop <= end,
                },
            };
            if fits {
                proof {
                    lemma_first_holding(self.pool@, start, byte_len as u64, self.pool@.len());
                    lemma_first_holding_stable(self.pool@, start, byte_len as u64, (i + 1) as nat, self.pool@.len());
                }
                return Some((b.handle, (start - b.bus_addr) as usize));
            }
            i = i + 1;
        }
        None
    }
}

/// Once some buffer among the first `i` holds the range, longer prefixes
/// find the same one.
pub proof fn lemma_first_holding_stable(s: Seq<GemBuffer>, start: u64, byte_len: u64, i: nat, n: nat)
    requires
        i <= n <= s.len(),
        first_holding(s, start, byte_len, i) >= 0,
    ensures
        first_holding(s, start, byte_len, n) == first_holding(s, start, byte_len, i),
    decreases n - i,
{
    if n > i {
        lemma_first_holding_stable(s, start, byte_len, i, (n - 1) as nat);
    }
}

/// A buffer created in the pool is what a lookup of its handle gives, and
/// no other handle's buffer changes.
pub proof fn law_create_then_lookup(pool: GemPool, b: GemBuffer, h: u32)
    requires
        pool.wf(),
    ensures
        lookup(pool_with(pool.pool@, b), b.handle) == Some((b.bus_addr, b.len)),
        h != b.handle ==> lookup(pool_with(pool.pool@, b), h) == lookup(pool.pool@, h),
{
    lemma_pool_with(pool.pool@, b);
}

} // verus!
