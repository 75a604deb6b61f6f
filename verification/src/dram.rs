//! Byte-addressable little-endian backing store.

use vstd::prelude::*;

verus! {

/// Number of bytes of main memory.
pub const MAX_DRAM_SIZE: u64 = 1024 * 1024 * 128;

/// The 16-bit value held little-endian in `s` at offset `i`.
pub open spec fn le_u16(s: Seq<u8>, i: int) -> u16 {
    (s[i] as u16) | ((s[i + 1] as u16) << 8)
}

/// The 32-bit value held little-endian in `s` at offset `i`.
pub open spec fn le_u32(s: Seq<u8>, i: int) -> u32 {
    (le_u16(s, i) as u32) | ((le_u16(s, i + 2) as u32) << 16)
}

/// The 64-bit value held little-endian in `s` at offset `i`.
pub open spec fn le_u64(s: Seq<u8>, i: int) -> u64 {
    (le_u32(s, i) as u64) | ((le_u32(s, i + 4) as u64) << 32)
}

/// Byte `k` (counting from the least significant) of `v`.
pub open spec fn byte_of(v: u64, k: int) -> u8 {
    ((v >> ((8 * k) as u64)) & 0xff) as u8
}

/// `s` with the `n` low bytes of `v` stored little-endian from offset `i` on.
pub open spec fn store_le(s: Seq<u8>, i: int, v: u64, n: int) -> Seq<u8> {
    Seq::new(s.len(), |j: int| if i <= j < i + n { byte_of(v, j - i) } else { s[j] })
}

/// `dst` with `src` copied over it from offset `at` on.
pub open spec fn splice(dst: Seq<u8>, at: int, src: Seq<u8>) -> Seq<u8> {
    Seq::new(dst.len(), |i: int| if at <= i < at + src.len() { src[i - at] } else { dst[i] })
}

/// The value of `n` bytes (1, 2, 4 or 8) held little-endian in `s` at offset `i`.
pub open spec fn load_le(s: Seq<u8>, i: int, n: int) -> u64 {
    if n == 1 {
        s[i] as u64
    } else if n == 2 {
        le_u16(s, i) as u64
    } else if n == 4 {
        le_u32(s, i) as u64
    } else {
        le_u64(s, i)
    }
}

/// Whether `n` is the width in bytes of a load or a store.
pub open spec fn is_width(n: int) -> bool {
    n == 1 || n == 2 || n == 4 || n == 8
}

/// Two neighbouring bytes of `v` make up the 16 bits of `v` that start at bit `8 * k`.
proof fn lemma_bytes_u16(v: u64, k: u64)
    by (bit_vector)
    requires
        k <= 6,
    ensures
        ((((v >> (8 * k)) & 0xff) as u8) as u16) | (((((v >> (8 * (k + 1))) & 0xff) as u8) as u16)
            << 8) == (v >> (8 * k)) as u16,
{
}

/// Two neighbouring half-words of `v` make up the 32 bits of `v` that start at bit `8 * k`.
proof fn lemma_halves_u32(v: u64, k: u64)
    by (bit_vector)
    requires
        k <= 4,
    ensures
        (((v >> (8 * k)) as u16) as u32) | ((((v >> (8 * (k + 2))) as u16) as u32) << 16) == (v >> (
        8 * k)) as u32,
{
}

/// The two words of `v` make up `v`.
proof fn lemma_words_u64(v: u64)
    by (bit_vector)
    ensures
        (((v >> 0) as u32) as u64) | ((((v >> 32) as u32) as u64) << 32) == v,
{
}

/// A memory of `N` bytes, every width stored little-endian. The number of bytes never
/// changes.
pub struct Dram<const N: usize> {
    dram: Vec<u8>,
    code_size: u64,
}

impl<const N: usize> View for Dram<N> {
    type V = Seq<u8>;

    closed spec fn view(&self) -> Seq<u8> {
        self.dram@
    }
}

impl<const N: usize> Dram<N> {
    /// Every memory of this type holds `N` bytes.
    #[verifier::type_invariant]
    pub open spec fn sized(&self) -> bool {
        self@.len() == N
    }

    /// Length in bytes of the image last given to `initialize`.
    pub closed spec fn code_size(&self) -> u64 {
        self.code_size
    }

    /// The memory's size is a number that the machine can index with.
    pub proof fn lemma_size(&self)
        ensures
            self@.len() <= usize::MAX,
    {
        let n = self.dram.len();
    }

    /// A zero-filled memory.
    pub fn new() -> (r: Self)
        ensures
            r@ == Seq::new(N as nat, |i: int| 0u8),
            r.code_size() == 0,
    {
        let r = Self { dram: vec![0u8; N], code_size: 0 };
        assert(r.dram@ =~= Seq::new(N as nat, |i: int| 0u8));
        r
    }

    /// Number of bytes held.
    pub fn size(&self) -> (n: u64)
        ensures
            self@.len() == N,
            n == self@.len(),
            n == N,
    {
        proof {
            use_type_invariant(&*self);
        }
        self.dram.len() as u64
    }

    /// Copies `data` to the start of the memory and records its length.
    pub fn initialize(&mut self, data: Vec<u8>)
        requires
            data@.len() <= old(self)@.len(),
        ensures
            old(self)@.len() == N,
            final(self)@.len() == N,
            final(self)@ == data@ + old(self)@.subrange(data@.len() as int, old(self)@.len() as int),
            final(self).code_size() == data@.len(),
    {
        proof {
            use_type_invariant(&*self);
        }
        self.code_size = data.len() as u64;
        let mut i: usize = 0;
        while i < data.len()
            invariant
                self.dram@.len() == N,
                i <= data@.len() <= self.dram@.len(),
                self.dram@.len() == old(self).dram@.len(),
                self.code_size == data@.len(),
                forall|j: int| 0 <= j < i ==> self.dram@[j] == data@[j],
                forall|j: int| i <= j < self.dram@.len() ==> self.dram@[j] == old(self).dram@[j],
            decreases data@.len() - i,
        {
            self.dram[i] = data[i];
            i += 1;
        }
        assert(self.dram@ =~= data@ + old(self).dram@.subrange(
            data@.len() as int,
            old(self).dram@.len() as int,
        ));
    }

    /// Copies the `len` bytes of `src` that start at `from` to the memory at `addr`.
    pub fn copy_from(&mut self, addr: u64, src: &Vec<u8>, from: usize, len: usize)
        requires
            from + len <= src@.len(),
            addr + len <= old(self)@.len(),
        ensures
            old(self)@.len() == N,
            final(self)@.len() == N,
            final(self)@ == splice(
                old(self)@,
                addr as int,
                src@.subrange(from as int, from + len),
            ),
            final(self).code_size() == old(self).code_size(),
    {
        proof {
            use_type_invariant(&*self);
        }
        let n = self.dram.len();
        let m = src.len();
        let index = addr as usize;
        let mut k: usize = 0;
        while k < len
            invariant
                self.dram@.len() == N,
                k <= len,
                index == addr,
                from + len <= src@.len() == m,
                addr + len <= self.dram@.len() == n,
                self.code_size == old(self).code_size,
                self.dram@ =~= splice(
                    old(self).dram@,
                    addr as int,
                    src@.subrange(from as int, from + k),
                ),
            decreases len - k,
        {
            self.dram[index + k] = src[from + k];
            k += 1;
        }
    }

    pub fn write8(&mut self, addr: u64, data: u8)
        requires
            addr < old(self)@.len(),
        ensures
            old(self)@.len() == N,
            final(self)@.len() == N,
            final(self)@ == old(self)@.update(addr as int, data),
            final(self).code_size() == old(self).code_size(),
    {
        proof {
            use_type_invariant(&*self);
        }
        let n = self.dram.len();
        self.dram[addr as usize] = data;
    }

    /// Stores the `n` low bytes of `v` from `addr` on, least significant first.
    pub fn write_bytes(&mut self, addr: u64, v: u64, n: u64)
        requires
            n <= 8,
            addr + n <= old(self)@.len(),
        ensures
            old(self)@.len() == N,
            final(self)@.len() == N,
            final(self)@ == store_le(old(self)@, addr as int, v, n as int),
            final(self).code_size() == old(self).code_size(),
    {
        proof {
            use_type_invariant(&*self);
        }
        let len = self.dram.len();
        let index = addr as usize;
        let mut i: u64 = 0;
        while i < n
            invariant
                self.dram@.len() == N,
                i <= n <= 8,
                index == addr,
                addr + n <= self.dram@.len() == len,
                self.code_size == old(self).code_size,
                self.dram@ =~= store_le(old(self).dram@, addr as int, v, i as int),
            decreases n - i,
        {
            self.dram[index + i as usize] = ((v >> (8 * i)) & 0xff) as u8;
            i += 1;
        }
    }

    pub fn write16(&mut self, addr: u64, data: u16)
        requires
            addr + 2 <= old(self)@.len(),
        ensures
            old(self)@.len() == N,
            final(self)@.len() == N,
            final(self)@ == store_le(old(self)@, addr as int, data as u64, 2),
            final(self).code_size() == old(self).code_size(),
    {
        proof {
            use_type_invariant(&*self);
        }
        self.write_bytes(addr, data as u64, 2)
    }

    pub fn write32(&mut self, addr: u64, data: u32)
        requires
            addr + 4 <= old(self)@.len(),
        ensures
            old(self)@.len() == N,
            final(self)@.len() == N,
            final(self)@ == store_le(old(self)@, addr as int, data as u64, 4),
            final(self).code_size() == old(self).code_size(),
    {
        proof {
            use_type_invariant(&*self);
        }
        self.write_bytes(addr, data as u64, 4)
    }

    pub fn write64(&mut self, addr: u64, data: u64)
        requires
            addr + 8 <= old(self)@.len(),
        ensures
            old(self)@.len() == N,
            final(self)@.len() == N,
            final(self)@ == store_le(old(self)@, addr as int, data, 8),
            final(self).code_size() == old(self).code_size(),
    {
        proof {
            use_type_invariant(&*self);
        }
        self.write_bytes(addr, data, 8)
    }

    /// Loads `n` bytes from `addr` on as a little-endian value.
    pub fn read_bytes(&self, addr: u64, n: u64) -> (r: u64)
        requires
            is_width(n as int),
            addr + n <= self@.len(),
        ensures
            self@.len() == N,
            r == load_le(self@, addr as int, n as int),
    {
        proof {
            use_type_invariant(&*self);
        }
        if n == 1 {
            self.read8(addr) as u64
        } else if n == 2 {
            self.read16(addr) as u64
        } else if n == 4 {
            self.read32(addr) as u64
        } else {
            self.read64(addr)
        }
    }

    pub fn read8(&self, addr: u64) -> (r: u8)
        requires
            addr < self@.len(),
        ensures
            self@.len() == N,
            r == self@[addr as int],
    {
        proof {
            use_type_invariant(&*self);
        }
        let n = self.dram.len();
        self.dram[addr as usize]
    }

    pub fn read16(&self, addr: u64) -> (r: u16)
        requires
            addr + 2 <= self@.len(),
        ensures
            self@.len() == N,
            r == le_u16(self@, addr as int),
    {
        proof {
            use_type_invariant(&*self);
        }
        let n = self.dram.len();
        let index = addr as usize;
        (self.dram[index] as u16) | ((self.dram[index + 1] as u16) << 8)
    }

    pub fn read32(&self, addr: u64) -> (r: u32)
        requires
            addr + 4 <= self@.len(),
        ensures
            self@.len() == N,
            r == le_u32(self@, addr as int),
    {
        proof {
            use_type_invariant(&*self);
        }
        let n = self.dram.len();
        (self.read16(addr) as u32) | ((self.read16(addr + 2) as u32) << 16)
    }

    pub fn read64(&self, addr: u64) -> (r: u64)
        requires
            addr + 8 <= self@.len(),
        ensures
            self@.len() == N,
            r == le_u64(self@, addr as int),
    {
        proof {
            use_type_invariant(&*self);
        }
        let n = self.dram.len();
        (self.read32(addr) as u64) | ((self.read32(addr + 4) as u64) << 32)
    }
}

/// The `n` low bytes of `v` as a number.
pub open spec fn cut(v: u64, n: int) -> u64 {
    if n == 1 {
        v as u8 as u64
    } else if n == 2 {
        v as u16 as u64
    } else if n == 4 {
        v as u32 as u64
    } else {
        v
    }
}

/// A store followed by a load: after the `n` low bytes of `v` were stored at offset `i`, a
/// load of `m` bytes at offset `i + k` that lies within the stored bytes returns the bytes
/// `k` to `k + m - 1` of `v`. With `k == 0` and `m == n` the load returns what was stored.
pub proof fn lemma_store_load(s: Seq<u8>, i: int, v: u64, n: int, k: int, m: int)
    requires
        0 <= i,
        is_width(n),
        is_width(m),
        0 <= k,
        k + m <= n,
        i + n <= s.len(),
    ensures
        load_le(store_le(s, i, v, n), i + k, m) == cut(v >> ((8 * k) as u64), m),
{
    if m == 8 {
        lemma_store_then_load(s, i, v);
        assert(v >> 0 == v) by (bit_vector);
    } else {
        lemma_store_then_load_part(s, i, v, n, k);
    }
}

/// What was stored with one width is read back with the same width.
pub proof fn lemma_store_then_load(s: Seq<u8>, i: int, v: u64)
    requires
        0 <= i,
        i + 8 <= s.len(),
    ensures
        store_le(s, i, v, 1)[i] == v as u8,
        le_u16(store_le(s, i, v, 2), i) == v as u16,
        le_u32(store_le(s, i, v, 4), i) == v as u32,
        le_u64(store_le(s, i, v, 8), i) == v,
{
    lemma_store_then_load_part(s, i, v, 8, 0);
    lemma_store_then_load_part(s, i, v, 4, 0);
    lemma_store_then_load_part(s, i, v, 2, 0);
    lemma_store_then_load_part(s, i, v, 1, 0);
    lemma_store_then_load_part(s, i, v, 8, 4);
    lemma_words_u64(v);
    assert(v >> 0 == v) by (bit_vector);
}

/// A narrower load inside a stored value returns the bytes of the value that lie there:
/// after `n` bytes of `v` went to offset `i`, the load at `i + k` yields `v` shifted right by
/// `k` bytes and cut to the width of the load.
pub proof fn lemma_store_then_load_part(s: Seq<u8>, i: int, v: u64, n: int, k: int)
    requires
        0 <= i,
        0 <= k,
        k < n <= 8,
        i + n <= s.len(),
    ensures
        store_le(s, i, v, n)[i + k] == (v >> ((8 * k) as u64)) as u8,
        k + 2 <= n ==> le_u16(store_le(s, i, v, n), i + k) == (v >> ((8 * k) as u64)) as u16,
        k + 4 <= n ==> le_u32(store_le(s, i, v, n), i + k) == (v >> ((8 * k) as u64)) as u32,
{
    let t = store_le(s, i, v, n);
    let ku = k as u64;
    assert(((v >> (8 * ku) as u64) & 0xff) as u8 == (v >> (8 * ku) as u64) as u8) by (bit_vector);
    if k + 2 <= n {
        lemma_bytes_u16(v, ku);
    }
    if k + 4 <= n {
        lemma_bytes_u16(v, ku);
        lemma_bytes_u16(v, (ku + 2) as u64);
        lemma_halves_u32(v, ku);
    }
}

} // verus!
