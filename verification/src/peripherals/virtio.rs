//! Block device behind a legacy virtio MMIO window. A notification makes the device serve
//! the requests that the driver queued, one request per tick: it reads the request header
//! from memory, moves the data between memory and the backing blob, stores the status byte,
//! adds an entry to the used ring and raises its interrupt.

use crate::dram::{le_u16, le_u32, le_u64, splice, store_le, Dram};
use vstd::prelude::*;

verus! {

pub const MAGIC_VALUE: u32 = 0x7472_6976;
pub const VERSION: u32 = 1;
pub const DEVICE_ID: u32 = 2;
pub const VENDOR_ID: u32 = 0x554d_4551;

/// Largest number of descriptors that the queue may have.
pub const QUEUE_NUM_MAX: u32 = 1024;

/// Number of bytes of a sector of the backing blob.
pub const SECTOR_SIZE: u64 = 512;

/// Request type: the device reads sectors into memory.
pub const REQUEST_IN: u32 = 0;

/// Request type: the device writes sectors from memory.
pub const REQUEST_OUT: u32 = 1;

/// Status byte of a request that was served.
pub const STATUS_OK: u8 = 0;

/// Status byte of a request of a type that the device does not know.
pub const STATUS_UNSUPPORTED: u8 = 2;

pub struct Virtio {
    disk: Vec<u8>,
    driver_features: u32,
    page_size: u32,
    queue_sel: u32,
    queue_num: u32,
    queue_align: u32,
    queue_pfn: u32,
    notified: bool,
    last_avail: u16,
    interrupt_status: u32,
    status: u32,
}

/// What a `Virtio` holds.
pub struct VirtioView {
    /// The backing blob.
    pub disk: Seq<u8>,
    pub driver_features: u32,
    pub page_size: u32,
    pub queue_sel: u32,
    pub queue_num: u32,
    pub queue_align: u32,
    pub queue_pfn: u32,
    /// Whether a notification waits to be served.
    pub notified: bool,
    /// Number of requests taken from the available ring so far.
    pub last_avail: u16,
    pub interrupt_status: u32,
    pub status: u32,
}

/// One entry of the descriptor table.
pub struct Descriptor {
    pub addr: u64,
    pub len: u32,
    pub flags: u16,
    pub next: u16,
}

/// What serving one request comes to, every place in it checked to lie within the memory
/// or the blob.
pub struct Plan {
    /// Index of the first descriptor of the request.
    pub head: u16,
    /// Type of the request.
    pub kind: u32,
    /// Offset of the data in the blob.
    pub disk_at: u64,
    /// Offset of the data buffer in memory.
    pub data_at: u64,
    /// Number of bytes of data.
    pub len: u32,
    /// Offset of the status byte in memory.
    pub status_at: u64,
    /// Offset in memory of the used ring's entry that the request fills.
    pub entry_at: u64,
    /// Offset in memory of the used ring's index.
    pub index_at: u64,
    /// The used ring's index before the request.
    pub used_index: u16,
}

/// Whether the `n` bytes at physical address `pa` lie within the memory `mem` that starts
/// at physical address `base`.
pub open spec fn in_mem(mem: Seq<u8>, base: u64, pa: int, n: int) -> bool {
    base <= pa && pa + n <= base + mem.len()
}

/// `x` rounded up to a multiple of `a`.
pub open spec fn align_up(x: int, a: int) -> int {
    ((x + a - 1) / a) * a
}

/// The descriptor at physical address `pa`.
pub open spec fn descriptor_at(mem: Seq<u8>, base: u64, pa: int) -> Option<Descriptor> {
    if in_mem(mem, base, pa, 16) {
        let i = pa - base;
        Some(
            Descriptor {
                addr: le_u64(mem, i),
                len: le_u32(mem, i + 8),
                flags: le_u16(mem, i + 12),
                next: le_u16(mem, i + 14),
            },
        )
    } else {
        None
    }
}

impl VirtioView {
    /// The device as it is built, without a blob.
    pub open spec fn init() -> VirtioView {
        VirtioView {
            disk: Seq::empty(),
            driver_features: 0,
            page_size: 0,
            queue_sel: 0,
            queue_num: 0,
            queue_align: 0,
            queue_pfn: 0,
            notified: false,
            last_avail: 0,
            interrupt_status: 0,
            status: 0,
        }
    }

    /// The word read at offset `addr`; 0 where there is no readable register.
    pub open spec fn read_value(self, addr: u64) -> u32 {
        if addr == 0x000 {
            MAGIC_VALUE
        } else if addr == 0x004 {
            VERSION
        } else if addr == 0x008 {
            DEVICE_ID
        } else if addr == 0x00c {
            VENDOR_ID
        } else if addr == 0x034 {
            QUEUE_NUM_MAX
        } else if addr == 0x040 {
            self.queue_pfn
        } else if addr == 0x060 {
            self.interrupt_status
        } else if addr == 0x070 {
            self.status
        } else {
            0
        }
    }

    /// The device after `data` was written at offset `addr`; nothing changes where there is
    /// no writable register. A write to the notify register makes a notification wait; a
    /// write to the acknowledge register clears the interrupt bits that are set in `data`.
    pub open spec fn write(self, addr: u64, data: u32) -> VirtioView {
        if addr == 0x020 {
            VirtioView { driver_features: data, ..self }
        } else if addr == 0x028 {
            VirtioView { page_size: data, ..self }
        } else if addr == 0x030 {
            VirtioView { queue_sel: data, ..self }
        } else if addr == 0x038 {
            VirtioView { queue_num: data, ..self }
        } else if addr == 0x03c {
            VirtioView { queue_align: data, ..self }
        } else if addr == 0x040 {
            VirtioView { queue_pfn: data, ..self }
        } else if addr == 0x050 {
            VirtioView { notified: true, ..self }
        } else if addr == 0x064 {
            VirtioView { interrupt_status: self.interrupt_status & !data, ..self }
        } else if addr == 0x070 {
            VirtioView { status: data, ..self }
        } else {
            self
        }
    }

    /// Whether the device requests an interrupt.
    pub open spec fn irq(self) -> bool {
        (self.interrupt_status & 1) != 0
    }

    /// Whether the queue is set up so that it can be served.
    pub open spec fn queue_ready(self) -> bool {
        0 < self.queue_num <= QUEUE_NUM_MAX && self.queue_align > 0
    }

    /// Physical address of the descriptor table.
    pub open spec fn desc_base(self) -> int {
        self.queue_pfn * self.page_size
    }

    /// Physical address of the available ring.
    pub open spec fn avail_base(self) -> int {
        self.desc_base() + 16 * self.queue_num
    }

    /// Physical address of the used ring.
    pub open spec fn used_base(self) -> int {
        self.desc_base() + align_up(18 * self.queue_num + 6, self.queue_align as int)
    }

    /// The index that the driver has advanced the available ring to.
    pub open spec fn avail_index(self, mem: Seq<u8>, base: u64) -> Option<u16> {
        if self.queue_ready() && in_mem(mem, base, self.avail_base() + 2, 2) {
            Some(le_u16(mem, self.avail_base() + 2 - base))
        } else {
            None
        }
    }

    /// Descriptor `i` of the table.
    pub open spec fn descriptor(self, mem: Seq<u8>, base: u64, i: u16) -> Option<Descriptor> {
        if i < self.queue_num {
            descriptor_at(mem, base, self.desc_base() + 16 * i)
        } else {
            None
        }
    }

    /// The plan for the next request of the available ring. There is none where the queue
    /// is not set up, where a ring, a descriptor or a buffer reaches outside the memory, or
    /// where the data reaches outside the blob.
    pub open spec fn plan(self, mem: Seq<u8>, base: u64) -> Option<Plan> {
        let slot = self.avail_base() + 4 + 2 * (self.last_avail as int % self.queue_num as int);
        if !self.queue_ready() || !in_mem(mem, base, slot, 2) || !in_mem(
            mem,
            base,
            self.used_base() + 2,
            2,
        ) {
            None
        } else {
            let head = le_u16(mem, slot - base);
            let used_index = le_u16(mem, self.used_base() + 2 - base);
            let entry = self.used_base() + 4 + 8 * (used_index as int % self.queue_num as int);
            match self.descriptor(mem, base, head) {
                None => None,
                Some(d0) => match self.descriptor(mem, base, d0.next) {
                    None => None,
                    Some(d1) => match self.descriptor(mem, base, d1.next) {
                        None => None,
                        Some(d2) => if in_mem(mem, base, d0.addr as int, 16) && in_mem(
                            mem,
                            base,
                            d1.addr as int,
                            d1.len as int,
                        ) && in_mem(mem, base, d2.addr as int, 1) && in_mem(mem, base, entry, 8)
                            && le_u64(mem, d0.addr + 8 - base) * SECTOR_SIZE + d1.len
                            <= self.disk.len() {
                            Some(
                                Plan {
                                    head,
                                    kind: le_u32(mem, d0.addr - base),
                                    disk_at: (le_u64(mem, d0.addr + 8 - base)
                                        * SECTOR_SIZE) as u64,
                                    data_at: (d1.addr - base) as u64,
                                    len: d1.len,
                                    status_at: (d2.addr - base) as u64,
                                    entry_at: (entry - base) as u64,
                                    index_at: (self.used_base() + 2 - base) as u64,
                                    used_index,
                                },
                            )
                        } else {
                            None
                        },
                    },
                },
            }
        }
    }

    /// The blob after the request `p` was served.
    pub open spec fn served_disk(self, mem: Seq<u8>, p: Plan) -> Seq<u8> {
        if p.kind == REQUEST_OUT {
            splice(
                self.disk,
                p.disk_at as int,
                mem.subrange(p.data_at as int, p.data_at + p.len),
            )
        } else {
            self.disk
        }
    }

    /// The status byte that the request `p` ends with.
    pub open spec fn status_of(p: Plan) -> u8 {
        if p.kind == REQUEST_IN || p.kind == REQUEST_OUT {
            STATUS_OK
        } else {
            STATUS_UNSUPPORTED
        }
    }

    /// The memory after the request `p` was served: the data of a read request, then the
    /// status byte, then the entry of the used ring and the ring's new index.
    pub open spec fn served_mem(self, mem: Seq<u8>, p: Plan) -> Seq<u8> {
        let m1 = if p.kind == REQUEST_IN {
            splice(
                mem,
                p.data_at as int,
                self.disk.subrange(p.disk_at as int, p.disk_at + p.len),
            )
        } else {
            mem
        };
        let m2 = m1.update(p.status_at as int, Self::status_of(p));
        let m3 = store_le(m2, p.entry_at as int, p.head as u64, 4);
        let m4 = store_le(m3, p.entry_at + 4, p.len as u64, 4);
        store_le(m4, p.index_at as int, next_index(p.used_index) as u64, 2)
    }

    /// Whether a tick has a request to serve.
    pub open spec fn serves(self, mem: Seq<u8>, base: u64) -> bool {
        self.notified && self.avail_index(mem, base).is_some() && self.avail_index(
            mem,
            base,
        ).unwrap() != self.last_avail && self.plan(mem, base).is_some()
    }

    /// The device one tick later. A waiting notification is served while the available ring
    /// holds a request that has a plan; otherwise the notification is dropped.
    pub open spec fn tick(self, mem: Seq<u8>, base: u64) -> VirtioView {
        if !self.notified {
            self
        } else if self.serves(mem, base) {
            VirtioView {
                disk: self.served_disk(mem, self.plan(mem, base).unwrap()),
                last_avail: next_index(self.last_avail),
                interrupt_status: self.interrupt_status | 1,
                ..self
            }
        } else {
            VirtioView { notified: false, ..self }
        }
    }

    /// The memory one tick later.
    pub open spec fn tick_mem(self, mem: Seq<u8>, base: u64) -> Seq<u8> {
        if self.serves(mem, base) {
            self.served_mem(mem, self.plan(mem, base).unwrap())
        } else {
            mem
        }
    }
}

/// The ring index that follows `i`.
pub open spec fn next_index(i: u16) -> u16 {
    if i == 0xffff {
        0
    } else {
        (i + 1) as u16
    }
}

impl View for Virtio {
    type V = VirtioView;

    closed spec fn view(&self) -> VirtioView {
        VirtioView {
            disk: self.disk@,
            driver_features: self.driver_features,
            page_size: self.page_size,
            queue_sel: self.queue_sel,
            queue_num: self.queue_num,
            queue_align: self.queue_align,
            queue_pfn: self.queue_pfn,
            notified: self.notified,
            last_avail: self.last_avail,
            interrupt_status: self.interrupt_status,
            status: self.status,
        }
    }
}

/// Offset in the memory of the `n` bytes at physical address `pa`, where they lie within it.
fn mem_index<const N: usize>(dram: &Dram<N>, base: u64, pa: u128, n: u64) -> (r: Option<u64>)
    ensures
        r == if in_mem(dram@, base, pa as int, n as int) {
            Some((pa - base) as u64)
        } else {
            None
        },
        r.is_some() ==> r.unwrap() == pa - base,
{
    let len = dram.size();
    if pa < base as u128 {
        return None;
    }
    let i = pa - base as u128;
    if i > len as u128 || n > len {
        return None;
    }
    if i as u64 > len - n {
        return None;
    }
    Some(i as u64)
}

impl Virtio {
    pub fn new() -> (r: Self)
        ensures
            r@ == VirtioView::init(),
    {
        Virtio {
            disk: Vec::new(),
            driver_features: 0,
            page_size: 0,
            queue_sel: 0,
            queue_num: 0,
            queue_align: 0,
            queue_pfn: 0,
            notified: false,
            last_avail: 0,
            interrupt_status: 0,
            status: 0,
        }
    }

    /// Gives the device its backing blob.
    pub fn init(&mut self, data: Vec<u8>)
        ensures
            final(self)@ == (VirtioView { disk: data@, ..old(self)@ }),
    {
        self.disk = data;
    }

    pub fn is_irq(&self) -> (r: bool)
        ensures
            r == self@.irq(),
    {
        (self.interrupt_status & 1) != 0
    }

    pub fn read(&self, addr: u64) -> (r: u32)
        ensures
            r == self@.read_value(addr),
    {
        if addr == 0x000 {
            MAGIC_VALUE
        } else if addr == 0x004 {
            VERSION
        } else if addr == 0x008 {
            DEVICE_ID
        } else if addr == 0x00c {
            VENDOR_ID
        } else if addr == 0x034 {
            QUEUE_NUM_MAX
        } else if addr == 0x040 {
            self.queue_pfn
        } else if addr == 0x060 {
            self.interrupt_status
        } else if addr == 0x070 {
            self.status
        } else {
            0
        }
    }

    pub fn write(&mut self, addr: u64, data: u32)
        ensures
            final(self)@ == old(self)@.write(addr, data),
    {
        if addr == 0x020 {
            self.driver_features = data;
        } else if addr == 0x028 {
            self.page_size = data;
        } else if addr == 0x030 {
            self.queue_sel = data;
        } else if addr == 0x038 {
            self.queue_num = data;
        } else if addr == 0x03c {
            self.queue_align = data;
        } else if addr == 0x040 {
            self.queue_pfn = data;
        } else if addr == 0x050 {
            self.notified = true;
        } else if addr == 0x064 {
            self.interrupt_status = self.interrupt_status & !data;
        } else if addr == 0x070 {
            self.status = data;
        }
    }

    fn queue_ready(&self) -> (r: bool)
        ensures
            r == self@.queue_ready(),
    {
        0 < self.queue_num && self.queue_num <= QUEUE_NUM_MAX && self.queue_align > 0
    }

    fn desc_base(&self) -> (r: u128)
        ensures
            r == self@.desc_base(),
            r <= 0xffff_ffff * 0xffff_ffff,
    {
        assert(self.queue_pfn * self.page_size <= 0xffff_ffff * 0xffff_ffff) by (nonlinear_arith)
            requires
                self.queue_pfn <= 0xffff_ffff,
                self.page_size <= 0xffff_ffff,
        ;
        (self.queue_pfn as u128) * (self.page_size as u128)
    }

    fn avail_base(&self) -> (r: u128)
        requires
            self@.queue_ready(),
        ensures
            r == self@.avail_base(),
            r <= 0xffff_ffff * 0xffff_ffff + 16 * 1024,
    {
        self.desc_base() + 16 * (self.queue_num as u128)
    }

    fn used_base(&self) -> (r: u128)
        requires
            self@.queue_ready(),
        ensures
            r == self@.used_base(),
            r <= 0xffff_ffff * 0xffff_ffff + 0x2_0000_0000,
    {
        let x = 18 * (self.queue_num as u128) + 6;
        let a = self.queue_align as u128;
        let q = (x + a - 1) / a;
        assert(q * a <= x + a - 1) by (nonlinear_arith)
            requires
                q == (x + a - 1) / (a as int),
                a > 0,
                x >= 0,
        ;
        self.desc_base() + q * a
    }

    fn avail_index<const N: usize>(&self, dram: &Dram<N>, base: u64) -> (r: Option<u16>)
        ensures
            r == self@.avail_index(dram@, base),
    {
        if !self.queue_ready() {
            return None;
        }
        let i = mem_index(dram, base, self.avail_base() + 2, 2)?;
        Some(dram.read16(i))
    }

    fn descriptor<const N: usize>(&self, dram: &Dram<N>, base: u64, i: u16) -> (r: Option<Descriptor>)
        ensures
            r == self@.descriptor(dram@, base, i),
    {
        if i as u32 >= self.queue_num {
            return None;
        }
        let at = mem_index(dram, base, self.desc_base() + 16 * (i as u128), 16)?;
        Some(
            Descriptor {
                addr: dram.read64(at),
                len: dram.read32(at + 8),
                flags: dram.read16(at + 12),
                next: dram.read16(at + 14),
            },
        )
    }

    fn plan<const N: usize>(&self, dram: &Dram<N>, base: u64) -> (r: Option<Plan>)
        ensures
            r == self@.plan(dram@, base),
    {
        if !self.queue_ready() {
            return None;
        }
        let num = self.queue_num as u128;
        let slot_pa = self.avail_base() + 4 + 2 * ((self.last_avail as u128) % num);
        let slot = mem_index(dram, base, slot_pa, 2)?;
        let index_at = mem_index(dram, base, self.used_base() + 2, 2)?;
        let head = dram.read16(slot);
        let used_index = dram.read16(index_at);
        let entry_pa = self.used_base() + 4 + 8 * ((used_index as u128) % num);
        let d0 = self.descriptor(dram, base, head)?;
        let d1 = self.descriptor(dram, base, d0.next)?;
        let d2 = self.descriptor(dram, base, d1.next)?;
        let header = mem_index(dram, base, d0.addr as u128, 16)?;
        let data_at = mem_index(dram, base, d1.addr as u128, d1.len as u64)?;
        let status_at = mem_index(dram, base, d2.addr as u128, 1)?;
        let entry_at = mem_index(dram, base, entry_pa, 8)?;
        proof {
            dram.lemma_size();
        }
        let sector = dram.read64(header + 8);
        let disk_at = (sector as u128) * (SECTOR_SIZE as u128);
        if disk_at + (d1.len as u128) > self.disk.len() as u128 {
            return None;
        }
        Some(
            Plan {
                head,
                kind: dram.read32(header),
                disk_at: disk_at as u64,
                data_at,
                len: d1.len,
                status_at,
                entry_at,
                index_at,
                used_index,
            },
        )
    }

    /// Copies the data of a read request into the memory.
    fn read_sectors<const N: usize>(&self, dram: &mut Dram<N>, p: &Plan)
        requires
            p.disk_at + p.len <= self@.disk.len(),
            p.data_at + p.len <= old(dram)@.len(),
        ensures
            final(dram)@ == splice(
                old(dram)@,
                p.data_at as int,
                self@.disk.subrange(p.disk_at as int, p.disk_at + p.len),
            ),
            final(dram).code_size() == old(dram).code_size(),
    {
        let n = self.disk.len();
        proof {
            dram.lemma_size();
        }
        let mut k: u32 = 0;
        while k < p.len
            invariant
                k <= p.len,
                p.disk_at + p.len <= self.disk@.len() == n,
                p.data_at + p.len <= dram@.len() == old(dram)@.len() <= usize::MAX,
                dram.code_size() == old(dram).code_size(),
                dram@ =~= splice(
                    old(dram)@,
                    p.data_at as int,
                    self.disk@.subrange(p.disk_at as int, p.disk_at + k),
                ),
            decreases p.len - k,
        {
            dram.write8(p.data_at + k as u64, self.disk[(p.disk_at + k as u64) as usize]);
            k += 1;
        }
    }

    /// Copies the data of a write request into the blob.
    fn write_sectors<const N: usize>(&mut self, dram: &Dram<N>, p: &Plan)
        requires
            p.disk_at + p.len <= old(self)@.disk.len(),
            p.data_at + p.len <= dram@.len(),
        ensures
            final(self)@ == (VirtioView {
                disk: splice(
                    old(self)@.disk,
                    p.disk_at as int,
                    dram@.subrange(p.data_at as int, p.data_at + p.len),
                ),
                ..old(self)@
            }),
    {
        let n = self.disk.len();
        proof {
            dram.lemma_size();
        }
        let mut k: u32 = 0;
        while k < p.len
            invariant
                k <= p.len,
                p.disk_at + p.len <= self.disk@.len() == n,
                p.data_at + p.len <= dram@.len() <= usize::MAX,
                self@ == (VirtioView { disk: self.disk@, ..old(self)@ }),
                self.disk@ =~= splice(
                    old(self).disk@,
                    p.disk_at as int,
                    dram@.subrange(p.data_at as int, p.data_at + k),
                ),
            decreases p.len - k,
        {
            self.disk[(p.disk_at + k as u64) as usize] = dram.read8(p.data_at + k as u64);
            k += 1;
        }
    }

    /// Serves the request `p`.
    fn serve<const N: usize>(&mut self, dram: &mut Dram<N>, p: &Plan)
        requires
            p.disk_at + p.len <= old(self)@.disk.len(),
            p.data_at + p.len <= old(dram)@.len(),
            p.status_at < old(dram)@.len(),
            p.entry_at + 8 <= old(dram)@.len(),
            p.index_at + 2 <= old(dram)@.len(),
        ensures
            final(self)@ == (VirtioView {
                disk: old(self)@.served_disk(old(dram)@, *p),
                last_avail: next_index(old(self)@.last_avail),
                interrupt_status: old(self)@.interrupt_status | 1,
                ..old(self)@
            }),
            final(dram)@ == old(self)@.served_mem(old(dram)@, *p),
            final(dram).code_size() == old(dram).code_size(),
    {
        let status = if p.kind == REQUEST_IN {
            self.read_sectors(dram, p);
            STATUS_OK
        } else if p.kind == REQUEST_OUT {
            self.write_sectors(dram, p);
            STATUS_OK
        } else {
            STATUS_UNSUPPORTED
        };
        proof {
            dram.lemma_size();
        }
        dram.write8(p.status_at, status);
        dram.write32(p.entry_at, p.head as u32);
        dram.write32(p.entry_at + 4, p.len);
        dram.write16(p.index_at, p.used_index.wrapping_add(1));
        self.last_avail = self.last_avail.wrapping_add(1);
        self.interrupt_status |= 1;
    }

    /// Advances the device by one tick against the memory `dram`, which starts at physical
    /// address `base`. Returns whether a request was served, that is, whether the device
    /// wrote to the memory.
    pub fn tick<const N: usize>(&mut self, dram: &mut Dram<N>, base: u64) -> (served: bool)
        ensures
            served == old(self)@.serves(old(dram)@, base),
            final(self)@ == old(self)@.tick(old(dram)@, base),
            final(dram)@ == old(self)@.tick_mem(old(dram)@, base),
            final(dram).code_size() == old(dram).code_size(),
    {
        if !self.notified {
            return false;
        }
        let fresh = match self.avail_index(dram, base) {
            Some(i) => i != self.last_avail,
            None => false,
        };
        if fresh {
            if let Some(p) = self.plan(dram, base) {
                self.serve(dram, &p);
                return true;
            }
        }
        self.notified = false;
        false
    }
}

} // verus!
