//! Platform-level interrupt controller for hart 0: 31 sources with a priority each, and two
//! contexts (machine and supervisor) with an enable bitmap and a threshold each.

use vstd::prelude::*;

verus! {

/// Number of source identifiers; identifier 0 stands for "no interrupt".
pub const SOURCES: usize = 32;

/// Number of contexts: 0 is hart 0 in machine mode, 1 is hart 0 in supervisor mode.
pub const CONTEXTS: usize = 2;

/// Offset of the pending bitmap.
pub const PENDING_OFFSET: u64 = 0x1000;

/// Offset of the enable bitmap of context 0; those of the next contexts follow at
/// distances of `ENABLE_STRIDE`.
pub const ENABLE_OFFSET: u64 = 0x2000;

pub const ENABLE_STRIDE: u64 = 0x80;

/// Offset of the threshold of context 0, followed 4 bytes on by the claim/complete
/// register; those of the next contexts follow at distances of `CONTEXT_STRIDE`.
pub const CONTEXT_OFFSET: u64 = 0x20_0000;

pub const CONTEXT_STRIDE: u64 = 0x1000;

pub struct Intc {
    priority: [u32; 32],
    pending: u32,
    enable: [u32; 2],
    threshold: [u32; 2],
    in_service: u32,
}

/// What an `Intc` holds.
pub struct IntcView {
    /// Priority of each source.
    pub priority: Seq<u32>,
    /// Bit `i` is set while source `i` waits to be claimed.
    pub pending: u32,
    /// For each context, bit `i` is set where source `i` is enabled.
    pub enable: Seq<u32>,
    /// For each context, the priority that a source must exceed.
    pub threshold: Seq<u32>,
    /// Bit `i` is set from the claim of source `i` to its completion.
    pub in_service: u32,
}

/// Whether bit `i` of `word` is set.
pub open spec fn bit(word: u32, i: int) -> bool {
    (word >> (i as u32)) & 1 == 1
}

/// What a register of the controller's map stands for.
pub enum Register {
    Priority(int),
    Pending,
    Enable(int),
    Threshold(int),
    Claim(int),
    Nothing,
}

/// The register that lies at offset `addr`.
pub open spec fn register_at(addr: u64) -> Register {
    if addr % 4 == 0 && addr / 4 < SOURCES as u64 {
        Register::Priority((addr / 4) as int)
    } else if addr == PENDING_OFFSET {
        Register::Pending
    } else if addr == ENABLE_OFFSET {
        Register::Enable(0)
    } else if addr == ENABLE_OFFSET + ENABLE_STRIDE {
        Register::Enable(1)
    } else if addr == CONTEXT_OFFSET {
        Register::Threshold(0)
    } else if addr == CONTEXT_OFFSET + CONTEXT_STRIDE {
        Register::Threshold(1)
    } else if addr == CONTEXT_OFFSET + 4 {
        Register::Claim(0)
    } else if addr == CONTEXT_OFFSET + CONTEXT_STRIDE + 4 {
        Register::Claim(1)
    } else {
        Register::Nothing
    }
}

impl IntcView {
    /// The shape that every controller has.
    pub open spec fn wf(self) -> bool {
        self.priority.len() == SOURCES && self.enable.len() == CONTEXTS && self.threshold.len()
            == CONTEXTS
    }

    /// The controller as it is built: nothing enabled, nothing pending.
    pub open spec fn init() -> IntcView {
        IntcView {
            priority: Seq::new(SOURCES as nat, |i: int| 0u32),
            pending: 0,
            enable: Seq::new(CONTEXTS as nat, |i: int| 0u32),
            threshold: Seq::new(CONTEXTS as nat, |i: int| 0u32),
            in_service: 0,
        }
    }

    /// Whether source `id` may interrupt context `ctx`: it is pending, enabled for the
    /// context, and its priority exceeds the context's threshold.
    pub open spec fn eligible(self, ctx: int, id: int) -> bool {
        1 <= id < SOURCES && bit(self.pending, id) && bit(self.enable[ctx], id)
            && self.priority[id] > self.threshold[ctx]
    }

    /// The source among those below `n` that context `ctx` would claim: the eligible one
    /// of highest priority, the lowest identifier among equals; 0 where none is eligible.
    pub open spec fn best_below(self, ctx: int, n: int) -> int
        decreases n,
    {
        if n <= 1 {
            0
        } else {
            let b = self.best_below(ctx, n - 1);
            let id = n - 1;
            if self.eligible(ctx, id) && (b == 0 || self.priority[id] > self.priority[b]) {
                id
            } else {
                b
            }
        }
    }

    /// The source that context `ctx` would claim.
    pub open spec fn claim(self, ctx: int) -> int {
        self.best_below(ctx, SOURCES as int)
    }

    /// The pending bitmap after the requests `ids[..n]` were latched: a request sets the
    /// pending bit of its source unless the source is in service or the identifier is none
    /// of a source.
    pub open spec fn latched(self, ids: Seq<usize>, n: int) -> u32
        decreases n,
    {
        if n <= 0 {
            self.pending
        } else {
            let p = self.latched(ids, n - 1);
            let id = ids[n - 1];
            if 1 <= id < SOURCES && !bit(self.in_service, id as int) {
                p | (1u32 << (id as u32))
            } else {
                p
            }
        }
    }

    /// The controller after the requests `ids` of one tick.
    pub open spec fn tick(self, ids: Seq<usize>) -> IntcView {
        IntcView { pending: self.latched(ids, ids.len() as int), ..self }
    }

    /// The external interrupt lines towards hart `core`, one for each privilege level in
    /// the order user, supervisor, hypervisor, machine.
    pub open spec fn lines(self, core: usize) -> Seq<bool> {
        seq![false, core == 0 && self.claim(1) != 0, false, core == 0 && self.claim(0) != 0]
    }

    /// The word read at offset `addr`; 0 where there is no register.
    pub open spec fn read_value(self, addr: u64) -> u32 {
        match register_at(addr) {
            Register::Priority(i) => self.priority[i],
            Register::Pending => self.pending,
            Register::Enable(c) => self.enable[c],
            Register::Threshold(c) => self.threshold[c],
            Register::Claim(c) => self.claim(c) as u32,
            Register::Nothing => 0,
        }
    }

    /// The controller after a read at offset `addr`: a read of a claim register takes the
    /// claimed source out of the pending ones and into service.
    pub open spec fn read(self, addr: u64) -> IntcView {
        match register_at(addr) {
            Register::Claim(c) => {
                let id = self.claim(c);
                if id != 0 {
                    IntcView {
                        pending: self.pending & !(1u32 << (id as u32)),
                        in_service: self.in_service | (1u32 << (id as u32)),
                        ..self
                    }
                } else {
                    self
                }
            },
            _ => self,
        }
    }

    /// The controller after `data` was written at offset `addr`: a write of a source's
    /// identifier to a claim register completes that source. Nothing changes where there is
    /// no register; the pending bitmap cannot be written.
    pub open spec fn write(self, addr: u64, data: u32) -> IntcView {
        match register_at(addr) {
            Register::Priority(i) => IntcView { priority: self.priority.update(i, data), ..self },
            Register::Enable(c) => IntcView { enable: self.enable.update(c, data), ..self },
            Register::Threshold(c) => IntcView {
                threshold: self.threshold.update(c, data),
                ..self
            },
            Register::Claim(c) => if data < SOURCES as u32 {
                IntcView { in_service: self.in_service & !(1u32 << data), ..self }
            } else {
                self
            },
            _ => self,
        }
    }

    /// The claimed source is eligible and no eligible source has a higher priority; where
    /// nothing is claimed no source is eligible.
    pub proof fn lemma_claim_is_best(self, ctx: int)
        requires
            self.wf(),
            0 <= ctx < CONTEXTS,
        ensures
            self.claim(ctx) == 0 ==> forall|id: int| !self.eligible(ctx, id),
            self.claim(ctx) != 0 ==> self.eligible(ctx, self.claim(ctx)) && forall|id: int|
                self.eligible(ctx, id) ==> self.priority[id] <= self.priority[self.claim(ctx)],
    {
        self.lemma_best_below(ctx, SOURCES as int);
    }

    /// `lemma_claim_is_best` for the sources below `n`.
    pub proof fn lemma_best_below(self, ctx: int, n: int)
        requires
            self.wf(),
            0 <= ctx < CONTEXTS,
            1 <= n <= SOURCES,
        ensures
            0 <= self.best_below(ctx, n) < n,
            self.best_below(ctx, n) == 0 ==> forall|id: int| id < n ==> !self.eligible(ctx, id),
            self.best_below(ctx, n) != 0 ==> self.eligible(ctx, self.best_below(ctx, n))
                && forall|id: int|
                id < n && self.eligible(ctx, id) ==> self.priority[id]
                    <= self.priority[self.best_below(ctx, n)],
        decreases n,
    {
        if n > 1 {
            self.lemma_best_below(ctx, n - 1);
        }
    }
}

impl View for Intc {
    type V = IntcView;

    closed spec fn view(&self) -> IntcView {
        IntcView {
            priority: self.priority@,
            pending: self.pending,
            enable: self.enable@,
            threshold: self.threshold@,
            in_service: self.in_service,
        }
    }
}

impl Intc {
    pub fn new() -> (r: Self)
        ensures
            r@ == IntcView::init(),
    {
        let r = Intc {
            priority: [0; 32],
            pending: 0,
            enable: [0; 2],
            threshold: [0; 2],
            in_service: 0,
        };
        assert(r@.priority =~= IntcView::init().priority);
        assert(r@.enable =~= IntcView::init().enable);
        assert(r@.threshold =~= IntcView::init().threshold);
        r
    }

    /// Every controller has the shape `wf`.
    pub proof fn lemma_wf(&self)
        ensures
            self@.wf(),
    {
    }

    /// The source that context `ctx` would claim.
    fn best(&self, ctx: usize) -> (r: u32)
        requires
            ctx < CONTEXTS,
        ensures
            r == self@.claim(ctx as int),
            r < SOURCES,
    {
        let mut b: u32 = 0;
        let mut n: u32 = 1;
        while n < 32
            invariant
                1 <= n <= 32,
                ctx < CONTEXTS,
                b < n,
                b == self@.best_below(ctx as int, n as int),
            decreases 32 - n,
        {
            let id = n;
            let eligible = (self.pending >> id) & 1 == 1 && (self.enable[ctx] >> id) & 1 == 1
                && self.priority[id as usize] > self.threshold[ctx];
            if eligible && (b == 0 || self.priority[id as usize] > self.priority[b as usize]) {
                b = id;
            }
            n += 1;
        }
        b
    }

    /// Latches the interrupt requests of one tick and returns the external interrupt lines
    /// towards hart `core`, indexed by privilege level.
    pub fn tick(&mut self, core: usize, interrupts: Vec<usize>) -> (r: Vec<bool>)
        ensures
            final(self)@ == old(self)@.tick(interrupts@),
            r@ == final(self)@.lines(core),
    {
        let mut i: usize = 0;
        while i < interrupts.len()
            invariant
                i <= interrupts@.len(),
                self@ == (IntcView {
                    pending: old(self)@.latched(interrupts@, i as int),
                    ..old(self)@
                }),
            decreases interrupts@.len() - i,
        {
            let id = interrupts[i];
            if 1 <= id && id < SOURCES && (self.in_service >> (id as u32)) & 1 != 1 {
                self.pending |= 1u32 << (id as u32);
            }
            i += 1;
        }
        let supervisor = core == 0 && self.best(1) != 0;
        let machine = core == 0 && self.best(0) != 0;
        let r = vec![false, supervisor, false, machine];
        assert(r@ =~= self@.lines(core));
        r
    }

    pub fn read(&mut self, addr: u64) -> (r: u32)
        ensures
            r == old(self)@.read_value(addr),
            final(self)@ == old(self)@.read(addr),
    {
        if addr % 4 == 0 && addr / 4 < SOURCES as u64 {
            self.priority[(addr / 4) as usize]
        } else if addr == PENDING_OFFSET {
            self.pending
        } else if addr == ENABLE_OFFSET {
            self.enable[0]
        } else if addr == ENABLE_OFFSET + ENABLE_STRIDE {
            self.enable[1]
        } else if addr == CONTEXT_OFFSET {
            self.threshold[0]
        } else if addr == CONTEXT_OFFSET + CONTEXT_STRIDE {
            self.threshold[1]
        } else if addr == CONTEXT_OFFSET + 4 {
            self.take(0)
        } else if addr == CONTEXT_OFFSET + CONTEXT_STRIDE + 4 {
            self.take(1)
        } else {
            0
        }
    }

    /// Claims for context `ctx`.
    fn take(&mut self, ctx: usize) -> (r: u32)
        requires
            ctx < CONTEXTS,
        ensures
            r == old(self)@.claim(ctx as int),
            final(self)@ == if r != 0 {
                IntcView {
                    pending: old(self)@.pending & !(1u32 << r),
                    in_service: old(self)@.in_service | (1u32 << r),
                    ..old(self)@
                }
            } else {
                old(self)@
            },
    {
        let id = self.best(ctx);
        if id != 0 {
            self.pending &= !(1u32 << id);
            self.in_service |= 1u32 << id;
        }
        id
    }

    pub fn write(&mut self, addr: u64, data: u32)
        ensures
            final(self)@ == old(self)@.write(addr, data),
    {
        if addr % 4 == 0 && addr / 4 < SOURCES as u64 {
            self.priority[(addr / 4) as usize] = data;
        } else if addr == PENDING_OFFSET {
        } else if addr == ENABLE_OFFSET {
            self.enable[0] = data;
        } else if addr == ENABLE_OFFSET + ENABLE_STRIDE {
            self.enable[1] = data;
        } else if addr == CONTEXT_OFFSET {
            self.threshold[0] = data;
        } else if addr == CONTEXT_OFFSET + CONTEXT_STRIDE {
            self.threshold[1] = data;
        } else if addr == CONTEXT_OFFSET + 4 || addr == CONTEXT_OFFSET + CONTEXT_STRIDE + 4 {
            if data < SOURCES as u32 {
                self.in_service &= !(1u32 << data);
            }
        }
    }
}

} // verus!
