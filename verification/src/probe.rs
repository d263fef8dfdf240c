//! The instrumentation that a trigger runs against: an allocator that poisons
//! released blocks, a lock manager that flags re-entrant acquisition, and the
//! counters that record what either of them saw.

use vstd::prelude::*;
use crate::taxonomy::SignalKind;

verus! {

/// Side-channel evidence gathered while a trigger ran. Every field counts
/// events and stops counting at `u32::MAX`.
#[derive(Clone, Copy, PartialEq, Eq, Structural, Debug)]
pub struct Artifacts {
    /// Accesses to a block that had been released.
    pub poisoned_accesses: u32,
    /// Releases of a block that had been released before.
    pub double_releases: u32,
    /// Blocks still live when the run ended.
    pub missed_releases: u32,
    /// Blocks released while a longer-lived structure still referred to them.
    pub escaped_references: u32,
    /// Acquisitions of the lock by a context that already held it.
    pub lock_reacquires: u32,
    /// Dereferences of a null foreign reference.
    pub null_dereferences: u32,
    /// Allocation requests beyond the budget, or of a size that could not be computed.
    pub unbounded_requests: u32,
    /// Equality comparisons with a not-a-number operand.
    pub nan_comparisons: u32,
    /// Path joins whose result no longer starts with the base.
    pub base_escapes: u32,
    /// Calls that resolved to another binding than the one intended.
    pub shadowed_bindings: u32,
}

/// Why a trigger stopped before it returned.
#[derive(Clone, Copy, PartialEq, Eq, Structural, Debug)]
pub enum Stop {
    /// The context terminated abnormally.
    Crashed(SignalKind),
    /// The context blocks for ever.
    Blocked,
}

/// Whether the instrumented lock lets its holder acquire it again.
#[derive(Clone, Copy, PartialEq, Eq, Structural, Debug)]
pub enum LockKind {
    NonReentrant,
    Reentrant,
}

/// One block of the instrumented allocator.
#[derive(Clone, Copy, PartialEq, Eq, Structural, Debug)]
pub struct Block {
    /// False once the block has been released.
    pub live: bool,
    /// True once a longer-lived structure holds a reference to the block.
    pub stashed: bool,
    /// What the block holds.
    pub value: u32,
}

/// The mathematical content of a probe.
pub struct ProbeView {
    pub blocks: Seq<Block>,
    pub lock: LockKind,
    pub depth: u32,
    pub budget: nat,
    pub artifacts: Artifacts,
}

/// The instrumentation of one execution context.
pub struct Probe {
    blocks: Vec<Block>,
    lock: LockKind,
    depth: u32,
    budget: usize,
    artifacts: Artifacts,
}

/// A counter with nothing counted.
pub open spec fn spec_no_artifacts() -> Artifacts {
    Artifacts {
        poisoned_accesses: 0,
        double_releases: 0,
        missed_releases: 0,
        escaped_references: 0,
        lock_reacquires: 0,
        null_dereferences: 0,
        unbounded_requests: 0,
        nan_comparisons: 0,
        base_escapes: 0,
        shadowed_bindings: 0,
    }
}

/// One more event on a counter that stops at `u32::MAX`.
pub open spec fn spec_bump(c: u32) -> u32 {
    if c < u32::MAX {
        (c + 1) as u32
    } else {
        c
    }
}

/// The number of blocks of `s` that are still live.
pub open spec fn spec_live_blocks(s: Seq<Block>) -> nat
    decreases s.len(),
{
    if s.len() == 0 {
        0
    } else {
        spec_live_blocks(s.drop_last()) + if s.last().live { 1nat } else { 0nat }
    }
}

/// A count as a counter that stops at `u32::MAX`.
pub open spec fn spec_clip(n: nat) -> u32 {
    if n < u32::MAX {
        n as u32
    } else {
        u32::MAX
    }
}

/// The probe of a context that has not run anything yet.
pub open spec fn spec_fresh(lock: LockKind, budget: usize) -> ProbeView {
    ProbeView {
        blocks: Seq::empty(),
        lock,
        depth: 0,
        budget: budget as nat,
        artifacts: spec_no_artifacts(),
    }
}

pub fn no_artifacts() -> (a: Artifacts)
    ensures
        a == spec_no_artifacts(),
{
    Artifacts {
        poisoned_accesses: 0,
        double_releases: 0,
        missed_releases: 0,
        escaped_references: 0,
        lock_reacquires: 0,
        null_dereferences: 0,
        unbounded_requests: 0,
        nan_comparisons: 0,
        base_escapes: 0,
        shadowed_bindings: 0,
    }
}

pub fn bump(c: u32) -> (r: u32)
    ensures
        r == spec_bump(c),
{
    if c < u32::MAX {
        c + 1
    } else {
        c
    }
}

proof fn lemma_live_blocks_step(s: Seq<Block>, i: int)
    requires
        0 <= i < s.len(),
    ensures
        spec_live_blocks(s.take(i + 1)) == spec_live_blocks(s.take(i)) + if s[i].live {
            1nat
        } else {
            0nat
        },
{
    assert(s.take(i + 1).drop_last() =~= s.take(i));
}

impl View for Probe {
    type V = ProbeView;

    closed spec fn view(&self) -> ProbeView {
        ProbeView {
            blocks: self.blocks@,
            lock: self.lock,
            depth: self.depth,
            budget: self.budget as nat,
            artifacts: self.artifacts,
        }
    }
}

impl Probe {
    /// The probe of a fresh context, with the lock semantics and the
    /// allocation budget that the context is given.
    pub fn new(lock: LockKind, budget: usize) -> (p: Probe)
        ensures
            p@ == spec_fresh(lock, budget),
    {
        Probe { blocks: Vec::new(), lock, depth: 0, budget, artifacts: no_artifacts() }
    }

    /// Allocates a live block that holds `value` and returns its handle.
    pub fn allocate(&mut self, value: u32) -> (h: usize)
        ensures
            h == old(self)@.blocks.len(),
            final(self)@ == (ProbeView {
                blocks: old(self)@.blocks.push(Block { live: true, stashed: false, value }),
                ..old(self)@
            }),
    {
        let h = self.blocks.len();
        self.blocks.push(Block { live: true, stashed: false, value });
        h
    }

    /// Records that a longer-lived structure now refers to block `h`.
    /// A handle that names no block is left alone.
    pub fn stash(&mut self, h: usize)
        ensures
            h < old(self)@.blocks.len() ==> final(self)@ == (ProbeView {
                blocks: old(self)@.blocks.update(
                    h as int,
                    Block { stashed: true, ..old(self)@.blocks[h as int] },
                ),
                ..old(self)@
            }),
            h >= old(self)@.blocks.len() ==> final(self)@ == old(self)@,
    {
        if h < self.blocks.len() {
            let b = self.blocks[h];
            self.blocks.set(h, Block { live: b.live, stashed: true, value: b.value });
        }
    }

    /// Releases block `h`. A second release of the same block is counted and
    /// aborts the context; a handle that names no block faults. The release
    /// of a stashed block leaves a dangling reference behind, which is counted.
    pub fn release(&mut self, h: usize) -> (r: Result<(), Stop>)
        ensures
            r == spec_release(old(self)@, h).1,
            final(self)@ == spec_release(old(self)@, h).0,
    {
        if h >= self.blocks.len() {
            return Err(Stop::Crashed(SignalKind::SegmentationFault));
        }
        let b = self.blocks[h];
        if !b.live {
            self.artifacts.double_releases = bump(self.artifacts.double_releases);
            return Err(Stop::Crashed(SignalKind::InvalidFree));
        }
        self.blocks.set(h, Block { live: false, stashed: b.stashed, value: b.value });
        if b.stashed {
            self.artifacts.escaped_references = bump(self.artifacts.escaped_references);
        }
        Ok(())
    }

    /// Reads block `h`. A read of a released block is counted and faults; a
    /// handle that names no block faults.
    pub fn read(&mut self, h: usize) -> (r: Result<u32, Stop>)
        ensures
            r == spec_read(old(self)@, h).1,
            final(self)@ == spec_read(old(self)@, h).0,
    {
        if h >= self.blocks.len() {
            return Err(Stop::Crashed(SignalKind::SegmentationFault));
        }
        let b = self.blocks[h];
        if !b.live {
            self.artifacts.poisoned_accesses = bump(self.artifacts.poisoned_accesses);
            return Err(Stop::Crashed(SignalKind::SegmentationFault));
        }
        Ok(b.value)
    }

    /// Dereferences a foreign reference: a null one is counted and faults,
    /// any other is read as a block.
    pub fn deref_foreign(&mut self, reference: Option<usize>) -> (r: Result<u32, Stop>)
        ensures
            r == spec_deref_foreign(old(self)@, reference).1,
            final(self)@ == spec_deref_foreign(old(self)@, reference).0,
    {
        match reference {
            None => {
                self.artifacts.null_dereferences = bump(self.artifacts.null_dereferences);
                Err(Stop::Crashed(SignalKind::SegmentationFault))
            },
            Some(h) => self.read(h),
        }
    }

    /// Acquires the lock. A context that holds it already is counted; it
    /// goes on where the lock is reentrant and blocks for ever where it is not.
    /// The depth of the holds stops counting at `u32::MAX`.
    pub fn acquire(&mut self) -> (r: Result<(), Stop>)
        ensures
            r == spec_acquire(old(self)@).1,
            final(self)@ == spec_acquire(old(self)@).0,
    {
        if self.depth == 0 {
            self.depth = 1;
            return Ok(());
        }
        self.artifacts.lock_reacquires = bump(self.artifacts.lock_reacquires);
        match self.lock {
            LockKind::Reentrant => {
                self.depth = bump(self.depth);
                Ok(())
            },
            LockKind::NonReentrant => Err(Stop::Blocked),
        }
    }

    /// Gives up one hold on the lock, if there is one.
    pub fn unlock(&mut self)
        ensures
            final(self)@ == (ProbeView {
                depth: if old(self)@.depth > 0 {
                    (old(self)@.depth - 1) as u32
                } else {
                    0
                },
                ..old(self)@
            }),
    {
        if self.depth > 0 {
            self.depth = self.depth - 1;
        }
    }

    /// Asks the allocator for `size` units, `None` standing for a size that
    /// could not be computed. A request beyond the budget is counted and
    /// aborts the context.
    pub fn request(&mut self, size: Option<usize>) -> (r: Result<(), Stop>)
        ensures
            r == spec_request(old(self)@, size).1,
            final(self)@ == spec_request(old(self)@, size).0,
    {
        let within = match size {
            Some(n) => n <= self.budget,
            None => false,
        };
        if within {
            Ok(())
        } else {
            self.artifacts.unbounded_requests = bump(self.artifacts.unbounded_requests);
            Err(Stop::Crashed(SignalKind::OutOfMemory))
        }
    }

    /// Records an equality comparison, counted where an operand is not a number.
    pub fn note_comparison(&mut self, nan_operand: bool)
        ensures
            final(self)@ == (ProbeView {
                artifacts: Artifacts {
                    nan_comparisons: if nan_operand {
                        spec_bump(old(self)@.artifacts.nan_comparisons)
                    } else {
                        old(self)@.artifacts.nan_comparisons
                    },
                    ..old(self)@.artifacts
                },
                ..old(self)@
            }),
    {
        if nan_operand {
            self.artifacts.nan_comparisons = bump(self.artifacts.nan_comparisons);
        }
    }

    /// Records a path join, counted where the result lost its base.
    pub fn note_join(&mut self, keeps_base: bool)
        ensures
            final(self)@ == (ProbeView {
                artifacts: Artifacts {
                    base_escapes: if keeps_base {
                        old(self)@.artifacts.base_escapes
                    } else {
                        spec_bump(old(self)@.artifacts.base_escapes)
                    },
                    ..old(self)@.artifacts
                },
                ..old(self)@
            }),
    {
        if !keeps_base {
            self.artifacts.base_escapes = bump(self.artifacts.base_escapes);
        }
    }

    /// Records a call, counted where it resolved to another binding than
    /// the one a reader of the call site would expect.
    pub fn note_dispatch(&mut self, intended: u32, resolved: u32)
        ensures
            final(self)@ == (ProbeView {
                artifacts: Artifacts {
                    shadowed_bindings: if intended == resolved {
                        old(self)@.artifacts.shadowed_bindings
                    } else {
                        spec_bump(old(self)@.artifacts.shadowed_bindings)
                    },
                    ..old(self)@.artifacts
                },
                ..old(self)@
            }),
    {
        if intended != resolved {
            self.artifacts.shadowed_bindings = bump(self.artifacts.shadowed_bindings);
        }
    }

    /// Ends the run: the evidence gathered, with every block that is still
    /// live counted as a missed release.
    pub fn finish(self) -> (a: Artifacts)
        ensures
            a == spec_finish(self@),
    {
        let mut count: u32 = 0;
        let mut i: usize = 0;
        while i < self.blocks.len()
            invariant
                i <= self.blocks@.len(),
                count == spec_clip(spec_live_blocks(self.blocks@.take(i as int))),
            decreases self.blocks@.len() - i,
        {
            proof {
                lemma_live_blocks_step(self.blocks@, i as int);
            }
            if self.blocks[i].live {
                count = bump(count);
            }
            i = i + 1;
        }
        proof {
            assert(self.blocks@.take(i as int) =~= self.blocks@);
        }
        let a = self.artifacts;
        Artifacts {
            poisoned_accesses: a.poisoned_accesses,
            double_releases: a.double_releases,
            missed_releases: count,
            escaped_references: a.escaped_references,
            lock_reacquires: a.lock_reacquires,
            null_dereferences: a.null_dereferences,
            unbounded_requests: a.unbounded_requests,
            nan_comparisons: a.nan_comparisons,
            base_escapes: a.base_escapes,
            shadowed_bindings: a.shadowed_bindings,
        }
    }
}

/// What `release` makes of a probe and what it returns.
pub open spec fn spec_release(p: ProbeView, h: usize) -> (ProbeView, Result<(), Stop>) {
    if h >= p.blocks.len() {
        (p, Err(Stop::Crashed(SignalKind::SegmentationFault)))
    } else if !p.blocks[h as int].live {
        (
            ProbeView {
                artifacts: Artifacts {
                    double_releases: spec_bump(p.artifacts.double_releases),
                    ..p.artifacts
                },
                ..p
            },
            Err(Stop::Crashed(SignalKind::InvalidFree)),
        )
    } else {
        (
            ProbeView {
                blocks: p.blocks.update(h as int, Block { live: false, ..p.blocks[h as int] }),
                artifacts: Artifacts {
                    escaped_references: if p.blocks[h as int].stashed {
                        spec_bump(p.artifacts.escaped_references)
                    } else {
                        p.artifacts.escaped_references
                    },
                    ..p.artifacts
                },
                ..p
            },
            Ok(()),
        )
    }
}

/// What `read` makes of a probe and what it returns.
pub open spec fn spec_read(p: ProbeView, h: usize) -> (ProbeView, Result<u32, Stop>) {
    if h >= p.blocks.len() {
        (p, Err(Stop::Crashed(SignalKind::SegmentationFault)))
    } else if !p.blocks[h as int].live {
        (
            ProbeView {
                artifacts: Artifacts {
                    poisoned_accesses: spec_bump(p.artifacts.poisoned_accesses),
                    ..p.artifacts
                },
                ..p
            },
            Err(Stop::Crashed(SignalKind::SegmentationFault)),
        )
    } else {
        (p, Ok(p.blocks[h as int].value))
    }
}

/// What `deref_foreign` makes of a probe and what it returns.
pub open spec fn spec_deref_foreign(p: ProbeView, reference: Option<usize>) -> (
    ProbeView,
    Result<u32, Stop>,
) {
    match reference {
        None => (
            ProbeView {
                artifacts: Artifacts {
                    null_dereferences: spec_bump(p.artifacts.null_dereferences),
                    ..p.artifacts
                },
                ..p
            },
            Err(Stop::Crashed(SignalKind::SegmentationFault)),
        ),
        Some(h) => spec_read(p, h),
    }
}

/// What `acquire` makes of a probe and what it returns.
pub open spec fn spec_acquire(p: ProbeView) -> (ProbeView, Result<(), Stop>) {
    if p.depth == 0 {
        (ProbeView { depth: 1, ..p }, Ok(()))
    } else {
        let counted = Artifacts {
            lock_reacquires: spec_bump(p.artifacts.lock_reacquires),
            ..p.artifacts
        };
        match p.lock {
            LockKind::Reentrant => (
                ProbeView { depth: spec_bump(p.depth), artifacts: counted, ..p },
                Ok(()),
            ),
            LockKind::NonReentrant => (ProbeView { artifacts: counted, ..p }, Err(Stop::Blocked)),
        }
    }
}

/// What `request` makes of a probe and what it returns.
pub open spec fn spec_request(p: ProbeView, size: Option<usize>) -> (
    ProbeView,
    Result<(), Stop>,
) {
    if size is Some && size->0 <= p.budget {
        (p, Ok(()))
    } else {
        (
            ProbeView {
                artifacts: Artifacts {
                    unbounded_requests: spec_bump(p.artifacts.unbounded_requests),
                    ..p.artifacts
                },
                ..p
            },
            Err(Stop::Crashed(SignalKind::OutOfMemory)),
        )
    }
}

/// The evidence that `finish` hands out.
pub open spec fn spec_finish(p: ProbeView) -> Artifacts {
    Artifacts { missed_releases: spec_clip(spec_live_blocks(p.blocks)), ..p.artifacts }
}

} // verus!
