//! Shared context state and the thread-bound ownership wrappers.
//!
//! The native rendering context is implicitly bound to one thread and is
//! shared by every component of the backend.  This module makes both
//! facts explicit: a `ShareCell` owns the shared state together with its
//! strong-reference count and the identity of the owning thread, and the
//! wrappers `Starc` (strong) and `Wstarc` (weak) are move-only tokens
//! that stand for one reference each.  Because neither token is `Clone`,
//! the number of live `Starc` (respectively `Wstarc`) tokens minted for
//! a cell equals the cell's strong (respectively weak) count as long as
//! every token is created and retired through the operations below.
//! The shared value's lifetime follows the strong count alone: weak
//! wrappers neither keep it alive nor block `try_unwrap`, they only
//! block the exclusive access of `get_mut`.
//!
//! Thread identities are plain numbers chosen by the embedding program,
//! which maps each real thread to one such number; the contracts only
//! ever compare them for equality.

use vstd::prelude::*;

use crate::error::Error;
use crate::error::GL_NO_ERROR;
use crate::error::spec_from_error_code;
use crate::info::Info;
use crate::info::Limits;
use crate::info::PrivateCaps;

verus! {

/// Model of the loaded native function table: the handle the embedding
/// program associates with the one real context.
#[derive(Copy, Clone, Debug, PartialEq, Eq, Structural)]
pub struct GlContainer {
    pub context: u64,
}

impl GlContainer {
    /// Make the context current on the calling thread.  The backend
    /// relies on the embedding program keeping the context current on
    /// its owning thread, so there is nothing left to do here.
    pub fn make_current(&self) {
    }
}

/// The data shared between the physical and the logical device: the
/// native context, the capability registry, and the flag that records
/// whether a logical device is currently open.
#[derive(Clone, Debug)]
pub struct Share {
    pub context: GlContainer,
    pub info: Info,
    /// Supported feature bits.
    pub features: u64,
    /// Supported legacy-feature bits.
    pub legacy_features: u32,
    pub limits: Limits,
    pub private_caps: PrivateCaps,
    /// Whether a logical device is currently open on this context.
    pub open: bool,
}

impl Share {
    /// Classify the native error flag read from this context.  The
    /// embedding program reads the flag (a native call) and hands the
    /// raw code in; diagnostics builds call this on every checkpoint,
    /// release builds skip the call entirely.
    pub fn check(&self, error_code: u32) -> (r: Result<(), Error>)
        ensures
            error_code == GL_NO_ERROR <==> r is Ok,
            error_code != GL_NO_ERROR ==> (r matches Err(e) && e == spec_from_error_code(
                error_code,
            )),
    {
        let err = Error::from_error_code(error_code);
        if err != Error::NoError {
            return Err(err);
        }
        Ok(())
    }
}

/// One shared allocation: the `Share` value, its strong- and
/// weak-reference counts, the identity of the thread that created it,
/// and a number distinguishing this cell from any other.
pub struct ShareCell {
    id: u64,
    thread: u64,
    strong: u64,
    weak: u64,
    value: Option<Share>,
}

impl ShareCell {
    /// The number distinguishing this cell.
    pub closed spec fn cell_id(&self) -> u64 {
        self.id
    }

    /// The identity of the owning thread.
    pub closed spec fn owner_thread(&self) -> u64 {
        self.thread
    }

    /// How many strong wrappers are live.
    pub closed spec fn strong_count(&self) -> u64 {
        self.strong
    }

    /// How many weak wrappers are live.
    pub closed spec fn weak_count(&self) -> u64 {
        self.weak
    }

    /// The shared value, present while at least one strong wrapper
    /// lives.
    pub closed spec fn contents(&self) -> Option<Share> {
        self.value
    }

    /// The cell's invariant: the value is present exactly while a
    /// strong wrapper is.
    pub open spec fn wf(&self) -> bool {
        self.strong_count() >= 1 <==> self.contents() is Some
    }

    pub(crate) fn set_open(&mut self, open: bool)
        requires
            old(self).wf(),
            old(self).contents() is Some,
        ensures
            final(self).cell_id() == old(self).cell_id(),
            final(self).owner_thread() == old(self).owner_thread(),
            final(self).strong_count() == old(self).strong_count(),
            final(self).weak_count() == old(self).weak_count(),
            final(self).contents() == Some(
                Share { open, ..old(self).contents()->Some_0 },
            ),
            final(self).wf(),
    {
        match &mut self.value {
            Some(share) => {
                share.open = open;
            },
            None => {
                proof {
                    assert(false);
                }
            },
        }
    }

    /// Exec view of the strong count.
    pub fn strong(&self) -> (r: u64)
        ensures
            r == self.strong_count(),
    {
        self.strong
    }

    /// Exec view of the weak count.
    pub fn weak(&self) -> (r: u64)
        ensures
            r == self.weak_count(),
    {
        self.weak
    }
}

/// Strong, thread-bound wrapper: one counted reference to a `ShareCell`.
/// It may be moved freely between threads, but the shared value may only
/// be reached through it on the owning thread.
#[derive(Debug)]
pub struct Starc {
    id: u64,
    thread: u64,
}

/// Weak, thread-bound wrapper: refers to the same cell without keeping
/// the shared value alive.
#[derive(Debug)]
pub struct Wstarc {
    id: u64,
    thread: u64,
}

impl Starc {
    /// Which cell this wrapper refers to.
    pub closed spec fn share_id(&self) -> u64 {
        self.id
    }

    /// The thread identity captured at creation.
    pub closed spec fn thread_id(&self) -> u64 {
        self.thread
    }

    /// This wrapper refers to `cell`.
    pub open spec fn refers_to(&self, cell: ShareCell) -> bool {
        self.share_id() == cell.cell_id() && self.thread_id() == cell.owner_thread()
    }

    /// Create the cell and its first strong wrapper.  `thread` is the
    /// identity of the creating thread; `id` distinguishes the new cell
    /// from every other cell the embedding program creates.
    pub fn new(value: Share, id: u64, thread: u64) -> (r: (ShareCell, Starc))
        ensures
            r.0.cell_id() == id,
            r.0.owner_thread() == thread,
            r.0.strong_count() == 1,
            r.0.weak_count() == 0,
            r.0.contents() == Some(value),
            r.0.wf(),
            r.1.refers_to(r.0),
    {
        (ShareCell { id, thread, strong: 1, weak: 0, value: Some(value) }, Starc { id, thread })
    }

    /// Mint one more strong wrapper for the same cell.  The count goes
    /// up by one; the new wrapper carries the same thread identity.
    pub fn duplicate(&self, cell: &mut ShareCell) -> (r: Starc)
        requires
            self.refers_to(*old(cell)),
            old(cell).wf(),
            1 <= old(cell).strong_count() < u64::MAX,
        ensures
            final(cell).cell_id() == old(cell).cell_id(),
            final(cell).owner_thread() == old(cell).owner_thread(),
            final(cell).strong_count() == old(cell).strong_count() + 1,
            final(cell).weak_count() == old(cell).weak_count(),
            final(cell).contents() == old(cell).contents(),
            final(cell).wf(),
            r.refers_to(*final(cell)),
            r.thread_id() == self.thread_id(),
    {
        cell.strong = cell.strong + 1;
        Starc { id: self.id, thread: self.thread }
    }

    /// Retire a strong wrapper.  The count goes down by one; when the
    /// last strong wrapper goes, the shared value is dropped.
    pub fn release(self, cell: &mut ShareCell)
        requires
            self.refers_to(*old(cell)),
            old(cell).wf(),
            old(cell).strong_count() >= 1,
        ensures
            final(cell).cell_id() == old(cell).cell_id(),
            final(cell).owner_thread() == old(cell).owner_thread(),
            final(cell).strong_count() == old(cell).strong_count() - 1,
            final(cell).weak_count() == old(cell).weak_count(),
            old(cell).strong_count() == 1 ==> final(cell).contents() is None,
            old(cell).strong_count() > 1 ==> final(cell).contents() == old(cell).contents(),
            final(cell).wf(),
    {
        cell.strong = cell.strong - 1;
        if cell.strong == 0 {
            cell.value = None;
        }
    }

    /// Take the shared value out if this is the last strong wrapper —
    /// live weak wrappers do not stand in the way, they are left
    /// dangling as the value goes — otherwise hand the wrapper back
    /// unchanged, the cell untouched.
    pub fn try_unwrap(self, cell: &mut ShareCell) -> (r: Result<Share, Starc>)
        requires
            self.refers_to(*old(cell)),
            old(cell).wf(),
            old(cell).strong_count() >= 1,
        ensures
            final(cell).cell_id() == old(cell).cell_id(),
            final(cell).owner_thread() == old(cell).owner_thread(),
            final(cell).weak_count() == old(cell).weak_count(),
            old(cell).strong_count() == 1 ==> {
                &&& r matches Ok(v) && Some(v) == old(cell).contents()
                &&& final(cell).strong_count() == 0
                &&& final(cell).contents() is None
            },
            old(cell).strong_count() > 1 ==> {
                &&& r matches Err(s) && s.refers_to(*final(cell)) && s.thread_id()
                    == self.thread_id()
                &&& *final(cell) == *old(cell)
            },
            final(cell).wf(),
    {
        if cell.strong == 1 {
            cell.strong = 0;
            let value = cell.value.take();
            match value {
                Some(v) => Ok(v),
                None => {
                    proof {
                        assert(false);
                    }
                    Err(self)
                },
            }
        } else {
            Err(self)
        }
    }

    /// Produce the weak counterpart, carrying the same thread
    /// identity.  The weak count goes up by one; the strong count and
    /// the shared value are untouched.
    pub fn downgrade(this: &Starc, cell: &mut ShareCell) -> (r: Wstarc)
        requires
            this.refers_to(*old(cell)),
            old(cell).wf(),
            old(cell).weak_count() < u64::MAX,
        ensures
            final(cell).cell_id() == old(cell).cell_id(),
            final(cell).owner_thread() == old(cell).owner_thread(),
            final(cell).strong_count() == old(cell).strong_count(),
            final(cell).weak_count() == old(cell).weak_count() + 1,
            final(cell).contents() == old(cell).contents(),
            final(cell).wf(),
            r.share_id() == this.share_id(),
            r.thread_id() == this.thread_id(),
    {
        cell.weak = cell.weak + 1;
        Wstarc { id: this.id, thread: this.thread }
    }

    /// Reach the shared value.  This is the thread-affinity gate: the
    /// caller passes the identity of the thread it runs on, and the
    /// contract demands that it equal the identity captured at
    /// creation.  Calling it from any other thread is a contract
    /// violation, which `try_deref` detects instead of excluding.
    pub fn deref_on<'a>(&self, cell: &'a ShareCell, current_thread: u64) -> (r: &'a Share)
        requires
            self.refers_to(*cell),
            cell.wf(),
            cell.strong_count() >= 1,
            current_thread == self.thread_id(),
        ensures
            Some(*r) == cell.contents(),
    {
        match &cell.value {
            Some(v) => v,
            None => {
                proof {
                    assert(false);
                }
                unreached()
            },
        }
    }

    /// Checked access: the shared value on the owning thread, nothing
    /// on any other thread.
    pub fn try_deref<'a>(&self, cell: &'a ShareCell, current_thread: u64) -> (r: Option<&'a Share>)
        requires
            self.refers_to(*cell),
            cell.wf(),
            cell.strong_count() >= 1,
        ensures
            current_thread == self.thread_id() <==> r is Some,
            r matches Some(v) ==> Some(*v) == cell.contents(),
    {
        if current_thread == self.thread {
            Some(self.deref_on(cell, current_thread))
        } else {
            None
        }
    }

    /// Exclusive access to the shared value: available only to the
    /// sole strong wrapper, and only while no weak wrapper is live —
    /// a weak wrapper could be upgraded and observe the mutation.
    pub fn get_mut<'a>(this: &Starc, cell: &'a mut ShareCell) -> (r: Option<&'a mut Share>)
        requires
            this.refers_to(*old(cell)),
            old(cell).wf(),
            old(cell).strong_count() >= 1,
        ensures
            (old(cell).strong_count() == 1 && old(cell).weak_count() == 0) <==> r is Some,
            r matches Some(v) ==> {
                &&& Some(*v) == old(cell).contents()
                &&& final(cell).cell_id() == old(cell).cell_id()
                &&& final(cell).owner_thread() == old(cell).owner_thread()
                &&& final(cell).strong_count() == old(cell).strong_count()
                &&& final(cell).weak_count() == old(cell).weak_count()
                &&& final(cell).contents() == Some(*final(v))
                &&& final(cell).wf()
            },
            r is None ==> *final(cell) == *old(cell),
    {
        if cell.strong == 1 && cell.weak == 0 {
            match &mut cell.value {
                Some(v) => Some(v),
                None => {
                    proof {
                        assert(false);
                    }
                    None
                },
            }
        } else {
            None
        }
    }
}

impl Wstarc {
    /// Which cell this weak wrapper refers to.
    pub closed spec fn share_id(&self) -> u64 {
        self.id
    }

    /// The thread identity captured at creation.
    pub closed spec fn thread_id(&self) -> u64 {
        self.thread
    }

    /// This weak wrapper refers to `cell`.
    pub open spec fn refers_to(&self, cell: ShareCell) -> bool {
        self.share_id() == cell.cell_id() && self.thread_id() == cell.owner_thread()
    }

    /// Retire a weak wrapper.  The weak count goes down by one; the
    /// strong count and the shared value are untouched.
    pub fn release(self, cell: &mut ShareCell)
        requires
            self.refers_to(*old(cell)),
            old(cell).wf(),
            old(cell).weak_count() >= 1,
        ensures
            final(cell).cell_id() == old(cell).cell_id(),
            final(cell).owner_thread() == old(cell).owner_thread(),
            final(cell).strong_count() == old(cell).strong_count(),
            final(cell).weak_count() == old(cell).weak_count() - 1,
            final(cell).contents() == old(cell).contents(),
            final(cell).wf(),
    {
        cell.weak = cell.weak - 1;
    }

    /// Regain a strong wrapper while at least one other strong wrapper
    /// keeps the value alive; nothing once the last one is gone.
    pub fn upgrade(&self, cell: &mut ShareCell) -> (r: Option<Starc>)
        requires
            self.share_id() == old(cell).cell_id(),
            self.thread_id() == old(cell).owner_thread(),
            old(cell).wf(),
            old(cell).strong_count() < u64::MAX,
        ensures
            final(cell).cell_id() == old(cell).cell_id(),
            final(cell).owner_thread() == old(cell).owner_thread(),
            final(cell).weak_count() == old(cell).weak_count(),
            old(cell).strong_count() >= 1 ==> {
                &&& r matches Some(s) && s.refers_to(*final(cell)) && s.thread_id()
                    == self.thread_id()
                &&& final(cell).strong_count() == old(cell).strong_count() + 1
                &&& final(cell).contents() == old(cell).contents()
                &&& final(cell).wf()
            },
            old(cell).strong_count() == 0 ==> r is None && *final(cell) == *old(cell),
    {
        if cell.strong >= 1 {
            cell.strong = cell.strong + 1;
            Some(Starc { id: self.id, thread: self.thread })
        } else {
            None
        }
    }
}

} // verus!
