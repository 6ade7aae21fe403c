use vstd::prelude::*;
use crate::runtime::Runtime;

verus! {

/// A finalization that the owner of the native handles must perform now.
#[derive(Clone, Copy, Debug, PartialEq, Eq, Structural)]
pub enum Release {
    DestroyContext { context: usize },
    FinishEngine { engine: usize },
}

/// Shared ownership of one facade's engine and context.
///
/// Every live copy of the facade holds one reference to the engine and one
/// to the context; the context, while it lives, holds one more reference to
/// the engine. A handle is finalized when its last reference goes.
pub struct Ownership {
    pub handles: Runtime,
    /// Live copies of the facade.
    pub facades: u64,
    pub engine_refs: u64,
    pub context_refs: u64,
}

/// What releasing one of `facades` live copies hands back for finalization.
pub open spec fn released_by(handles: Runtime, facades: nat) -> Seq<Release> {
    if facades == 1 {
        seq![
            Release::DestroyContext { context: handles.cx.ptr },
            Release::FinishEngine { engine: handles.rt.ptr },
        ]
    } else {
        seq![]
    }
}

/// Everything that releasing `k` of `facades` live copies, one after the
/// other, hands back.
pub open spec fn released_by_many(handles: Runtime, facades: nat, k: nat) -> Seq<Release>
    decreases k,
{
    if k == 0 || facades == 0 {
        seq![]
    } else {
        released_by(handles, facades) + released_by_many(handles, (facades - 1) as nat, (k - 1) as nat)
    }
}

impl Ownership {
    pub open spec fn context_live(&self) -> bool {
        self.context_refs > 0
    }

    pub open spec fn engine_live(&self) -> bool {
        self.engine_refs > 0
    }

    pub open spec fn wf(&self) -> bool {
        &&& self.handles.wf()
        &&& self.context_refs == self.facades
        &&& self.engine_refs == self.facades + (if self.context_live() { 1int } else { 0int })
    }

    /// Takes ownership of a freshly built facade, held by one copy.
    pub fn new(handles: Runtime) -> (r: Ownership)
        requires
            handles.wf(),
        ensures
            r.wf(),
            r.handles == handles,
            r.facades == 1,
    {
        Ownership { handles, facades: 1, engine_refs: 2, context_refs: 1 }
    }

    /// Records one more copy of the facade. Nothing is created: the copy
    /// shares the engine and the context.
    pub fn share(&mut self)
        requires
            old(self).wf(),
            old(self).facades > 0,
            old(self).engine_refs < u64::MAX,
        ensures
            final(self).wf(),
            final(self).handles == old(self).handles,
            final(self).facades == old(self).facades + 1,
    {
        self.engine_refs = self.engine_refs + 1;
        self.context_refs = self.context_refs + 1;
        self.facades = self.facades + 1;
    }

    /// Records that one copy of the facade is gone, and returns what must be
    /// finalized now, in that order.
    ///
    /// The copy lets go of its engine reference first, then of its context
    /// reference; the context, once destroyed, lets go of the engine.
    pub fn release(&mut self) -> (r: Vec<Release>)
        requires
            old(self).wf(),
            old(self).facades > 0,
        ensures
            final(self).wf(),
            final(self).handles == old(self).handles,
            final(self).facades == old(self).facades - 1,
            r@ == released_by(old(self).handles, old(self).facades as nat),
    {
        let mut out: Vec<Release> = Vec::new();
        self.facades = self.facades - 1;
        // The context still holds the engine, so this never reaches zero.
        self.engine_refs = self.engine_refs - 1;
        assert(self.engine_refs > 0);
        self.context_refs = self.context_refs - 1;
        if self.context_refs == 0 {
            out.push(Release::DestroyContext { context: self.handles.cx.ptr });
            self.engine_refs = self.engine_refs - 1;
            if self.engine_refs == 0 {
                out.push(Release::FinishEngine { engine: self.handles.rt.ptr });
            }
        }
        out
    }
}

/// The engine is never finalized while its context lives: a well-formed
/// ledger whose engine has no reference left has no live context either,
/// and a live facade keeps both alive.
pub proof fn lemma_engine_outlives_context(o: Ownership)
    requires
        o.wf(),
    ensures
        o.context_live() ==> o.engine_live(),
        o.facades > 0 ==> o.context_live() && o.engine_live(),
        o.facades == 0 ==> !o.context_live() && !o.engine_live(),
{
}

/// Releasing the copies of a facade one after the other finalizes nothing
/// while a copy is left, and when the last one goes finalizes the context
/// and then the engine, each once: whichever copy goes last.
pub proof fn lemma_release_all(handles: Runtime, facades: nat, k: nat)
    requires
        k <= facades,
    ensures
        k < facades ==> released_by_many(handles, facades, k) == Seq::<Release>::empty(),
        k == facades && facades > 0 ==> released_by_many(handles, facades, k) == seq![
            Release::DestroyContext { context: handles.cx.ptr },
            Release::FinishEngine { engine: handles.rt.ptr },
        ],
    decreases k,
{
    if k > 0 {
        lemma_release_all(handles, (facades - 1) as nat, (k - 1) as nat);
        if facades == 1 {
            assert(released_by_many(handles, 0, 0) == Seq::<Release>::empty());
            assert(released_by(handles, 1) + Seq::<Release>::empty() == released_by(handles, 1));
        } else {
            assert(released_by(handles, facades) == Seq::<Release>::empty());
            assert(Seq::<Release>::empty() + released_by_many(handles, (facades - 1) as nat, (k - 1) as nat)
                == released_by_many(handles, (facades - 1) as nat, (k - 1) as nat));
        }
    }
}

/// A copy of a facade outlives the facade it was made from: sharing a live facade and then
/// releasing one copy finalizes nothing and leaves both handles alive.
pub proof fn lemma_copy_outlives_source(o: Ownership, shared: Ownership, after: Ownership)
    requires
        o.wf(),
        o.facades > 0,
        shared.wf(),
        shared.handles == o.handles,
        shared.facades == o.facades + 1,
        after.wf(),
        after.handles == shared.handles,
        after.facades == shared.facades - 1,
    ensures
        released_by(shared.handles, shared.facades as nat) == Seq::<Release>::empty(),
        after.context_live() && after.engine_live(),
        after.handles == o.handles,
{
}

} // verus!
