use vstd::prelude::*;

verus! {

/// One switch of a context into the compartment of a target object, from
/// the native enter call to the native leave call.
///
/// The token that the enter call returned is handed out for leaving once,
/// and only once, however often `leave` is asked.
pub struct CompartmentCall {
    pub context: usize,
    pub target: usize,
    pub pending: Option<usize>,
}

impl CompartmentCall {
    /// Records a switch that the native enter call has just made.
    pub fn entered(context: usize, target: usize, token: usize) -> (r: CompartmentCall)
        ensures
            r.context == context,
            r.target == target,
            r.pending == Some(token),
    {
        CompartmentCall { context, target, pending: Some(token) }
    }

    /// Whether the switch still has to be left.
    pub fn is_inside(&self) -> (r: bool)
        ensures
            r == self.pending is Some,
    {
        self.pending.is_some()
    }

    /// The token to hand to the native leave call, if that call is still
    /// owed; afterwards nothing is owed.
    pub fn leave(&mut self) -> (r: Option<usize>)
        ensures
            r == old(self).pending,
            final(self).pending is None,
            final(self).context == old(self).context,
            final(self).target == old(self).target,
    {
        self.pending.take()
    }
}

/// The tokens that `k` requests to leave hand out, one after the other,
/// starting from a switch whose pending token is `pending`.
pub open spec fn tokens_handed_out(pending: Option<usize>, k: nat) -> Seq<usize>
    decreases k,
{
    if k == 0 {
        seq![]
    } else {
        let first = match pending {
            Some(t) => seq![t],
            None => seq![],
        };
        first + tokens_handed_out(None, (k - 1) as nat)
    }
}

/// However many times leaving is asked for, on whatever path out of the
/// compartment, a switch is left exactly once, with the token that entering
/// gave.
pub proof fn lemma_left_exactly_once(token: usize, k: nat)
    requires
        k >= 1,
    ensures
        tokens_handed_out(Some(token), k) == seq![token],
    decreases k,
{
    lemma_nothing_after_leaving((k - 1) as nat);
    assert(seq![token] + Seq::<usize>::empty() == seq![token]);
}

/// Once left, a switch hands out no further token.
pub proof fn lemma_nothing_after_leaving(k: nat)
    ensures
        tokens_handed_out(None, k) == Seq::<usize>::empty(),
    decreases k,
{
    if k > 0 {
        lemma_nothing_after_leaving((k - 1) as nat);
        assert(Seq::<usize>::empty() + Seq::<usize>::empty() == Seq::<usize>::empty());
    }
}

} // verus!
