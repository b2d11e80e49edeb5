use vstd::prelude::*;
use vstd::arithmetic::div_mod::lemma_fundamental_div_mod_converse;
use crate::component::{routes_within, Emission, PipelineComponent, Route};
use crate::message::Message;

verus! {

/// How many of the first `len` messages a round-robin over `d` outputs,
/// starting at output 0, deals to output `i`.
pub open spec fn dealt_count(len: nat, d: nat, i: nat) -> nat {
    (len / d + if i < len % d { 1nat } else { 0nat }) as nat
}

/// Output `i` of a round-robin over `d` outputs, starting at output 0, of
/// the messages `xs`: those at positions `i`, `i + d`, `i + 2d`, ...
pub open spec fn dealt<A>(xs: Seq<A>, d: nat, i: nat) -> Seq<A> {
    Seq::new(dealt_count(xs.len(), d, i), |k: int| xs[i + k * d])
}

proof fn lemma_step(j: int, d: int)
    requires
        d > 0,
        j >= 0,
    ensures
        0 <= j % d < d,
        j == (j / d) * d + j % d,
        j % d + 1 < d ==> (j + 1) / d == j / d && (j + 1) % d == j % d + 1,
        j % d + 1 == d ==> (j + 1) / d == j / d + 1 && (j + 1) % d == 0,
{
    vstd::arithmetic::div_mod::lemma_fundamental_div_mod(j, d);
    vstd::arithmetic::div_mod::lemma_mod_bound(j, d);
    assert(j == (j / d) * d + j % d) by (nonlinear_arith)
        requires
            j == d * (j / d) + (j % d),
    ;
    if j % d + 1 < d {
        lemma_fundamental_div_mod_converse(j + 1, d, j / d, j % d + 1);
    } else {
        assert(j + 1 == (j / d + 1) * d + 0) by (nonlinear_arith)
            requires
                j == (j / d) * d + j % d,
                j % d + 1 == d,
        ;
        lemma_fundamental_div_mod_converse(j + 1, d, j / d + 1, 0);
    }
}

/// A round-robin over `d` outputs deals output `i` exactly ⌈(len − i) / d⌉
/// of `len` messages.
pub proof fn lemma_dealt_count(len: nat, d: nat, i: nat)
    requires
        d > 0,
        i < d,
    ensures
        dealt_count(len, d, i) == if len >= i { (len - i + d - 1) / (d as int) } else { 0 },
{
    lemma_step(len as int, d as int);
    let q = len as int / d as int;
    let r = len as int % d as int;
    if len >= i {
        if i < r {
            assert(len - i + d - 1 == (q + 1) * d + (r - i - 1)) by (nonlinear_arith)
                requires
                    len == q * d + r,
            ;
            lemma_fundamental_div_mod_converse(len - i + d - 1, d as int, q + 1, r - i - 1);
        } else {
            assert(len - i + d - 1 == q * d + (r - i + d - 1)) by (nonlinear_arith)
                requires
                    len == q * d + r,
            ;
            lemma_fundamental_div_mod_converse(len - i + d - 1, d as int, q, r - i + d - 1);
        }
    } else {
        assert(q == 0) by (nonlinear_arith)
            requires
                len == q * d + r,
                0 <= r < d,
                len < i,
                i < d,
                q >= 0,
        ;
        vstd::arithmetic::div_mod::lemma_div_pos_is_pos(len as int, d as int);
    }
}

/// A stage that deals its messages over the output senders of its context
/// in turn.
pub struct RoundRobinSplitter<T> {
    current_index: usize,
    _item: core::marker::PhantomData<T>,
}

impl<T> RoundRobinSplitter<T> {
    /// How many messages the splitter has dealt, modulo the word size.
    pub closed spec fn counter(&self) -> usize {
        self.current_index
    }

    pub fn new() -> (r: Self)
        ensures
            r.counter() == 0,
    {
        RoundRobinSplitter { current_index: 0, _item: core::marker::PhantomData }
    }

    /// The output the next message goes to, among `n_outputs`; advances the counter.
    pub fn next_index(&mut self, n_outputs: usize) -> (r: usize)
        requires
            n_outputs > 0,
        ensures
            r == old(self).counter() % n_outputs,
            final(self).counter() == (if old(self).counter() == usize::MAX { 0 } else { old(self).counter() + 1 }),
    {
        let idx = self.current_index % n_outputs;
        self.current_index = if self.current_index == usize::MAX { 0 } else { self.current_index + 1 };
        idx
    }

    /// Deals `msgs` over `d` outputs, starting from a counter of 0; returns
    /// what each output receives, in order.
    pub fn process_all(&mut self, msgs: Vec<Message<T>>, d: usize) -> (r: Vec<Vec<Message<T>>>)
        requires
            d > 0,
            old(self).counter() == 0,
        ensures
            r.len() == d,
            forall|i: int| 0 <= i < d ==> (#[trigger] r[i])@ == dealt(msgs@, d as nat, i as nat),
            final(self).counter() == msgs.len(),
    {
        let ghost all = msgs@;
        let mut r: Vec<Vec<Message<T>>> = Vec::new();
        let mut i: usize = 0;
        while i < d
            invariant
                i <= d,
                r.len() == i,
                forall|k: int| 0 <= k < i ==> (#[trigger] r[k])@.len() == 0,
            decreases d - i,
        {
            r.push(Vec::new());
            i = i + 1;
        }
        let mut rest = msgs;
        let mut j: usize = 0;
        let n = rest.len();
        proof {
            lemma_fundamental_div_mod_converse(0, d as int, 0, 0);
            assert forall|k: int| 0 <= k < d implies (#[trigger] r[k])@ == dealt(all.subrange(0, 0), d as nat, k as nat) by {
                assert(r[k]@ =~= dealt(all.subrange(0, 0), d as nat, k as nat));
            }
        }
        while rest.len() > 0
            invariant
                d > 0,
                all.len() == n,
                j + rest.len() == n,
                rest@ == all.subrange(j as int, n as int),
                self.counter() == j,
                r.len() == d,
                forall|k: int| 0 <= k < d ==> (#[trigger] r[k])@ == dealt(all.subrange(0, j as int), d as nat, k as nat),
            decreases rest.len(),
        {
            let m = rest.remove(0);
            proof {
                assert(m == all[j as int]);
                lemma_step(j as int, d as int);
            }
            let idx = self.next_index(d);
            let mut slot = Vec::new();
            std::mem::swap(&mut slot, &mut r[idx]);
            let ghost before = r@;
            let ghost old_slot = slot@;
            slot.push(m);
            r.set(idx, slot);
            j = j + 1;
            proof {
                assert(rest@ =~= all.subrange(j as int, n as int));
                let pre = all.subrange(0, j - 1);
                let cur = all.subrange(0, j as int);
                assert forall|k: int| 0 <= k < d implies (#[trigger] r[k])@ == dealt(cur, d as nat, k as nat) by {
                    if k == idx {
                        assert(dealt_count(cur.len(), d as nat, k as nat) == dealt_count(pre.len(), d as nat, k as nat) + 1);
                    } else {
                        assert(dealt_count(cur.len(), d as nat, k as nat) == dealt_count(pre.len(), d as nat, k as nat));
                    }
                    assert forall|t: int| 0 <= t < dealt_count(pre.len(), d as nat, k as nat) implies
                        #[trigger] dealt(pre, d as nat, k as nat)[t] == dealt(cur, d as nat, k as nat)[t] by {
                        assert(k + t * d < pre.len()) by {
                            lemma_dealt_bound(pre.len() as int, d as int, k, t);
                        }
                    }
                    if k == idx {
                        assert(j - 1 == k + ((j - 1) / (d as int)) * d);
                        assert(r[k]@ =~= dealt(cur, d as nat, k as nat));
                    } else {
                        assert(r[k]@ == before[k]@);
                        assert(r[k]@ =~= dealt(cur, d as nat, k as nat));
                    }
                }
            }
        }
        proof {
            assert(all.subrange(0, n as int) =~= all);
        }
        r
    }
}

/// Position `k + t * d` is among the first `len` when `t` is below the
/// number dealt to output `k`.
proof fn lemma_dealt_bound(len: int, d: int, k: int, t: int)
    requires
        len >= 0,
        d > 0,
        0 <= k < d,
        0 <= t < dealt_count(len as nat, d as nat, k as nat),
    ensures
        k + t * d < len,
{
    lemma_step(len, d);
    let q = len / d;
    let r = len % d;
    if k < r {
        assert(t <= q);
        assert(k + t * d < len) by (nonlinear_arith)
            requires
                t <= q,
                k < r,
                len == q * d + r,
                d > 0,
        ;
    } else {
        assert(t < q);
        assert(k + t * d < len) by (nonlinear_arith)
            requires
                t < q,
                k < d,
                len == q * d + r,
                r >= 0,
                d > 0,
        ;
    }
}

impl<T: Send + Sync + 'static> PipelineComponent for RoundRobinSplitter<T> {
    type Input = T;
    type Output = T;

    /// One input and more than one output.
    open spec fn shape_ok(&self, n_inputs: nat, n_outputs: nat) -> bool {
        n_inputs == 1 && n_outputs > 1
    }

    fn accepts(&self, n_inputs: usize, n_outputs: usize) -> (r: bool) {
        n_inputs == 1 && n_outputs > 1
    }

    fn on_start(&mut self, n_inputs: usize, n_outputs: usize) -> (r: Vec<Emission<T>>) {
        Vec::new()
    }

    /// Sends `msg` to the output the counter points at, and advances the counter.
    fn on_message(&mut self, msg: Message<T>, n_inputs: usize, n_outputs: usize) -> (r: Vec<Emission<T>>)
        ensures
            r@ == seq![
                Emission { route: Route::Slot((old(self).counter() % n_outputs) as usize), message: msg },
            ],
            final(self).counter() == (if old(self).counter() == usize::MAX { 0 } else { old(self).counter() + 1 }),
    {
        let mut r: Vec<Emission<T>> = Vec::new();
        let idx = self.next_index(n_outputs);
        r.push(Emission { route: Route::Slot(idx), message: msg });
        proof {
            assert(routes_within(r@, n_outputs as nat));
        }
        r
    }

    fn on_end(&mut self, n_inputs: usize, n_outputs: usize) -> (r: Vec<Emission<T>>) {
        Vec::new()
    }
}

/// A stage that forwards everything it receives to the one output sender of
/// its context.
pub struct Merger<T> {
    _item: core::marker::PhantomData<T>,
}

impl<T> Merger<T> {
    pub fn new() -> (r: Self) {
        Merger { _item: core::marker::PhantomData }
    }
}

impl<T: Send + Sync + 'static> PipelineComponent for Merger<T> {
    type Input = T;
    type Output = T;

    /// More than one input and exactly one output.
    open spec fn shape_ok(&self, n_inputs: nat, n_outputs: nat) -> bool {
        n_inputs > 1 && n_outputs == 1
    }

    fn accepts(&self, n_inputs: usize, n_outputs: usize) -> (r: bool) {
        n_inputs > 1 && n_outputs == 1
    }

    fn on_start(&mut self, n_inputs: usize, n_outputs: usize) -> (r: Vec<Emission<T>>) {
        Vec::new()
    }

    /// Forwards `msg`, unchanged, to the one output of the context.
    fn on_message(&mut self, msg: Message<T>, n_inputs: usize, n_outputs: usize) -> (r: Vec<Emission<T>>)
        ensures
            r@ == seq![Emission { route: Route::Slot(0), message: msg }],
    {
        let mut r: Vec<Emission<T>> = Vec::new();
        r.push(Emission { route: Route::Slot(0), message: msg });
        proof {
            assert(routes_within(r@, n_outputs as nat));
        }
        r
    }

    fn on_end(&mut self, n_inputs: usize, n_outputs: usize) -> (r: Vec<Emission<T>>) {
        Vec::new()
    }
}

} // verus!
