use vstd::prelude::*;
use crate::component::{emit_one, to_output, Emission, PipelineComponent};
use crate::message::{payloads, Message};

verus! {

/// A stateful stage that folds every payload into an accumulator and emits
/// a copy of the accumulator after each step, stamped with the current time.
#[verifier::reject_recursive_types(I)]
#[verifier::reject_recursive_types(O)]
pub struct Reduce<I, O, G: Fn(O, I) -> O> {
    reducer: G,
    current_value: O,
    initial_value: O,
    _input: core::marker::PhantomData<I>,
}

impl<I, O: Clone, G: Fn(O, I) -> O + Clone> Reduce<I, O, G> {
    /// A reduce stage for one more replica: a copy of the reducer, with an
    /// accumulator of its own that starts again from the initial value.
    pub fn replica(&self) -> (r: Self)
        ensures
            cloned(self.reducer(), r.reducer()),
            cloned(self.initial(), r.current()),
            cloned(self.initial(), r.initial()),
    {
        Reduce {
            reducer: self.reducer.clone(),
            current_value: self.initial_value.clone(),
            initial_value: self.initial_value.clone(),
            _input: core::marker::PhantomData,
        }
    }
}

/// `states` is a run of `g` over `xs`: each state comes from the one before
/// it and the next element of `xs`.
pub open spec fn is_run<I, O, G: Fn(O, I) -> O>(g: G, xs: Seq<I>, states: Seq<O>) -> bool {
    &&& states.len() == xs.len() + 1
    &&& forall|i: int| 0 <= i < xs.len() ==> call_ensures(g, (states[i], xs[i]), #[trigger] states[i + 1])
}

impl<I, O: Clone, G: Fn(O, I) -> O> Reduce<I, O, G> {
    pub closed spec fn reducer(&self) -> G {
        self.reducer
    }

    /// The accumulator.
    pub closed spec fn current(&self) -> O {
        self.current_value
    }

    /// The value the accumulator started from.
    pub closed spec fn initial(&self) -> O {
        self.initial_value
    }

    /// The reducer can be called on every accumulator and payload.
    pub open spec fn total(&self) -> bool {
        forall|a: O, x: I| call_requires(self.reducer(), (a, x))
    }

    pub fn new(initial: O, reducer: G) -> (r: Self)
        ensures
            r.current() == initial,
            cloned(initial, r.initial()),
            r.reducer() == reducer,
    {
        let start = initial.clone();
        Reduce { reducer, current_value: initial, initial_value: start, _input: core::marker::PhantomData }
    }

    /// A copy of the accumulator.
    pub fn get_result(&self) -> (r: O)
        ensures
            cloned(self.current(), r),
    {
        self.current_value.clone()
    }

    /// Folds the payload of `msg` into the accumulator and returns a copy of
    /// the new accumulator in a message stamped now.
    pub fn apply(&mut self, msg: Message<I>) -> (r: Message<O>)
        requires
            old(self).total(),
        ensures
            final(self).reducer() == old(self).reducer(),
            final(self).initial() == old(self).initial(),
            call_ensures(old(self).reducer(), (old(self).current(), msg.payload), final(self).current()),
            cloned(final(self).current(), r.payload),
            r.event_timestamp == r.ingestion_timestamp,
            r.source_id.is_none(),
    {
        // Take the accumulator out, leaving a copy in its place.
        let mut acc = self.current_value.clone();
        std::mem::swap(&mut acc, &mut self.current_value);
        proof {
            assert(call_requires(old(self).reducer(), (acc, msg.payload)));
        }
        let next = (self.reducer)(acc, msg.payload);
        let out = next.clone();
        self.current_value = next;
        Message::new(out)
    }

    /// Folds every message of `msgs` in order, and returns the copy of the
    /// accumulator emitted after each one.
    pub fn process_all(&mut self, msgs: Vec<Message<I>>) -> (r: Vec<Message<O>>)
        requires
            old(self).total(),
        ensures
            final(self).reducer() == old(self).reducer(),
            r.len() == msgs.len(),
            exists|states: Seq<O>| {
                &&& is_run(old(self).reducer(), payloads(msgs@), states)
                &&& states[0] == old(self).current()
                &&& states.last() == final(self).current()
                &&& forall|i: int| 0 <= i < r.len() ==> cloned(states[i + 1], #[trigger] r[i].payload)
            },
            forall|i: int| 0 <= i < r.len() ==> {
                &&& (#[trigger] r[i]).event_timestamp == r[i].ingestion_timestamp
                &&& r[i].source_id.is_none()
            },
    {
        let ghost all = msgs@;
        let ghost mut states = seq![self.current()];
        let mut rest = msgs;
        let mut r: Vec<Message<O>> = Vec::new();
        while rest.len() > 0
            invariant
                self.total(),
                self.reducer() == old(self).reducer(),
                r.len() + rest.len() == all.len(),
                rest@ == all.subrange(r.len() as int, all.len() as int),
                is_run(self.reducer(), payloads(all.subrange(0, r.len() as int)), states),
                states[0] == old(self).current(),
                states.last() == self.current(),
                forall|i: int| 0 <= i < r.len() ==> cloned(states[i + 1], #[trigger] r[i].payload),
                forall|i: int| 0 <= i < r.len() ==> {
                    &&& (#[trigger] r[i]).event_timestamp == r[i].ingestion_timestamp
                    &&& r[i].source_id.is_none()
                },
            decreases rest.len(),
        {
            let m = rest.remove(0);
            proof {
                assert(m == all[r.len() as int]);
            }
            let ghost x = m.payload;
            let ghost k = r.len() as int;
            let out = self.apply(m);
            r.push(out);
            proof {
                let prev = states;
                states = states.push(self.current());
                assert(payloads(all.subrange(0, k + 1)) =~= payloads(all.subrange(0, k)).push(x));
                assert forall|i: int| 0 <= i < k + 1 implies call_ensures(
                    self.reducer(),
                    (states[i], payloads(all.subrange(0, k + 1))[i]),
                    #[trigger] states[i + 1],
                ) by {
                    if i < k {
                        assert(states[i] == prev[i]);
                        assert(states[i + 1] == prev[i + 1]);
                        assert(payloads(all.subrange(0, k + 1))[i] == payloads(all.subrange(0, k))[i]);
                    }
                }
                assert(rest@ =~= all.subrange(r.len() as int, all.len() as int));
            }
        }
        proof {
            assert(all.subrange(0, r.len() as int) =~= all);
        }
        r
    }
}

/// The sum of the first `n` elements of `xs`.
pub open spec fn prefix_sum(xs: Seq<int>, n: int) -> int
    decreases n,
{
    if n <= 0 || n > xs.len() {
        0
    } else {
        prefix_sum(xs, n - 1) + xs[n - 1]
    }
}

/// The values of `xs` as mathematical integers.
pub open spec fn widen_i64(xs: Seq<i64>) -> Seq<int> {
    xs.map_values(|x: i64| x as int)
}

/// The values of `xs` as mathematical integers.
pub open spec fn widen_i32(xs: Seq<i32>) -> Seq<int> {
    xs.map_values(|x: i32| x as int)
}

/// A reduce stage that sums, started at 0, emits the running sums of its
/// inputs: after the `i`-th input, the sum of the first `i` inputs (as long
/// as every running sum fits in an `i64`).
pub proof fn lemma_sum_reduce<G: Fn(i64, i64) -> i64>(g: G, msgs: Seq<Message<i64>>, outs: Seq<Message<i64>>)
    requires
        forall|a: i64, x: i64, r: i64|
            call_ensures(g, (a, x), r) && i64::MIN <= a + x <= i64::MAX ==> r == a + x,
        forall|k: int| 0 <= k <= msgs.len() ==> i64::MIN <= #[trigger] prefix_sum(widen_i64(payloads(msgs)), k) <= i64::MAX,
        outs.len() == msgs.len(),
        exists|states: Seq<i64>| {
            &&& is_run(g, payloads(msgs), states)
            &&& states[0] == 0
            &&& forall|i: int| 0 <= i < outs.len() ==> cloned(states[i + 1], #[trigger] outs[i].payload)
        },
    ensures
        forall|i: int| 0 <= i < outs.len() ==> (#[trigger] outs[i]).payload == prefix_sum(widen_i64(payloads(msgs)), i + 1),
{
    let xs = payloads(msgs);
    let states = choose|states: Seq<i64>| {
        &&& is_run(g, payloads(msgs), states)
        &&& states[0] == 0
        &&& forall|i: int| 0 <= i < outs.len() ==> cloned(states[i + 1], #[trigger] outs[i].payload)
    };
    assert forall|k: int| 0 <= k <= xs.len() implies states[k] == prefix_sum(widen_i64(xs), k) by {
        lemma_running_sum(g, xs, states, k);
    }
    assert forall|i: int| 0 <= i < outs.len() implies (#[trigger] outs[i]).payload == prefix_sum(widen_i64(xs), i + 1) by {
        assert(cloned(states[i + 1], outs[i].payload));
        assert(states[i + 1] == prefix_sum(widen_i64(xs), i + 1));
    }
}

proof fn lemma_running_sum<G: Fn(i64, i64) -> i64>(g: G, xs: Seq<i64>, states: Seq<i64>, k: int)
    requires
        forall|a: i64, x: i64, r: i64|
            call_ensures(g, (a, x), r) && i64::MIN <= a + x <= i64::MAX ==> r == a + x,
        forall|j: int| 0 <= j <= xs.len() ==> i64::MIN <= #[trigger] prefix_sum(widen_i64(xs), j) <= i64::MAX,
        is_run(g, xs, states),
        states[0] == 0,
        0 <= k <= xs.len(),
    ensures
        states[k] == prefix_sum(widen_i64(xs), k),
    decreases k,
{
    if k > 0 {
        lemma_running_sum(g, xs, states, k - 1);
        let j = k - 1;
        assert(call_ensures(g, (states[j], xs[j]), states[j + 1]));
        assert(i64::MIN <= prefix_sum(widen_i64(xs), k) <= i64::MAX);
    }
}

/// A reduce stage that sums, started at 0, emits the running sums of its
/// inputs: after the `i`-th input, the sum of the first `i` inputs (as long
/// as every running sum fits in an `i32`).
pub proof fn lemma_sum_reduce_i32<G: Fn(i32, i32) -> i32>(g: G, msgs: Seq<Message<i32>>, outs: Seq<Message<i32>>)
    requires
        forall|a: i32, x: i32, r: i32|
            call_ensures(g, (a, x), r) && i32::MIN <= a + x <= i32::MAX ==> r == a + x,
        forall|k: int| 0 <= k <= msgs.len() ==> i32::MIN <= #[trigger] prefix_sum(widen_i32(payloads(msgs)), k) <= i32::MAX,
        outs.len() == msgs.len(),
        exists|states: Seq<i32>| {
            &&& is_run(g, payloads(msgs), states)
            &&& states[0] == 0
            &&& forall|i: int| 0 <= i < outs.len() ==> cloned(states[i + 1], #[trigger] outs[i].payload)
        },
    ensures
        forall|i: int| 0 <= i < outs.len() ==> (#[trigger] outs[i]).payload == prefix_sum(widen_i32(payloads(msgs)), i + 1),
{
    let xs = payloads(msgs);
    let states = choose|states: Seq<i32>| {
        &&& is_run(g, payloads(msgs), states)
        &&& states[0] == 0
        &&& forall|i: int| 0 <= i < outs.len() ==> cloned(states[i + 1], #[trigger] outs[i].payload)
    };
    assert forall|k: int| 0 <= k <= xs.len() implies states[k] == prefix_sum(widen_i32(xs), k) by {
        lemma_running_sum_i32(g, xs, states, k);
    }
    assert forall|i: int| 0 <= i < outs.len() implies (#[trigger] outs[i]).payload == prefix_sum(widen_i32(xs), i + 1) by {
        assert(cloned(states[i + 1], outs[i].payload));
        assert(states[i + 1] == prefix_sum(widen_i32(xs), i + 1));
    }
}

proof fn lemma_running_sum_i32<G: Fn(i32, i32) -> i32>(g: G, xs: Seq<i32>, states: Seq<i32>, k: int)
    requires
        forall|a: i32, x: i32, r: i32|
            call_ensures(g, (a, x), r) && i32::MIN <= a + x <= i32::MAX ==> r == a + x,
        forall|j: int| 0 <= j <= xs.len() ==> i32::MIN <= #[trigger] prefix_sum(widen_i32(xs), j) <= i32::MAX,
        is_run(g, xs, states),
        states[0] == 0,
        0 <= k <= xs.len(),
    ensures
        states[k] == prefix_sum(widen_i32(xs), k),
    decreases k,
{
    if k > 0 {
        lemma_running_sum_i32(g, xs, states, k - 1);
        let j = k - 1;
        assert(call_ensures(g, (states[j], xs[j]), states[j + 1]));
        assert(i32::MIN <= prefix_sum(widen_i32(xs), k) <= i32::MAX);
    }
}

impl<I, O, G> PipelineComponent for Reduce<I, O, G> where
    I: Send + Sync + 'static,
    O: Clone + Send + Sync + 'static,
    G: Fn(O, I) -> O + Send + Sync + 'static,
 {
    type Input = I;
    type Output = O;

    open spec fn inv(&self) -> bool {
        self.total()
    }

    fn accepts(&self, n_inputs: usize, n_outputs: usize) -> (r: bool) {
        true
    }

    fn on_start(&mut self, n_inputs: usize, n_outputs: usize) -> (r: Vec<Emission<O>>) {
        Vec::new()
    }

    /// Folds `msg` in and emits a copy of the new accumulator.
    fn on_message(&mut self, msg: Message<I>, n_inputs: usize, n_outputs: usize) -> (r: Vec<Emission<O>>)
        ensures
            r.len() == 1,
            r@ == to_output(seq![r[0].message]),
            final(self).reducer() == old(self).reducer(),
            call_ensures(old(self).reducer(), (old(self).current(), msg.payload), final(self).current()),
            cloned(final(self).current(), r[0].message.payload),
            r[0].message.event_timestamp == r[0].message.ingestion_timestamp,
            r[0].message.source_id.is_none(),
    {
        let out = self.apply(msg);
        let r = emit_one(out);
        proof {
            assert(r@[0].message == out);
        }
        r
    }

    fn on_end(&mut self, n_inputs: usize, n_outputs: usize) -> (r: Vec<Emission<O>>) {
        Vec::new()
    }
}

} // verus!
