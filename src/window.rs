use vstd::prelude::*;
use crate::component::{emit_one, to_output, Emission, PipelineComponent};
use crate::message::{now_millis, payloads, Message};

verus! {

broadcast use vstd::seq_lib::group_seq_properties;

/// When a window emits. Durations are in milliseconds.
#[derive(Clone, Copy, Debug, PartialEq, Eq, Structural)]
pub enum WindowCondition {
    /// Once this many messages are buffered; emission drains the buffer.
    Count(usize),
    /// Once this much time has passed since the last emission; emission
    /// drains the buffer.
    Time(u64),
    /// Every `slide_interval`, the messages whose event time lies within the
    /// trailing `window_size`; older ones are evicted first.
    Sliding { window_size: u64, slide_interval: u64 },
}

/// Whether a window with condition `c`, holding `len` messages, last emitted
/// at `last`, emits at time `now`.
pub open spec fn triggers(c: WindowCondition, len: nat, last: int, now: int) -> bool {
    match c {
        WindowCondition::Count(n) => len >= n,
        WindowCondition::Time(d) => now >= last + d,
        WindowCondition::Sliding { slide_interval, .. } => now >= last + slide_interval,
    }
}

/// The messages of `buffer` whose event time lies within the `size`
/// milliseconds before `now`, in order.
pub open spec fn in_window<T>(buffer: Seq<Message<T>>, now: int, size: int) -> Seq<Message<T>> {
    buffer.filter(|m: Message<T>| m.event_timestamp >= now - size)
}

/// The payloads of each batch in `batches`, in order.
pub open spec fn batch_payloads<T>(batches: Seq<Message<Vec<T>>>) -> Seq<Seq<T>> {
    batches.map_values(|m: Message<Vec<T>>| m.payload@)
}

/// `batches` cut `xs` into consecutive runs of `n`, in order, the last run
/// holding what remains.
pub open spec fn is_count_partition<T>(xs: Seq<T>, batches: Seq<Seq<T>>, n: nat) -> bool {
    &&& batches.flatten() == xs
    &&& forall|i: int| 0 <= i < batches.len() - 1 ==> (#[trigger] batches[i]).len() == n
    &&& batches.len() > 0 ==> 0 < batches.last().len() <= n
}

/// A stage that buffers messages and emits them in batches, as its
/// condition says; at end-of-stream whatever is still buffered goes out as
/// one last batch.
#[verifier::reject_recursive_types(T)]
pub struct Window<T> {
    condition: WindowCondition,
    buffer: Vec<Message<T>>,
    last_trigger: u64,
}

/// Moves every payload out of `buffer`, in order.
fn take_payloads<T>(buffer: &mut Vec<Message<T>>) -> (r: Vec<T>)
    ensures
        r@ == payloads(old(buffer)@),
        final(buffer)@.len() == 0,
{
    let ghost all = buffer@;
    let mut r: Vec<T> = Vec::new();
    while buffer.len() > 0
        invariant
            r.len() + buffer.len() == all.len(),
            buffer@ == all.subrange(r.len() as int, all.len() as int),
            r@ == payloads(all.subrange(0, r.len() as int)),
        decreases buffer.len(),
    {
        let m = buffer.remove(0);
        proof {
            assert(m == all[r.len() as int]);
            assert(all.subrange(0, r.len() + 1) =~= all.subrange(0, r.len() as int).push(m));
        }
        r.push(m.payload);
        proof {
            assert(buffer@ =~= all.subrange(r.len() as int, all.len() as int));
        }
    }
    proof {
        assert(all.subrange(0, r.len() as int) =~= all);
    }
    r
}

/// Keeps the messages of `buffer` whose event time is at least `cutoff`.
fn keep_from<T>(buffer: &mut Vec<Message<T>>, cutoff: u64)
    ensures
        final(buffer)@ == old(buffer)@.filter(|m: Message<T>| m.event_timestamp >= cutoff),
{
    let ghost all = buffer@;
    let ghost keep = |m: Message<T>| m.event_timestamp >= cutoff;
    let mut kept: Vec<Message<T>> = Vec::new();
    let mut done: usize = 0;
    let n = buffer.len();
    while buffer.len() > 0
        invariant
            keep == (|m: Message<T>| m.event_timestamp >= cutoff),
            all.len() == n,
            done + buffer.len() == n,
            buffer@ == all.subrange(done as int, n as int),
            kept@ == all.subrange(0, done as int).filter(keep),
        decreases buffer.len(),
    {
        let m = buffer.remove(0);
        proof {
            assert(m == all[done as int]);
            assert(all.subrange(0, done + 1).drop_last() =~= all.subrange(0, done as int));
            reveal(Seq::filter);
        }
        if m.event_timestamp >= cutoff {
            kept.push(m);
        }
        done = done + 1;
        proof {
            assert(buffer@ =~= all.subrange(done as int, n as int));
        }
    }
    proof {
        assert(all.subrange(0, n as int) =~= all);
    }
    *buffer = kept;
}

/// Copies of the payloads of `buffer`, in order.
fn copy_payloads<T: Clone>(buffer: &Vec<Message<T>>) -> (r: Vec<T>)
    ensures
        r.len() == buffer.len(),
        forall|i: int| 0 <= i < buffer.len() ==> cloned(buffer[i].payload, #[trigger] r[i]),
{
    let mut r: Vec<T> = Vec::new();
    let mut i: usize = 0;
    while i < buffer.len()
        invariant
            i <= buffer.len(),
            r.len() == i,
            forall|k: int| 0 <= k < i ==> cloned(buffer[k].payload, #[trigger] r[k]),
        decreases buffer.len() - i,
    {
        r.push(buffer[i].payload.clone());
        i = i + 1;
    }
    r
}

impl<T: Clone> Window<T> {
    pub closed spec fn condition(&self) -> WindowCondition {
        self.condition
    }

    /// The messages waiting for the next emission, in arrival order.
    pub closed spec fn buffered(&self) -> Seq<Message<T>> {
        self.buffer@
    }

    /// The time of the last emission, or of the start of the worker.
    pub closed spec fn last_trigger(&self) -> u64 {
        self.last_trigger
    }

    fn with_condition(condition: WindowCondition) -> (r: Self)
        ensures
            r.condition() == condition,
            r.buffered().len() == 0,
            r.last_trigger() == 0,
    {
        Window { condition, buffer: Vec::new(), last_trigger: 0 }
    }

    /// A window for one more replica: the same condition, an empty buffer of
    /// its own.
    pub fn replica(&self) -> (r: Self)
        ensures
            r.condition() == self.condition(),
            r.buffered().len() == 0,
    {
        Window::with_condition(self.condition)
    }

    /// A window that emits every `count` messages.
    pub fn with_count(count: usize) -> (r: Self)
        ensures
            r.condition() == WindowCondition::Count(count),
            r.buffered().len() == 0,
    {
        Window::with_condition(WindowCondition::Count(count))
    }

    /// A window that emits once `duration_ms` milliseconds have passed since
    /// the last emission.
    pub fn with_duration(duration_ms: u64) -> (r: Self)
        ensures
            r.condition() == WindowCondition::Time(duration_ms),
            r.buffered().len() == 0,
    {
        Window::with_condition(WindowCondition::Time(duration_ms))
    }

    /// A window that emits, every `slide_interval_ms`, the messages of the
    /// trailing `window_size_ms`.
    pub fn with_sliding_window(window_size_ms: u64, slide_interval_ms: u64) -> (r: Self)
        ensures
            r.condition() == (WindowCondition::Sliding {
                window_size: window_size_ms,
                slide_interval: slide_interval_ms,
            }),
            r.buffered().len() == 0,
    {
        Window::with_condition(
            WindowCondition::Sliding { window_size: window_size_ms, slide_interval: slide_interval_ms },
        )
    }

    /// Whether the window emits at `now`, holding `buffer_len` messages and
    /// having last emitted at `last_trigger_time`.
    pub fn should_trigger(&self, buffer_len: usize, last_trigger_time: u64, now: u64) -> (r: bool)
        ensures
            r == triggers(self.condition(), buffer_len as nat, last_trigger_time as int, now as int),
    {
        match self.condition {
            WindowCondition::Count(count) => buffer_len >= count,
            WindowCondition::Time(duration) => now >= last_trigger_time && now - last_trigger_time >= duration,
            WindowCondition::Sliding { slide_interval, .. } => {
                now >= last_trigger_time && now - last_trigger_time >= slide_interval
            },
        }
    }

    /// The batch to emit at `now` out of `buffer`: all of it, which leaves
    /// the buffer empty, or for a sliding window copies of the messages
    /// within the window, the older ones being evicted.
    pub fn get_window_items(&self, now: u64, buffer: &mut Vec<Message<T>>) -> (r: Message<Vec<T>>)
        ensures
            r.source_id.is_none(),
            r.event_timestamp == r.ingestion_timestamp,
            match self.condition() {
                WindowCondition::Sliding { window_size, .. } => {
                    &&& final(buffer)@ == in_window(old(buffer)@, now as int, window_size as int)
                    &&& r.payload.len() == final(buffer).len()
                    &&& forall|i: int| 0 <= i < r.payload.len() ==> cloned(final(buffer)[i].payload, #[trigger] r.payload[i])
                },
                _ => {
                    &&& final(buffer)@.len() == 0
                    &&& r.payload@ == payloads(old(buffer)@)
                },
            },
    {
        match self.condition {
            WindowCondition::Sliding { window_size, .. } => {
                if now >= window_size {
                    keep_from(buffer, now - window_size);
                    proof {
                        assert(buffer@ =~= in_window(old(buffer)@, now as int, window_size as int));
                    }
                } else {
                    proof {
                        assert(old(buffer)@.filter(|m: Message<T>| m.event_timestamp >= now - window_size) =~= old(buffer)@) by {
                            lemma_filter_all(old(buffer)@, |m: Message<T>| m.event_timestamp >= now - window_size);
                        }
                    }
                }
                Message::new(copy_payloads(buffer))
            },
            _ => Message::new(take_payloads(buffer)),
        }
    }

    /// `new` and `out` are the window and the batch after `old` takes `msg` at `now`.
    pub open spec fn pushed(old: Self, msg: Message<T>, now: u64, new: Self, out: Option<Message<Vec<T>>>) -> bool {
        let b = old.buffered().push(msg);
        &&& new.condition() == old.condition()
        &&& if !triggers(old.condition(), b.len(), old.last_trigger() as int, now as int) {
            &&& new.buffered() == b
            &&& new.last_trigger() == old.last_trigger()
            &&& out is None
        } else {
            &&& new.last_trigger() == now
            &&& match old.condition() {
                WindowCondition::Sliding { window_size, .. } => {
                    &&& new.buffered() == in_window(b, now as int, window_size as int)
                    &&& (out is Some <==> new.buffered().len() > 0)
                    &&& out matches Some(m) ==> {
                        &&& m.payload.len() == new.buffered().len()
                        &&& forall|i: int| 0 <= i < m.payload.len()
                            ==> cloned(new.buffered()[i].payload, #[trigger] m.payload[i])
                    }
                },
                _ => {
                    &&& new.buffered().len() == 0
                    &&& out matches Some(m) && m.payload@ == payloads(b)
                },
            }
        }
    }

    /// Buffers `msg`, which arrives at `now`, and returns the batch the
    /// window emits then, if any (never an empty one).
    pub fn push_at(&mut self, msg: Message<T>, now: u64) -> (r: Option<Message<Vec<T>>>)
        ensures
            Window::pushed(*old(self), msg, now, *final(self), r),
    {
        self.buffer.push(msg);
        if self.should_trigger(self.buffer.len(), self.last_trigger, now) {
            let mut buffer = Vec::new();
            std::mem::swap(&mut buffer, &mut self.buffer);
            let items = self.get_window_items(now, &mut buffer);
            self.buffer = buffer;
            self.last_trigger = now;
            proof {
                assert(payloads(old(self).buffered().push(msg)).len() == old(self).buffered().len() + 1);
            }
            if items.payload.len() > 0 {
                Some(items)
            } else {
                None
            }
        } else {
            None
        }
    }

    /// Empties the buffer: the batch of everything still buffered, if anything is.
    pub fn flush(&mut self) -> (r: Option<Message<Vec<T>>>)
        ensures
            final(self).condition() == old(self).condition(),
            final(self).last_trigger() == old(self).last_trigger(),
            final(self).buffered().len() == 0,
            (r is Some <==> old(self).buffered().len() > 0),
            r matches Some(m) ==> m.payload@ == payloads(old(self).buffered()),
    {
        if self.buffer.len() > 0 {
            let items = take_payloads(&mut self.buffer);
            Some(Message::new(items))
        } else {
            None
        }
    }
}

impl<T: Clone> Window<T> {
    /// Feeds every message of `msgs` to the window in order, each at the
    /// time it is taken, then empties the buffer; returns the batches in
    /// the order they were emitted. A counting or timed window cuts the
    /// payloads into consecutive non-empty batches; a counting one with a
    /// positive count cuts them into runs of exactly that count.
    pub fn process_all(&mut self, msgs: Vec<Message<T>>) -> (r: Vec<Message<Vec<T>>>)
        requires
            old(self).buffered().len() == 0,
        ensures
            final(self).condition() == old(self).condition(),
            final(self).buffered().len() == 0,
            msgs.len() == 0 ==> r.len() == 0,
            forall|i: int| 0 <= i < r.len() ==> (#[trigger] r[i]).payload.len() > 0,
            !(old(self).condition() is Sliding) ==> batch_payloads(r@).flatten() == payloads(msgs@),
            old(self).condition() matches WindowCondition::Count(n)
                ==> (n >= 1 ==> is_count_partition(payloads(msgs@), batch_payloads(r@), n as nat)),
    {
        let ghost all = msgs@;
        let ghost cond = self.condition();
        let mut rest = msgs;
        let mut done: usize = 0;
        let n = rest.len();
        let mut r: Vec<Message<Vec<T>>> = Vec::new();
        while rest.len() > 0
            invariant
                self.condition() == cond,
                all.len() == n,
                done + rest.len() == n,
                rest@ == all.subrange(done as int, n as int),
                forall|i: int| 0 <= i < r.len() ==> (#[trigger] r[i]).payload.len() > 0,
                !(cond is Sliding) ==> batch_payloads(r@).flatten() + payloads(self.buffered()) == payloads(all.subrange(0, done as int)),
                done == 0 ==> r.len() == 0 && self.buffered().len() == 0,
                cond matches WindowCondition::Count(c) ==> (c >= 1 ==> {
                    &&& forall|i: int| 0 <= i < r.len() ==> (#[trigger] r[i]).payload.len() == c
                    &&& self.buffered().len() < c
                }),
            decreases rest.len(),
        {
            let m = rest.remove(0);
            proof {
                assert(m == all[done as int]);
                assert(all.subrange(0, done + 1) =~= all.subrange(0, done as int).push(m));
            }
            let ghost before = *self;
            let ghost prev = r@;
            let now = now_millis();
            match self.push_at(m, now) {
                Some(batch) => {
                    r.push(batch);
                    proof {
                        assert(batch_payloads(r@) =~= batch_payloads(prev).push(r@.last().payload@));
                    }
                },
                None => {},
            }
            done = done + 1;
            proof {
                assert(rest@ =~= all.subrange(done as int, n as int));
                if !(cond is Sliding) {
                    assert(payloads(before.buffered().push(m)) =~= payloads(before.buffered()).push(m.payload));
                    assert(payloads(all.subrange(0, done as int)) =~= payloads(all.subrange(0, done - 1)).push(m.payload));
                    if r.len() > prev.len() {
                        batch_payloads(prev).lemma_flatten_push(r@.last().payload@);
                        assert(r@.last().payload@ == payloads(before.buffered().push(m)));
                        assert(batch_payloads(prev).flatten() + payloads(before.buffered()) == payloads(all.subrange(0, done - 1)));
                        assert(batch_payloads(r@).flatten() + payloads(self.buffered()) =~= payloads(all.subrange(0, done as int)));
                    } else {
                        assert(r@ == prev);
                        assert(batch_payloads(r@).flatten() + payloads(self.buffered()) =~= payloads(all.subrange(0, done as int)));
                    }
                }
            }
        }
        let ghost before = *self;
        let ghost prev = r@;
        match self.flush() {
            Some(batch) => {
                r.push(batch);
                proof {
                    assert(batch_payloads(r@) =~= batch_payloads(prev).push(r@.last().payload@));
                }
            },
            None => {},
        }
        proof {
            assert(all.subrange(0, n as int) =~= all);
            if !(cond is Sliding) {
                if r.len() > prev.len() {
                    batch_payloads(prev).lemma_flatten_push(r@.last().payload@);
                    assert(batch_payloads(r@).flatten() =~= payloads(all));
                } else {
                    assert(batch_payloads(r@).flatten() =~= batch_payloads(r@).flatten() + payloads(before.buffered()));
                }
            }
            if let WindowCondition::Count(c) = cond {
                if c >= 1 {
                assert forall|i: int| 0 <= i < batch_payloads(r@).len() - 1 implies (#[trigger] batch_payloads(r@)[i]).len() == c by {
                    assert(r[i].payload.len() == c);
                }
                if r.len() > 0 {
                    assert(batch_payloads(r@).last().len() == r@.last().payload.len());
                }
                }
            }
        }
        r
    }
}

impl<T: Clone> Default for Window<T> {
    /// A window that emits every 10 messages.
    fn default() -> (r: Self)
        ensures
            r.condition() == WindowCondition::Count(10),
            r.buffered().len() == 0,
    {
        Window::with_count(10)
    }
}

impl<T: Clone + Send + Sync + 'static> PipelineComponent for Window<T> {
    type Input = T;
    type Output = Vec<T>;

    fn accepts(&self, n_inputs: usize, n_outputs: usize) -> (r: bool) {
        true
    }

    /// Starts the clock of the window.
    fn on_start(&mut self, n_inputs: usize, n_outputs: usize) -> (r: Vec<Emission<Vec<T>>>)
        ensures
            r.len() == 0,
            final(self).condition() == old(self).condition(),
            final(self).buffered() == old(self).buffered(),
    {
        self.last_trigger = now_millis();
        Vec::new()
    }

    /// Buffers `msg` at the current time and emits the batch that triggers, if any.
    fn on_message(&mut self, msg: Message<T>, n_inputs: usize, n_outputs: usize) -> (r: Vec<Emission<Vec<T>>>)
        ensures
            exists|now: u64, out: Option<Message<Vec<T>>>| {
                &&& Window::pushed(*old(self), msg, now, *final(self), out)
                &&& r@ == to_output(match out { Some(m) => seq![m], None => seq![] })
            },
    {
        let now = now_millis();
        let out = self.push_at(msg, now);
        match out {
            Some(m) => {
                let r = emit_one(m);
                proof {
                    assert(Window::pushed(*old(self), msg, now, *self, Some(m)));
                }
                r
            },
            None => {
                let r: Vec<Emission<Vec<T>>> = Vec::new();
                proof {
                    assert(r@ =~= to_output(Seq::<Message<Vec<T>>>::empty()));
                    assert(Window::pushed(*old(self), msg, now, *self, None));
                }
                r
            },
        }
    }

    /// Emits what is still buffered, if anything is.
    fn on_end(&mut self, n_inputs: usize, n_outputs: usize) -> (r: Vec<Emission<Vec<T>>>)
        ensures
            final(self).buffered().len() == 0,
            r.len() == (if old(self).buffered().len() > 0 { 1int } else { 0int }),
            r.len() == 1 ==> r[0].message.payload@ == payloads(old(self).buffered()),
    {
        match self.flush() {
            Some(m) => emit_one(m),
            None => Vec::new(),
        }
    }
}

/// Keeping every element that `p` accepts keeps the whole sequence.
proof fn lemma_filter_all<A>(s: Seq<A>, p: spec_fn(A) -> bool)
    requires
        forall|i: int| 0 <= i < s.len() ==> p(#[trigger] s[i]),
    ensures
        s.filter(p) == s,
    decreases s.len(),
{
    reveal(Seq::filter);
    if s.len() > 0 {
        lemma_filter_all(s.drop_last(), p);
        assert(s.drop_last().push(s.last()) =~= s);
    } else {
        assert(s.filter(p) =~= s);
    }
}

} // verus!
