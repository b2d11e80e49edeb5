use vstd::prelude::*;
use crate::channel::{named_channel, Receiver, Sender};
use crate::component::PipelineComponent;
use crate::context::{clone_receivers, clone_senders, ComponentContext};
use crate::monitor::MonitoredTask;

verus! {

/// Why a task or a stage could not be built.
#[derive(Debug)]
pub enum ConfigurationError {
    /// A task needs at least one slot.
    ZeroSlots,
    /// The pattern of a filter does not compile.
    InvalidPattern(regex::Error),
    /// A URL does not parse, or a host does not fit in it.
    InvalidUrl(url::ParseError),
    /// The scheme of a URL cannot be switched to the one a source needs.
    UnsupportedScheme,
}

/// One worker to start: the slot it runs, the receiver it reads, the sender
/// it writes by default, and the context it may consult.
#[verifier::reject_recursive_types(I)]
#[verifier::reject_recursive_types(O)]
pub struct Worker<I, O> {
    pub slot: usize,
    pub input: Receiver<I>,
    pub output: Sender<O>,
    pub context: ComponentContext<I, O>,
}

/// The channels of the receivers `rs`, in order.
pub open spec fn receiver_ids<T>(rs: Seq<Receiver<T>>) -> Seq<int> {
    rs.map_values(|r: Receiver<T>| r.channel_id())
}

/// The channels of the senders `ss`, in order.
pub open spec fn sender_ids<T>(ss: Seq<Sender<T>>) -> Seq<int> {
    ss.map_values(|s: Sender<T>| s.channel_id())
}

/// A stage with its channels: `slots` input channels, one per worker, and
/// the output channels its workers write into (one per downstream slot once
/// the task is linked). Tasks combined into it as extra sources write into
/// its output channels once it is linked downstream.
#[verifier::reject_recursive_types(C)]
#[verifier::reject_recursive_types(S)]
pub struct PipelineTask<C: PipelineComponent, S: PipelineComponent<Output = C::Output> = C> {
    component: C,
    slots: usize,
    input_receivers: Vec<Receiver<C::Input>>,
    input_senders: Vec<Sender<C::Input>>,
    output_receivers: Vec<Receiver<C::Output>>,
    output_senders: Vec<Sender<C::Output>>,
    combined_sources: Vec<PipelineTask<S>>,
}

/// The result of linking task `A` into task `B`: the task that stands for
/// the chain from now on (it runs `B`), and `A`'s workers, ready to start.
#[verifier::reject_recursive_types(A)]
#[verifier::reject_recursive_types(S)]
#[verifier::reject_recursive_types(B)]
pub struct Linked<A: PipelineComponent, S: PipelineComponent<Output = A::Output>, B: PipelineComponent> {
    pub task: PipelineTask<B>,
    /// The upstream stage, shared by its workers.
    pub upstream: A,
    /// One worker per upstream slot.
    pub workers: Vec<Worker<A::Input, A::Output>>,
    /// One worker per combined source, with that source's stage.
    pub sources: Vec<(S, Worker<S::Input, A::Output>)>,
}

/// Workers for `slots` slots: worker `i` reads `inputs[i]` and writes into
/// `outputs[i % outputs.len()]`; each context lists all of both.
fn deploy_to_slots<I, O>(inputs: &Vec<Receiver<I>>, outputs: &Vec<Sender<O>>, slots: usize) -> (r: Vec<Worker<I, O>>)
    requires
        inputs.len() == slots,
        outputs.len() > 0,
    ensures
        r.len() == slots,
        forall|i: int| 0 <= i < slots ==> {
            &&& (#[trigger] r[i]).slot == i
            &&& r[i].input.channel_id() == inputs[i].channel_id()
            &&& r[i].output.channel_id() == outputs[i % outputs.len() as int].channel_id()
            &&& sender_ids(r[i].context.output_senders@) == sender_ids(outputs@)
            &&& receiver_ids(r[i].context.input_receivers@) == receiver_ids(inputs@)
        },
{
    let mut r: Vec<Worker<I, O>> = Vec::new();
    let mut i: usize = 0;
    while i < slots
        invariant
            inputs.len() == slots,
            outputs.len() > 0,
            i <= slots,
            r.len() == i,
            forall|k: int| 0 <= k < i ==> {
                &&& (#[trigger] r[k]).slot == k
                &&& r[k].input.channel_id() == inputs[k].channel_id()
                &&& r[k].output.channel_id() == outputs[k % outputs.len() as int].channel_id()
                &&& sender_ids(r[k].context.output_senders@) == sender_ids(outputs@)
                &&& receiver_ids(r[k].context.input_receivers@) == receiver_ids(inputs@)
            },
        decreases slots - i,
    {
        let context = ComponentContext {
            output_senders: clone_senders(outputs),
            input_receivers: clone_receivers(inputs),
        };
        let target = i % outputs.len();
        let w = Worker {
            slot: i,
            input: inputs[i].clone(),
            output: outputs[target].clone(),
            context,
        };
        proof {
            assert(sender_ids(w.context.output_senders@) =~= sender_ids(outputs@));
            assert(receiver_ids(w.context.input_receivers@) =~= receiver_ids(inputs@));
        }
        r.push(w);
        i = i + 1;
    }
    r
}

/// `n` fresh untagged channels: the sender and the receiver at position
/// `j` share the `j`-th queue.
fn fresh_channels<T>(n: usize) -> (r: (Vec<Sender<T>>, Vec<Receiver<T>>))
    ensures
        r.0.len() == n,
        r.1.len() == n,
        sender_ids(r.0@) == receiver_ids(r.1@),
        forall|j: int| 0 <= j < n ==> (#[trigger] r.0[j]).source_tag().is_none(),
{
    let mut senders: Vec<Sender<T>> = Vec::new();
    let mut receivers: Vec<Receiver<T>> = Vec::new();
    let mut j: usize = 0;
    while j < n
        invariant
            j <= n,
            senders.len() == j,
            receivers.len() == j,
            forall|k: int| 0 <= k < j ==> (#[trigger] senders[k]).channel_id() == receivers[k].channel_id(),
            forall|k: int| 0 <= k < j ==> (#[trigger] senders[k]).source_tag().is_none(),
        decreases n - j,
    {
        let (s, r) = named_channel(None);
        senders.push(s);
        receivers.push(r);
        j = j + 1;
    }
    proof {
        assert(sender_ids(senders@) =~= receiver_ids(receivers@));
    }
    (senders, receivers)
}

impl<C: PipelineComponent> PipelineTask<C> {
    /// A task of one slot, with one input and one output channel.
    pub fn new(component: C) -> (r: Self)
        ensures
            r.wf(),
            r.component() == component,
            r.slot_count() == 1,
            r.input_ids().len() == 1,
            r.input_sender_ids() == r.input_ids(),
            r.output_ids().len() == 1,
            r.output_receiver_ids() == r.output_ids(),
            r.sources().len() == 0,
    {
        PipelineTask::build(component, 1)
    }

    /// A task of `slots` slots, each with its own input and output channel;
    /// fails when `slots` is 0.
    pub fn with_slots(component: C, slots: usize) -> (r: Result<Self, ConfigurationError>)
        ensures
            slots == 0 <==> r matches Err(ConfigurationError::ZeroSlots),
            slots > 0 ==> (r matches Ok(t) && {
                &&& t.wf()
                &&& t.component() == component
                &&& t.slot_count() == slots
                &&& t.input_ids().len() == slots
                &&& t.input_sender_ids() == t.input_ids()
                &&& t.output_ids().len() == slots
                &&& t.output_receiver_ids() == t.output_ids()
                &&& t.sources().len() == 0
            }),
    {
        if slots == 0 {
            Err(ConfigurationError::ZeroSlots)
        } else {
            Ok(PipelineTask::build(component, slots))
        }
    }

    fn build(component: C, slots: usize) -> (r: Self)
        requires
            slots > 0,
        ensures
            r.wf(),
            r.component() == component,
            r.slot_count() == slots,
            r.input_sender_ids() == r.input_ids(),
            r.output_ids().len() == slots,
            r.sources().len() == 0,
    {
        let (input_senders, input_receivers) = fresh_channels::<C::Input>(slots);
        let (output_senders, output_receivers) = fresh_channels::<C::Output>(slots);
        let r = PipelineTask {
            component,
            slots,
            input_receivers,
            input_senders,
            output_receivers,
            output_senders,
            combined_sources: Vec::new(),
        };
        proof {
            assert(r.sources().len() == 0);
        }
        r
    }

    /// The task with `sources` attached: once it is linked downstream, each
    /// source runs as one more worker writing into its output channels.
    pub fn combine<U: PipelineComponent<Output = C::Output>>(self, sources: Vec<PipelineTask<U>>) -> (r: PipelineTask<C, U>)
        requires
            self.wf(),
            forall|k: int| 0 <= k < sources.len() ==> (#[trigger] sources[k]).wf(),
        ensures
            r.wf(),
            r.component() == self.component(),
            r.slot_count() == self.slot_count(),
            r.input_ids() == self.input_ids(),
            r.input_sender_ids() == self.input_sender_ids(),
            r.output_ids() == self.output_ids(),
            r.output_receiver_ids() == self.output_receiver_ids(),
            r.sources() == sources@,
    {
        let PipelineTask {
            component,
            slots,
            input_receivers,
            input_senders,
            output_receivers,
            output_senders,
            combined_sources: _,
        } = self;
        let r = PipelineTask {
            component,
            slots,
            input_receivers,
            input_senders,
            output_receivers,
            output_senders,
            combined_sources: sources,
        };
        proof {
            assert forall|k: int| 0 <= k < r.sources().len() implies (#[trigger] r.sources()[k]).shape_wf() by {
                assert(r.sources()[k] == sources[k]);
            }
        }
        r
    }
}

impl<C: PipelineComponent, S: PipelineComponent<Output = C::Output>> PipelineTask<C, S> {
    pub closed spec fn component(&self) -> C {
        self.component
    }

    pub closed spec fn slot_count(&self) -> nat {
        self.slots as nat
    }

    /// The channels the workers read, one per slot.
    pub closed spec fn input_ids(&self) -> Seq<int> {
        receiver_ids(self.input_receivers@)
    }

    /// The channels behind the task's own input senders.
    pub closed spec fn input_sender_ids(&self) -> Seq<int> {
        sender_ids(self.input_senders@)
    }

    /// The channels the workers write into.
    pub closed spec fn output_ids(&self) -> Seq<int> {
        sender_ids(self.output_senders@)
    }

    /// The channels of the task's own output receivers.
    pub closed spec fn output_receiver_ids(&self) -> Seq<int> {
        receiver_ids(self.output_receivers@)
    }

    pub closed spec fn sources(&self) -> Seq<PipelineTask<S>> {
        self.combined_sources@
    }

    /// The shape of the task alone, leaving out its combined sources.
    pub open spec fn shape_wf(&self) -> bool {
        &&& self.slot_count() >= 1
        &&& self.input_ids().len() == self.slot_count()
        &&& self.input_sender_ids().len() == self.slot_count()
        &&& self.output_ids().len() >= 1
        &&& self.output_receiver_ids() == self.output_ids()
    }

    /// The task is well formed, and so is each combined source.
    pub open spec fn wf(&self) -> bool {
        &&& self.shape_wf()
        &&& forall|k: int| 0 <= k < self.sources().len() ==> (#[trigger] self.sources()[k]).shape_wf()
    }

    /// The number of workers the task runs.
    pub fn slots(&self) -> (r: usize)
        ensures
            r == self.slot_count(),
    {
        self.slots
    }

    /// The stage and one worker per slot, for the last task of a pipeline:
    /// worker `i` reads input `i` and writes by default into a sender whose
    /// receiver is already gone; its context lists all of the task's inputs
    /// and outputs.
    pub fn deploy(self) -> (r: (C, Vec<Worker<C::Input, C::Output>>))
        requires
            self.wf(),
        ensures
            r.0 == self.component(),
            r.1.len() == self.slot_count(),
            forall|i: int| 0 <= i < self.slot_count() ==> {
                &&& (#[trigger] r.1[i]).slot == i
                &&& r.1[i].output.source_tag().is_none()
                &&& r.1[i].input.channel_id() == self.input_ids()[i]
                &&& sender_ids(r.1[i].context.output_senders@) == self.output_ids()
                &&& receiver_ids(r.1[i].context.input_receivers@) == self.input_ids()
            },
    {
        let mut workers: Vec<Worker<C::Input, C::Output>> = Vec::new();
        let mut i: usize = 0;
        while i < self.slots
            invariant
                self.wf(),
                i <= self.slots,
                workers.len() == i,
                forall|k: int| 0 <= k < i ==> {
                    &&& (#[trigger] workers[k]).slot == k
                    &&& workers[k].output.source_tag().is_none()
                    &&& workers[k].input.channel_id() == self.input_ids()[k]
                    &&& sender_ids(workers[k].context.output_senders@) == self.output_ids()
                    &&& receiver_ids(workers[k].context.input_receivers@) == self.input_ids()
                },
            decreases self.slots - i,
        {
            let output = {
                let (s, _gone) = named_channel::<C::Output>(None);
                s
            };
            let context = ComponentContext {
                output_senders: clone_senders(&self.output_senders),
                input_receivers: clone_receivers(&self.input_receivers),
            };
            proof {
                assert(sender_ids(context.output_senders@) =~= self.output_ids());
                assert(receiver_ids(context.input_receivers@) =~= self.input_ids());
            }
            workers.push(Worker { slot: i, input: self.input_receivers[i].clone(), output, context });
            i = i + 1;
        }
        (self.component, workers)
    }

    /// Links the task into `target`: its outputs are replaced
    /// by one fresh channel per slot of `target`, which become `target`'s
    /// inputs. Upstream slot `i` writes into the channel of downstream slot
    /// `i % target.slot_count()`, and each combined source into that of slot 0.
    /// The resulting task runs `target`'s stage, with `target`'s outputs.
    pub fn connect_with<B: PipelineComponent<Input = C::Output>>(self, target: PipelineTask<B>) -> (r: Linked<C, S, B>)
        requires
            self.wf(),
            target.wf(),
        ensures
            r.task.wf(),
            r.task.component() == target.component(),
            r.task.slot_count() == target.slot_count(),
            r.task.input_ids().len() == target.slot_count(),
            r.task.input_sender_ids() == target.input_sender_ids(),
            r.task.output_ids() == target.output_ids(),
            r.task.output_receiver_ids() == target.output_receiver_ids(),
            r.task.sources().len() == 0,
            r.upstream == self.component(),
            r.workers.len() == self.slot_count(),
            forall|i: int| 0 <= i < self.slot_count() ==> {
                &&& (#[trigger] r.workers[i]).slot == i
                &&& r.workers[i].input.channel_id() == self.input_ids()[i]
                &&& r.workers[i].output.channel_id() == r.task.input_ids()[i % (target.slot_count() as int)]
                &&& sender_ids(r.workers[i].context.output_senders@) == r.task.input_ids()
                &&& receiver_ids(r.workers[i].context.input_receivers@) == self.input_ids()
            },
            r.sources.len() == self.sources().len(),
            forall|k: int| 0 <= k < self.sources().len() ==> {
                &&& (#[trigger] r.sources[k]).0 == self.sources()[k].component()
                &&& r.sources[k].1.slot == 0
                &&& r.sources[k].1.input.channel_id() == self.sources()[k].input_ids()[0]
                &&& r.sources[k].1.output.channel_id() == r.task.input_ids()[0]
                &&& sender_ids(r.sources[k].1.context.output_senders@) == r.task.input_ids()
                &&& receiver_ids(r.sources[k].1.context.input_receivers@) == self.sources()[k].input_ids()
            },
    {
        let ghost old_self = self;
        let PipelineTask {
            component,
            slots,
            input_receivers,
            input_senders: _,
            output_receivers: _,
            output_senders: _,
            combined_sources,
        } = self;
        let PipelineTask {
            component: b_component,
            slots: b_slots,
            input_receivers: _,
            input_senders: b_input_senders,
            output_receivers: b_output_receivers,
            output_senders: b_output_senders,
            combined_sources: _,
        } = target;

        let (senders, receivers) = fresh_channels::<C::Output>(b_slots);
        let workers = deploy_to_slots(&input_receivers, &senders, slots);
        let ghost ids = receiver_ids(receivers@);
        proof {
            assert forall|i: int| 0 <= i < slots implies #[trigger] senders[i % (b_slots as int)].channel_id() == ids[i % (b_slots as int)] by {
                assert(sender_ids(senders@)[i % (b_slots as int)] == ids[i % (b_slots as int)]);
            }
        }

        let mut sources: Vec<(S, Worker<S::Input, C::Output>)> = Vec::new();
        let mut rest = combined_sources;
        let ghost all = rest@;
        proof {
            assert forall|k: int| 0 <= k < all.len() implies (#[trigger] all[k]).shape_wf() by {
                assert(all[k] == old_self.sources()[k]);
            }
        }
        while rest.len() > 0
            invariant
                sender_ids(senders@) == ids,
                senders.len() == b_slots,
                b_slots >= 1,
                sources.len() + rest.len() == all.len(),
                rest@ == all.subrange(sources.len() as int, all.len() as int),
                forall|k: int| 0 <= k < all.len() ==> (#[trigger] all[k]).shape_wf(),
                forall|k: int| 0 <= k < sources.len() ==> {
                    &&& (#[trigger] sources[k]).0 == all[k].component()
                    &&& sources[k].1.slot == 0
                    &&& sources[k].1.input.channel_id() == all[k].input_ids()[0]
                    &&& sources[k].1.output.channel_id() == ids[0]
                    &&& sender_ids(sources[k].1.context.output_senders@) == ids
                    &&& receiver_ids(sources[k].1.context.input_receivers@) == all[k].input_ids()
                },
            decreases rest.len(),
        {
            let src = rest.remove(0);
            proof {
                assert(src == all[sources.len() as int]);
            }
            let PipelineTask { component: src_component, input_receivers: src_inputs, .. } = src;
            let input = src_inputs[0].clone();
            let output = senders[0].clone();
            proof {
                assert(sender_ids(senders@)[0] == ids[0]);
            }
            let context = ComponentContext { output_senders: clone_senders(&senders), input_receivers: src_inputs };
            proof {
                assert(sender_ids(context.output_senders@) =~= sender_ids(senders@));
            }
            sources.push((src_component, Worker { slot: 0, input, output, context }));
            proof {
                assert(rest@ =~= all.subrange(sources.len() as int, all.len() as int));
            }
        }

        let task = PipelineTask {
            component: b_component,
            slots: b_slots,
            input_receivers: receivers,
            input_senders: b_input_senders,
            output_receivers: b_output_receivers,
            output_senders: b_output_senders,
            combined_sources: Vec::new(),
        };
        Linked { task, upstream: component, workers, sources }
    }
}

} // verus!

verus! {

impl<C: PipelineComponent, S: PipelineComponent<Output = C::Output>> MonitoredTask for PipelineTask<C, S> {
    /// A sample lists the output senders, then the output receivers, each
    /// with its label and a bound of 0 (every channel is unbounded).
    open spec fn reports(&self, m: Seq<(String, usize, usize)>) -> bool {
        &&& m.len() == self.output_ids().len() + self.output_receiver_ids().len()
        &&& forall|i: int| 0 <= i < self.output_ids().len() ==> (#[trigger] m[i]).0@ == "output_senders"@
        &&& forall|i: int| self.output_ids().len() <= i < m.len() ==> (#[trigger] m[i]).0@ == "output_receivers"@
        &&& forall|i: int| 0 <= i < m.len() ==> (#[trigger] m[i]).2 == 0
    }

    /// One entry per output sender, then one per output receiver: a label,
    /// the number of queued messages and the bound of the channel (0 when
    /// unbounded).
    fn get_metrics(&self) -> (r: Vec<(String, usize, usize)>)
        ensures
            r.len() == self.output_ids().len() + self.output_receiver_ids().len(),
            forall|i: int| 0 <= i < self.output_ids().len() ==> (#[trigger] r[i]).0@ == "output_senders"@,
            forall|i: int| self.output_ids().len() <= i < r.len() ==> (#[trigger] r[i]).0@ == "output_receivers"@,
            forall|i: int| 0 <= i < r.len() ==> (#[trigger] r[i]).2 == 0,
    {
        let mut metrics: Vec<(String, usize, usize)> = Vec::new();
        let mut i: usize = 0;
        while i < self.output_senders.len()
            invariant
                i <= self.output_senders.len(),
                metrics.len() == i,
                forall|k: int| 0 <= k < i ==> (#[trigger] metrics[k]).0@ == "output_senders"@,
                forall|k: int| 0 <= k < i ==> (#[trigger] metrics[k]).2 == 0,
            decreases self.output_senders.len() - i,
        {
            let s = &self.output_senders[i];
            let bound = match s.capacity() {
                Some(c) => c,
                None => 0,
            };
            metrics.push(("output_senders".to_owned(), s.len(), bound));
            i = i + 1;
        }
        let mut j: usize = 0;
        while j < self.output_receivers.len()
            invariant
                j <= self.output_receivers.len(),
                metrics.len() == self.output_senders.len() + j,
                forall|k: int| 0 <= k < self.output_senders.len() ==> (#[trigger] metrics[k]).0@ == "output_senders"@,
                forall|k: int| self.output_senders.len() <= k < metrics.len() ==> (#[trigger] metrics[k]).0@ == "output_receivers"@,
                forall|k: int| 0 <= k < metrics.len() ==> (#[trigger] metrics[k]).2 == 0,
            decreases self.output_receivers.len() - j,
        {
            let q = &self.output_receivers[j];
            let bound = match q.capacity() {
                Some(c) => c,
                None => 0,
            };
            metrics.push(("output_receivers".to_owned(), q.len(), bound));
            j = j + 1;
        }
        metrics
    }
}

} // verus!
