use vstd::prelude::*;
use std::sync::Arc;

verus! {

/// A task whose channels can be sampled: each entry is a label, the number
/// of queued messages and the bound of the channel (0 when unbounded).
pub trait MonitoredTask: Send + Sync {
    /// Whether `m` is a sample the task may report.
    open spec fn reports(&self, m: Seq<(String, usize, usize)>) -> bool {
        true
    }

    fn get_metrics(&self) -> (r: Vec<(String, usize, usize)>)
        ensures
            self.reports(r@),
    ;
}

/// The registry of tasks (all of one kind) that a periodic sampler reports on. The sampler
/// itself is started at most once.
#[verifier::reject_recursive_types(M)]
pub struct PipelineMonitor<M: MonitoredTask> {
    tasks: Vec<Arc<M>>,
    is_monitoring: bool,
}

impl<M: MonitoredTask> PipelineMonitor<M> {
    /// The registered tasks, in registration order.
    pub closed spec fn tasks(&self) -> Seq<Arc<M>> {
        self.tasks@
    }

    pub open spec fn task_count(&self) -> nat {
        self.tasks().len()
    }

    pub closed spec fn monitoring(&self) -> bool {
        self.is_monitoring
    }

    pub fn new() -> (r: Self)
        ensures
            r.task_count() == 0,
            !r.monitoring(),
    {
        PipelineMonitor { tasks: Vec::new(), is_monitoring: false }
    }

    /// Adds `task` to the tasks the sampler reports on.
    pub fn register_monitor(&mut self, task: Arc<M>)
        ensures
            final(self).tasks() == old(self).tasks().push(task),
            final(self).monitoring() == old(self).monitoring(),
    {
        self.tasks.push(task);
    }

    /// Marks the sampler as running. Returns whether it was not running
    /// before, that is, whether the caller has to launch it now.
    pub fn start(&mut self) -> (r: bool)
        ensures
            r == !old(self).monitoring(),
            final(self).monitoring(),
            final(self).tasks() == old(self).tasks(),
    {
        if self.is_monitoring {
            false
        } else {
            self.is_monitoring = true;
            true
        }
    }

    /// Marks the sampler as stopped.
    pub fn stop(&mut self)
        ensures
            !final(self).monitoring(),
            final(self).tasks() == old(self).tasks(),
    {
        self.is_monitoring = false;
    }

    pub fn is_monitoring(&self) -> (r: bool)
        ensures
            r == self.monitoring(),
    {
        self.is_monitoring
    }

    /// The metrics of every registered task, in registration order: one
    /// sample of each task, one after the other.
    pub fn snapshot(&self) -> (r: Vec<(String, usize, usize)>)
        ensures
            self.task_count() == 0 ==> r.len() == 0,
            exists|parts: Seq<Seq<(String, usize, usize)>>| {
                &&& parts.len() == self.task_count()
                &&& forall|k: int| 0 <= k < parts.len() ==> self.tasks()[k].reports(#[trigger] parts[k])
                &&& r@ == parts.flatten()
            },
    {
        let mut all: Vec<(String, usize, usize)> = Vec::new();
        let ghost mut parts: Seq<Seq<(String, usize, usize)>> = seq![];
        let mut i: usize = 0;
        while i < self.tasks.len()
            invariant
                i <= self.tasks.len(),
                parts.len() == i,
                forall|k: int| 0 <= k < i ==> self.tasks()[k].reports(#[trigger] parts[k]),
                all@ == parts.flatten(),
            decreases self.tasks.len() - i,
        {
            let mut m = self.tasks[i].get_metrics();
            proof {
                parts.lemma_flatten_push(m@);
                parts = parts.push(m@);
            }
            all.append(&mut m);
            i = i + 1;
        }
        proof {
            if self.task_count() == 0 {
                assert(parts =~= Seq::<Seq<(String, usize, usize)>>::empty());
                assert(all@ =~= parts.flatten());
            }
        }
        all
    }
}

impl<M: MonitoredTask> Clone for PipelineMonitor<M> {
    /// A registry of the same tasks, in the same state.
    fn clone(&self) -> (r: Self)
        ensures
            r.task_count() == self.task_count(),
            r.monitoring() == self.monitoring(),
    {
        let mut tasks: Vec<Arc<M>> = Vec::new();
        let mut i: usize = 0;
        while i < self.tasks.len()
            invariant
                i <= self.tasks.len(),
                tasks.len() == i,
            decreases self.tasks.len() - i,
        {
            tasks.push(Arc::clone(&self.tasks[i]));
            i = i + 1;
        }
        PipelineMonitor { tasks, is_monitoring: self.is_monitoring }
    }
}

} // verus!
