use floq::test_utils::{NumberCollector, NumberDoubler, NumberSource, StringCollector, StringSource};
use floq::{deliver, Filter, Mapper, PipelineComponent, PipelineTask, Reduce, RoundRobinSplitter, Window, Worker};

/// Runs one worker of `stage` to the end of its input, the way the runtime does.
fn drive<C: PipelineComponent>(stage: &mut C, w: Worker<C::Input, C::Output>) {
    let n = w.context.output_senders.len();
    let k = w.context.input_receivers.len();
    if !stage.accepts(k, n) {
        return;
    }
    if deliver(stage.on_start(k, n), &w.output, &w.context).is_err() {
        return;
    }
    while let Ok(m) = w.input.recv() {
        if deliver(stage.on_message(m, k, n), &w.output, &w.context).is_err() {
            break;
        }
    }
    let _ = deliver(stage.on_end(k, n), &w.output, &w.context);
}

fn drive_all<C: PipelineComponent>(stage: &mut C, workers: Vec<Worker<C::Input, C::Output>>) {
    for w in workers {
        drive(stage, w);
    }
}

#[test]
fn test_simple_pipeline() {
    let first = PipelineTask::new(NumberSource::new()).connect_with(PipelineTask::new(NumberDoubler::new()));
    let second = first.task.connect_with(PipelineTask::new(NumberCollector::new()));
    let (mut collector, tail) = second.task.deploy();
    let mut source = first.upstream;
    drive_all(&mut source, first.workers);
    let mut doubler = second.upstream;
    drive_all(&mut doubler, second.workers);
    drive_all(&mut collector, tail);
    assert_eq!(collector.results, vec![0, 2, 4]);
}

#[test]
fn test_source_only() {
    let linked = PipelineTask::new(NumberSource::new()).connect_with(PipelineTask::new(NumberCollector::new()));
    let (mut collector, tail) = linked.task.deploy();
    let mut source = linked.upstream;
    drive_all(&mut source, linked.workers);
    drive_all(&mut collector, tail);
    assert_eq!(collector.results, vec![0, 1, 2]);
}

#[test]
fn test_multiple_transformers() {
    let first = PipelineTask::new(NumberSource::new()).connect_with(PipelineTask::new(NumberDoubler::new()));
    let second = first.task.connect_with(PipelineTask::new(NumberDoubler::new()));
    let third = second.task.connect_with(PipelineTask::new(NumberCollector::new()));
    let (mut collector, tail) = third.task.deploy();
    let mut source = first.upstream;
    drive_all(&mut source, first.workers);
    let mut d1 = second.upstream;
    drive_all(&mut d1, second.workers);
    let mut d2 = third.upstream;
    drive_all(&mut d2, third.workers);
    drive_all(&mut collector, tail);
    assert_eq!(collector.results, vec![0, 4, 8]);
}

#[test]
fn test_round_robin_splitter() {
    let collector_task = PipelineTask::with_slots(NumberCollector::new(), 2).unwrap();
    let splitter_task = PipelineTask::new(RoundRobinSplitter::<i32>::new());
    let first = PipelineTask::new(NumberSource::new()).connect_with(splitter_task);
    let second = first.task.connect_with(collector_task);
    let (mut collector, tail) = second.task.deploy();
    let mut source = first.upstream;
    drive_all(&mut source, first.workers);
    let mut splitter = second.upstream;
    drive_all(&mut splitter, second.workers);
    // slot 0 runs first, then slot 1
    drive_all(&mut collector, tail);
    let results = collector.results;
    assert_eq!(results, vec![0, 2, 1]);
    assert_eq!(results.len(), 3);
}

#[test]
fn test_filter() {
    let filter = Filter::<fn(&String) -> bool>::with_pattern(r"2").unwrap();
    let first = PipelineTask::new(StringSource::new()).connect_with(PipelineTask::new(filter));
    let second = first.task.connect_with(PipelineTask::new(StringCollector::new()));
    let (mut collector, tail) = second.task.deploy();
    let mut source = first.upstream;
    drive_all(&mut source, first.workers);
    let mut filter = second.upstream;
    drive_all(&mut filter, second.workers);
    drive_all(&mut collector, tail);
    let results = collector.results;
    assert_eq!(results, vec!["2"]);
    assert_eq!(results.len(), 1);
}

#[test]
fn test_filter_lambda() {
    let filter = Filter::with_lambda(|s: &String| {
        if let Ok(num) = s.parse::<i32>() {
            num % 2 == 0
        } else {
            false
        }
    });
    let first = PipelineTask::new(StringSource::new()).connect_with(PipelineTask::new(filter));
    let second = first.task.connect_with(PipelineTask::new(StringCollector::new()));
    let (mut collector, tail) = second.task.deploy();
    let mut source = first.upstream;
    drive_all(&mut source, first.workers);
    let mut filter = second.upstream;
    drive_all(&mut filter, second.workers);
    drive_all(&mut collector, tail);
    let results = collector.results;
    assert_eq!(results, vec!["0", "2"]);
    assert_eq!(results.len(), 2);
}

#[test]
fn test_map() {
    let map = Mapper::new(|num: i32| format!("Number: {}", num));
    let first = PipelineTask::new(NumberSource::new()).connect_with(PipelineTask::new(map));
    let second = first.task.connect_with(PipelineTask::new(StringCollector::new()));
    let (mut collector, tail) = second.task.deploy();
    let mut source = first.upstream;
    drive_all(&mut source, first.workers);
    let mut map = second.upstream;
    drive_all(&mut map, second.workers);
    drive_all(&mut collector, tail);
    let results = collector.results;
    assert_eq!(results, vec!["Number: 0", "Number: 1", "Number: 2"]);
    assert_eq!(results.len(), 3);
}

#[test]
fn test_reduce() {
    let reduce = Reduce::new(0, |acc: i32, x: i32| acc + x);
    let first = PipelineTask::new(NumberSource::new()).connect_with(PipelineTask::new(reduce));
    let second = first.task.connect_with(PipelineTask::new(NumberCollector::new()));
    let (mut collector, tail) = second.task.deploy();
    let mut source = first.upstream;
    drive_all(&mut source, first.workers);
    let mut reduce = second.upstream;
    drive_all(&mut reduce, second.workers);
    drive_all(&mut collector, tail);
    let results = collector.results;
    assert_eq!(results, vec![0, 1, 3]);
    assert_eq!(results.len(), 3);
    assert_eq!(reduce.get_result(), 3);
}

#[test]
fn test_count_based_window() {
    let map = Mapper::new(|batch: Vec<String>| batch.join(","));
    let first = PipelineTask::new(StringSource::new()).connect_with(PipelineTask::new(Window::<String>::with_count(2)));
    let second = first.task.connect_with(PipelineTask::new(map));
    let third = second.task.connect_with(PipelineTask::new(StringCollector::new()));
    let (mut collector, tail) = third.task.deploy();
    let mut source = first.upstream;
    drive_all(&mut source, first.workers);
    let mut window = second.upstream;
    drive_all(&mut window, second.workers);
    let mut map = third.upstream;
    drive_all(&mut map, third.workers);
    drive_all(&mut collector, tail);
    assert_eq!(collector.results, vec!["0,1", "2"]);
}
