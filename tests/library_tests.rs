use floq::bluesky::{CborValue, FirehoseMessage};
use floq::test_utils::{DelayedStringSource, NumberCollector, NumberDoubler, NumberSource, StringSource};
use floq::{
    deliver, ComponentContext, Emission, Undelivered,
    channel, with_source, ChannelClosed, ConfigurationError, EndOfStream, Filter, Mapper, MastodonFirehoseSource,
    Message, MonitoredTask, Pattern, PipelineComponent, PipelineMonitor, PipelineTask, PrinterSink, Reduce,
    RoundRobinSplitter, Route, WebSocketMqttSource, Window, WindowCondition,
};
use std::sync::Arc;

fn msg<T>(payload: T, t: u64) -> Message<T> {
    Message::with_event_time(payload, t)
}

fn strings(xs: &[&str]) -> Vec<Message<String>> {
    xs.iter().map(|s| Message::new(s.to_string())).collect()
}

#[test]
fn message_with_new_payload_keeps_metadata() {
    let m = msg(7, 1234).with_source("feed".to_string());
    let ingested = m.ingestion_timestamp;
    let n = m.with_new_payload("seven");
    assert_eq!(n.payload, "seven");
    assert_eq!(n.event_timestamp, 1234);
    assert_eq!(n.ingestion_timestamp, ingested);
    assert_eq!(n.source_id.as_deref(), Some("feed"));
}

#[test]
fn message_new_stamps_both_times_alike() {
    let m = Message::new(1u8);
    assert_eq!(m.event_timestamp, m.ingestion_timestamp);
    assert!(m.event_timestamp > 0);
    assert!(m.source_id.is_none());
}

#[test]
fn channel_is_fifo_and_ends_when_senders_drop() {
    let (s, r) = channel::<i32>();
    for i in 0..5 {
        assert!(s.send(Message::new(i)).is_ok());
    }
    assert_eq!(s.len(), 5);
    assert_eq!(r.len(), 5);
    assert_eq!(s.capacity(), None);
    drop(s);
    let got: Vec<i32> = std::iter::from_fn(|| r.recv().ok()).map(|m| m.payload).collect();
    assert_eq!(got, vec![0, 1, 2, 3, 4]);
    assert!(matches!(r.recv(), Err(EndOfStream)));
}

#[test]
fn send_to_closed_channel_returns_message() {
    let (s, r) = with_source::<i32>("tag".to_string());
    drop(r);
    match s.send(msg(5, 10)) {
        Err(ChannelClosed(back)) => {
            assert_eq!(back.payload, 5);
            assert_eq!(back.source_id.as_deref(), Some("tag"));
        }
        Ok(()) => panic!("send into a closed channel succeeded"),
    }
}

#[test]
fn source_tag_only_fills_empty_tags() {
    let (s, r) = with_source::<i32>("mine".to_string());
    s.send(msg(1, 1)).unwrap();
    s.send(msg(2, 2).with_source("theirs".to_string())).unwrap();
    assert_eq!(r.recv().unwrap().source_id.as_deref(), Some("mine"));
    assert_eq!(r.recv().unwrap().source_id.as_deref(), Some("theirs"));
}

#[test]
fn send_with_time_records_event_time() {
    let (s, r) = channel::<&str>();
    s.send_with_time("x", 42).unwrap();
    assert_eq!(s.last_send_time(), 42);
    let m = r.recv().unwrap();
    assert_eq!(m.event_timestamp, 42);
    assert!(r.last_receive_time() > 0);
}

#[test]
fn with_slots_zero_is_refused() {
    assert!(matches!(PipelineTask::with_slots(NumberDoubler::new(), 0), Err(ConfigurationError::ZeroSlots)));
    assert_eq!(PipelineTask::with_slots(NumberDoubler::new(), 3).unwrap().slots(), 3);
}

#[test]
fn link_maps_upstream_slot_to_slot_modulo_downstream() {
    let upstream = PipelineTask::with_slots(NumberDoubler::new(), 3).unwrap();
    let downstream = PipelineTask::with_slots(NumberCollector::new(), 2).unwrap();
    let linked = upstream.connect_with(downstream);
    assert_eq!(linked.workers.len(), 3);
    assert_eq!(linked.task.slots(), 2);
    for w in &linked.workers {
        assert_eq!(w.context.output_senders.len(), 2);
        assert_eq!(w.context.input_receivers.len(), 3);
        w.output.send(Message::new(w.slot as i32)).unwrap();
    }
    drop(linked.workers);
    let (_collector, tail) = linked.task.deploy();
    let slot0: Vec<i32> = std::iter::from_fn(|| tail[0].input.recv().ok()).map(|m| m.payload).collect();
    let slot1: Vec<i32> = std::iter::from_fn(|| tail[1].input.recv().ok()).map(|m| m.payload).collect();
    assert_eq!(slot0, vec![0, 2]);
    assert_eq!(slot1, vec![1]);
}

#[test]
fn combined_sources_write_into_output_zero() {
    let main = PipelineTask::new(NumberSource::new());
    let extra = PipelineTask::new(NumberSource::new());
    let combined = main.combine(vec![extra]);
    let linked = combined.connect_with(PipelineTask::with_slots(NumberCollector::new(), 2).unwrap());
    assert_eq!(linked.sources.len(), 1);
    let (_, w) = &linked.sources[0];
    assert_eq!(w.slot, 0);
    assert_eq!(w.context.output_senders.len(), 2);
    w.output.send(Message::new(99)).unwrap();
    drop(linked.sources);
    drop(linked.workers);
    let (_c, tail) = linked.task.deploy();
    assert_eq!(tail[0].input.recv().unwrap().payload, 99);
}

#[test]
fn metrics_list_output_channels() {
    let task = PipelineTask::with_slots(NumberDoubler::new(), 2).unwrap();
    let metrics = task.get_metrics();
    assert_eq!(metrics.len(), 4);
    assert_eq!(metrics[0].0, "output_senders");
    assert_eq!(metrics[3].0, "output_receivers");
    assert_eq!(metrics[0].1, 0);
    assert_eq!(metrics[0].2, 0);
}

#[test]
fn monitor_starts_once() {
    let mut monitor = PipelineMonitor::new();
    monitor.register_monitor(Arc::new(PipelineTask::new(NumberDoubler::new())));
    assert!(monitor.start());
    assert!(!monitor.start());
    assert!(monitor.is_monitoring());
    assert_eq!(monitor.snapshot().len(), 2);
    monitor.stop();
    assert!(!monitor.is_monitoring());
}

#[test]
fn map_keeps_order_and_metadata() {
    let map = Mapper::new(|x: i32| x * 10);
    let inputs = vec![msg(1, 100).with_source("a".to_string()), msg(2, 200), msg(3, 300)];
    let out = map.process_all(inputs);
    let payloads: Vec<i32> = out.iter().map(|m| m.payload).collect();
    assert_eq!(payloads, vec![10, 20, 30]);
    assert_eq!(out[0].event_timestamp, 100);
    assert_eq!(out[0].source_id.as_deref(), Some("a"));
    assert_eq!(out[2].event_timestamp, 300);
}

#[test]
fn map_of_empty_stream_is_empty() {
    let map = Mapper::new(|x: i32| x + 1);
    assert!(map.process_all(Vec::new()).is_empty());
}

#[test]
fn filter_selects_in_order() {
    let f = Filter::with_lambda(|s: &String| s.len() > 1);
    let out = f.process_all(strings(&["a", "bb", "c", "dd", "eee"]));
    let texts: Vec<String> = out.into_iter().map(|m| m.payload).collect();
    assert_eq!(texts, vec!["bb", "dd", "eee"]);
}

#[test]
fn filter_pattern_matches_anywhere() {
    let f = Filter::<fn(&String) -> bool>::with_pattern("^a.c$").unwrap();
    assert!(f.matches(&"abc".to_string()));
    assert!(!f.matches(&"xabc".to_string()));
    let out = f.process_all(strings(&["abc", "aXc", "ac"]));
    assert_eq!(out.len(), 2);
}

#[test]
fn bad_pattern_is_a_configuration_error() {
    assert!(matches!(
        Filter::<fn(&String) -> bool>::with_pattern("(unclosed"),
        Err(ConfigurationError::InvalidPattern(_))
    ));
    assert!(Pattern::new("[").is_err());
    assert_eq!(Pattern::new("a+").unwrap().as_str(), "a+");
}

#[test]
fn reduce_sum_emits_running_sums() {
    let mut r = Reduce::new(0i64, |acc: i64, x: i64| acc + x);
    let out = r.process_all(vec![msg(1i64, 0), msg(2, 0), msg(3, 0), msg(4, 0)]);
    let sums: Vec<i64> = out.iter().map(|m| m.payload).collect();
    assert_eq!(sums, vec![1, 3, 6, 10]);
    assert_eq!(r.get_result(), 10);
}

#[test]
fn reduce_state_survives_between_calls() {
    let mut r = Reduce::new(String::new(), |acc: String, x: &str| acc + x);
    r.apply(Message::new("ab"));
    let m = r.apply(Message::new("c"));
    assert_eq!(m.payload, "abc");
    assert_eq!(r.get_result(), "abc");
}

#[test]
fn count_window_partitions_into_runs() {
    let mut w = Window::with_count(2);
    let out = w.process_all(vec![msg(1, 0), msg(2, 0), msg(3, 0), msg(4, 0), msg(5, 0)]);
    let batches: Vec<Vec<i32>> = out.into_iter().map(|m| m.payload).collect();
    assert_eq!(batches, vec![vec![1, 2], vec![3, 4], vec![5]]);
}

#[test]
fn count_window_exact_multiple_has_no_tail() {
    let mut w = Window::with_count(3);
    let out = w.process_all(vec![msg(1, 0), msg(2, 0), msg(3, 0)]);
    assert_eq!(out.len(), 1);
    assert_eq!(out[0].payload, vec![1, 2, 3]);
    let mut empty = Window::<i32>::with_count(3);
    assert!(empty.process_all(Vec::new()).is_empty());
}

#[test]
fn time_window_triggers_on_elapsed_time() {
    let mut w = Window::with_duration(100);
    assert!(w.push_at(msg("a", 0), 50).is_none());
    let batch = w.push_at(msg("b", 0), 100).unwrap();
    assert_eq!(batch.payload, vec!["a", "b"]);
    assert!(w.push_at(msg("c", 0), 150).is_none());
    assert_eq!(w.flush().unwrap().payload, vec!["c"]);
    assert!(w.flush().is_none());
}

#[test]
fn sliding_window_evicts_old_items() {
    let mut w = Window::with_sliding_window(100, 10);
    assert!(w.push_at(msg("old", 0), 5).is_none());
    let batch = w.push_at(msg("new", 150), 150).unwrap();
    assert_eq!(batch.payload, vec!["new"]);
    // the snapshot stays buffered for later windows
    assert_eq!(w.flush().unwrap().payload, vec!["new"]);
}

#[test]
fn should_trigger_follows_condition() {
    let w = Window::<i32>::with_count(2);
    assert!(!w.should_trigger(1, 0, 0));
    assert!(w.should_trigger(2, 0, 0));
    let t = Window::<i32>::with_duration(10);
    assert!(!t.should_trigger(5, 100, 109));
    assert!(t.should_trigger(5, 100, 110));
    assert!(!t.should_trigger(5, 100, 50));
    let _ = WindowCondition::Count(1);
}

#[test]
fn round_robin_deals_in_turn() {
    let mut s = RoundRobinSplitter::new();
    let out = s.process_all((0..7).map(|i| msg(i, 0)).collect(), 3);
    let dealt: Vec<Vec<i32>> = out.into_iter().map(|v| v.into_iter().map(|m| m.payload).collect()).collect();
    assert_eq!(dealt, vec![vec![0, 3, 6], vec![1, 4], vec![2, 5]]);
}

#[test]
fn round_robin_routes_by_counter() {
    let mut s = RoundRobinSplitter::new();
    assert!(!s.accepts(1, 1));
    assert!(s.accepts(1, 2));
    let routes: Vec<Route> = (0..3).map(|i| s.on_message(msg(i, 0), 1, 2).remove(0).route).collect();
    assert_eq!(routes, vec![Route::Slot(0), Route::Slot(1), Route::Slot(0)]);
}

#[test]
fn merger_shape_and_route() {
    let mut m = floq::Merger::new();
    assert!(m.accepts(2, 1));
    assert!(!m.accepts(1, 1));
    assert_eq!(m.on_message(msg(1, 0), 2, 1)[0].route, Route::Slot(0));
}

#[test]
fn sources_emit_their_items() {
    let mut n = NumberSource::new();
    let out: Vec<i32> = n.on_start(1, 1).into_iter().map(|e| e.message.payload).collect();
    assert_eq!(out, vec![0, 1, 2]);
    let mut s = StringSource::new();
    let out: Vec<String> = s.on_start(1, 1).into_iter().map(|e| e.message.payload).collect();
    assert_eq!(out, vec!["0", "1", "2"]);
    let mut d = DelayedStringSource::new(vec![("x".to_string(), 5), ("y".to_string(), 0)]);
    assert_eq!(d.schedule().len(), 2);
    assert_eq!(d.on_start(1, 1).len(), 2);
}

#[test]
fn doubler_wraps_on_overflow() {
    let d = NumberDoubler::new();
    assert_eq!(d.double(msg(21, 0)).payload, 42);
    assert_eq!(d.double(msg(i32::MAX, 0)).payload, -2);
}

#[test]
fn printer_sink_line_has_prefix() {
    let p = PrinterSink::new("> ".to_string());
    assert_eq!(p.line(&"hi".to_string()), "> hi");
    assert_eq!(PrinterSink::default().line(&"x".to_string()), "PrinterSink: x");
}

#[test]
fn mqtt_connection_url_carries_client_id() {
    let s = WebSocketMqttSource::new("ws://host:1".to_string(), "t".to_string(), "me".to_string());
    assert_eq!(s.connection_url(), "ws://host:1?client_id=me");
}

#[test]
fn mastodon_streaming_url() {
    let s = MastodonFirehoseSource::new("https://mastodon.social".to_string());
    assert_eq!(
        s.build_websocket_url().unwrap(),
        "wss://streaming.mastodon.social/api/v1/streaming?stream=public&access_token="
    );
    let t = MastodonFirehoseSource::with_token("http://example.org".to_string(), "k".to_string());
    assert_eq!(t.build_websocket_url().unwrap(), "ws://streaming.example.org/api/v1/streaming?stream=public&access_token=k");
    assert!(MastodonFirehoseSource::new("not a url".to_string()).build_websocket_url().is_err());
    assert!(MastodonFirehoseSource::wants_event("update"));
    assert!(!MastodonFirehoseSource::wants_event("delete"));
    assert_eq!(MastodonFirehoseSource::streaming_host(&None), "streaming.mastodon.social");
}

#[test]
fn firehose_ops_and_blocks_are_read_from_the_map() {
    let op = CborValue::Entries(vec![(CborValue::Text("action".to_string()), CborValue::Text("create".to_string()))]);
    let map = vec![
        (CborValue::Text("ops".to_string()), CborValue::Array(vec![op])),
        (CborValue::Text("blocks".to_string()), CborValue::Bytes(vec![1, 2, 3])),
    ];
    let ops = FirehoseMessage::extract_ops(&map).unwrap();
    assert_eq!(ops[0].action, "create");
    assert_eq!(FirehoseMessage::extract_blocks(&map).unwrap(), vec![1, 2, 3]);
    let commit = FirehoseMessage { ops, blocks: vec![] };
    assert_eq!(commit.creates_records(), Some(true));
    assert!(FirehoseMessage::extract_blocks(&vec![]).is_none());
}

#[test]
fn firehose_post_text_from_cbor_block() {
    // {"$type": "app.bsky.feed.post", "text": "hi"}
    let mut block = vec![0xa2u8, 0x65];
    block.extend_from_slice(b"$type");
    block.push(0x72);
    block.extend_from_slice(b"app.bsky.feed.post");
    block.push(0x64);
    block.extend_from_slice(b"text");
    block.push(0x62);
    block.extend_from_slice(b"hi");
    assert_eq!(FirehoseMessage::process_block(&block), Some("hi".to_string()));
    assert_eq!(FirehoseMessage::process_block(&[0x01]), None);
}

#[test]
fn firehose_frame_from_cbor() {
    // header {} then body {"ops": [{"action": "delete"}], "blocks": h'01'}
    let mut frame = vec![0xa0u8, 0xa2, 0x63];
    frame.extend_from_slice(b"ops");
    frame.extend_from_slice(&[0x81, 0xa1, 0x66]);
    frame.extend_from_slice(b"action");
    frame.push(0x66);
    frame.extend_from_slice(b"delete");
    frame.push(0x66);
    frame.extend_from_slice(b"blocks");
    frame.extend_from_slice(&[0x41, 0x01]);
    let commit = FirehoseMessage::from_cbor(&frame).unwrap();
    assert_eq!(commit.ops[0].action, "delete");
    assert_eq!(commit.blocks, vec![1]);
    assert_eq!(commit.creates_records(), Some(false));
    assert!(FirehoseMessage::from_cbor(&[0xa0]).is_none());
}

#[test]
fn mastodon_url_errors_and_fallback_domain() {
    let odd = MastodonFirehoseSource::new("foo://example.org".to_string());
    assert!(matches!(odd.build_websocket_url(), Err(ConfigurationError::UnsupportedScheme)));
    let ip = MastodonFirehoseSource::new("http://127.0.0.1".to_string());
    assert_eq!(
        ip.build_websocket_url().unwrap(),
        "ws://streaming.mastodon.social/api/v1/streaming?stream=public&access_token="
    );
    assert!(matches!(
        MastodonFirehoseSource::new("".to_string()).build_websocket_url(),
        Err(ConfigurationError::InvalidUrl(_))
    ));
}

#[test]
fn window_default_counts_ten() {
    let mut w: Window<u8> = Window::default();
    let out = w.process_all((0..25u8).map(|i| msg(i, 0)).collect());
    let sizes: Vec<usize> = out.iter().map(|m| m.payload.len()).collect();
    assert_eq!(sizes, vec![10, 10, 5]);
}

#[test]
fn deliver_reports_the_first_failed_emission() {
    let (out, out_r) = channel::<i32>();
    let (slot0, slot0_r) = with_source::<i32>("s0".to_string());
    let ctx: ComponentContext<(), i32> = ComponentContext { output_senders: vec![slot0], input_receivers: vec![] };
    assert!(deliver(Vec::new(), &out, &ctx).is_ok());
    drop(slot0_r);
    let emissions = vec![
        Emission { route: Route::Output, message: msg(1, 0) },
        Emission { route: Route::Slot(0), message: msg(2, 0) },
        Emission { route: Route::Output, message: msg(3, 0) },
    ];
    match deliver(emissions, &out, &ctx) {
        Err(Undelivered { index, message }) => {
            assert_eq!(index, 1);
            assert_eq!(message.payload, 2);
            assert_eq!(message.source_id.as_deref(), Some("s0"));
        }
        Ok(()) => panic!("a send into a closed channel went through"),
    }
    drop(out);
    let got: Vec<i32> = std::iter::from_fn(|| out_r.recv().ok()).map(|m| m.payload).collect();
    assert_eq!(got, vec![1]);
}

#[test]
fn receivers_report_no_bound() {
    let (s, r) = channel::<u8>();
    assert_eq!(s.clone().capacity(), None);
    assert_eq!(r.clone().capacity(), None);
}

#[test]
fn snapshot_concatenates_samples_in_registration_order() {
    let mut monitor = PipelineMonitor::new();
    monitor.register_monitor(Arc::new(PipelineTask::with_slots(NumberDoubler::new(), 2).unwrap()));
    monitor.register_monitor(Arc::new(PipelineTask::new(NumberDoubler::new())));
    let all = monitor.snapshot();
    assert_eq!(all.len(), 6);
    let labels: Vec<&str> = all.iter().map(|m| m.0.as_str()).collect();
    assert_eq!(
        labels,
        vec!["output_senders", "output_senders", "output_receivers", "output_receivers", "output_senders", "output_receivers"]
    );
    assert!(all.iter().all(|m| m.2 == 0));
    assert!(PipelineMonitor::<PipelineTask<NumberDoubler>>::new().snapshot().is_empty());
}

#[test]
fn streaming_endpoint_parts() {
    let s = MastodonFirehoseSource::with_token("https://example.org".to_string(), "tok".to_string());
    let e = s.streaming_endpoint(&"https".to_string(), &Some("example.org".to_string()));
    assert_eq!(e.scheme, "wss");
    assert_eq!(e.host, "streaming.example.org");
    assert_eq!(e.path, "/api/v1/streaming");
    assert_eq!(e.query, vec![("stream".to_string(), "public".to_string()), ("access_token".to_string(), "tok".to_string())]);
    let plain = MastodonFirehoseSource::new("http://x".to_string()).streaming_endpoint(&"http".to_string(), &None);
    assert_eq!(plain.scheme, "ws");
    assert_eq!(plain.host, "streaming.mastodon.social");
    assert_eq!(plain.query[1].1, "");
}

#[test]
fn reduce_emissions_are_fresh_messages() {
    let mut r = Reduce::new(0i64, |acc: i64, x: i64| acc + x);
    let out = r.process_all(vec![msg(5i64, 7).with_source("src".to_string())]);
    assert_eq!(out[0].payload, 5);
    assert_eq!(out[0].event_timestamp, out[0].ingestion_timestamp);
    assert!(out[0].source_id.is_none());
}

#[test]
fn outgoing_tags_only_untagged_messages() {
    let (s, _r) = with_source::<i32>("here".to_string());
    assert_eq!(s.outgoing(msg(1, 3)).source_id.as_deref(), Some("here"));
    assert_eq!(s.outgoing(msg(1, 3).with_source("there".to_string())).source_id.as_deref(), Some("there"));
    let (plain, _q) = channel::<i32>();
    assert!(plain.outgoing(msg(1, 3)).source_id.is_none());
}

#[test]
fn replicas_start_with_their_own_state() {
    let mut r = Reduce::new(10i64, |acc: i64, x: i64| acc + x);
    r.apply(Message::new(5));
    let fresh = r.replica();
    assert_eq!(r.get_result(), 15);
    assert_eq!(fresh.get_result(), 10);

    let mut w = Window::with_count(3);
    assert!(w.push_at(msg(1, 0), 0).is_none());
    let mut other = w.replica();
    assert_eq!(other.flush().map(|m| m.payload), None);
    assert_eq!(w.flush().unwrap().payload, vec![1]);
}

#[test]
fn sliding_window_of_nothing_emits_nothing() {
    let mut w = Window::<u8>::with_sliding_window(100, 0);
    assert!(w.process_all(Vec::new()).is_empty());
}
