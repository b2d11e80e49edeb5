use vstd::prelude::*;

verus! {

#[verifier::external_type_specification]
#[verifier::external_body]
pub struct ExSystemTime(std::time::SystemTime);

/// Relies on `std::time::SystemTime::now`: the current wall-clock time.
#[verifier::external_body]
fn system_now() -> (r: std::time::SystemTime) {
    std::time::SystemTime::now()
}

/// Relies on `std::time::SystemTime::duration_since` against the Unix
/// epoch: the time elapsed since then, or nothing for a time before it.
#[verifier::external_body]
fn since_epoch(t: &std::time::SystemTime) -> (r: Option<std::time::Duration>) {
    t.duration_since(std::time::UNIX_EPOCH).ok()
}

/// Relies on `std::time::Duration::as_millis`: the whole milliseconds of `d`.
#[verifier::external_body]
fn duration_millis(d: &std::time::Duration) -> (r: u128) {
    d.as_millis()
}

/// The wall-clock time in milliseconds since the Unix epoch (0 for a clock
/// set before it).
pub fn now_millis() -> (r: u64) {
    let t = system_now();
    match since_epoch(&t) {
        Some(d) => duration_millis(&d) as u64,
        None => 0,
    }
}

/// The envelope that travels through every channel of a pipeline: a payload
/// with its event time, its ingestion time (both in milliseconds since the
/// epoch) and the tag of the source it came from, if any.
#[derive(Clone, Debug)]
pub struct Message<T> {
    pub payload: T,
    pub event_timestamp: u64,
    pub ingestion_timestamp: u64,
    pub source_id: Option<String>,
}

/// `m` with its tag set to `tag` when it has none and `tag` names one;
/// `m` unchanged otherwise.
pub open spec fn tagged<T>(m: Message<T>, tag: Option<String>) -> Message<T> {
    if m.source_id.is_none() && tag.is_some() {
        Message { source_id: tag, ..m }
    } else {
        m
    }
}

/// The payloads of `ms`, in order.
pub open spec fn payloads<T>(ms: Seq<Message<T>>) -> Seq<T> {
    ms.map_values(|m: Message<T>| m.payload)
}

impl<T> Message<T> {
    /// Wraps `payload`, stamping event and ingestion time with the current time.
    pub fn new(payload: T) -> (r: Self)
        ensures
            r.payload == payload,
            r.event_timestamp == r.ingestion_timestamp,
            r.source_id.is_none(),
    {
        let now = now_millis();
        Message { payload, event_timestamp: now, ingestion_timestamp: now, source_id: None }
    }

    /// A message with the same timestamps and tag as `self`, carrying `new_payload`.
    pub fn with_new_payload<U>(self, new_payload: U) -> (r: Message<U>)
        ensures
            r.payload == new_payload,
            r.event_timestamp == self.event_timestamp,
            r.ingestion_timestamp == self.ingestion_timestamp,
            r.source_id == self.source_id,
    {
        Message {
            payload: new_payload,
            event_timestamp: self.event_timestamp,
            ingestion_timestamp: self.ingestion_timestamp,
            source_id: self.source_id,
        }
    }

    /// Wraps `payload` with an explicit event time; ingestion time is now.
    pub fn with_event_time(payload: T, event_time: u64) -> (r: Self)
        ensures
            r.payload == payload,
            r.event_timestamp == event_time,
            r.source_id.is_none(),
    {
        let now = now_millis();
        Message { payload, event_timestamp: event_time, ingestion_timestamp: now, source_id: None }
    }

    /// The same message tagged with `source_id`.
    pub fn with_source(self, source_id: String) -> (r: Self)
        ensures
            r == (Message { source_id: Some(source_id), ..self }),
    {
        Message { source_id: Some(source_id), ..self }
    }
}

} // verus!
