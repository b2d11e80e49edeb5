//! Typed streaming dataflow pipelines: stages connected by channels of
//! timestamped messages, linked into chains of tasks, each task running one
//! or more workers of its stage.

pub mod bluesky;
pub mod channel;
pub mod component;
pub mod context;
pub mod filter;
pub mod map;
pub mod message;
pub mod monitor;
pub mod printer_sink;
pub mod reduce;
pub mod slots;
pub mod sources;
pub mod task;
pub mod test_utils;
pub mod window;

pub use channel::{channel, with_source, ChannelClosed, EndOfStream, Receiver, Sender};
pub use component::{deliver, Emission, PipelineComponent, Route, Undelivered};
pub use context::ComponentContext;
pub use filter::{Filter, FilterCondition, Pattern};
pub use map::Mapper;
pub use message::Message;
pub use monitor::{MonitoredTask, PipelineMonitor};
pub use printer_sink::PrinterSink;
pub use reduce::Reduce;
pub use slots::{Merger, RoundRobinSplitter};
pub use sources::{BlueskyFirehoseSource, FileSource, MastodonFirehoseSource, WebSocketMqttSource, WebSocketSource};
pub use task::{ConfigurationError, Linked, PipelineTask, Worker};
pub use window::{Window, WindowCondition};
