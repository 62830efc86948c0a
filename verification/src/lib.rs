pub mod node;
pub mod protocol;
pub mod sink;

pub use node::{Node, NodeData, QualName};
pub use protocol::{event_text, replay, Event};
pub use sink::{NodeOrText, QuirksMode, TextOnly};
