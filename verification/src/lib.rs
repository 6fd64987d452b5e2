//! Progress tracking for background operations that several producers report
//! concurrently.
//!
//! A producer reports through a [`Fidget`]: that an operation exists, how it
//! goes, that it is over. The reports travel through an inbox to the
//! [`FidgetWidget`], which takes them in one at a time: it keeps one
//! [`Provider`] for each producer and in it one [`Item`] for each operation,
//! with the status line that is shown of it.

pub mod component;
pub mod decimal;
pub mod format;
pub mod handle;
pub mod inbox;
pub mod item;
pub mod message;
pub mod panel;
pub mod progress;
pub mod provider;
pub mod search;
pub mod token;
pub mod widget;

pub use component::{CursorKind, EventResult, Position};
pub use format::format_progress;
pub use handle::{delivery, fidget_and_widget, Disconnected, Fidget};
pub use item::Item;
pub use message::FidgetMessage;
pub use progress::{
    ProgressStatus, WorkDoneProgress, WorkDoneProgressBegin, WorkDoneProgressEnd,
    WorkDoneProgressReport,
};
pub use provider::Provider;
pub use token::ProgressToken;
pub use widget::{Drained, FidgetWidget};
