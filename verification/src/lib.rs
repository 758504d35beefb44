//! Drawing on a shared native context from any thread.
//!
//! A [`Context`] stands in front of a drawing backend whose handle is not
//! safe to share by itself. Every operation is submitted to a [`Spawner`] and
//! returns a completion handle at once; the backend call runs on a worker,
//! behind a barrier that turns a fault raised by the backend into an
//! [`Error`]. [`DataProvider`] and [`Image`] keep a native handle and the
//! memory it reads from together, and let them go in the right order.

pub mod command;
pub mod context;
pub mod data_provider;
pub mod error;
pub mod image;
pub mod spawner;
pub mod util;

pub use command::DrawCall;
pub use command::PathDrawingMode;
pub use command::Point;
pub use command::Rect;
pub use command::Scalar;
pub use command::Size;
pub use context::perform;
pub use context::Completion;
pub use context::Context;
pub use data_provider::DataProvider;
pub use error::objc_try;
pub use error::Error;
pub use error::Fault;
pub use image::Image;
pub use image::ImageInfo;
pub use spawner::Spawner;
pub use util::SyncContainer;
