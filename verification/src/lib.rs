//! Offscreen web rendering for Slint.
//!
//! A browser draws its pages into textures instead of windows. This crate holds
//! what is decided and computed on the way from a painted texture to pixels or
//! a Slint image: how the browser is set up ([`browser`]), what it is told of its
//! view ([`render_handler`]), what becomes of a painted frame ([`paint`],
//! [`bindings`]), how a frame is read back ([`readback`]), brought into RGBA order
//! ([`channels`]) and made an image ([`image`]), and what can go wrong ([`error`]).
//!
//! What holds after any run of resizes and painted frames stands in [`history`],
//! and what holds of the calls of the library, with what the graphics device
//! ([`device`]) does between them, in [`laws`].
//!
//! The handles of the browser and of the graphics API are type parameters: they
//! are carried through and never looked into. The parts of a render handler are
//! shared behind locks of their own, outside; a function that needs a part takes
//! what locking it gave, `None` where the lock is poisoned.

pub mod bindings;
pub mod browser;
pub mod channels;
pub mod device;
pub mod error;
pub mod history;
pub mod image;
pub mod laws;
pub mod paint;
pub mod readback;
pub mod render_handler;

pub use browser::CefOffscreenBrowser;
pub use render_handler::CefRenderHandler;
