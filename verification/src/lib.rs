//! A small real-time rendering core.
//!
//! The crate holds everything about one colour-attachment pass over a few
//! static meshes that can be decided without touching a graphics device:
//! the geometry and its byte image, the requests made while a device is
//! negotiated, the surface configuration, the pipeline description, the
//! commands of a frame and the way a frame ends. A thin shell around the
//! crate owns the window and the device and carries out what is decided here.

pub mod bytes;

pub mod vertex;

pub mod surface;

pub mod frame;

pub mod pipeline;

pub mod event;

pub mod state;

pub mod texture;
