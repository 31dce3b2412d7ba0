//! Verified core of a USB "GUD" (generic USB display) gadget.
pub mod aio;
pub mod buffer;
pub mod bulk;
pub mod clock;
pub mod config;
pub mod display;
pub mod endpoint;
pub mod events;
pub mod framebuffer;
pub mod gud;
pub mod lz4;
pub mod messages;
pub mod modes;
pub mod paint;
pub mod presenter;
pub mod protocol;
pub mod publish;
pub mod routes;
pub mod scanout;
pub mod session;
pub mod shadow;
pub mod text;
pub mod viewer;
pub mod viewer_client;
pub mod waiting;
pub mod wire;
