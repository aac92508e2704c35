//! Command sequencing for a minimal WebGL2 renderer.
//!
//! The renderer owns a rendering surface, one linked shader program and one
//! vertex buffer, and knows which driver calls each of its operations
//! takes, in which order. It makes none of those calls itself: every
//! operation returns a batch of [`command::Command`] values for the host to
//! perform on the WebGL2 context.
//!
//! Construction needs answers from the driver, so it runs in turns. Each
//! [`step::Step`] hands out a batch; the host performs it and passes what
//! the last call returned to `advance`, until the step is a finished
//! renderer or a failure with the batch that releases what was acquired.
//!
//! [`driver`] gives the commands a meaning, and [`laws`] states what then
//! holds of every construction and of every frame.

pub mod buffer;
pub mod command;
pub mod driver;
pub mod error;
pub mod gl;
pub mod laws;
pub mod renderer;
pub mod shaders;
pub mod step;
