//! A bounded frame hand-off between a render loop and a video encoder, and
//! builder methods for fill tessellation options.
//!
//! A fixed set of pixel buffers circulates between the producer, which fills
//! one per frame, and the consumer, which hands each frame to the encoder and
//! gives the buffer back. Nothing is allocated after construction, neither
//! side waits inside this crate, and every buffer is accounted for at all
//! times.
//!
//! - `config`: the settings of a recording and their validation.
//! - `frame`: the buffers and the copy of a frame.
//! - `pool_model`, `pool`: the buffers' places and the two queues, as
//!   mathematics and as code.
//! - `lifecycle`: the states of a session and what moves it between them.
//! - `clock`: presentation timestamps.
//! - `readback`: a bounded wait for a buffer to become readable.
//! - `session_model`, `session`: the producer's and the consumer's side of a
//!   recording, as mathematics and as code.
//! - `laws`: what holds of a session whatever is asked of it.
//! - `fill`: the `SetFill` trait over `lyon`'s fill options.

pub mod clock;
pub mod config;
pub mod fill;
pub mod frame;
pub mod laws;
pub mod lifecycle;
pub mod pool;
pub mod pool_model;
pub mod readback;
pub mod session;
pub mod session_model;
