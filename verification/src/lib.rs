//! Driver core for a seven-color electrophoretic panel fed by a chunked,
//! range-request streaming pipeline.
//!
//! The crate models the four parts of the driver that carry real logic:
//! a pixel/palette codec ([`codec`]), a parser for the fixed-header binary
//! image container ([`container`]), the panel's command/protocol state
//! machine ([`panel`]), and the streaming fetch pipeline that delivers a
//! payload to the panel in ranged chunks ([`stream`]).
//!
//! All physical I/O (bus writes, delays, busy-line polling, network
//! requests) is left to the embedding program: the panel controller and the
//! pipeline emit plans of [`panel::Step`] values and consume the outcomes as
//! events, so every decision the driver makes is verified here.

pub mod codec;
pub mod container;
pub mod panel;
pub mod stream;

pub use codec::Color;
pub use container::Error;
pub use panel::EPD7in3f;
pub use stream::FetchPipeline;
