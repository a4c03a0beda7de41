//! Deterministic marble art: one large integer seed drives a fixed sequence of
//! bounded draws (three palette colors, a layering order of three shapes and a
//! rotation), which are composed into an SVG document and rasterized to PNG.
pub mod draws;
pub mod laws;
pub mod marble;
pub mod palette;
pub mod render;
pub mod request;
pub mod seed;
pub mod svg;

pub use marble::Marble;
pub use render::RenderError;
pub use request::{marble_png, RequestError, IMAGE_SIZE};
pub use seed::{SeedFormatError, Seedable, U256};
