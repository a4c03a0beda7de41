//! What a request for a marble image comes to, from its seed parameter: the
//! PNG bytes, or the client error to answer with.
use crate::draws::svg_of;
use crate::marble::Marble;
use crate::render::{png_has_size, render_outcome};
use crate::seed::parse_seed;
use vstd::prelude::*;

verus! {

/// Edge length in pixels of the images served.
pub const IMAGE_SIZE: u32 = 1024;

/// Why a request for a marble image gets no image.
#[derive(Clone, Copy, Debug, PartialEq, Eq)]
pub enum RequestError {
    /// The seed parameter is missing or empty.
    MissingSeed,
    /// The seed parameter is not a decimal seed.
    InvalidSeed,
    /// The marble could not be rendered.
    RenderFailed,
}

/// The message a client is shown for each error.
pub open spec fn error_message(e: RequestError) -> Seq<char> {
    match e {
        RequestError::MissingSeed => "Seed not provided."@,
        RequestError::InvalidSeed => "Invalid seed."@,
        RequestError::RenderFailed => "Failed to render marble."@,
    }
}

/// What a request with a valid seed is answered with: the marble's PNG, or
/// `RenderFailed` whatever stage failed.
pub open spec fn served(seed: nat, size: u32) -> Result<Seq<u8>, RequestError> {
    match render_outcome(svg_of(seed), size) {
        Ok(png) => Ok(png),
        Err(_) => Err(RequestError::RenderFailed),
    }
}

/// The bytes of a request result, as a value.
pub open spec fn served_view(r: Result<Vec<u8>, RequestError>) -> Result<Seq<u8>, RequestError> {
    match r {
        Ok(png) => Ok(png@),
        Err(e) => Err(e),
    }
}

impl RequestError {
    /// The short message a client is shown.
    pub fn message(&self) -> (r: &'static str)
        ensures
            r@ == error_message(*self),
    {
        match self {
            RequestError::MissingSeed => "Seed not provided.",
            RequestError::InvalidSeed => "Invalid seed.",
            RequestError::RenderFailed => "Failed to render marble.",
        }
    }
}

/// The PNG image of edge `size` for the seed parameter of a request: a
/// missing or empty parameter and a malformed seed are refused before any
/// marble is made; a rendering failure is reported as such.
pub fn marble_png(seed: Option<&str>, size: u32) -> (r: Result<Vec<u8>, RequestError>)
    ensures
        (seed is None || seed->Some_0@.len() == 0) ==> r == Err::<Vec<u8>, RequestError>(
            RequestError::MissingSeed,
        ),
        (seed is Some && seed->Some_0@.len() > 0 && parse_seed(seed->Some_0@) is None) ==> r
            == Err::<Vec<u8>, RequestError>(RequestError::InvalidSeed),
        (seed is Some && parse_seed(seed->Some_0@) is Some) ==> served_view(r) == served(
            parse_seed(seed->Some_0@)->Some_0,
            size,
        ),
        r is Ok ==> png_has_size(r->Ok_0@, size),
{
    let text = match seed {
        Some(t) => t,
        None => return Err(RequestError::MissingSeed),
    };
    if text.unicode_len() == 0 {
        return Err(RequestError::MissingSeed);
    }
    let mut marble = match Marble::new(text) {
        Ok(m) => m,
        Err(_) => return Err(RequestError::InvalidSeed),
    };
    match marble.render_png(size) {
        Ok(png) => Ok(png),
        Err(_) => Err(RequestError::RenderFailed),
    }
}

} // verus!
