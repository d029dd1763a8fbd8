//! The service object: where conversions start.

use vstd::prelude::*;
use crate::invocation::{configured_view, program_for, renderer_program};
use crate::pipeline::{initial, Conversion, ConversionRequest};

verus! {

/// The conversion service. It keeps no state between requests: nothing is
/// cached, queued or shared.
#[derive(Debug, Default)]
pub struct PdfConverter {}

impl PdfConverter {
    /// Starts the conversion of `request`.
    ///
    /// `configured` is what the configuration holds for the renderer at the
    /// time of the call; the default renderer is taken where it is `None`.
    /// The conversion starts from nothing, whatever was converted before:
    /// its first pending action is to open a working area of its own.
    pub fn convert_to_pdf(&self, request: ConversionRequest, configured: Option<String>) -> (r:
        Conversion)
        ensures
            r@ == initial(request@, program_for(configured_view(configured))),
    {
        Conversion::new(request, renderer_program(configured))
    }
}

} // verus!
