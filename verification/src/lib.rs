//! The decision core of a document-to-PDF conversion service.
//!
//! A request carries a markup body and a theme template. Converting it means
//! running an external renderer inside a private working area and handing
//! back the bytes it produced. All the outside work (creating the area,
//! writing files, running the renderer, reading its output) is done by the
//! caller; this library decides what is to be done next, classifies what
//! went wrong, and guarantees that the area is closed before any reply.

pub mod area;
pub mod config;
pub mod converter;
pub mod failure;
pub mod guarantees;
pub mod invocation;
pub mod pipeline;

pub use area::AreaFile;
pub use converter::PdfConverter;
pub use failure::{Failure, Fault, StatusCode};
pub use invocation::{Argument, RenderInvocation};
pub use pipeline::{Action, Conversion, ConversionRequest, Event, Stage};
