//! A batch text-rendering pipeline for certificate images: names from
//! tabular input are drawn, centered on an anchor point, onto a template
//! image, one output image per name, with per-item failure isolation and an
//! aggregate summary.
//!
//! - [`color`] parses hex and named color strings into 8-bit RGBA.
//! - [`fontmetrics`] measures a string's rendered extent under a font and
//!   scale, and derives the centered draw origin.
//! - [`naming`] sanitizes a name into a filesystem-safe stem and builds the
//!   output path.
//! - [`compose`] decodes a template, draws one string, and encodes PNG
//!   bytes.
//! - [`batch`] plans a batch's work items and aggregates the per-item
//!   outcomes into a summary.
//! - [`tabular`] picks the name column out of parsed tabular data and
//!   collects the usable names.
//! - [`imageinfo`] derives pixel metadata reported about template images.
//!
//! File and directory handling, the interactive prompts and the parallel
//! fan-out sit outside the library; they hand plain values in and take
//! plain values back.

pub mod batch;
pub mod color;
pub mod compose;
pub mod fontmetrics;
pub mod imageinfo;
pub mod naming;
pub mod tabular;

