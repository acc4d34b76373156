//! A verified message sink core: given one delivered broker message
//! (routing metadata, properties, body), decide exactly which bytes to
//! write and, for directory destinations, under which file name, while
//! guaranteeing that no message can cause a write outside the configured
//! directory.
//!
//! The modules mirror the pipeline: `model` holds the data types,
//! `registry` maps content types to extensions, `randname` draws random
//! base names, `resolve` picks a file name, `render` builds the output
//! bytes, `guard` validates candidate names, and `sink` plans one write
//! per message.

pub mod guard;
pub mod model;
pub mod randname;
pub mod registry;
pub mod render;
pub mod resolve;
pub mod sink;
