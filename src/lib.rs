//! Icon resolution for a browser picker: maps browser names to bundled icon
//! files, searches the asset roots, decodes and rescales raster images, and
//! synthesizes a deterministic solid-color icon whenever no asset is usable.
pub mod error;
pub mod keys;
pub mod paths;
pub mod raster;
pub mod fallback;
pub mod resolve;
