//! IGES (Initial Graphics Exchange Specification) reader and writer.
use vstd::prelude::*;
use crate::text::string_from_str;
use crate::topo::body::Body;
use crate::io::{IoError, IoResult};
use crate::io::formats::{ImportOptions, ExportOptions, unsupported};

verus! {

/// IGES reader.
#[derive(Debug, Clone)]
pub struct IgesReader;

/// IGES writer.
#[derive(Debug, Clone)]
pub struct IgesWriter;

impl IgesReader {
    /// Create a new IGES reader.
    pub fn new() -> (r: Self) {
        IgesReader
    }

    /// Read IGES content: not available yet.
    pub fn read(&self, content: &str, options: &ImportOptions) -> (r: IoResult<Vec<Body>>)
        ensures
            unsupported(r, "IGES import not yet implemented"@),
    {
        Err(IoError::UnsupportedFormat(string_from_str("IGES import not yet implemented")))
    }
}

impl Default for IgesReader {
    fn default() -> (r: Self) {
        IgesReader::new()
    }
}

impl IgesWriter {
    /// Create a new IGES writer.
    pub fn new() -> (r: Self) {
        IgesWriter
    }

    /// Write bodies as IGES: not available yet.
    pub fn write(&self, bodies: &[Body], options: &ExportOptions) -> (r: IoResult<String>)
        ensures
            unsupported(r, "IGES export not yet implemented"@),
    {
        Err(IoError::UnsupportedFormat(string_from_str("IGES export not yet implemented")))
    }
}

impl Default for IgesWriter {
    fn default() -> (r: Self) {
        IgesWriter::new()
    }
}

} // verus!
