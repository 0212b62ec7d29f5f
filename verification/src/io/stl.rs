//! STL (StereoLithography) output formats and writer.
//!
//! Triangles come from tessellating face surfaces; faces carry no surface
//! geometry in this library, so a body tessellates to no triangles and the
//! files hold their framing only.
use vstd::prelude::*;
use crate::numbers::push_str;
use crate::text::{string_from_chars, string_from_str};
use crate::topo::body::Body;
use crate::io::{IoError, IoResult};
use crate::io::formats::ExportOptions;

verus! {

/// STL format type.
#[derive(Debug, Clone, Copy, PartialEq, Eq, Structural)]
pub enum StlFormat {
    /// ASCII STL format
    Ascii,
    /// Binary STL format
    Binary,
}

/// STL writer.
#[derive(Debug, Clone)]
pub struct StlWriter {
    /// Output format
    pub format: StlFormat,
}

impl StlWriter {
    /// Create a new STL writer.
    pub fn new(format: StlFormat) -> (r: Self)
        ensures
            r.format == format,
    {
        StlWriter { format }
    }
}

/// The solid name written into an ASCII file: the options' description, or
/// "NOVA_CAD_Model".
pub open spec fn solid_name(options: ExportOptions) -> Seq<char> {
    match options.description {
        Some(d) => d@,
        None => "NOVA_CAD_Model"@,
    }
}

/// The ASCII file of a tessellation without triangles.
pub open spec fn ascii_stl(name: Seq<char>) -> Seq<char> {
    "solid "@ + name + "\n"@ + "endsolid\n"@
}

/// The byte of the binary header text at position `i`.
pub open spec fn header_byte(i: int) -> u8 {
    seq![78u8, 79, 86, 65, 32, 67, 65, 68, 32, 66, 105, 110, 97, 114, 121, 32, 83, 84, 76][i]
}

/// The binary file of a tessellation without triangles: the 80-byte header
/// ("NOVA CAD Binary STL" padded with zeros) and a triangle count of zero.
pub open spec fn binary_stl() -> Seq<u8> {
    Seq::new(84, |i: int| if i < 19 { header_byte(i) } else { 0u8 })
}

impl StlWriter {
    /// Write bodies as STL text: an ASCII file naming the solid after the
    /// options' description; binary output is not text and is refused.
    pub fn write(&self, bodies: &[Body], options: &ExportOptions) -> (r: IoResult<String>)
        ensures
            self.format == StlFormat::Ascii ==> (r matches Ok(s) && s@ == ascii_stl(solid_name(*options))),
            self.format == StlFormat::Binary ==> (r matches Err(IoError::NotSupported(m))
                && m@ == "Binary STL output should use Vec<u8>"@),
    {
        match self.format {
            StlFormat::Ascii => {
                let mut out: Vec<char> = Vec::new();
                push_str(&mut out, "solid ");
                match &options.description {
                    Some(d) => push_str(&mut out, d.as_str()),
                    None => push_str(&mut out, "NOVA_CAD_Model"),
                }
                push_str(&mut out, "\n");
                push_str(&mut out, "endsolid\n");
                assert(out@ =~= ascii_stl(solid_name(*options)));
                Ok(string_from_chars(out.as_slice()))
            },
            StlFormat::Binary => Err(IoError::NotSupported(string_from_str("Binary STL output should use Vec<u8>"))),
        }
    }
}

/// Write bodies as binary STL bytes.
pub fn write_binary_stl(bodies: &[Body], options: &ExportOptions) -> (r: IoResult<Vec<u8>>)
    ensures
        r matches Ok(b) && b@ == binary_stl(),
{
    let mut bytes: Vec<u8> = vec![78u8, 79, 86, 65, 32, 67, 65, 68, 32, 66, 105, 110, 97, 114, 121, 32, 83, 84, 76];
    while bytes.len() < 80
        invariant
            19 <= bytes@.len() <= 80,
            forall|i: int| 0 <= i < bytes@.len() ==> #[trigger] bytes@[i] == binary_stl()[i],
        decreases 80 - bytes.len(),
    {
        bytes.push(0u8);
    }
    // the triangle count, little-endian: there are no triangles
    bytes.push(0u8);
    bytes.push(0u8);
    bytes.push(0u8);
    bytes.push(0u8);
    assert(bytes@ =~= binary_stl());
    Ok(bytes)
}

impl Default for StlWriter {
    fn default() -> (r: Self)
        ensures
            r.format == StlFormat::Ascii,
    {
        StlWriter::new(StlFormat::Ascii)
    }
}

} // verus!
