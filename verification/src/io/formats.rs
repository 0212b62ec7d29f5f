//! File formats, units and options, and the decisions the universal
//! importer and exporter take from a file's path.
use vstd::prelude::*;
use crate::numbers::{eq_ignore_ascii_case, eq_ignore_ascii_case_exec};
use crate::text::{chars_of, string_from_str};
use crate::io::{IoError, IoResult};

verus! {

/// What `std::path::Path::extension` gives for a path: the part of the
/// file name after its last dot. There is none when the path has no file
/// name, when the name has no dot, or when its only dot is the first
/// character (as in `.nova`).
pub uninterp spec fn path_extension(path: Seq<char>) -> Option<Seq<char>>;

/// The extension of a path's file name, without the dot.
///
/// Trusted: calls `std::path::Path::extension` on the path (a `&str`
/// always gives UTF-8 parts, so the conversion back to a string cannot
/// fail); the contract names the result `path_extension`.
#[verifier::external_body]
fn extension_of(path: &str) -> (r: Option<String>)
    ensures
        match r {
            Some(e) => path_extension(path@) == Some(e@),
            None => path_extension(path@) is None,
        },
{
    std::path::Path::new(path).extension().and_then(|e| e.to_str()).map(|e| e.to_string())
}

/// File format types.
#[derive(Debug, Clone, Copy, PartialEq, Eq, Structural)]
pub enum FileFormat {
    /// STEP AP214
    StepAP214,
    /// STEP AP242
    StepAP242,
    /// IGES
    Iges,
    /// ASCII STL
    StlAscii,
    /// Binary STL
    StlBinary,
    /// Native Nova format
    Nova,
}

/// The format an extension names, compared without regard to ASCII case.
pub open spec fn format_for_extension(e: Seq<char>) -> Option<FileFormat> {
    if eq_ignore_ascii_case(e, "step"@) || eq_ignore_ascii_case(e, "stp"@) {
        Some(FileFormat::StepAP214)
    } else if eq_ignore_ascii_case(e, "iges"@) || eq_ignore_ascii_case(e, "igs"@) {
        Some(FileFormat::Iges)
    } else if eq_ignore_ascii_case(e, "stl"@) {
        Some(FileFormat::StlBinary)
    } else if eq_ignore_ascii_case(e, "nova"@) {
        Some(FileFormat::Nova)
    } else {
        None
    }
}

/// The format a path names through its extension.
pub open spec fn format_for_path(path: Seq<char>) -> Option<FileFormat> {
    match path_extension(path) {
        Some(e) => format_for_extension(e),
        None => None,
    }
}

impl FileFormat {
    /// The extension written for the format.
    pub open spec fn extension_spec(self) -> Seq<char> {
        match self {
            FileFormat::StepAP214 | FileFormat::StepAP242 => "step"@,
            FileFormat::Iges => "igs"@,
            FileFormat::StlAscii | FileFormat::StlBinary => "stl"@,
            FileFormat::Nova => "nova"@,
        }
    }

    /// The format's name (its `Debug` form).
    pub open spec fn name_spec(self) -> Seq<char> {
        match self {
            FileFormat::StepAP214 => "StepAP214"@,
            FileFormat::StepAP242 => "StepAP242"@,
            FileFormat::Iges => "Iges"@,
            FileFormat::StlAscii => "StlAscii"@,
            FileFormat::StlBinary => "StlBinary"@,
            FileFormat::Nova => "Nova"@,
        }
    }

    /// The formats that can be imported.
    pub open spec fn imports(self) -> bool {
        self is StepAP214 || self is StepAP242 || self is Iges || self is Nova
    }

    /// Get the format an extension names, without regard to ASCII case.
    pub fn from_extension(ext: &str) -> (r: Option<Self>)
        ensures
            r == format_for_extension(ext@),
    {
        let e = chars_of(ext);
        let step = chars_of("step");
        let stp = chars_of("stp");
        let iges = chars_of("iges");
        let igs = chars_of("igs");
        let stl = chars_of("stl");
        let nova = chars_of("nova");
        if eq_ignore_ascii_case_exec(e.as_slice(), step.as_slice()) || eq_ignore_ascii_case_exec(e.as_slice(), stp.as_slice()) {
            Some(FileFormat::StepAP214)
        } else if eq_ignore_ascii_case_exec(e.as_slice(), iges.as_slice()) || eq_ignore_ascii_case_exec(e.as_slice(), igs.as_slice()) {
            Some(FileFormat::Iges)
        } else if eq_ignore_ascii_case_exec(e.as_slice(), stl.as_slice()) {
            Some(FileFormat::StlBinary)
        } else if eq_ignore_ascii_case_exec(e.as_slice(), nova.as_slice()) {
            Some(FileFormat::Nova)
        } else {
            None
        }
    }

    /// Get the format from a path's file extension.
    pub fn from_path(path: &str) -> (r: Option<Self>)
        ensures
            r == format_for_path(path@),
    {
        match extension_of(path) {
            Some(e) => Self::from_extension(e.as_str()),
            None => None,
        }
    }

    /// Get the file extension for the format.
    pub fn extension(&self) -> (r: &'static str)
        ensures
            r@ == self.extension_spec(),
    {
        match self {
            FileFormat::StepAP214 | FileFormat::StepAP242 => "step",
            FileFormat::Iges => "igs",
            FileFormat::StlAscii | FileFormat::StlBinary => "stl",
            FileFormat::Nova => "nova",
        }
    }

    /// The format's name (its `Debug` form).
    pub fn name(&self) -> (r: &'static str)
        ensures
            r@ == self.name_spec(),
    {
        match self {
            FileFormat::StepAP214 => "StepAP214",
            FileFormat::StepAP242 => "StepAP242",
            FileFormat::Iges => "Iges",
            FileFormat::StlAscii => "StlAscii",
            FileFormat::StlBinary => "StlBinary",
            FileFormat::Nova => "Nova",
        }
    }

    /// Check if the format supports import.
    pub fn supports_import(&self) -> (b: bool)
        ensures
            b == self.imports(),
    {
        matches!(self, FileFormat::StepAP214 | FileFormat::StepAP242 | FileFormat::Iges | FileFormat::Nova)
    }

    /// Check if the format supports export: every format does.
    pub fn supports_export(&self) -> (b: bool)
        ensures
            b,
    {
        true
    }
}

/// `a` and `b` are the same text when ASCII letter case is ignored.
pub open spec fn same_ignoring_ascii_case(a: Seq<char>, b: Seq<char>) -> bool {
    a.len() == b.len() && forall|i: int|
        0 <= i < a.len() ==> crate::numbers::ascii_lower(#[trigger] a[i]) == crate::numbers::ascii_lower(b[i])
}

/// Paths whose extensions differ only in ASCII letter case (or that both
/// lack one) name the same format; a path without an extension, or whose
/// extension is none of `step`, `stp`, `iges`, `igs`, `stl` and `nova` in
/// any letter case, names no format.
pub proof fn lemma_format_ignores_case(p: Seq<char>, q: Seq<char>)
    requires
        (path_extension(p) is None && path_extension(q) is None) || (path_extension(p) matches Some(a)
            && path_extension(q) matches Some(b) && same_ignoring_ascii_case(a, b)),
    ensures
        format_for_path(p) == format_for_path(q),
        format_for_path(p) is Some <==> (path_extension(p) matches Some(e) && (eq_ignore_ascii_case(e, "step"@)
            || eq_ignore_ascii_case(e, "stp"@) || eq_ignore_ascii_case(e, "iges"@) || eq_ignore_ascii_case(e, "igs"@)
            || eq_ignore_ascii_case(e, "stl"@) || eq_ignore_ascii_case(e, "nova"@))),
{
    if path_extension(p) is Some {
        let a = path_extension(p)->0;
        let b = path_extension(q)->0;
        assert forall|w: Seq<char>| eq_ignore_ascii_case(a, w) == eq_ignore_ascii_case(b, w) by {
            if eq_ignore_ascii_case(a, w) {
                assert forall|i: int| 0 <= i < b.len() implies crate::numbers::ascii_lower(#[trigger] b[i]) == w[i] by {
                    assert(crate::numbers::ascii_lower(a[i]) == crate::numbers::ascii_lower(b[i]));
                }
            }
            if eq_ignore_ascii_case(b, w) {
                assert forall|i: int| 0 <= i < a.len() implies crate::numbers::ascii_lower(#[trigger] a[i]) == w[i] by {
                    assert(crate::numbers::ascii_lower(a[i]) == crate::numbers::ascii_lower(b[i]));
                }
            }
        }
    }
}

/// The extension written for a format names a format with the same
/// extension: the format itself for STEP AP214, IGES, binary STL and the
/// native format, and AP214 or binary STL for the other STEP and STL
/// formats. Letter case does not matter.
pub proof fn lemma_extension_round_trip(f: FileFormat)
    ensures
        format_for_extension(f.extension_spec()) matches Some(g) && g.extension_spec() == f.extension_spec(),
        (f is StepAP214 || f is Iges || f is StlBinary || f is Nova) ==> format_for_extension(f.extension_spec()) == Some(f),
{
    reveal_strlit("step");
    reveal_strlit("stp");
    reveal_strlit("iges");
    reveal_strlit("igs");
    reveal_strlit("stl");
    reveal_strlit("nova");
    let e = f.extension_spec();
    assert forall|i: int| 0 <= i < e.len() implies crate::numbers::ascii_lower(#[trigger] e[i]) == e[i] by {}
    assert(eq_ignore_ascii_case(e, e));
    // each extension differs from the earlier words in length or first letter
    assert(crate::numbers::ascii_lower("igs"@[0]) != "stp"@[0]);
    assert(crate::numbers::ascii_lower("stl"@[2]) != "stp"@[2]);
    assert(crate::numbers::ascii_lower("stl"@[2]) != "igs"@[2]);
    assert(crate::numbers::ascii_lower("nova"@[0]) != "step"@[0]);
    assert(crate::numbers::ascii_lower("nova"@[0]) != "iges"@[0]);
}

/// Units for import and export.
#[derive(Debug, Clone, Copy, PartialEq, Eq, Structural)]
pub enum Units {
    /// Millimeters
    Millimeters,
    /// Centimeters
    Centimeters,
    /// Meters
    Meters,
    /// Inches
    Inches,
    /// Feet
    Feet,
}

/// The bit pattern of the `f64` value `1e-6`.
pub const IMPORT_TOLERANCE_BITS: u64 = 0x3eb0c6f7a0b5ed8du64;

/// The bit pattern of the `f64` value `1e-3`.
pub const EXPORT_TOLERANCE_BITS: u64 = 0x3f50624dd2f1a9fcu64;

/// Import options.
#[derive(Debug, Clone)]
pub struct ImportOptions {
    /// Tolerance for healing (bit pattern of an `f64`)
    pub tolerance: u64,
    /// Whether to heal the geometry
    pub heal: bool,
    /// Whether to stitch faces into solids
    pub stitch: bool,
    /// Units to convert to
    pub target_units: Units,
}

impl ImportOptions {
    /// Create default import options.
    pub fn new() -> (r: Self)
        ensures
            r.tolerance == IMPORT_TOLERANCE_BITS,
            r.heal && r.stitch,
            r.target_units == Units::Millimeters,
    {
        ImportOptions { tolerance: IMPORT_TOLERANCE_BITS, heal: true, stitch: true, target_units: Units::Millimeters }
    }
}

impl Default for ImportOptions {
    fn default() -> (r: Self)
        ensures
            r.tolerance == IMPORT_TOLERANCE_BITS,
            r.heal && r.stitch,
            r.target_units == Units::Millimeters,
    {
        ImportOptions::new()
    }
}

/// Export options.
#[derive(Debug, Clone)]
pub struct ExportOptions {
    /// Tolerance for tessellation (bit pattern of an `f64`)
    pub tolerance: u64,
    /// Units to export in
    pub units: Units,
    /// Author/Company
    pub author: Option<String>,
    /// Description
    pub description: Option<String>,
}

impl ExportOptions {
    /// Create default export options.
    pub fn new() -> (r: Self)
        ensures
            r.tolerance == EXPORT_TOLERANCE_BITS,
            r.units == Units::Millimeters,
            r.author is None,
            r.description is None,
    {
        ExportOptions { tolerance: EXPORT_TOLERANCE_BITS, units: Units::Millimeters, author: None, description: None }
    }
}

impl Default for ExportOptions {
    fn default() -> (r: Self)
        ensures
            r.tolerance == EXPORT_TOLERANCE_BITS,
            r.units == Units::Millimeters,
            r.author is None,
            r.description is None,
    {
        ExportOptions::new()
    }
}

/// `r` is the "unsupported format" error with message `m`.
pub open spec fn unsupported<T>(r: IoResult<T>, m: Seq<char>) -> bool {
    r matches Err(IoError::UnsupportedFormat(s)) && s@ == m
}

/// Universal importer.
pub struct Importer;

impl Importer {
    /// The format a file is imported as: the one its extension names, if
    /// that format can be imported.
    pub fn import_format(path: &str) -> (r: IoResult<FileFormat>)
        ensures
            format_for_path(path@) is None ==> unsupported(r, "Unknown file extension"@),
            format_for_path(path@) matches Some(f) ==> (!f.imports() ==> unsupported(r, f.name_spec() + " does not support import"@)),
            format_for_path(path@) matches Some(f) ==> (f.imports() ==> r == Ok::<FileFormat, IoError>(f)),
    {
        match FileFormat::from_path(path) {
            None => Err(IoError::UnsupportedFormat(string_from_str("Unknown file extension"))),
            Some(f) => {
                if !f.supports_import() {
                    let mut m = chars_of(f.name());
                    crate::numbers::push_str(&mut m, " does not support import");
                    Err(IoError::UnsupportedFormat(crate::text::string_from_chars(m.as_slice())))
                } else {
                    Ok(f)
                }
            },
        }
    }
}

/// Universal exporter.
pub struct Exporter;

impl Exporter {
    /// The format a file is exported as: the one its extension names.
    pub fn export_format(path: &str) -> (r: IoResult<FileFormat>)
        ensures
            format_for_path(path@) is None ==> unsupported(r, "Unknown file extension"@),
            format_for_path(path@) matches Some(f) ==> r == Ok::<FileFormat, IoError>(f),
    {
        match FileFormat::from_path(path) {
            None => Err(IoError::UnsupportedFormat(string_from_str("Unknown file extension"))),
            Some(f) => {
                if !f.supports_export() {
                    let mut m = chars_of(f.name());
                    crate::numbers::push_str(&mut m, " does not support export");
                    Err(IoError::UnsupportedFormat(crate::text::string_from_chars(m.as_slice())))
                } else {
                    Ok(f)
                }
            },
        }
    }
}

} // verus!
