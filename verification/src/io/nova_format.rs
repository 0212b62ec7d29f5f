//! The native `.nova` format: its metadata, loops and coedges, and the
//! reader and writer.
use vstd::prelude::*;
use crate::text::string_from_str;
use crate::topo::entity::Entity;
use crate::numbers::{decimal, push_str, push_decimal};
use crate::text::string_from_chars;
use crate::topo::body::{Body, Shell, Face, Loop, Coedge, CoedgeModel, LoopModel, FaceModel, ShellModel, BodyModel};
use crate::topo::Sense;
use crate::io::{IoError, IoResult};
use crate::io::formats::{ExportOptions, Units};
use crate::io::clock::utc_now_rfc3339;

verus! {

/// Nova file format version.
pub const NOVA_FORMAT_VERSION: u32 = 1;

/// Native Nova format reader.
#[derive(Debug, Clone)]
pub struct NovaReader;

/// Native Nova format writer.
#[derive(Debug, Clone)]
pub struct NovaWriter;

/// Document metadata.
#[derive(Debug, Clone, PartialEq, Eq)]
pub struct NovaMetadata {
    /// Document name
    pub name: String,
    /// Author
    pub author: String,
    /// Creation timestamp
    pub created: String,
    /// Modification timestamp
    pub modified: String,
    /// Description
    pub description: String,
    /// Units
    pub units: String,
}

/// Serialized loop representation.
#[derive(Debug, Clone, PartialEq, Eq)]
pub struct NovaLoop {
    /// Loop ID
    pub id: u64,
    /// Coedges in the loop
    pub coedges: Vec<NovaCoedge>,
    /// Is outer loop
    pub is_outer: bool,
}

/// Serialized coedge representation.
#[derive(Debug, Clone, Copy, PartialEq, Eq, Structural)]
pub struct NovaCoedge {
    /// Edge reference
    pub edge_id: u64,
    /// Orientation sense: true for the same direction as the edge
    pub sense: bool,
}

/// Serialized face representation. The surface is stored as a plane: its
/// parameters and the (absent) face color are added by the JSON form.
#[derive(Debug, Clone, PartialEq, Eq)]
pub struct NovaFace {
    /// Face ID
    pub id: u64,
    /// Surface type
    pub surface_type: String,
    /// Loops defining the face boundary
    pub loops: Vec<NovaLoop>,
}

/// Serialized shell representation.
#[derive(Debug, Clone, PartialEq, Eq)]
pub struct NovaShell {
    /// Shell ID
    pub id: u64,
    /// Faces in the shell
    pub faces: Vec<NovaFace>,
}

/// Serialized body representation. The display color, always the default
/// gray, is added by the JSON form.
#[derive(Debug, Clone, PartialEq, Eq)]
pub struct NovaBody {
    /// Body ID
    pub id: u64,
    /// Body name
    pub name: String,
    /// Shells in the body
    pub shells: Vec<NovaShell>,
}

/// Root structure of a native document.
#[derive(Debug, Clone, PartialEq, Eq)]
pub struct NovaFile {
    /// Format version
    pub version: u32,
    /// Document metadata
    pub metadata: NovaMetadata,
    /// Bodies in the document
    pub bodies: Vec<NovaBody>,
}

/// The identifier of the `index`-th part of the entity with identifier
/// `parent`.
pub open spec fn nested(parent: int, index: int) -> int {
    parent * 1000 + index
}

/// `l` is the stored form of the loop `m` under the identifier `id`.
pub open spec fn loop_written(l: NovaLoop, m: LoopModel, id: int) -> bool {
    &&& l.id == id
    &&& l.is_outer
    &&& l.coedges@ == m.coedges.map_values(|c: CoedgeModel| nova_coedge(c))
}

/// `f` is the stored form of the face `m` under the identifier `id`: a
/// plane, with its loops numbered below `id`.
pub open spec fn face_written(f: NovaFace, m: FaceModel, id: int) -> bool {
    &&& f.id == id
    &&& f.surface_type@ == "PLANE"@
    &&& f.loops@.len() == m.loops.len()
    &&& forall|i: int|
        0 <= i < m.loops.len() ==> loop_written(#[trigger] f.loops@[i], m.loops[i], nested(id, i))
}

/// `s` is the stored form of the shell `m` under the identifier `id`.
pub open spec fn shell_written(s: NovaShell, m: ShellModel, id: int) -> bool {
    &&& s.id == id
    &&& s.faces@.len() == m.faces.len()
    &&& forall|i: int|
        0 <= i < m.faces.len() ==> face_written(#[trigger] s.faces@[i], m.faces[i], nested(id, i))
}

/// `b` is the stored form of the body `m` under the identifier `id`, named
/// after that identifier.
pub open spec fn body_written(b: NovaBody, m: BodyModel, id: int) -> bool {
    &&& b.id == id
    &&& b.name@ == "Body_"@ + decimal(id as nat)
    &&& b.shells@.len() == m.shells.len()
    &&& forall|i: int|
        0 <= i < m.shells.len() ==> shell_written(#[trigger] b.shells@[i], m.shells[i], nested(id, i))
}

/// The identifiers of a face's loops fit in 64 bits.
pub open spec fn face_ids_fit(m: FaceModel, id: int) -> bool {
    m.loops.len() == 0 || nested(id, m.loops.len() - 1) <= u64::MAX
}

/// The identifiers of a shell's faces and of their parts fit in 64 bits.
pub open spec fn shell_ids_fit(m: ShellModel, id: int) -> bool {
    forall|i: int|
        0 <= i < m.faces.len() ==> nested(id, i) <= u64::MAX && face_ids_fit(
            #[trigger] m.faces[i],
            nested(id, i),
        )
}

/// The identifiers of a body's shells and of their parts fit in 64 bits.
pub open spec fn body_ids_fit(m: BodyModel, id: int) -> bool {
    forall|i: int|
        0 <= i < m.shells.len() ==> nested(id, i) <= u64::MAX && shell_ids_fit(
            #[trigger] m.shells[i],
            nested(id, i),
        )
}

/// The identifiers that writing the bodies gives, the `i`-th body under
/// the identifier `i`, fit in 64 bits.
pub open spec fn bodies_ids_fit(ms: Seq<BodyModel>) -> bool {
    forall|i: int| 0 <= i < ms.len() ==> body_ids_fit(#[trigger] ms[i], i)
}

/// The serialized form of a coedge.
pub open spec fn nova_coedge(c: CoedgeModel) -> NovaCoedge {
    NovaCoedge { edge_id: c.edge.id.0, sense: c.sense == Sense::Same }
}

/// The label a unit is stored with.
pub open spec fn unit_label(u: Units) -> Seq<char> {
    match u {
        Units::Millimeters => "mm"@,
        Units::Centimeters => "cm"@,
        Units::Meters => "m"@,
        Units::Inches => "in"@,
        Units::Feet => "ft"@,
    }
}

/// The text of an optional string, empty when there is none.
pub open spec fn text_or_empty(s: Option<String>) -> Seq<char> {
    match s {
        Some(t) => t@,
        None => Seq::empty(),
    }
}

fn unit_label_exec(u: Units) -> (r: &'static str)
    ensures
        r@ == unit_label(u),
{
    match u {
        Units::Millimeters => "mm",
        Units::Centimeters => "cm",
        Units::Meters => "m",
        Units::Inches => "in",
        Units::Feet => "ft",
    }
}

fn string_or_empty(s: &Option<String>) -> (r: String)
    ensures
        r@ == text_or_empty(*s),
{
    match s {
        Some(t) => {
            let r = string_from_str(t.as_str());
            assert(*s == Some(*t));
            r
        },
        None => {
            proof {
                reveal_strlit("");
            }
            string_from_str("")
        },
    }
}

impl NovaReader {
    /// Create a new Nova format reader.
    pub fn new() -> (r: Self) {
        NovaReader
    }

    /// Convert a stored body: rebuilding the topology is not available
    /// yet.
    pub fn convert_body(&self) -> (r: IoResult<Body>)
        ensures
            r matches Err(IoError::NotSupported(m)) && m@ == "Nova body conversion not yet implemented"@,
    {
        Err(IoError::NotSupported(string_from_str("Nova body conversion not yet implemented")))
    }

    /// Convert the stored bodies: those that fail to convert are skipped,
    /// so no body comes back yet.
    pub fn convert_to_bodies(&self, count: usize) -> (r: IoResult<Vec<Body>>)
        ensures
            r matches Ok(v) && v@.len() == 0,
    {
        let mut bodies: Vec<Body> = Vec::new();
        let mut i: usize = 0;
        while i < count
            invariant
                bodies@.len() == 0,
            decreases count - i,
        {
            match self.convert_body() {
                Ok(b) => bodies.push(b),
                Err(_) => {},
            }
            i = i + 1;
        }
        Ok(bodies)
    }
}

impl Default for NovaReader {
    fn default() -> (r: Self) {
        NovaReader::new()
    }
}

impl NovaWriter {
    /// Create a new Nova format writer.
    pub fn new() -> (r: Self) {
        NovaWriter
    }

    /// The document metadata for the given options and timestamps: named
    /// "Untitled", with the options' author and description (empty when
    /// absent) and units label.
    pub fn metadata_at(&self, options: &ExportOptions, created: &str, modified: &str) -> (r: NovaMetadata)
        ensures
            r.name@ == "Untitled"@,
            r.author@ == text_or_empty(options.author),
            r.created@ == created@,
            r.modified@ == modified@,
            r.description@ == text_or_empty(options.description),
            r.units@ == unit_label(options.units),
    {
        NovaMetadata {
            name: string_from_str("Untitled"),
            author: string_or_empty(&options.author),
            created: string_from_str(created),
            modified: string_from_str(modified),
            description: string_or_empty(&options.description),
            units: string_from_str(unit_label_exec(options.units)),
        }
    }

    /// The document metadata for the given options, stamped with the
    /// current time (read once for creation and once for modification).
    pub fn metadata(&self, options: &ExportOptions) -> (r: NovaMetadata)
        ensures
            r.name@ == "Untitled"@,
            r.author@ == text_or_empty(options.author),
            r.description@ == text_or_empty(options.description),
            r.units@ == unit_label(options.units),
    {
        let created = utc_now_rfc3339();
        let modified = utc_now_rfc3339();
        self.metadata_at(options, created.as_str(), modified.as_str())
    }

    /// Convert a loop: its coedges, each as its edge's identifier and
    /// whether it runs along the edge, marked as an outer loop.
    pub fn convert_loop(&self, lp: &Loop, id: u64) -> (r: IoResult<NovaLoop>)
        ensures
            r matches Ok(l) && l.id == id && l.is_outer
                && l.coedges@ == lp@.coedges.map_values(|c: CoedgeModel| nova_coedge(c)),
    {
        let cs = lp.coedges();
        let ghost cm = cs@.map_values(|c: Coedge| c@);
        let mut out: Vec<NovaCoedge> = Vec::new();
        let mut i: usize = 0;
        while i < cs.len()
            invariant
                i <= cs@.len(),
                cm == cs@.map_values(|c: Coedge| c@),
                out@ == cm.take(i as int).map_values(|c: CoedgeModel| nova_coedge(c)),
            decreases cs.len() - i,
        {
            let c = &cs[i];
            out.push(NovaCoedge { edge_id: c.edge().id().0, sense: c.sense().is_same() });
            assert(cm.take(i + 1).map_values(|c: CoedgeModel| nova_coedge(c)) =~= cm.take(i as int).map_values(
                |c: CoedgeModel| nova_coedge(c),
            ).push(nova_coedge(cm[i as int])));
            i = i + 1;
        }
        assert(cm.take(cm.len() as int) =~= cm);
        Ok(NovaLoop { id, coedges: out, is_outer: true })
    }

    /// Whether the loop identifiers of a face numbered `id` fit in 64 bits.
    pub fn face_ids_fit_exec(face: &Face, id: u64) -> (b: bool)
        ensures
            b == face_ids_fit(face@, id as int),
    {
        let n = face.loops().len();
        if n == 0 {
            true
        } else {
            (id as u128) * 1000 + (n as u128) - 1 <= u64::MAX as u128
        }
    }

    /// Whether the identifiers below a shell numbered `id` fit in 64 bits.
    pub fn shell_ids_fit_exec(shell: &Shell, id: u64) -> (b: bool)
        ensures
            b == shell_ids_fit(shell@, id as int),
    {
        let fs = shell.faces();
        let mut i: usize = 0;
        while i < fs.len()
            invariant
                i <= fs@.len(),
                fs@.map_values(|f: Face| f@) == shell@.faces,
                i == 0 || nested(id as int, i - 1) <= u64::MAX,
                forall|j: int|
                    0 <= j < i ==> face_ids_fit(#[trigger] shell@.faces[j], nested(id as int, j)),
            decreases fs.len() - i,
        {
            assert(fs@[i as int]@ == shell@.faces[i as int]);
            let v: u128 = (id as u128) * 1000 + i as u128;
            if v > u64::MAX as u128 {
                return false;
            }
            if !Self::face_ids_fit_exec(&fs[i], v as u64) {
                return false;
            }
            i = i + 1;
        }
        assert(shell@.faces.len() == fs@.len());
        true
    }

    /// Whether the identifiers below a body numbered `id` fit in 64 bits.
    pub fn body_ids_fit_exec(body: &Body, id: u64) -> (b: bool)
        ensures
            b == body_ids_fit(body@, id as int),
    {
        let ss = body.shells();
        let mut i: usize = 0;
        while i < ss.len()
            invariant
                i <= ss@.len(),
                ss@.map_values(|s: Shell| s@) == body@.shells,
                i == 0 || nested(id as int, i - 1) <= u64::MAX,
                forall|j: int|
                    0 <= j < i ==> shell_ids_fit(#[trigger] body@.shells[j], nested(id as int, j)),
            decreases ss.len() - i,
        {
            assert(ss@[i as int]@ == body@.shells[i as int]);
            let v: u128 = (id as u128) * 1000 + i as u128;
            if v > u64::MAX as u128 {
                return false;
            }
            if !Self::shell_ids_fit_exec(&ss[i], v as u64) {
                return false;
            }
            i = i + 1;
        }
        assert(body@.shells.len() == ss@.len());
        true
    }

    /// Whether the identifiers that writing `bodies` gives fit in 64 bits
    /// (the writer's numbering overflows otherwise).
    pub fn ids_fit(bodies: &[Body]) -> (b: bool)
        ensures
            b == bodies_ids_fit(bodies@.map_values(|b: Body| b@)),
    {
        let ghost bm = bodies@.map_values(|b: Body| b@);
        let mut i: usize = 0;
        while i < bodies.len()
            invariant
                i <= bodies@.len(),
                bm == bodies@.map_values(|b: Body| b@),
                forall|j: int| 0 <= j < i ==> body_ids_fit(#[trigger] bm[j], j),
            decreases bodies.len() - i,
        {
            assert(bm[i as int] == bodies@[i as int]@);
            if !Self::body_ids_fit_exec(&bodies[i], i as u64) {
                return false;
            }
            i = i + 1;
        }
        true
    }

    /// Convert a face: a plane, with its loops numbered below `id`.
    pub fn convert_face(&self, face: &Face, id: u64) -> (r: IoResult<NovaFace>)
        requires
            face_ids_fit(face@, id as int),
        ensures
            r matches Ok(f) && face_written(f, face@, id as int),
    {
        let lps = face.loops();
        let mut loops: Vec<NovaLoop> = Vec::new();
        let mut i: usize = 0;
        while i < lps.len()
            invariant
                i <= lps@.len(),
                lps@.map_values(|l: Loop| l@) == face@.loops,
                face_ids_fit(face@, id as int),
                loops@.len() == i,
                forall|j: int|
                    0 <= j < i ==> loop_written(#[trigger] loops@[j], face@.loops[j], nested(id as int, j)),
            decreases lps.len() - i,
        {
            let lid: u64 = id * 1000 + i as u64;
            assert(lps@[i as int]@ == face@.loops[i as int]);
            match self.convert_loop(&lps[i], lid) {
                Ok(l) => loops.push(l),
                Err(e) => return Err(e),
            }
            i = i + 1;
        }
        proof {
            reveal_strlit("PLANE");
        }
        Ok(NovaFace { id, surface_type: string_from_str("PLANE"), loops })
    }

    /// Convert a shell, with its faces numbered below `id`.
    pub fn convert_shell(&self, shell: &Shell, id: u64) -> (r: IoResult<NovaShell>)
        requires
            shell_ids_fit(shell@, id as int),
        ensures
            r matches Ok(s) && shell_written(s, shell@, id as int),
    {
        let fs = shell.faces();
        let mut faces: Vec<NovaFace> = Vec::new();
        let mut i: usize = 0;
        while i < fs.len()
            invariant
                i <= fs@.len(),
                fs@.map_values(|f: Face| f@) == shell@.faces,
                shell_ids_fit(shell@, id as int),
                faces@.len() == i,
                forall|j: int|
                    0 <= j < i ==> face_written(#[trigger] faces@[j], shell@.faces[j], nested(id as int, j)),
            decreases fs.len() - i,
        {
            assert(fs@[i as int]@ == shell@.faces[i as int]);
            assert(nested(id as int, i as int) <= u64::MAX && face_ids_fit(
                shell@.faces[i as int],
                nested(id as int, i as int),
            ));
            let fid: u64 = id * 1000 + i as u64;
            match self.convert_face(&fs[i], fid) {
                Ok(f) => faces.push(f),
                Err(e) => return Err(e),
            }
            i = i + 1;
        }
        Ok(NovaShell { id, faces })
    }

    /// Convert a body, named after its identifier `id`, with its shells
    /// numbered below `id`.
    pub fn convert_body(&self, body: &Body, id: u64) -> (r: IoResult<NovaBody>)
        requires
            body_ids_fit(body@, id as int),
        ensures
            r matches Ok(b) && body_written(b, body@, id as int),
    {
        let ss = body.shells();
        let mut shells: Vec<NovaShell> = Vec::new();
        let mut i: usize = 0;
        while i < ss.len()
            invariant
                i <= ss@.len(),
                ss@.map_values(|s: Shell| s@) == body@.shells,
                body_ids_fit(body@, id as int),
                shells@.len() == i,
                forall|j: int|
                    0 <= j < i ==> shell_written(#[trigger] shells@[j], body@.shells[j], nested(id as int, j)),
            decreases ss.len() - i,
        {
            assert(ss@[i as int]@ == body@.shells[i as int]);
            assert(nested(id as int, i as int) <= u64::MAX && shell_ids_fit(
                body@.shells[i as int],
                nested(id as int, i as int),
            ));
            let sid: u64 = id * 1000 + i as u64;
            match self.convert_shell(&ss[i], sid) {
                Ok(s) => shells.push(s),
                Err(e) => return Err(e),
            }
            i = i + 1;
        }
        let mut name: Vec<char> = Vec::new();
        push_str(&mut name, "Body_");
        push_decimal(&mut name, id);
        Ok(NovaBody { id, name: string_from_chars(name.as_slice()), shells })
    }

    /// Convert bodies to a document stamped with the current time: the
    /// `i`-th body is stored under the identifier `i`.
    pub fn convert_to_bodies(&self, bodies: &[Body], options: &ExportOptions) -> (r: IoResult<NovaFile>)
        requires
            bodies_ids_fit(bodies@.map_values(|b: Body| b@)),
        ensures
            r matches Ok(f) && {
                &&& f.version == NOVA_FORMAT_VERSION
                &&& f.metadata.name@ == "Untitled"@
                &&& f.metadata.author@ == text_or_empty(options.author)
                &&& f.metadata.description@ == text_or_empty(options.description)
                &&& f.metadata.units@ == unit_label(options.units)
                &&& f.bodies@.len() == bodies@.len()
                &&& forall|i: int|
                    0 <= i < bodies@.len() ==> body_written(#[trigger] f.bodies@[i], bodies@[i]@, i)
            },
    {
        let metadata = self.metadata(options);
        let ghost bm = bodies@.map_values(|b: Body| b@);
        let mut out: Vec<NovaBody> = Vec::new();
        let mut i: usize = 0;
        while i < bodies.len()
            invariant
                i <= bodies@.len(),
                bm == bodies@.map_values(|b: Body| b@),
                bodies_ids_fit(bm),
                out@.len() == i,
                forall|j: int| 0 <= j < i ==> body_written(#[trigger] out@[j], bodies@[j]@, j),
            decreases bodies.len() - i,
        {
            assert(bm[i as int] == bodies@[i as int]@);
            assert(body_ids_fit(bm[i as int], i as int));
            match self.convert_body(&bodies[i], i as u64) {
                Ok(b) => out.push(b),
                Err(_) => {},
            }
            i = i + 1;
        }
        Ok(NovaFile { version: NOVA_FORMAT_VERSION, metadata, bodies: out })
    }
}

impl Default for NovaWriter {
    fn default() -> (r: Self) {
        NovaWriter::new()
    }
}

} // verus!
