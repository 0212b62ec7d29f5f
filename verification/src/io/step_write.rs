//! STEP writer: the header and the data section that describe bodies.
//!
//! Faces carry no surface geometry in this library, and a face without a
//! surface cannot be written, so only bodies whose shells hold no face can
//! be exported; their shells and solids are numbered from `#100` on.
use vstd::prelude::*;
use crate::numbers::{decimal, push_decimal, push_str};
use crate::text::{string_from_str, string_from_chars};
use crate::topo::body::{Body, BodyModel, Shell};
use crate::io::{IoError, IoResult};
use crate::io::formats::ExportOptions;
use crate::io::step_model::StepSchema;

verus! {

/// The first entity number of the data section.
pub const FIRST_ENTITY_ID: u64 = 100;

/// The lines of `k` empty closed shells numbered from `n`.
pub open spec fn shell_lines(n: nat, k: nat) -> Seq<char>
    decreases k,
{
    if k == 0 {
        Seq::empty()
    } else {
        shell_lines(n, (k - 1) as nat) + "#"@ + decimal((n + k - 1) as nat) + "=CLOSED_SHELL('Shell',());\n"@
    }
}

/// References `#m,#m+1,...` to `c` entities, separated by commas.
pub open spec fn entity_refs(m: nat, c: nat) -> Seq<char>
    decreases c,
{
    if c == 0 {
        Seq::empty()
    } else if c == 1 {
        "#"@ + decimal(m)
    } else {
        entity_refs(m, (c - 1) as nat) + ",#"@ + decimal((m + c - 1) as nat)
    }
}

/// The line of the solid made of `k` shells numbered from `n`.
pub open spec fn solid_line(n: nat, k: nat) -> Seq<char> {
    if k == 1 {
        "#"@ + decimal(n + 1) + "=MANIFOLD_SOLID_BREP('Body',#"@ + decimal(n) + ");\n"@
    } else if k > 1 {
        "#"@ + decimal(n + k) + "=BREP_WITH_VOIDS('Body',#"@ + decimal(n) + ",("@ + entity_refs(n + 1, (k - 1) as nat)
            + "));\n"@
    } else {
        Seq::empty()
    }
}

/// How many entities a body with `k` shells takes: its shells and its
/// solid, if it has a shell.
pub open spec fn body_entities(k: nat) -> nat {
    if k == 0 { 0 } else { k + 1 }
}

/// How many entities bodies with the given numbers of shells take.
pub open spec fn total_entities(ks: Seq<nat>) -> nat
    decreases ks.len(),
{
    if ks.len() == 0 {
        0
    } else {
        total_entities(ks.drop_last()) + body_entities(ks.last())
    }
}

/// The data lines of bodies with the given numbers of shells, numbered
/// from `n`.
pub open spec fn data_lines(ks: Seq<nat>, n: nat) -> Seq<char>
    decreases ks.len(),
{
    if ks.len() == 0 {
        Seq::empty()
    } else {
        let p = n + total_entities(ks.drop_last());
        data_lines(ks.drop_last(), n) + shell_lines(p, ks.last()) + solid_line(p, ks.last())
    }
}

/// The numbers of shells of the bodies.
pub open spec fn shell_counts(bs: Seq<BodyModel>) -> Seq<nat> {
    bs.map_values(|b: BodyModel| b.shells.len())
}

/// Some shell of some body holds a face.
pub open spec fn any_face(bs: Seq<BodyModel>) -> bool {
    exists|i: int, j: int|
        0 <= i < bs.len() && 0 <= j < bs[i].shells.len() && (#[trigger] bs[i].shells[j]).faces.len() > 0
}

/// The header section for a schema, a timestamp and an author.
pub open spec fn header_text(schema: StepSchema, timestamp: Seq<char>, author: Seq<char>) -> Seq<char> {
    "ISO-10303-21;\nHEADER;\nFILE_DESCRIPTION(('NOVA CAD Model'),'2;1');\n"@ + "FILE_NAME('output.step','"@
        + timestamp + "',('"@ + author + "'),('NOVA CAD'),'NOVA CAD','NOVA CAD','');\n"@ + "FILE_SCHEMA(('"@
        + schema.identifier_spec() + "'));\n"@ + "ENDSEC;\n"@
}

/// The author written into the header: the options' author, or "Unknown".
pub open spec fn author_text(options: ExportOptions) -> Seq<char> {
    match options.author {
        Some(a) => a@,
        None => "Unknown"@,
    }
}

/// The whole STEP document for bodies without faces.
pub open spec fn step_document(schema: StepSchema, timestamp: Seq<char>, author: Seq<char>, bs: Seq<BodyModel>) -> Seq<char> {
    header_text(schema, timestamp, author) + "DATA;\n"@ + data_lines(shell_counts(bs), FIRST_ENTITY_ID as nat)
        + "ENDSEC;\n"@ + "END-ISO-10303-21;\n"@
}

/// The models of a list of bodies.
pub open spec fn body_models(v: Seq<Body>) -> Seq<BodyModel> {
    v.map_values(|b: Body| b@)
}

/// STEP writer.
#[derive(Debug, Clone)]
pub struct StepWriter {
    /// Schema version
    pub schema: StepSchema,
}

fn push_ref(out: &mut Vec<char>, n: u64)
    ensures
        final(out)@ == old(out)@ + "#"@ + decimal(n as nat),
{
    push_str(out, "#");
    push_decimal(out, n);
    assert(final(out)@ =~= old(out)@ + "#"@ + decimal(n as nat));
}

impl StepWriter {
    /// Create a new STEP writer for AP214.
    pub fn new() -> (r: Self)
        ensures
            r.schema == StepSchema::AP214,
    {
        StepWriter { schema: StepSchema::AP214 }
    }

    /// Write bodies to STEP, stamped with the given time (the caller reads
    /// the local clock). The text is the header, then the data section, then
    /// the end marker; it fails when a shell holds a face, since faces have
    /// no surface to write.
    pub fn write(&self, bodies: &[Body], options: &ExportOptions, timestamp: &str) -> (r: IoResult<String>)
        requires
            FIRST_ENTITY_ID + total_entities(shell_counts(body_models(bodies@))) <= u64::MAX,
        ensures
            any_face(body_models(bodies@)) ==> (r matches Err(IoError::StepError(m)) && m@ == "Face has no surface"@),
            !any_face(body_models(bodies@)) ==> (r matches Ok(s)
                && s@ == step_document(self.schema, timestamp@, author_text(*options), body_models(bodies@))),
    {
        let mut out: Vec<char> = Vec::new();
        self.write_header(&mut out, options, timestamp);
        let ghost h = out@;
        push_str(&mut out, "DATA;\n");
        let ghost d0 = out@;
        if !self.write_data(&mut out, bodies) {
            return Err(IoError::StepError(string_from_str("Face has no surface")));
        }
        push_str(&mut out, "ENDSEC;\n");
        push_str(&mut out, "END-ISO-10303-21;\n");
        assert(out@ =~= step_document(self.schema, timestamp@, author_text(*options), body_models(bodies@)));
        Ok(string_from_chars(out.as_slice()))
    }

    /// Appends the lines of a body's shells and of its solid, numbered from
    /// `n`; false, with nothing promised of the text, when a shell holds a
    /// face.
    fn write_body(out: &mut Vec<char>, shells: &[Shell], n: u64) -> (ok: bool)
        requires
            n + body_entities(shells@.len() as nat) <= u64::MAX,
        ensures
            ok == forall|q: int| 0 <= q < shells@.len() ==> (#[trigger] shells@[q]@).faces.len() == 0,
            ok ==> final(out)@ == old(out)@ + shell_lines(n as nat, shells@.len() as nat) + solid_line(n as nat, shells@.len() as nat),
    {
        let ghost sm = shells@.map_values(|s: Shell| s@);
        let k = shells.len();
        let ghost before = out@;
        let mut j: usize = 0;
        while j < k
            invariant
                j <= k,
                k == shells@.len(),
                sm == shells@.map_values(|s: Shell| s@),
                k > 0 ==> n + k + 1 <= u64::MAX,
                out@ == before + shell_lines(n as nat, j as nat),
                forall|q: int| 0 <= q < j ==> (#[trigger] shells@[q]@).faces.len() == 0,
            decreases k - j,
        {
            if shells[j].faces().len() > 0 {
                return false;
            }
            push_ref(out, n + j as u64);
            push_str(out, "=CLOSED_SHELL('Shell',());\n");
            assert(out@ =~= before + shell_lines(n as nat, (j + 1) as nat));
            j = j + 1;
        }
        let ghost mid = out@;
        if k == 1 {
            push_ref(out, n + 1);
            push_str(out, "=MANIFOLD_SOLID_BREP('Body',#");
            push_decimal(out, n);
            push_str(out, ");\n");
        } else if k > 1 {
            push_ref(out, n + k as u64);
            push_str(out, "=BREP_WITH_VOIDS('Body',#");
            push_decimal(out, n);
            push_str(out, ",(");
            let mut c: usize = 1;
            let ghost rs = out@;
            while c < k
                invariant
                    1 <= c <= k,
                    n + k + 1 <= u64::MAX,
                    out@ == rs + entity_refs((n + 1) as nat, (c - 1) as nat),
                decreases k - c,
            {
                if c == 1 {
                    push_ref(out, n + 1);
                } else {
                    push_str(out, ",#");
                    push_decimal(out, n + c as u64);
                }
                assert(out@ =~= rs + entity_refs((n + 1) as nat, c as nat));
                c = c + 1;
            }
            push_str(out, "));\n");
        }
        assert(out@ =~= mid + solid_line(n as nat, k as nat));
        true
    }

    fn write_header(&self, out: &mut Vec<char>, options: &ExportOptions, timestamp: &str)
        ensures
            final(out)@ == old(out)@ + header_text(self.schema, timestamp@, author_text(*options)),
    {
        push_str(out, "ISO-10303-21;\nHEADER;\nFILE_DESCRIPTION(('NOVA CAD Model'),'2;1');\n");
        push_str(out, "FILE_NAME('output.step','");
        push_str(out, timestamp);
        push_str(out, "',('");
        match &options.author {
            Some(a) => push_str(out, a.as_str()),
            None => push_str(out, "Unknown"),
        }
        push_str(out, "'),('NOVA CAD'),'NOVA CAD','NOVA CAD','');\n");
        push_str(out, "FILE_SCHEMA(('");
        push_str(out, self.schema.identifier());
        push_str(out, "'));\n");
        push_str(out, "ENDSEC;\n");
        assert(final(out)@ =~= old(out)@ + header_text(self.schema, timestamp@, author_text(*options)));
    }

    /// Appends the data lines of the bodies; false, with nothing promised
    /// of the text, when a shell holds a face.
    fn write_data(&self, out: &mut Vec<char>, bodies: &[Body]) -> (ok: bool)
        requires
            FIRST_ENTITY_ID + total_entities(shell_counts(body_models(bodies@))) <= u64::MAX,
        ensures
            ok == !any_face(body_models(bodies@)),
            ok ==> final(out)@ == old(out)@ + data_lines(shell_counts(body_models(bodies@)), FIRST_ENTITY_ID as nat),
    {
        let ghost bm = body_models(bodies@);
        let ghost ks = shell_counts(bm);
        let ghost base = out@;
        let mut n: u64 = FIRST_ENTITY_ID;
        let mut i: usize = 0;
        assert(ks.take(0) =~= Seq::<nat>::empty());
        proof {
            lemma_total_prefix(ks);
        }
        while i < bodies.len()
            invariant
                i <= bodies@.len(),
                bm == body_models(bodies@),
                ks == shell_counts(bm),
                FIRST_ENTITY_ID + total_entities(ks) <= u64::MAX,
                forall|q: int| 0 <= q <= ks.len() ==> #[trigger] total_entities(ks.take(q)) <= total_entities(ks),
                n == FIRST_ENTITY_ID + total_entities(ks.take(i as int)),
                out@ == base + data_lines(ks.take(i as int), FIRST_ENTITY_ID as nat),
                forall|a: int, j: int|
                    0 <= a < i && 0 <= j < bm[a].shells.len() ==> (#[trigger] bm[a].shells[j]).faces.len() == 0,
            decreases bodies.len() - i,
        {
            let shells = bodies[i].shells();
            let ghost sm = shells@.map_values(|s: Shell| s@);
            assert(sm == bm[i as int].shells);
            assert(ks.take(i + 1).drop_last() =~= ks.take(i as int));
            assert(ks.take(i + 1).last() == sm.len());
            assert(total_entities(ks.take(i + 1)) <= total_entities(ks));
            let k = shells.len();
            assert(n + body_entities(k as nat) <= u64::MAX);
            let ghost before = out@;
            if !Self::write_body(out, shells, n) {
                proof {
                    let q = choose|q: int| 0 <= q < shells@.len() && (#[trigger] shells@[q]@).faces.len() > 0;
                    assert(sm[q] == shells@[q]@);
                    assert(bm[i as int].shells[q].faces.len() > 0);
                }
                return false;
            }
            assert(out@ =~= before + shell_lines(n as nat, k as nat) + solid_line(n as nat, k as nat));
            assert(out@ =~= base + data_lines(ks.take(i + 1), FIRST_ENTITY_ID as nat));
            n = if k == 0 { n } else { n + k as u64 + 1 };
            assert forall|a: int, q: int| 0 <= a < i + 1 && 0 <= q < bm[a].shells.len() implies (#[trigger] bm[a].shells[q]).faces.len() == 0 by {
                if a == i {
                    assert(bm[a].shells[q] == sm[q]);
                }
            }
            i = i + 1;
        }
        assert(ks.take(ks.len() as int) =~= ks);
        assert(!any_face(bm));
        true
    }
}

/// Each prefix of a list of shell counts takes no more entities than the
/// whole list.
proof fn lemma_total_prefix(ks: Seq<nat>)
    ensures
        forall|q: int| 0 <= q <= ks.len() ==> #[trigger] total_entities(ks.take(q)) <= total_entities(ks),
    decreases ks.len(),
{
    if ks.len() > 0 {
        lemma_total_prefix(ks.drop_last());
        assert forall|q: int| 0 <= q <= ks.len() implies #[trigger] total_entities(ks.take(q)) <= total_entities(ks) by {
            if q < ks.len() {
                assert(ks.take(q) =~= ks.drop_last().take(q));
            } else {
                assert(ks.take(q) =~= ks);
            }
        }
    }
}

impl Default for StepWriter {
    fn default() -> (r: Self)
        ensures
            r.schema == StepSchema::AP214,
    {
        StepWriter::new()
    }
}

} // verus!
