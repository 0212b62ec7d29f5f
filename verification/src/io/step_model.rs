//! STEP (ISO 10303-21) data: the parsed types and the mathematical model of
//! what the reader produces from a text.
use vstd::prelude::*;
use std::collections::HashMap;
use crate::text::{strings_model, is_ws, trim, trim_start, trim_end, trim_end_char, trim_char, find, find_from, matches_at, starts_with, starts_with_char, ends_with_char, contains, split, lines, lemma_find_from_bounds, lemma_find_from_skip};
use crate::numbers::{parse_u64_spec, parse_i64_spec, is_real_literal_spec, all_digits, digits_value, is_digit};

verus! {

/// STEP schema versions.
#[derive(Debug, Clone, Copy, PartialEq, Eq)]
pub enum StepSchema {
    /// AP214 - Automotive design
    AP214,
    /// AP242 - Managed model based 3D engineering
    AP242,
}

impl StepSchema {
    /// The schema identifier written into `FILE_SCHEMA`.
    pub open spec fn identifier_spec(self) -> Seq<char> {
        match self {
            StepSchema::AP214 => "AUTOMOTIVE_DESIGN"@,
            StepSchema::AP242 => "AP242_MANAGED_MODEL_BASED_3D_ENGINEERING"@,
        }
    }

    /// Get the schema identifier string.
    pub fn identifier(&self) -> (r: &'static str)
        ensures
            r@ == self.identifier_spec(),
    {
        match self {
            StepSchema::AP214 => "AUTOMOTIVE_DESIGN",
            StepSchema::AP242 => "AP242_MANAGED_MODEL_BASED_3D_ENGINEERING",
        }
    }
}

/// STEP error types.
#[derive(Debug, Clone, PartialEq, Eq)]
pub enum StepError {
    /// Syntax error in a STEP file
    SyntaxError(String),
    /// Entity not found
    EntityNotFound(u64),
    /// Unsupported entity
    UnsupportedEntity(String),
    /// Missing required attribute
    MissingAttribute(String),
    /// Invalid geometry
    InvalidGeometry(String),
}

/// A STEP attribute value.
///
/// A real number is kept as the text it was written with; its value is the
/// one that `f64::from_str` gives for that text.
#[derive(Debug)]
pub enum StepAttribute {
    /// Integer value
    Integer(i64),
    /// Real (floating point) value, as written
    Real(String),
    /// String value
    String(String),
    /// Boolean value
    Boolean(bool),
    /// Enumeration value
    Enumeration(String),
    /// Entity reference (#123)
    Reference(u64),
    /// List of attributes
    List(Vec<StepAttribute>),
    /// Missing/undefined value
    Undefined,
    /// Derived value
    Derived,
}

/// The mathematical value of a [`StepAttribute`].
pub enum AttrModel {
    Integer(int),
    Real(Seq<char>),
    Text(Seq<char>),
    Boolean(bool),
    Enumeration(Seq<char>),
    Reference(nat),
    List(Seq<AttrModel>),
    Undefined,
    Derived,
}

pub open spec fn attr_model(a: StepAttribute) -> AttrModel
    decreases a,
{
    match a {
        StepAttribute::Integer(i) => AttrModel::Integer(i as int),
        StepAttribute::Real(s) => AttrModel::Real(s@),
        StepAttribute::String(s) => AttrModel::Text(s@),
        StepAttribute::Boolean(b) => AttrModel::Boolean(b),
        StepAttribute::Enumeration(s) => AttrModel::Enumeration(s@),
        StepAttribute::Reference(r) => AttrModel::Reference(r as nat),
        StepAttribute::List(v) => AttrModel::List(attrs_model(v@)),
        StepAttribute::Undefined => AttrModel::Undefined,
        StepAttribute::Derived => AttrModel::Derived,
    }
}

pub open spec fn attrs_model(s: Seq<StepAttribute>) -> Seq<AttrModel>
    decreases s,
{
    if s.len() == 0 {
        Seq::empty()
    } else {
        attrs_model(s.drop_last()).push(attr_model(s.last()))
    }
}

impl View for StepAttribute {
    type V = AttrModel;

    open spec fn view(&self) -> AttrModel {
        attr_model(*self)
    }
}

/// A STEP entity instance (`#id=TYPE(attributes);`).
#[derive(Debug)]
pub struct StepEntity {
    /// Entity ID
    pub id: u64,
    /// Entity type name
    pub entity_type: String,
    /// Entity attributes
    pub attributes: Vec<StepAttribute>,
}

/// The mathematical value of a [`StepEntity`].
pub struct EntityModel {
    pub id: nat,
    pub entity_type: Seq<char>,
    pub attributes: Seq<AttrModel>,
}

impl View for StepEntity {
    type V = EntityModel;

    open spec fn view(&self) -> EntityModel {
        EntityModel {
            id: self.id as nat,
            entity_type: self.entity_type@,
            attributes: attrs_model(self.attributes@),
        }
    }
}

/// STEP header data.
#[derive(Debug, Clone)]
pub struct StepHeader {
    /// File description
    pub description: Vec<String>,
    /// Implementation level
    pub implementation_level: String,
    /// File name
    pub name: String,
    /// Time stamp
    pub time_stamp: String,
    /// Author
    pub author: Vec<String>,
    /// Organization
    pub organization: Vec<String>,
    /// Preprocessor version
    pub preprocessor_version: String,
    /// Originating system
    pub originating_system: String,
    /// Authorization
    pub authorization: String,
    /// Schema names
    pub schema_names: Vec<String>,
}

/// The mathematical value of a [`StepHeader`].
pub struct HeaderModel {
    pub description: Seq<Seq<char>>,
    pub implementation_level: Seq<char>,
    pub name: Seq<char>,
    pub time_stamp: Seq<char>,
    pub author: Seq<Seq<char>>,
    pub organization: Seq<Seq<char>>,
    pub preprocessor_version: Seq<char>,
    pub originating_system: Seq<char>,
    pub authorization: Seq<char>,
    pub schema_names: Seq<Seq<char>>,
}

impl View for StepHeader {
    type V = HeaderModel;

    open spec fn view(&self) -> HeaderModel {
        HeaderModel {
            description: strings_model(self.description@),
            implementation_level: self.implementation_level@,
            name: self.name@,
            time_stamp: self.time_stamp@,
            author: strings_model(self.author@),
            organization: strings_model(self.organization@),
            preprocessor_version: self.preprocessor_version@,
            originating_system: self.originating_system@,
            authorization: self.authorization@,
            schema_names: strings_model(self.schema_names@),
        }
    }
}

/// The header that holds nothing.
pub open spec fn empty_header() -> HeaderModel {
    HeaderModel {
        description: Seq::empty(),
        implementation_level: Seq::empty(),
        name: Seq::empty(),
        time_stamp: Seq::empty(),
        author: Seq::empty(),
        organization: Seq::empty(),
        preprocessor_version: Seq::empty(),
        originating_system: Seq::empty(),
        authorization: Seq::empty(),
        schema_names: Seq::empty(),
    }
}

impl StepHeader {
    /// A header with every field empty.
    pub fn new() -> (h: StepHeader)
        ensures
            h@ == empty_header(),
    {
        let h = StepHeader {
            description: Vec::new(),
            implementation_level: String::new(),
            name: String::new(),
            time_stamp: String::new(),
            author: Vec::new(),
            organization: Vec::new(),
            preprocessor_version: String::new(),
            originating_system: String::new(),
            authorization: String::new(),
            schema_names: Vec::new(),
        };
        assert(strings_model(h.description@) =~= Seq::<Seq<char>>::empty());
        assert(strings_model(h.author@) =~= Seq::<Seq<char>>::empty());
        assert(strings_model(h.organization@) =~= Seq::<Seq<char>>::empty());
        assert(strings_model(h.schema_names@) =~= Seq::<Seq<char>>::empty());
        h
    }
}

/// A parsed STEP file.
#[derive(Debug)]
pub struct StepFile {
    /// Header section
    pub header: StepHeader,
    /// Data section entities, by instance number
    pub entities: HashMap<u64, StepEntity>,
}

/// The views of the entities of a map.
pub open spec fn entities_model(m: Map<u64, StepEntity>) -> Map<u64, EntityModel> {
    m.map_values(|e: StepEntity| e@)
}

/// The mathematical value of a [`StepFile`].
pub struct FileModel {
    pub header: HeaderModel,
    pub entities: Map<u64, EntityModel>,
}

impl View for StepFile {
    type V = FileModel;

    open spec fn view(&self) -> FileModel {
        FileModel { header: self.header@, entities: entities_model(self.entities@) }
    }
}

// ---------------------------------------------------------------------------
// The model of the reader
// ---------------------------------------------------------------------------
/// The outcome of scanning an attribute list: where each top-level value
/// starts and ends, and whether the nesting depth stayed within `i32`.
pub struct Scan {
    pub segs: Seq<(int, int)>,
    pub ok: bool,
}

/// Scans `s` from position `i`.  A top-level value ends at a comma that is
/// neither inside a quoted string nor inside parentheses.  `start` is where
/// the current value began, `depth` the parenthesis depth, `quote` the
/// character that closes the string we are in, if any.
pub open spec fn scan_from(
    s: Seq<char>,
    i: int,
    depth: int,
    in_string: bool,
    quote: char,
    start: int,
) -> Scan
    decreases s.len() - i,
{
    if i < 0 || i >= s.len() {
        Scan { segs: seq![(start, s.len() as int)], ok: true }
    } else {
        let c = s[i];
        if in_string {
            scan_from(s, i + 1, depth, c != quote, quote, start)
        } else if c == '\'' || c == '"' {
            scan_from(s, i + 1, depth, true, c, start)
        } else if c == '(' {
            let r = scan_from(s, i + 1, depth + 1, false, quote, start);
            Scan { segs: r.segs, ok: r.ok && depth + 1 <= i32::MAX }
        } else if c == ')' {
            let r = scan_from(s, i + 1, depth - 1, false, quote, start);
            Scan { segs: r.segs, ok: r.ok && depth - 1 >= i32::MIN }
        } else if c == ',' && depth == 0 {
            let r = scan_from(s, i + 1, depth, false, quote, i + 1);
            Scan { segs: seq![(start, i)] + r.segs, ok: r.ok }
        } else {
            scan_from(s, i + 1, depth, false, quote, start)
        }
    }
}

/// The top-level values of an attribute list.
pub open spec fn scan(s: Seq<char>) -> Scan {
    scan_from(s, 0, 0, false, '"', 0)
}

/// The attributes read from the values `segs` of `s`; blank values are skipped.
pub open spec fn attrs_from(s: Seq<char>, segs: Seq<(int, int)>) -> Seq<AttrModel>
    decreases s.len(), 1int, segs.len(),
{
    if segs.len() == 0 {
        Seq::empty()
    } else {
        let a = segs[0].0;
        let b = segs[0].1;
        let rest = attrs_from(s, segs.drop_first());
        if 0 <= a <= b <= s.len() && trim(s.subrange(a, b)).len() != 0 {
            seq![single_attr(s.subrange(a, b))] + rest
        } else {
            rest
        }
    }
}

/// The attributes of an attribute list (what `parse_attributes` returns).
pub open spec fn attrs_spec(s: Seq<char>) -> Seq<AttrModel>
    decreases s.len(), 2int, 0int,
{
    attrs_from(s, scan(s).segs)
}

/// `s` holds no parenthesis and no quote character.
pub open spec fn is_plain_list(s: Seq<char>) -> bool {
    forall|i: int| 0 <= i < s.len() ==> #[trigger] s[i] != '(' && s[i] != ')' && s[i] != '\'' && s[i] != '"'
}

/// The non-blank parts of `parts`, in order, each read as one attribute.
pub open spec fn plain_values(parts: Seq<Seq<char>>) -> Seq<AttrModel>
    decreases parts.len(),
{
    if parts.len() == 0 {
        Seq::empty()
    } else {
        let rest = plain_values(parts.drop_first());
        if trim(parts[0]).len() != 0 {
            seq![single_attr(parts[0])] + rest
        } else {
            rest
        }
    }
}

proof fn lemma_scan_plain(s: Seq<char>, i: int, q: char, start: int)
    requires
        is_plain_list(s),
        0 <= start <= i <= s.len(),
        forall|j: int| start <= j < i ==> #[trigger] s[j] != ',',
    ensures
        attrs_from(s, scan_from(s, i, 0, false, q, start).segs) == plain_values(
            split(s.subrange(start, s.len() as int), ","@),
        ),
    decreases s.len() - i,
{
    reveal_strlit(",");
    let comma = ","@;
    let x = s.subrange(start, s.len() as int);
    if i >= s.len() {
        // no comma is left: one value
        lemma_find_from_bounds(x, comma, 0);
        if find(x, comma) is Some {
            let k = find(x, comma)->0;
            assert(x.subrange(k, k + 1)[0] == x[k]);
            assert(s[start + k] == ',');
        }
        assert(split(x, comma) == seq![x]);
        let segs = seq![(start, s.len() as int)];
        assert(segs.drop_first() =~= Seq::<(int, int)>::empty());
        assert(seq![x].drop_first() =~= Seq::<Seq<char>>::empty());
        assert(scan_from(s, i, 0, false, q, start).segs == segs);
        assert(attrs_from(s, Seq::<(int, int)>::empty()) == Seq::<AttrModel>::empty());
        assert(plain_values(Seq::<Seq<char>>::empty()) == Seq::<AttrModel>::empty());
        assert(attrs_from(s, segs) =~= plain_values(seq![x]));
    } else if s[i] == ',' {
        lemma_scan_plain(s, i + 1, q, i + 1);
        let r = scan_from(s, i + 1, 0, false, q, i + 1);
        let segs = seq![(start, i)] + r.segs;
        assert(segs.drop_first() =~= r.segs);
        assert(scan_from(s, i, 0, false, q, start).segs == segs);
        // the first comma of x is at i - start
        assert forall|j: int| 0 <= j < i - start implies !#[trigger] matches_at(x, comma, j) by {
            if matches_at(x, comma, j) {
                assert(x.subrange(j, j + 1)[0] == x[j]);
                assert(s[start + j] != ',');
            }
        }
        lemma_find_from_skip(x, comma, 0, i - start);
        assert(x.subrange(i - start, i - start + 1) =~= comma);
        assert(find(x, comma) == Some(i - start));
        let head = x.subrange(0, i - start);
        let tail = x.subrange(i - start + 1, x.len() as int);
        assert(head =~= s.subrange(start, i));
        assert(tail =~= s.subrange(i + 1, s.len() as int));
        assert(split(x, comma) == seq![head] + split(tail, comma));
        assert((seq![head] + split(tail, comma)).drop_first() =~= split(tail, comma));
        assert(attrs_from(s, segs) =~= plain_values(seq![head] + split(tail, comma)));
    } else {
        assert(s[i] != '(' && s[i] != ')' && s[i] != '\'' && s[i] != '"');
        assert(scan_from(s, i, 0, false, q, start) == scan_from(s, i + 1, 0, false, q, start));
        lemma_scan_plain(s, i + 1, q, start);
    }
}

/// An attribute list without parentheses or quotes is read one attribute
/// per non-blank comma-separated part, in order.
pub proof fn lemma_plain_attribute_list(s: Seq<char>)
    requires
        is_plain_list(s),
    ensures
        attrs_spec(s) == plain_values(split(s, ","@)),
{
    lemma_scan_plain(s, 0, '"', 0);
    assert(s.subrange(0, s.len() as int) =~= s);
}

proof fn lemma_trim_start_chars(s: Seq<char>)
    ensures
        forall|i: int| 0 <= i < trim_start(s).len() ==> s.contains(#[trigger] trim_start(s)[i]),
    decreases s.len(),
{
    if s.len() > 0 && is_ws(s[0]) {
        let d = s.drop_first();
        lemma_trim_start_chars(d);
        assert forall|i: int| 0 <= i < trim_start(s).len() implies s.contains(#[trigger] trim_start(s)[i]) by {
            let j = choose|j: int| 0 <= j < d.len() && d[j] == trim_start(d)[i];
            assert(s[j + 1] == d[j]);
        }
    }
}

proof fn lemma_trim_end_chars(s: Seq<char>)
    ensures
        forall|i: int| 0 <= i < trim_end(s).len() ==> s.contains(#[trigger] trim_end(s)[i]),
    decreases s.len(),
{
    if s.len() > 0 && is_ws(s.last()) {
        let d = s.drop_last();
        lemma_trim_end_chars(d);
        assert forall|i: int| 0 <= i < trim_end(s).len() implies s.contains(#[trigger] trim_end(s)[i]) by {
            let j = choose|j: int| 0 <= j < d.len() && d[j] == trim_end(d)[i];
            assert(s[j] == d[j]);
        }
    }
}

/// A value without parentheses or quotes that is not a lone `.` can be read.
proof fn lemma_plain_single_ok(v: Seq<char>)
    requires
        is_plain_list(v),
        trim(v) != "."@,
    ensures
        single_ok(v),
{
    reveal_strlit(".");
    lemma_trim_start_chars(v);
    lemma_trim_end_chars(trim_start(v));
    let t = trim(v);
    if t.len() > 0 {
        assert(trim_start(v).contains(t[0]));
        let j = choose|j: int| 0 <= j < trim_start(v).len() && trim_start(v)[j] == t[0];
        assert(v.contains(trim_start(v)[j]));
        if t.len() == 1 && t[0] == '.' {
            assert(t =~= "."@);
        }
    }
}

proof fn lemma_scan_plain_ok(s: Seq<char>, i: int, q: char, start: int)
    requires
        is_plain_list(s),
        0 <= start <= i <= s.len(),
        forall|j: int| start <= j < i ==> #[trigger] s[j] != ',',
        forall|k: int|
            0 <= k < split(s.subrange(start, s.len() as int), ","@).len() ==> trim(
                #[trigger] split(s.subrange(start, s.len() as int), ","@)[k],
            ) != "."@,
    ensures
        scan_from(s, i, 0, false, q, start).ok,
        attrs_from_ok(s, scan_from(s, i, 0, false, q, start).segs),
    decreases s.len() - i,
{
    reveal_strlit(",");
    let comma = ","@;
    let x = s.subrange(start, s.len() as int);
    if i >= s.len() {
        lemma_find_from_bounds(x, comma, 0);
        if find(x, comma) is Some {
            let k = find(x, comma)->0;
            assert(x.subrange(k, k + 1)[0] == x[k]);
            assert(s[start + k] == ',');
        }
        assert(split(x, comma) == seq![x]);
        assert(split(x, comma)[0] == x);
        let segs = seq![(start, s.len() as int)];
        assert(segs.drop_first() =~= Seq::<(int, int)>::empty());
        assert(scan_from(s, i, 0, false, q, start).segs == segs);
        assert(is_plain_list(x));
        lemma_plain_single_ok(x);
        assert(attrs_from_ok(s, Seq::<(int, int)>::empty()));
        assert(segs[0] == (start, s.len() as int));
        assert(single_ok(s.subrange(segs[0].0, segs[0].1)));
    } else if s[i] == ',' {
        let head = x.subrange(0, i - start);
        let tail = x.subrange(i - start + 1, x.len() as int);
        assert forall|j: int| 0 <= j < i - start implies !#[trigger] matches_at(x, comma, j) by {
            if matches_at(x, comma, j) {
                assert(x.subrange(j, j + 1)[0] == x[j]);
                assert(s[start + j] != ',');
            }
        }
        lemma_find_from_skip(x, comma, 0, i - start);
        assert(x.subrange(i - start, i - start + 1) =~= comma);
        assert(find(x, comma) == Some(i - start));
        assert(head =~= s.subrange(start, i));
        assert(tail =~= s.subrange(i + 1, s.len() as int));
        assert(split(x, comma) == seq![head] + split(tail, comma));
        assert forall|k: int| 0 <= k < split(tail, comma).len() implies trim(#[trigger] split(tail, comma)[k]) != "."@ by {
            assert(split(x, comma)[k + 1] == split(tail, comma)[k]);
        }
        lemma_scan_plain_ok(s, i + 1, q, i + 1);
        let r = scan_from(s, i + 1, 0, false, q, i + 1);
        let segs = seq![(start, i)] + r.segs;
        assert(segs.drop_first() =~= r.segs);
        assert(scan_from(s, i, 0, false, q, start).segs == segs);
        assert(split(x, comma)[0] == head);
        assert(is_plain_list(head));
        lemma_plain_single_ok(head);
    } else {
        assert(s[i] != '(' && s[i] != ')' && s[i] != '\'' && s[i] != '"');
        assert(scan_from(s, i, 0, false, q, start) == scan_from(s, i + 1, 0, false, q, start));
        lemma_scan_plain_ok(s, i + 1, q, start);
    }
}

/// An attribute list without parentheses or quotes, none of whose
/// comma-separated parts is a lone `.`, can be read, and is read one
/// attribute per non-blank part, in order.
pub proof fn lemma_plain_attribute_list_readable(s: Seq<char>)
    requires
        is_plain_list(s),
        forall|k: int| 0 <= k < split(s, ","@).len() ==> trim(#[trigger] split(s, ","@)[k]) != "."@,
    ensures
        attrs_ok(s),
        attrs_spec(s) == plain_values(split(s, ","@)),
{
    assert(s.subrange(0, s.len() as int) =~= s);
    lemma_scan_plain_ok(s, 0, '"', 0);
    lemma_plain_attribute_list(s);
}

pub proof fn lemma_trim_start_len(s: Seq<char>)
    ensures
        trim_start(s).len() <= s.len(),
    decreases s.len(),
{
    if s.len() > 0 && is_ws(s[0]) {
        lemma_trim_start_len(s.drop_first());
    }
}

pub proof fn lemma_trim_end_len(s: Seq<char>)
    ensures
        trim_end(s).len() <= s.len(),
    decreases s.len(),
{
    if s.len() > 0 && is_ws(s.last()) {
        lemma_trim_end_len(s.drop_last());
    }
}

pub proof fn lemma_trim_len(s: Seq<char>)
    ensures
        trim(s).len() <= s.len(),
{
    lemma_trim_start_len(s);
    lemma_trim_end_len(trim_start(s));
}

/// `t` is a single character that opens and closes one of the delimited
/// forms, which the reader cannot take apart.
pub open spec fn is_lone_delimiter(t: Seq<char>) -> bool {
    t.len() == 1 && (t[0] == '\'' || t[0] == '"' || t[0] == '.')
}

/// The attribute read from one value (what `parse_single_attribute` returns).
pub open spec fn single_attr(v: Seq<char>) -> AttrModel
    decreases v.len(), 0int, 0int,
{
    let t = trim(v);
    let n = t.len() as int;
    if starts_with_char(t, '#') && parse_u64_spec(t.drop_first()) is Some {
        AttrModel::Reference(parse_u64_spec(t.drop_first())->0 as nat)
    } else if n >= 2 && t[0] == '"' && t[n - 1] == '"' {
        AttrModel::Text(t.subrange(1, n - 1))
    } else if n >= 2 && t[0] == '\'' && t[n - 1] == '\'' {
        AttrModel::Text(t.subrange(1, n - 1))
    } else if starts_with_char(t, '(') && ends_with_char(t, ')') {
        proof {
            lemma_trim_len(v);
        }
        AttrModel::List(attrs_spec(t.subrange(1, n - 1)))
    } else if n >= 2 && t[0] == '.' && t[n - 1] == '.' {
        AttrModel::Enumeration(t.subrange(1, n - 1))
    } else if t == ".T."@ || t == ".TRUE."@ {
        AttrModel::Boolean(true)
    } else if t == ".F."@ || t == ".FALSE."@ {
        AttrModel::Boolean(false)
    } else if t == "$"@ {
        AttrModel::Undefined
    } else if t == "*"@ {
        AttrModel::Derived
    } else if parse_i64_spec(t) is Some {
        AttrModel::Integer(parse_i64_spec(t)->0 as int)
    } else if is_real_literal_spec(t) {
        AttrModel::Real(t)
    } else {
        AttrModel::Text(t)
    }
}

/// The values of `segs` can all be read.
pub open spec fn attrs_from_ok(s: Seq<char>, segs: Seq<(int, int)>) -> bool
    decreases s.len(), 1int, segs.len(),
{
    if segs.len() == 0 {
        true
    } else {
        let a = segs[0].0;
        let b = segs[0].1;
        let here = if 0 <= a <= b <= s.len() && trim(s.subrange(a, b)).len() != 0 {
            single_ok(s.subrange(a, b))
        } else {
            true
        };
        here && attrs_from_ok(s, segs.drop_first())
    }
}

/// The attribute list `s` can be read: the depth of its parentheses fits an
/// `i32` and none of its values is a lone quote or dot.
pub open spec fn attrs_ok(s: Seq<char>) -> bool
    decreases s.len(), 2int, 0int,
{
    scan(s).ok && attrs_from_ok(s, scan(s).segs)
}

/// A value whose trimmed text is enclosed in single or in double quotes is
/// read as the text between them, the quotes dropped; one enclosed in dots
/// is read as the enumeration between them (so `.T.` is the enumeration
/// `T`).
pub proof fn lemma_single_attr_delimited(v: Seq<char>)
    ensures
        trim(v).len() >= 2 && trim(v)[0] == '\'' && trim(v)[trim(v).len() - 1] == '\'' ==> single_attr(v)
            == AttrModel::Text(trim(v).subrange(1, trim(v).len() - 1)),
        trim(v).len() >= 2 && trim(v)[0] == '"' && trim(v)[trim(v).len() - 1] == '"' ==> single_attr(v)
            == AttrModel::Text(trim(v).subrange(1, trim(v).len() - 1)),
        trim(v).len() >= 2 && trim(v)[0] == '.' && trim(v)[trim(v).len() - 1] == '.' ==> single_attr(v)
            == AttrModel::Enumeration(trim(v).subrange(1, trim(v).len() - 1)),
        trim(v).len() >= 2 && trim(v)[0] == '#' && all_digits(trim(v).drop_first()) && digits_value(
            trim(v).drop_first(),
        ) <= u64::MAX ==> single_attr(v) == AttrModel::Reference(digits_value(trim(v).drop_first())),
{
    let t = trim(v);
    if t.len() >= 2 && t[0] == '#' && all_digits(t.drop_first()) {
        assert(is_digit(t.drop_first()[0]));
        assert(t.drop_first()[0] != '+');
    }
}

/// One value can be read.
pub open spec fn single_ok(v: Seq<char>) -> bool
    decreases v.len(), 0int, 0int,
{
    let t = trim(v);
    let n = t.len() as int;
    if starts_with_char(t, '#') && parse_u64_spec(t.drop_first()) is Some {
        true
    } else if is_lone_delimiter(t) {
        false
    } else if n >= 2 && t[0] == '"' && t[n - 1] == '"' {
        true
    } else if n >= 2 && t[0] == '\'' && t[n - 1] == '\'' {
        true
    } else if starts_with_char(t, '(') && ends_with_char(t, ')') {
        proof {
            lemma_trim_len(v);
        }
        attrs_ok(t.subrange(1, n - 1))
    } else {
        true
    }
}

/// The line of an entity instance with the instance number and the `=`
/// removed, trimmed and without its final semicolons.
pub open spec fn entity_body(line: Seq<char>) -> Seq<char> {
    trim_end_char(trim(line), ';')
}

/// The entity read from the text after `#id=` (what `parse_entity_line` returns).
pub open spec fn entity_line_spec(id: u64, line: Seq<char>) -> Option<EntityModel> {
    let l = entity_body(line);
    match find(l, seq!['(']) {
        None => None,
        Some(p) => Some(
            EntityModel {
                id: id as nat,
                entity_type: trim(l.subrange(0, p)),
                attributes: attrs_spec(l.subrange(p + 1, l.len() - 1)),
            },
        ),
    }
}

/// The text after `#id=` can be read: when it has a `(`, that is not its last
/// character, its last character is ASCII, and its attributes can be read.
pub open spec fn entity_line_ok(line: Seq<char>) -> bool {
    let l = entity_body(line);
    match find(l, seq!['(']) {
        None => true,
        Some(p) => p + 1 <= l.len() - 1 && l.last() < '\u{80}' && attrs_ok(
            l.subrange(p + 1, l.len() - 1),
        ),
    }
}

/// Where a data line names its instance: after a leading `#`, up to the first `=`.
pub open spec fn data_line_id(t: Seq<char>) -> Option<(u64, int)> {
    if starts_with_char(t, '#') {
        match find(t, seq!['=']) {
            Some(eq) => if 1 <= eq <= t.len() {
                match parse_u64_spec(t.subrange(1, eq)) {
                    Some(id) => Some((id, eq)),
                    None => None,
                }
            } else {
                None
            },
            None => None,
        }
    } else {
        None
    }
}

/// The map of entities after reading one more line.
pub open spec fn data_step(m: Map<u64, EntityModel>, line: Seq<char>) -> Map<u64, EntityModel> {
    let t = trim(line);
    match data_line_id(t) {
        Some((id, eq)) => match entity_line_spec(id, t.subrange(eq + 1, t.len() as int)) {
            Some(e) => m.insert(id, e),
            None => m,
        },
        None => m,
    }
}

/// The entities of a DATA section given by its lines (what `parse_data` returns).
pub open spec fn data_spec(ls: Seq<Seq<char>>) -> Map<u64, EntityModel>
    decreases ls.len(),
{
    if ls.len() == 0 {
        Map::empty()
    } else {
        data_step(data_spec(ls.drop_last()), ls.last())
    }
}

/// One line of a DATA section can be read.
pub open spec fn data_line_ok(line: Seq<char>) -> bool {
    let t = trim(line);
    match data_line_id(t) {
        Some((id, eq)) => entity_line_ok(t.subrange(eq + 1, t.len() as int)),
        None => true,
    }
}

/// Every line of a DATA section can be read.
pub open spec fn data_ok(ls: Seq<Seq<char>>) -> bool {
    forall|i: int| 0 <= i < ls.len() ==> #[trigger] data_line_ok(ls[i])
}

/// The text between the first `open` after `key` and the next `close`
/// (the way the header fields are located).
pub open spec fn header_field(sec: Seq<char>, key: Seq<char>, open: Seq<char>, skip: int, close: Seq<char>) -> Option<Seq<char>> {
    match find(sec, key) {
        None => None,
        Some(st) => match find(sec.subrange(st, sec.len() as int), open) {
            None => None,
            Some(ds) => {
                let d0 = st + ds + skip;
                if 0 <= d0 <= sec.len() {
                    match find(sec.subrange(d0, sec.len() as int), close) {
                        None => None,
                        Some(de) => Some(sec.subrange(d0, d0 + de)),
                    }
                } else {
                    None
                }
            },
        }
    }
}

/// A quoted list `'a','b'` split into its items, each trimmed and unquoted.
pub open spec fn quoted_items(text: Seq<char>) -> Seq<Seq<char>> {
    split(text, "','"@).map_values(|x: Seq<char>| trim_char(trim(x), '\''))
}

/// The header read from a HEADER section (what `parse_header` returns).
pub open spec fn header_spec(sec: Seq<char>) -> HeaderModel {
    let e = empty_header();
    let description = match header_field(sec, "FILE_DESCRIPTION"@, "('"@, 1, "')"@) {
        Some(d) => quoted_items(d),
        None => e.description,
    };
    let name = match header_field(sec, "FILE_NAME"@, "'"@, 1, "'"@) {
        Some(n) => n,
        None => e.name,
    };
    let schema_names = match header_field(sec, "FILE_SCHEMA"@, "'"@, 1, "'"@) {
        Some(d) => quoted_items(d),
        None => e.schema_names,
    };
    HeaderModel { description, name, schema_names, ..e }
}

/// The header and entities after reading the sections up to `secs`.
pub open spec fn sections_spec(secs: Seq<Seq<char>>) -> FileModel
    decreases secs.len(),
{
    if secs.len() == 0 {
        FileModel { header: empty_header(), entities: Map::empty() }
    } else {
        let prev = sections_spec(secs.drop_last());
        let t = trim(secs.last());
        if starts_with(t, "HEADER"@) {
            FileModel { header: header_spec(t), ..prev }
        } else if starts_with(t, "DATA"@) {
            FileModel { entities: data_spec(lines(t)), ..prev }
        } else {
            prev
        }
    }
}

/// Every section can be read.
pub open spec fn sections_ok(secs: Seq<Seq<char>>) -> bool {
    forall|i: int|
        0 <= i < secs.len() ==> {
            let t = trim(#[trigger] secs[i]);
            !starts_with(t, "HEADER"@) && starts_with(t, "DATA"@) ==> data_ok(lines(t))
        }
}

/// A STEP text has the `ISO-10303-21` marker.
pub open spec fn has_step_marker(content: Seq<char>) -> bool {
    contains(content, "ISO-10303-21"@)
}

/// The file read from a STEP text, or `None` when it lacks the marker
/// (what `StepReader::parse` returns).
pub open spec fn parse_spec(content: Seq<char>) -> Option<FileModel> {
    if !has_step_marker(content) {
        None
    } else {
        Some(sections_spec(split(content, "ENDSEC;"@)))
    }
}

/// A STEP text can be read without a failure of the reader itself.
pub open spec fn parse_ok(content: Seq<char>) -> bool {
    has_step_marker(content) ==> sections_ok(split(content, "ENDSEC;"@))
}

} // verus!

