//! STEP reader: turns the text of a STEP file into its header and entities.
use vstd::prelude::*;
use vstd::slice::slice_subrange;
use std::collections::HashMap;
use crate::text::{strings_model, chars_of, string_from_chars, trim_slice, is_blank, trim, trim_end_char_slice, trim_char_slice, trim_char, find_exec, lemma_find_from_bounds, split, split_exec, lines, lines_exec, starts_with, starts_with_exec};
use crate::numbers::{parse_u64, parse_i64, is_real_literal, all_digits, digits_value};
use crate::io::step_model::{StepSchema, StepAttribute, StepEntity, StepHeader, StepFile, AttrModel, EntityModel, attrs_model, attrs_from, attrs_spec, attrs_from_ok, attrs_ok, single_attr, single_ok, lemma_single_attr_delimited, scan_from, lemma_trim_len, entity_body, entity_line_spec, entity_line_ok, data_spec, data_line_ok, data_ok, entities_model, header_field, quoted_items, header_spec, sections_spec, sections_ok, has_step_marker, parse_spec, parse_ok};
use crate::io::{IoError, IoResult};

verus! {

broadcast use vstd::std_specs::hash::group_hash_axioms;

/// STEP reader.
#[derive(Debug, Clone)]
pub struct StepReader {
    /// Schema version (AP214 or AP242)
    pub schema: StepSchema,
}

/// `t` holds exactly the characters of the literal `lit`.
pub fn eq_literal(t: &[char], lit: &str) -> (b: bool)
    ensures
        b == (t@ == lit@),
{
    let l = chars_of(lit);
    if t.len() != l.len() {
        return false;
    }
    let mut i: usize = 0;
    while i < t.len()
        invariant
            i <= t@.len(),
            t@.len() == l@.len(),
            l@ == lit@,
            forall|j: int| 0 <= j < i ==> t@[j] == l@[j],
        decreases t.len() - i,
    {
        if t[i] != l[i] {
            assert(t@[i as int] != l@[i as int]);
            return false;
        }
        i = i + 1;
    }
    assert(t@ =~= l@);
    true
}

proof fn lemma_attrs_from_cons(s: Seq<char>, seg: (int, int), rest: Seq<(int, int)>)
    ensures
        attrs_from(s, seq![seg] + rest) == (if 0 <= seg.0 <= seg.1 <= s.len() && trim(
            s.subrange(seg.0, seg.1),
        ).len() != 0 {
            seq![single_attr(s.subrange(seg.0, seg.1))] + attrs_from(s, rest)
        } else {
            attrs_from(s, rest)
        }),
        attrs_from_ok(s, seq![seg] + rest) == ((if 0 <= seg.0 <= seg.1 <= s.len() && trim(
            s.subrange(seg.0, seg.1),
        ).len() != 0 {
            single_ok(s.subrange(seg.0, seg.1))
        } else {
            true
        }) && attrs_from_ok(s, rest)),
{
    assert((seq![seg] + rest).drop_first() =~= rest);
    assert((seq![seg] + rest)[0] == seg);
}

proof fn lemma_attrs_model_push(s: Seq<StepAttribute>, a: StepAttribute)
    ensures
        attrs_model(s.push(a)) == attrs_model(s).push(a@),
{
    assert(s.push(a).drop_last() =~= s);
}

impl StepReader {
    /// Create a new STEP reader.
    pub fn new() -> (r: Self)
        ensures
            r.schema == StepSchema::AP214,
    {
        StepReader { schema: StepSchema::AP214 }
    }

    /// Reads one attribute value.
    pub fn parse_single_attribute(&self, value: &[char]) -> (r: StepAttribute)
        requires
            single_ok(value@),
        ensures
            r@ == single_attr(value@),
            trim(value@).len() >= 2 && (trim(value@)[0] == '\'' && trim(value@)[trim(value@).len() - 1] == '\''
                || trim(value@)[0] == '"' && trim(value@)[trim(value@).len() - 1] == '"') ==> (r matches StepAttribute::String(
                text,
            ) && text@ == trim(value@).subrange(1, trim(value@).len() - 1)),
            trim(value@).len() >= 2 && trim(value@)[0] == '#' && all_digits(trim(value@).drop_first()) && digits_value(
                trim(value@).drop_first(),
            ) <= u64::MAX ==> r == StepAttribute::Reference(digits_value(trim(value@).drop_first()) as u64),
        decreases value@.len(), 0int, 0int,
    {
        proof {
            lemma_single_attr_delimited(value@);
        }
        let t = trim_slice(value);
        let n = t.len();
        proof {
            lemma_trim_len(value@);
            reveal_strlit(".T.");
            reveal_strlit(".TRUE.");
            reveal_strlit(".F.");
            reveal_strlit(".FALSE.");
            reveal_strlit("$");
            reveal_strlit("*");
        }
        if n > 0 && t[0] == '#' {
            let rest = slice_subrange(t, 1, n);
            assert(rest@ =~= t@.drop_first());
            match parse_u64(rest) {
                Some(id) => {
                    return StepAttribute::Reference(id);
                },
                None => {},
            }
        }
        if n >= 2 && t[0] == '"' && t[n - 1] == '"' {
            return StepAttribute::String(string_from_chars(slice_subrange(t, 1, n - 1)));
        }
        if n >= 2 && t[0] == '\'' && t[n - 1] == '\'' {
            return StepAttribute::String(string_from_chars(slice_subrange(t, 1, n - 1)));
        }
        if n > 0 && t[0] == '(' && t[n - 1] == ')' {
            let inner = slice_subrange(t, 1, n - 1);
            let items = self.parse_attributes(inner);
            let r = StepAttribute::List(items);
            assert(r@ == AttrModel::List(attrs_model(items@)));
            return r;
        }
        if n >= 2 && t[0] == '.' && t[n - 1] == '.' {
            return StepAttribute::Enumeration(string_from_chars(slice_subrange(t, 1, n - 1)));
        }
        if eq_literal(t, ".T.") || eq_literal(t, ".TRUE.") {
            return StepAttribute::Boolean(true);
        }
        if eq_literal(t, ".F.") || eq_literal(t, ".FALSE.") {
            return StepAttribute::Boolean(false);
        }
        if eq_literal(t, "$") {
            return StepAttribute::Undefined;
        }
        if eq_literal(t, "*") {
            return StepAttribute::Derived;
        }
        match parse_i64(t) {
            Some(i) => {
                return StepAttribute::Integer(i);
            },
            None => {},
        }
        if is_real_literal(t) {
            return StepAttribute::Real(string_from_chars(t));
        }
        StepAttribute::String(string_from_chars(t))
    }

    /// Reads the comma-separated values of an attribute list.
    pub fn parse_attributes(&self, s: &[char]) -> (r: Vec<StepAttribute>)
        requires
            attrs_ok(s@),
        ensures
            attrs_model(r@) == attrs_spec(s@),
        decreases s@.len(), 2int, 0int,
    {
        let mut attributes: Vec<StepAttribute> = Vec::new();
        let mut depth: i32 = 0;
        let mut in_string = false;
        let mut string_char = '"';
        let mut start: usize = 0;
        let mut i: usize = 0;
        let n = s.len();
        assert(attrs_model(attributes@) =~= Seq::<AttrModel>::empty());
        while i < n
            invariant
                i <= n,
                n == s@.len(),
                start <= i,
                scan_from(s@, i as int, depth as int, in_string, string_char, start as int).ok,
                attrs_from_ok(
                    s@,
                    scan_from(s@, i as int, depth as int, in_string, string_char, start as int).segs,
                ),
                attrs_model(attributes@) + attrs_from(
                    s@,
                    scan_from(s@, i as int, depth as int, in_string, string_char, start as int).segs,
                ) == attrs_spec(s@),
            decreases n - i,
        {
            let c = s[i];
            if in_string {
                if c == string_char {
                    in_string = false;
                }
            } else if c == '\'' || c == '"' {
                in_string = true;
                string_char = c;
            } else if c == '(' {
                depth = depth + 1;
            } else if c == ')' {
                depth = depth - 1;
            } else if c == ',' && depth == 0 {
                let seg = slice_subrange(s, start, i);
                let ghost rest = scan_from(s@, i + 1, depth as int, false, string_char, i + 1);
                proof {
                    lemma_attrs_from_cons(s@, (start as int, i as int), rest.segs);
                }
                if !is_blank(seg) {
                    let a = self.parse_single_attribute(seg);
                    let ghost before = attributes@;
                    attributes.push(a);
                    proof {
                        lemma_attrs_model_push(before, a);
                        assert(attrs_model(before).push(a@) + attrs_from(s@, rest.segs)
                            =~= attrs_model(before) + (seq![a@] + attrs_from(s@, rest.segs)));
                    }
                }
                start = i + 1;
            }
            i = i + 1;
        }
        let seg = slice_subrange(s, start, n);
        proof {
            lemma_attrs_from_cons(s@, (start as int, n as int), Seq::empty());
            assert(seq![(start as int, n as int)] + Seq::<(int, int)>::empty() =~= seq![
                (start as int, n as int),
            ]);
        }
        if !is_blank(seg) {
            let a = self.parse_single_attribute(seg);
            let ghost before = attributes@;
            attributes.push(a);
            proof {
                lemma_attrs_model_push(before, a);
                assert(attrs_model(before).push(a@) =~= attrs_model(before) + (seq![a@]
                    + Seq::<AttrModel>::empty()));
            }
        } else {
            assert(attrs_model(attributes@) + Seq::<AttrModel>::empty() =~= attrs_model(
                attributes@,
            ));
        }
        attributes
    }

    /// Reads the text of an entity instance after `#id=`.
    pub fn parse_entity_line(&self, id: u64, line: &[char]) -> (r: Option<StepEntity>)
        requires
            entity_line_ok(line@),
        ensures
            match r {
                Some(e) => entity_line_spec(id, line@) == Some(e@),
                None => entity_line_spec(id, line@) is None,
            },
    {
        let l0 = trim_slice(line);
        let l = trim_end_char_slice(l0, ';');
        assert(l@ == entity_body(line@));
        let paren: Vec<char> = vec!['('];
        assert(paren@ == seq!['(']);
        match find_exec(l, paren.as_slice()) {
            None => None,
            Some(p) => {
                let n = l.len();
                let ty = string_from_chars(trim_slice(slice_subrange(l, 0, p)));
                let attrs = self.parse_attributes(slice_subrange(l, p + 1, n - 1));
                let e = StepEntity { id, entity_type: ty, attributes: attrs };
                Some(e)
            },
        }
    }

    /// Reads the entities of a DATA section.
    pub fn parse_data(&self, section: &[char]) -> (r: HashMap<u64, StepEntity>)
        requires
            data_ok(lines(section@)),
        ensures
            entities_model(r@) == data_spec(lines(section@)),
    {
        let ls = lines_exec(section);
        let ghost lm = ls@.map_values(|x: &[char]| x@);
        assert(lm == lines(section@));
        let mut entities: HashMap<u64, StepEntity> = HashMap::new();
        let eq_sign: Vec<char> = vec!['='];
        assert(eq_sign@ == seq!['=']);
        let mut i: usize = 0;
        assert(lm.take(0) =~= Seq::<Seq<char>>::empty());
        assert(entities_model(entities@) =~= Map::<u64, EntityModel>::empty());
        while i < ls.len()
            invariant
                i <= ls@.len(),
                lm == ls@.map_values(|x: &[char]| x@),
                data_ok(lm),
                eq_sign@ == seq!['='],
                entities_model(entities@) == data_spec(lm.take(i as int)),
            decreases ls.len() - i,
        {
            let line = ls[i];
            assert(lm[i as int] == line@);
            assert(data_line_ok(lm[i as int]));
            assert(lm.take(i + 1).drop_last() =~= lm.take(i as int));
            assert(lm.take(i + 1).last() == line@);
            let t = trim_slice(line);
            if t.len() > 0 && t[0] == '#' {
                match find_exec(t, eq_sign.as_slice()) {
                    Some(eq) => {
                        proof {
                            lemma_find_from_bounds(t@, eq_sign@, 0);
                            if eq == 0 {
                                assert(t@.subrange(0, 1)[0] == t@[0]);
                            }
                        }
                        let n = t.len();
                        match parse_u64(slice_subrange(t, 1, eq)) {
                            Some(id) => {
                                match self.parse_entity_line(id, slice_subrange(t, eq + 1, n)) {
                                    Some(e) => {
                                        let ghost before = entities@;
                                        let ghost em = e@;
                                        entities.insert(id, e);
                                        assert(entities_model(entities@) =~= entities_model(
                                            before,
                                        ).insert(id, em));
                                    },
                                    None => {},
                                }
                            },
                            None => {},
                        }
                    },
                    None => {},
                }
            }
            i = i + 1;
        }
        assert(lm.take(ls@.len() as int) =~= lm);
        entities
    }

    /// The text of `sec` between the first `open` after `key` and the next `close`.
    fn header_field_exec<'a>(sec: &'a [char], key: &str, open: &str, close: &str) -> (r: Option<
        &'a [char],
    >)
        ensures
            match r {
                Some(x) => header_field(sec@, key@, open@, 1, close@) == Some(x@),
                None => header_field(sec@, key@, open@, 1, close@) is None,
            },
    {
        let k = chars_of(key);
        let o = chars_of(open);
        let c = chars_of(close);
        let n = sec.len();
        match find_exec(sec, k.as_slice()) {
            None => None,
            Some(st) => {
                proof {
                    lemma_find_from_bounds(sec@, k@, 0);
                }
                let from_key = slice_subrange(sec, st, n);
                match find_exec(from_key, o.as_slice()) {
                    None => None,
                    Some(ds) => {
                        proof {
                            lemma_find_from_bounds(from_key@, o@, 0);
                        }
                        if st + ds + 1 > n {
                            return None;
                        }
                        let d0 = st + ds + 1;
                        let after = slice_subrange(sec, d0, n);
                        match find_exec(after, c.as_slice()) {
                            None => None,
                            Some(de) => {
                                proof {
                                    lemma_find_from_bounds(after@, c@, 0);
                                }
                                Some(slice_subrange(sec, d0, d0 + de))
                            },
                        }
                    },
                }
            },
        }
    }

    /// Splits `'a','b'` into its items, each trimmed and unquoted.
    fn quoted_items_exec(d: &[char]) -> (r: Vec<String>)
        ensures
            strings_model(r@) == quoted_items(d@),
    {
        let sep = chars_of("','");
        proof {
            reveal_strlit("','");
        }
        let pieces = split_exec(d, sep.as_slice());
        let ghost pm = pieces@.map_values(|x: &[char]| x@);
        let ghost want = quoted_items(d@);
        assert(want == pm.map_values(|x: Seq<char>| trim_char(trim(x), '\''))) by {
            reveal_strlit("','");
        }
        let mut out: Vec<String> = Vec::new();
        let mut i: usize = 0;
        while i < pieces.len()
            invariant
                i <= pieces@.len(),
                pm == pieces@.map_values(|x: &[char]| x@),
                want == pm.map_values(|x: Seq<char>| trim_char(trim(x), '\'')),
                strings_model(out@) == want.take(i as int),
            decreases pieces.len() - i,
        {
            let item = trim_char_slice(trim_slice(pieces[i]), '\'');
            let s = string_from_chars(item);
            assert(pm[i as int] == pieces@[i as int]@);
            assert(want[i as int] == trim_char(trim(pm[i as int]), '\''));
            let ghost before = out@;
            out.push(s);
            assert(strings_model(out@) =~= strings_model(before).push(s@));
            assert(want.take(i + 1) =~= want.take(i as int).push(want[i as int]));
            i = i + 1;
        }
        assert(want.take(pieces@.len() as int) =~= want);
        out
    }

    /// Reads a HEADER section.
    pub fn parse_header(&self, section: &[char]) -> (r: StepHeader)
        ensures
            r@ == header_spec(section@),
    {
        let mut header = StepHeader::new();
        match Self::header_field_exec(section, "FILE_DESCRIPTION", "('", "')") {
            Some(d) => {
                header.description = Self::quoted_items_exec(d);
            },
            None => {},
        }
        match Self::header_field_exec(section, "FILE_NAME", "'", "'") {
            Some(d) => {
                header.name = string_from_chars(d);
            },
            None => {},
        }
        match Self::header_field_exec(section, "FILE_SCHEMA", "'", "'") {
            Some(d) => {
                header.schema_names = Self::quoted_items_exec(d);
            },
            None => {},
        }
        header
    }

    /// Reads the header and entities of a STEP text.
    ///
    /// Fails when the text lacks the `ISO-10303-21` marker.
    pub fn parse(&self, content: &str) -> (r: IoResult<StepFile>)
        requires
            parse_ok(content@),
        ensures
            match r {
                Ok(f) => parse_spec(content@) == Some(f@),
                Err(e) => parse_spec(content@) is None && (e matches IoError::StepError(m)
                    && m@ == "Not a valid STEP file (missing ISO-10303-21 header)"@),
            },
    {
        let cs = chars_of(content);
        let marker = chars_of("ISO-10303-21");
        if find_exec(cs.as_slice(), marker.as_slice()).is_none() {
            let m = crate::text::string_from_str("Not a valid STEP file (missing ISO-10303-21 header)");
            return Err(IoError::StepError(m));
        }
        let sep = chars_of("ENDSEC;");
        proof {
            reveal_strlit("ENDSEC;");
        }
        let sections = split_exec(cs.as_slice(), sep.as_slice());
        let ghost sm = sections@.map_values(|x: &[char]| x@);
        assert(sm == split(content@, "ENDSEC;"@));
        let header_kw = chars_of("HEADER");
        let data_kw = chars_of("DATA");
        let mut header = StepHeader::new();
        let mut entities: HashMap<u64, StepEntity> = HashMap::new();
        let mut i: usize = 0;
        assert(sm.take(0) =~= Seq::<Seq<char>>::empty());
        assert(entities_model(entities@) =~= Map::<u64, EntityModel>::empty());
        while i < sections.len()
            invariant
                i <= sections@.len(),
                sm == sections@.map_values(|x: &[char]| x@),
                sections_ok(sm),
                header_kw@ == "HEADER"@,
                data_kw@ == "DATA"@,
                header@ == sections_spec(sm.take(i as int)).header,
                entities_model(entities@) == sections_spec(sm.take(i as int)).entities,
            decreases sections.len() - i,
        {
            let sec = sections[i];
            assert(sm[i as int] == sec@);
            assert(sm.take(i + 1).drop_last() =~= sm.take(i as int));
            assert(sm.take(i + 1).last() == sec@);
            let t = trim_slice(sec);
            if starts_with_exec(t, header_kw.as_slice()) {
                header = self.parse_header(t);
            } else if starts_with_exec(t, data_kw.as_slice()) {
                assert(data_ok(lines(t@)));
                entities = self.parse_data(t);
            }
            i = i + 1;
        }
        assert(sm.take(sections@.len() as int) =~= sm);
        Ok(StepFile { header, entities })
    }

    /// Whether one attribute value can be read.
    pub fn single_readable(&self, value: &[char]) -> (b: bool)
        ensures
            b == single_ok(value@),
        decreases value@.len(), 0int, 0int,
    {
        let t = trim_slice(value);
        let n = t.len();
        proof {
            lemma_trim_len(value@);
        }
        if n > 0 && t[0] == '#' {
            let rest = slice_subrange(t, 1, n);
            assert(rest@ =~= t@.drop_first());
            if parse_u64(rest).is_some() {
                return true;
            }
        }
        if n == 1 && (t[0] == '\'' || t[0] == '"' || t[0] == '.') {
            return false;
        }
        if n >= 2 && t[0] == '"' && t[n - 1] == '"' {
            return true;
        }
        if n >= 2 && t[0] == '\'' && t[n - 1] == '\'' {
            return true;
        }
        if n > 0 && t[0] == '(' && t[n - 1] == ')' {
            let inner = slice_subrange(t, 1, n - 1);
            return self.attributes_readable(inner);
        }
        true
    }

    /// Whether an attribute list can be read.
    pub fn attributes_readable(&self, s: &[char]) -> (b: bool)
        ensures
            b == attrs_ok(s@),
        decreases s@.len(), 2int, 0int,
    {
        let mut depth: i32 = 0;
        let mut in_string = false;
        let mut string_char = '"';
        let mut start: usize = 0;
        let mut i: usize = 0;
        let n = s.len();
        while i < n
            invariant
                i <= n,
                n == s@.len(),
                start <= i,
                attrs_ok(s@) == (scan_from(
                    s@,
                    i as int,
                    depth as int,
                    in_string,
                    string_char,
                    start as int,
                ).ok && attrs_from_ok(
                    s@,
                    scan_from(s@, i as int, depth as int, in_string, string_char, start as int).segs,
                )),
            decreases n - i,
        {
            let c = s[i];
            if in_string {
                if c == string_char {
                    in_string = false;
                }
            } else if c == '\'' || c == '"' {
                in_string = true;
                string_char = c;
            } else if c == '(' {
                if depth == i32::MAX {
                    return false;
                }
                depth = depth + 1;
            } else if c == ')' {
                if depth == i32::MIN {
                    return false;
                }
                depth = depth - 1;
            } else if c == ',' && depth == 0 {
                let seg = slice_subrange(s, start, i);
                let ghost rest = scan_from(s@, i + 1, depth as int, false, string_char, i + 1);
                proof {
                    lemma_attrs_from_cons(s@, (start as int, i as int), rest.segs);
                }
                if !is_blank(seg) {
                    if !self.single_readable(seg) {
                        return false;
                    }
                }
                start = i + 1;
            }
            i = i + 1;
        }
        let seg = slice_subrange(s, start, n);
        proof {
            lemma_attrs_from_cons(s@, (start as int, n as int), Seq::empty());
            assert(seq![(start as int, n as int)] + Seq::<(int, int)>::empty() =~= seq![
                (start as int, n as int),
            ]);
        }
        if !is_blank(seg) {
            self.single_readable(seg)
        } else {
            true
        }
    }

    /// Whether the text of an entity instance after `#id=` can be read.
    pub fn entity_line_readable(&self, line: &[char]) -> (b: bool)
        ensures
            b == entity_line_ok(line@),
    {
        let l0 = trim_slice(line);
        let l = trim_end_char_slice(l0, ';');
        assert(l@ == entity_body(line@));
        let paren: Vec<char> = vec!['('];
        assert(paren@ == seq!['(']);
        match find_exec(l, paren.as_slice()) {
            None => true,
            Some(p) => {
                proof {
                    lemma_find_from_bounds(l@, paren@, 0);
                }
                let n = l.len();
                if n - 1 < p + 1 {
                    return false;
                }
                let lc = l[n - 1];
                assert(lc == l@.last());
                if lc >= '\u{80}' {
                    return false;
                }
                self.attributes_readable(slice_subrange(l, p + 1, n - 1))
            },
        }
    }

    /// Whether every line of a DATA section can be read.
    pub fn data_readable(&self, section: &[char]) -> (b: bool)
        ensures
            b == data_ok(lines(section@)),
    {
        let ls = lines_exec(section);
        let ghost lm = ls@.map_values(|x: &[char]| x@);
        let eq_sign: Vec<char> = vec!['='];
        assert(eq_sign@ == seq!['=']);
        let mut i: usize = 0;
        while i < ls.len()
            invariant
                i <= ls@.len(),
                lm == ls@.map_values(|x: &[char]| x@),
                lm == lines(section@),
                eq_sign@ == seq!['='],
                forall|j: int| 0 <= j < i ==> #[trigger] data_line_ok(lm[j]),
            decreases ls.len() - i,
        {
            let line = ls[i];
            assert(lm[i as int] == line@);
            let t = trim_slice(line);
            if t.len() > 0 && t[0] == '#' {
                match find_exec(t, eq_sign.as_slice()) {
                    Some(eq) => {
                        proof {
                            lemma_find_from_bounds(t@, eq_sign@, 0);
                            if eq == 0 {
                                assert(t@.subrange(0, 1)[0] == t@[0]);
                            }
                        }
                        let n = t.len();
                        match parse_u64(slice_subrange(t, 1, eq)) {
                            Some(id) => {
                                if !self.entity_line_readable(slice_subrange(t, eq + 1, n)) {
                                    assert(!data_line_ok(lm[i as int]));
                                    return false;
                                }
                            },
                            None => {},
                        }
                    },
                    None => {},
                }
            }
            assert(data_line_ok(lm[i as int]));
            i = i + 1;
        }
        true
    }

    /// Whether a STEP text can be read without a failure of the reader itself
    /// (a lone quote or dot as a value, an entity line ending in `(` or in a
    /// non-ASCII character, or parentheses nested beyond the range of `i32`).
    pub fn parse_readable(&self, content: &str) -> (b: bool)
        ensures
            b == parse_ok(content@),
    {
        let cs = chars_of(content);
        let marker = chars_of("ISO-10303-21");
        if find_exec(cs.as_slice(), marker.as_slice()).is_none() {
            return true;
        }
        let sep = chars_of("ENDSEC;");
        proof {
            reveal_strlit("ENDSEC;");
        }
        let sections = split_exec(cs.as_slice(), sep.as_slice());
        let ghost sm = sections@.map_values(|x: &[char]| x@);
        let header_kw = chars_of("HEADER");
        let data_kw = chars_of("DATA");
        let mut i: usize = 0;
        assert(has_step_marker(content@));
        while i < sections.len()
            invariant
                i <= sections@.len(),
                has_step_marker(content@),
                sm == sections@.map_values(|x: &[char]| x@),
                sm == split(content@, "ENDSEC;"@),
                header_kw@ == "HEADER"@,
                data_kw@ == "DATA"@,
                forall|j: int|
                    0 <= j < i ==> {
                        let t = trim(#[trigger] sm[j]);
                        !starts_with(t, "HEADER"@) && starts_with(t, "DATA"@) ==> data_ok(lines(t))
                    },
            decreases sections.len() - i,
        {
            let sec = sections[i];
            assert(sm[i as int] == sec@);
            let t = trim_slice(sec);
            if !starts_with_exec(t, header_kw.as_slice()) && starts_with_exec(t, data_kw.as_slice()) {
                if !self.data_readable(t) {
                    assert(!(!starts_with(trim(sm[i as int]), "HEADER"@) && starts_with(
                        trim(sm[i as int]),
                        "DATA"@,
                    ) ==> data_ok(lines(trim(sm[i as int])))));
                    assert(!sections_ok(sm));
                    assert(has_step_marker(content@));
                    assert(!parse_ok(content@));
                    return false;
                }
            }
            i = i + 1;
        }
        true
    }
}

} // verus!
