//! Decoder for the tagged-field messages that carry errors and notices.
//!
//! A message is a run of fields, each one tag byte followed by a
//! NUL-terminated UTF-8 string, closed by a zero tag byte.
use std::collections::BTreeMap;
use vstd::prelude::*;
use vstd::slice::slice_subrange;
use vstd::string::*;
use vstd::utf8::*;

use crate::error::{ProtocolError, RequiredField};

verus! {

broadcast use {vstd::std_specs::btree::group_btree_axioms, vstd::laws_cmp::group_laws_cmp};

/// Tag of the (possibly localized) severity, `S`.
pub const TAG_SEVERITY: u8 = 83;

/// Tag of the severity that is never localized, `V`; optional.
pub const TAG_SEVERITY_NONLOCALIZED: u8 = 86;

/// Tag of the SQLSTATE code, `C`.
pub const TAG_CODE: u8 = 67;

/// Tag of the primary human-readable message, `M`.
pub const TAG_MESSAGE: u8 = 77;

/// How serious an error or notice is.
#[derive(Debug, Clone, Copy, PartialEq, Eq, Structural)]
pub enum Severity {
    Panic,
    Fatal,
    Error,
    Warning,
    Notice,
    Debug,
    Info,
    Log,
}

/// The severity named by a text, if it is one of the known names.
pub open spec fn severity_of(s: Seq<char>) -> Option<Severity> {
    if s == "PANIC"@ {
        Some(Severity::Panic)
    } else if s == "FATAL"@ {
        Some(Severity::Fatal)
    } else if s == "ERROR"@ {
        Some(Severity::Error)
    } else if s == "WARNING"@ {
        Some(Severity::Warning)
    } else if s == "NOTICE"@ {
        Some(Severity::Notice)
    } else if s == "DEBUG"@ {
        Some(Severity::Debug)
    } else if s == "INFO"@ {
        Some(Severity::Info)
    } else if s == "LOG"@ {
        Some(Severity::Log)
    } else {
        None
    }
}

/// What parsing a severity text gives: the severity, or an error that carries
/// the text.
pub open spec fn severity_parsed(s: Seq<char>, r: Result<Severity, ProtocolError>) -> bool {
    match severity_of(s) {
        Some(v) => r == Ok::<Severity, ProtocolError>(v),
        None => r matches Err(ProtocolError::UnexpectedSeverity(t)) && t@ == s,
    }
}

/// Compares two strings by their UTF-8 bytes.
pub(crate) fn text_eq(a: &str, b: &str) -> (r: bool)
    ensures
        r == (a@ == b@),
{
    let x = a.as_bytes();
    let y = b.as_bytes();
    proof {
        encode_utf8_decode_utf8(a@);
        encode_utf8_decode_utf8(b@);
    }
    if x.len() != y.len() {
        return false;
    }
    let mut i: usize = 0;
    while i < x.len()
        invariant
            x@ == encode_utf8(a@),
            y@ == encode_utf8(b@),
            decode_utf8(x@) == a@,
            decode_utf8(y@) == b@,
            x@.len() == y@.len(),
            i <= x@.len(),
            forall|k: int| 0 <= k < i ==> x@[k] == y@[k],
        decreases x@.len() - i,
    {
        if x[i] != y[i] {
            return false;
        }
        i = i + 1;
    }
    proof {
        assert(x@ =~= y@);
    }
    true
}

impl Severity {
    pub open spec fn spec_is_error(self) -> bool {
        self is Panic || self is Fatal || self is Error
    }

    /// Whether this severity reports an error, as opposed to information.
    pub fn is_error(self) -> (r: bool)
        ensures
            r == self.spec_is_error(),
    {
        match self {
            Severity::Panic | Severity::Fatal | Severity::Error => true,
            _ => false,
        }
    }

    /// Parses one of the fixed severity names.
    pub fn from_str(s: &str) -> (r: Result<Severity, ProtocolError>)
        ensures
            severity_parsed(s@, r),
    {
        if text_eq(s, "PANIC") {
            Ok(Severity::Panic)
        } else if text_eq(s, "FATAL") {
            Ok(Severity::Fatal)
        } else if text_eq(s, "ERROR") {
            Ok(Severity::Error)
        } else if text_eq(s, "WARNING") {
            Ok(Severity::Warning)
        } else if text_eq(s, "NOTICE") {
            Ok(Severity::Notice)
        } else if text_eq(s, "DEBUG") {
            Ok(Severity::Debug)
        } else if text_eq(s, "INFO") {
            Ok(Severity::Info)
        } else if text_eq(s, "LOG") {
            Ok(Severity::Log)
        } else {
            Err(ProtocolError::UnexpectedSeverity(s.to_owned()))
        }
    }
}

/// The index of the first NUL byte of `buf` at or after `i`.
pub open spec fn nul_from(buf: Seq<u8>, i: int) -> Option<int>
    decreases buf.len() - i,
{
    if 0 <= i < buf.len() {
        if buf[i] == 0 {
            Some(i)
        } else {
            nul_from(buf, i + 1)
        }
    } else {
        None
    }
}

proof fn lemma_nul_from_bounds(buf: Seq<u8>, i: int)
    ensures
        nul_from(buf, i) matches Some(j) ==> i <= j < buf.len() && buf[j] == 0,
    decreases buf.len() - i,
{
    if 0 <= i < buf.len() && buf[i] != 0 {
        lemma_nul_from_bounds(buf, i + 1);
    }
}

/// The fields of the message that starts at `pos`, in the order they appear,
/// each as its tag and its text; or the first reason why they cannot be read.
pub open spec fn parse_fields(buf: Seq<u8>, pos: int) -> Result<
    Seq<(u8, Seq<char>)>,
    ProtocolError,
>
    decreases buf.len() - pos,
    via parse_fields_decreases
{
    if 0 <= pos < buf.len() {
        if buf[pos] == 0 {
            Ok(Seq::empty())
        } else {
            match nul_from(buf, pos + 1) {
                None => Err(ProtocolError::UnexpectedEof),
                Some(end) => {
                    let raw = buf.subrange(pos + 1, end);
                    if !valid_utf8(raw) {
                        Err(ProtocolError::InvalidUtf8)
                    } else {
                        match parse_fields(buf, end + 1) {
                            Ok(rest) => Ok(seq![(buf[pos], decode_utf8(raw))] + rest),
                            Err(e) => Err(e),
                        }
                    }
                },
            }
        }
    } else {
        Err(ProtocolError::UnexpectedEof)
    }
}

#[via_fn]
proof fn parse_fields_decreases(buf: Seq<u8>, pos: int) {
    if 0 <= pos < buf.len() && buf[pos] != 0 {
        lemma_nul_from_bounds(buf, pos + 1);
    }
}

/// The text of the last field with the given tag.
pub open spec fn last_value(fs: Seq<(u8, Seq<char>)>, tag: u8) -> Option<Seq<char>>
    decreases fs.len(),
{
    if fs.len() == 0 {
        None
    } else if fs.last().0 == tag {
        Some(fs.last().1)
    } else {
        last_value(fs.drop_last(), tag)
    }
}

/// What reading a whole message gives: the missing required field, if any,
/// checked in the order severity, code, message.
pub open spec fn read_outcome(buf: Seq<u8>) -> Result<Seq<(u8, Seq<char>)>, ProtocolError> {
    match parse_fields(buf, 0) {
        Err(e) => Err(e),
        Ok(fs) => {
            if last_value(fs, TAG_SEVERITY) is None {
                Err(ProtocolError::MissingField(RequiredField::Severity))
            } else if last_value(fs, TAG_CODE) is None {
                Err(ProtocolError::MissingField(RequiredField::Code))
            } else if last_value(fs, TAG_MESSAGE) is None {
                Err(ProtocolError::MissingField(RequiredField::Message))
            } else {
                Ok(fs)
            }
        },
    }
}

pub open spec fn prepend(
    fs: Seq<(u8, Seq<char>)>,
    r: Result<Seq<(u8, Seq<char>)>, ProtocolError>,
) -> Result<Seq<(u8, Seq<char>)>, ProtocolError> {
    match r {
        Ok(rest) => Ok(fs + rest),
        Err(e) => Err(e),
    }
}

pub open spec fn opt_text(o: Option<String>) -> Option<Seq<char>> {
    match o {
        Some(s) => Some(s@),
        None => None,
    }
}

pub open spec fn opt_str(o: Option<&str>) -> Option<Seq<char>> {
    match o {
        Some(s) => Some(s@),
        None => None,
    }
}

pub open spec fn map_text(m: Map<u8, String>, tag: u8) -> Option<Seq<char>> {
    if m.contains_key(tag) {
        Some(m[tag]@)
    } else {
        None
    }
}

/// Relies on std::str::from_utf8: it succeeds exactly on valid UTF-8, and the
/// string slice it returns holds the given bytes.
#[verifier::external_body]
fn str_from_utf8(b: &[u8]) -> (r: Option<&str>)
    ensures
        r is Some <==> valid_utf8(b@),
        r matches Some(s) ==> s.spec_bytes() == b@,
{
    std::str::from_utf8(b).ok()
}

/// A decoded error or notice message.
#[derive(Debug)]
pub struct Response {
    severity: String,
    code: String,
    message: String,
    fields: BTreeMap<u8, String>,
}

impl Response {
    /// The text of the field with the given tag, the required ones included.
    pub closed spec fn field_view(&self, tag: u8) -> Option<Seq<char>> {
        if tag == TAG_SEVERITY {
            Some(self.severity@)
        } else if tag == TAG_CODE {
            Some(self.code@)
        } else if tag == TAG_MESSAGE {
            Some(self.message@)
        } else {
            map_text(self.fields@, tag)
        }
    }

    /// The severity text that `severity` interprets: the non-localized one
    /// where present, else the primary one.
    pub open spec fn severity_text(&self) -> Seq<char> {
        match self.field_view(TAG_SEVERITY_NONLOCALIZED) {
            Some(v) => v,
            None => self.field_view(TAG_SEVERITY)->Some_0,
        }
    }

    /// Interprets the severity; this is done on demand since the primary
    /// severity text may be localized.
    pub fn severity(&self) -> (r: Result<Severity, ProtocolError>)
        ensures
            severity_parsed(self.severity_text(), r),
    {
        match self.fields.get(&TAG_SEVERITY_NONLOCALIZED) {
            Some(v) => Severity::from_str(v.as_str()),
            None => Severity::from_str(self.severity.as_str()),
        }
    }

    /// The SQLSTATE code.
    pub fn code(&self) -> (r: &str)
        ensures
            self.field_view(TAG_CODE) == Some(r@),
    {
        self.code.as_str()
    }

    /// The primary message.
    pub fn message(&self) -> (r: &str)
        ensures
            self.field_view(TAG_MESSAGE) == Some(r@),
    {
        self.message.as_str()
    }

    /// The text of any field by its tag.
    pub fn field(&self, tag: u8) -> (r: Option<&str>)
        ensures
            opt_str(r) == self.field_view(tag),
    {
        if tag == TAG_SEVERITY {
            Some(self.severity.as_str())
        } else if tag == TAG_CODE {
            Some(self.code.as_str())
        } else if tag == TAG_MESSAGE {
            Some(self.message.as_str())
        } else {
            match self.fields.get(&tag) {
                Some(v) => Some(v.as_str()),
                None => None,
            }
        }
    }

    /// Decodes a message. Every field is kept, the last one of each tag
    /// winning; it fails where the bytes end early, a value is not UTF-8,
    /// or a required field is missing.
    pub fn read(buf: &[u8]) -> (r: Result<Response, ProtocolError>)
        ensures
            match read_outcome(buf@) {
                Err(e) => r == Err::<Response, ProtocolError>(e),
                Ok(fs) => r matches Ok(resp) && forall|t: u8| #[trigger]
                    resp.field_view(t) == last_value(fs, t),
            },
    {
        let mut pos: usize = 0;
        let mut severity: Option<String> = None;
        let mut code: Option<String> = None;
        let mut message: Option<String> = None;
        let mut other: BTreeMap<u8, String> = BTreeMap::new();
        let ghost mut fs: Seq<(u8, Seq<char>)> = Seq::empty();
        proof {
            assert(fs + parse_fields(buf@, 0)->Ok_0 =~= parse_fields(buf@, 0)->Ok_0);
        }
        loop
            invariant
                pos <= buf@.len(),
                prepend(fs, parse_fields(buf@, pos as int)) == parse_fields(buf@, 0),
                opt_text(severity) == last_value(fs, TAG_SEVERITY),
                opt_text(code) == last_value(fs, TAG_CODE),
                opt_text(message) == last_value(fs, TAG_MESSAGE),
                forall|t: u8|
                    t != TAG_SEVERITY && t != TAG_CODE && t != TAG_MESSAGE ==> #[trigger] map_text(
                        other@,
                        t,
                    ) == last_value(fs, t),
            decreases buf@.len() - pos,
        {
            if pos >= buf.len() {
                return Err(ProtocolError::UnexpectedEof);
            }
            let tag = buf[pos];
            if tag == 0 {
                proof {
                    assert(fs + Seq::<(u8, Seq<char>)>::empty() =~= fs);
                }
                let severity = match severity {
                    Some(s) => s,
                    None => return Err(ProtocolError::MissingField(RequiredField::Severity)),
                };
                let code = match code {
                    Some(s) => s,
                    None => return Err(ProtocolError::MissingField(RequiredField::Code)),
                };
                let message = match message {
                    Some(s) => s,
                    None => return Err(ProtocolError::MissingField(RequiredField::Message)),
                };
                let resp = Response { severity, code, message, fields: other };
                assert forall|t: u8| #[trigger] resp.field_view(t) == last_value(fs, t) by {
                    if t != TAG_SEVERITY && t != TAG_CODE && t != TAG_MESSAGE {
                        assert(map_text(other@, t) == last_value(fs, t));
                    }
                }
                return Ok(resp);
            }
            let start = pos + 1;
            let mut end = start;
            while end < buf.len() && buf[end] != 0
                invariant
                    start <= end <= buf@.len(),
                    nul_from(buf@, start as int) == nul_from(buf@, end as int),
                decreases buf@.len() - end,
            {
                end = end + 1;
            }
            if end >= buf.len() {
                return Err(ProtocolError::UnexpectedEof);
            }
            let raw = slice_subrange(buf, start, end);
            let text = match str_from_utf8(raw) {
                Some(s) => s,
                None => return Err(ProtocolError::InvalidUtf8),
            };
            let value = text.to_owned();
            let ghost entry = (tag, value@);
            proof {
                encode_utf8_decode_utf8(text@);
                assert(value@ == decode_utf8(raw@));
                let rest = parse_fields(buf@, end + 1);
                if rest is Ok {
                    assert(fs + (seq![entry] + rest->Ok_0) =~= fs.push(entry) + rest->Ok_0);
                }
                assert(fs.push(entry).drop_last() =~= fs);
            }
            let ghost old_other = other@;
            if tag == TAG_SEVERITY {
                severity = Some(value);
            } else if tag == TAG_CODE {
                code = Some(value);
            } else if tag == TAG_MESSAGE {
                message = Some(value);
            } else {
                other.insert(tag, value);
            }
            proof {
                assert forall|t: u8|
                    t != TAG_SEVERITY && t != TAG_CODE && t != TAG_MESSAGE implies #[trigger] map_text(
                        other@,
                        t,
                    ) == last_value(fs.push(entry), t) by {
                    assert(map_text(old_other, t) == last_value(fs, t));
                }
                fs = fs.push(entry);
            }
            pos = end + 1;
        }
    }
}


/// The tag of a required field.
pub open spec fn required_tag(f: RequiredField) -> u8 {
    match f {
        RequiredField::Severity => TAG_SEVERITY,
        RequiredField::Code => TAG_CODE,
        RequiredField::Message => TAG_MESSAGE,
    }
}

/// A message whose fields are well formed and include the three required
/// ones is read successfully, with every field as the last value given for
/// its tag.
pub proof fn lemma_well_formed_reads(buf: Seq<u8>)
    requires
        parse_fields(buf, 0) is Ok,
        last_value(parse_fields(buf, 0)->Ok_0, TAG_SEVERITY) is Some,
        last_value(parse_fields(buf, 0)->Ok_0, TAG_CODE) is Some,
        last_value(parse_fields(buf, 0)->Ok_0, TAG_MESSAGE) is Some,
    ensures
        read_outcome(buf) == parse_fields(buf, 0),
{
}

/// A well-formed message without one of the required fields is refused with
/// an error that names a required field that is missing.
pub proof fn lemma_missing_field_refused(buf: Seq<u8>, f: RequiredField)
    requires
        parse_fields(buf, 0) is Ok,
        last_value(parse_fields(buf, 0)->Ok_0, required_tag(f)) is None,
    ensures
        read_outcome(buf) matches Err(ProtocolError::MissingField(g)) && last_value(
            parse_fields(buf, 0)->Ok_0,
            required_tag(g),
        ) is None,
{
}

/// A text that is not one of the fixed severity names is refused; among the
/// names, exactly PANIC, FATAL and ERROR denote errors.
pub proof fn lemma_severity_classes(s: Seq<char>, r: Result<Severity, ProtocolError>)
    ensures
        severity_of(s) is None && severity_parsed(s, r) ==> r is Err,
        severity_of(s) matches Some(v) ==> (v.spec_is_error() <==> (s == "PANIC"@ || s
            == "FATAL"@ || s == "ERROR"@)),
{
    reveal_strlit("PANIC");
    reveal_strlit("FATAL");
    reveal_strlit("ERROR");
    reveal_strlit("WARNING");
    reveal_strlit("NOTICE");
    reveal_strlit("DEBUG");
    reveal_strlit("INFO");
    reveal_strlit("LOG");
}


/// The bytes of a message made of the given fields, each a tag and the bytes
/// of its value, closed by the zero tag.
pub open spec fn encode_fields(fs: Seq<(u8, Seq<u8>)>) -> Seq<u8>
    decreases fs.len(),
{
    if fs.len() == 0 {
        seq![0u8]
    } else {
        seq![fs[0].0] + fs[0].1 + seq![0u8] + encode_fields(fs.drop_first())
    }
}

/// A field that can stand in a message: a non-zero tag and a UTF-8 value
/// without NUL.
pub open spec fn field_well_formed(f: (u8, Seq<u8>)) -> bool {
    &&& f.0 != 0
    &&& valid_utf8(f.1)
    &&& forall|k: int| 0 <= k < f.1.len() ==> f.1[k] != 0
}

/// The fields with their values read as text.
pub open spec fn decoded_fields(fs: Seq<(u8, Seq<u8>)>) -> Seq<(u8, Seq<char>)> {
    fs.map_values(|f: (u8, Seq<u8>)| (f.0, decode_utf8(f.1)))
}

proof fn lemma_nul_at(buf: Seq<u8>, i: int, j: int)
    requires
        0 <= i <= j < buf.len(),
        buf[j] == 0,
        forall|k: int| i <= k < j ==> buf[k] != 0,
    ensures
        nul_from(buf, i) == Some(j),
    decreases j - i,
{
    if i < j {
        lemma_nul_at(buf, i + 1, j);
    }
}

proof fn lemma_parse_layout(buf: Seq<u8>, pos: int, fs: Seq<(u8, Seq<u8>)>)
    requires
        0 <= pos <= buf.len(),
        buf.subrange(pos, buf.len() as int) == encode_fields(fs),
        forall|i: int| 0 <= i < fs.len() ==> field_well_formed(#[trigger] fs[i]),
    ensures
        parse_fields(buf, pos) == Ok::<Seq<(u8, Seq<char>)>, ProtocolError>(decoded_fields(fs)),
    decreases fs.len(),
{
    let rest = buf.subrange(pos, buf.len() as int);
    if fs.len() == 0 {
        assert(rest[0] == buf[pos]);
        assert(decoded_fields(fs) =~= Seq::<(u8, Seq<char>)>::empty());
    } else {
        let f = fs[0];
        let v = f.1;
        let tail = encode_fields(fs.drop_first());
        let j = pos + 1 + v.len();
        assert(field_well_formed(fs[0]));
        assert(rest == seq![f.0] + v + seq![0u8] + tail);
        assert(rest.len() == v.len() + 2 + tail.len());
        assert(buf[pos] == f.0) by {
            assert(rest[0] == buf[pos]);
        }
        assert forall|k: int| pos + 1 <= k < j implies buf[k] != 0 by {
            assert(buf[k] == rest[k - pos]);
            assert(rest[k - pos] == v[k - pos - 1]);
        }
        assert(buf[j] == 0) by {
            assert(rest[j - pos] == buf[j]);
        }
        lemma_nul_at(buf, pos + 1, j);
        assert forall|k: int| 0 <= k < v.len() implies buf.subrange(pos + 1, j)[k] == v[k] by {
            assert(buf[pos + 1 + k] == rest[1 + k]);
        }
        assert(buf.subrange(pos + 1, j) =~= v);
        assert forall|k: int| 0 <= k < tail.len() implies buf.subrange(
            j + 1,
            buf.len() as int,
        )[k] == tail[k] by {
            assert(buf[j + 1 + k] == rest[v.len() + 2 + k]);
        }
        assert(buf.subrange(j + 1, buf.len() as int) =~= tail);
        assert forall|i: int| 0 <= i < fs.drop_first().len() implies field_well_formed(
            #[trigger] fs.drop_first()[i],
        ) by {
            assert(fs.drop_first()[i] == fs[i + 1]);
        }
        lemma_parse_layout(buf, j + 1, fs.drop_first());
        assert(decoded_fields(fs) =~= seq![(f.0, decode_utf8(v))] + decoded_fields(
            fs.drop_first(),
        ));
    }
}

proof fn lemma_last_value_at(fs: Seq<(u8, Seq<char>)>, k: int, t: u8)
    requires
        0 <= k < fs.len(),
        fs[k].0 == t,
        forall|i: int| k < i < fs.len() ==> fs[i].0 != t,
    ensures
        last_value(fs, t) == Some(fs[k].1),
    decreases fs.len(),
{
    if k < fs.len() - 1 {
        assert(fs.drop_last()[k] == fs[k]);
        lemma_last_value_at(fs.drop_last(), k, t);
    }
}

proof fn lemma_last_value_some(fs: Seq<(u8, Seq<char>)>, k: int, t: u8)
    requires
        0 <= k < fs.len(),
        fs[k].0 == t,
    ensures
        last_value(fs, t) is Some,
    decreases fs.len(),
{
    if fs.last().0 != t {
        assert(fs.drop_last()[k] == fs[k]);
        lemma_last_value_some(fs.drop_last(), k, t);
    }
}

/// A message laid out as well-formed fields, among them the three required
/// tags, is read successfully, and the field of each tag is the value of the
/// last field that carries it.
pub proof fn lemma_layout_reads(buf: Seq<u8>, fs: Seq<(u8, Seq<u8>)>)
    requires
        buf == encode_fields(fs),
        forall|i: int| 0 <= i < fs.len() ==> field_well_formed(#[trigger] fs[i]),
        exists|i: int| 0 <= i < fs.len() && #[trigger] fs[i].0 == TAG_SEVERITY,
        exists|i: int| 0 <= i < fs.len() && #[trigger] fs[i].0 == TAG_CODE,
        exists|i: int| 0 <= i < fs.len() && #[trigger] fs[i].0 == TAG_MESSAGE,
    ensures
        read_outcome(buf) == Ok::<Seq<(u8, Seq<char>)>, ProtocolError>(decoded_fields(fs)),
        forall|k: int|
            0 <= k < fs.len() && (forall|i: int| k < i < fs.len() ==> fs[i].0 != #[trigger] fs[k].0)
                ==> last_value(decoded_fields(fs), fs[k].0) == Some(decode_utf8(fs[k].1)),
{
    assert(buf.subrange(0, buf.len() as int) =~= buf);
    lemma_parse_layout(buf, 0, fs);
    let ds = decoded_fields(fs);
    let si = choose|i: int| 0 <= i < fs.len() && #[trigger] fs[i].0 == TAG_SEVERITY;
    let ci = choose|i: int| 0 <= i < fs.len() && #[trigger] fs[i].0 == TAG_CODE;
    let mi = choose|i: int| 0 <= i < fs.len() && #[trigger] fs[i].0 == TAG_MESSAGE;
    lemma_last_value_some(ds, si, TAG_SEVERITY);
    lemma_last_value_some(ds, ci, TAG_CODE);
    lemma_last_value_some(ds, mi, TAG_MESSAGE);
    assert forall|k: int|
        0 <= k < fs.len() && (forall|i: int| k < i < fs.len() ==> fs[i].0 != #[trigger] fs[k].0)
            implies last_value(ds, fs[k].0) == Some(decode_utf8(fs[k].1)) by {
        let t = fs[k].0;
        assert forall|i: int| k < i < ds.len() implies ds[i].0 != t by {
            assert(ds[i].0 == fs[i].0);
        }
        lemma_last_value_at(ds, k, t);
    }
}

} // verus!
