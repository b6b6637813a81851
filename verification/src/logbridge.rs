//! The log bridge's data path: a structured log event arrives as an optional
//! explicit message plus a list of key/value fields, each already rendered to
//! bytes by the surrounding logging layer. The bridge composes one line from
//! them, maps the severity to a small signed code, and sanitizes the result
//! so it can be handed to the registered foreign callback.

use vstd::prelude::*;

use crate::text::clone_bytes;
use crate::text::sanitize_bytes;
use crate::text::strip_nulls;

verus! {

/// A log record's severity.
#[derive(Copy, Clone, PartialEq, Eq, Structural, Debug)]
pub enum LogLevel {
    Trace,
    Debug,
    Info,
    Warn,
    Error,
}

impl LogLevel {
    /// The signed code each severity is reported as across the boundary.
    pub open spec fn spec_code(self) -> i32 {
        match self {
            LogLevel::Trace => -1i32,
            LogLevel::Debug => 0i32,
            LogLevel::Info => 1i32,
            LogLevel::Warn => 2i32,
            LogLevel::Error => 3i32,
        }
    }

    pub fn code_value(self) -> (r: i32)
        ensures
            r == self.spec_code(),
    {
        match self {
            LogLevel::Trace => -1,
            LogLevel::Debug => 0,
            LogLevel::Info => 1,
            LogLevel::Warn => 2,
            LogLevel::Error => 3,
        }
    }
}

/// One non-message field of an event: its name and its rendered value.
pub struct LogField {
    pub key: Vec<u8>,
    pub value: Vec<u8>,
}

/// Mathematical model of a field.
#[verifier::ext_equal]
pub struct LogFieldView {
    pub key: Seq<u8>,
    pub value: Seq<u8>,
}

impl View for LogField {
    type V = LogFieldView;

    open spec fn view(&self) -> LogFieldView {
        LogFieldView { key: self.key@, value: self.value@ }
    }
}

/// What visiting an event's fields collects: the explicit message, if one was
/// seen, and every other field in the order visited.
pub struct LogVisitor {
    pub message: Option<Vec<u8>>,
    pub fields: Vec<LogField>,
}

/// Mathematical model of a visitor.
#[verifier::ext_equal]
pub struct LogVisitorView {
    pub message: Option<Seq<u8>>,
    pub fields: Seq<LogFieldView>,
}

impl View for LogVisitor {
    type V = LogVisitorView;

    open spec fn view(&self) -> LogVisitorView {
        LogVisitorView {
            message: match self.message {
                Some(ref m) => Some(m@),
                None => None,
            },
            fields: self.fields@.map_values(|f: LogField| f@),
        }
    }
}

/// The name that marks an event's explicit message field.
pub open spec fn message_key() -> Seq<u8> {
    seq!['m' as u8, 'e' as u8, 's' as u8, 's' as u8, 'a' as u8, 'g' as u8, 'e' as u8]
}

/// `s` with every leading double-quote byte removed.
pub open spec fn trim_leading_quotes(s: Seq<u8>) -> Seq<u8>
    decreases s.len(),
{
    if s.len() > 0 && s[0] == ('"' as u8) {
        trim_leading_quotes(s.drop_first())
    } else {
        s
    }
}

/// `s` with every trailing double-quote byte removed.
pub open spec fn trim_trailing_quotes(s: Seq<u8>) -> Seq<u8>
    decreases s.len(),
{
    if s.len() > 0 && s.last() == ('"' as u8) {
        trim_trailing_quotes(s.drop_last())
    } else {
        s
    }
}

/// `s` with the double quotes a debug rendering wraps a string in removed
/// from both ends.
pub open spec fn trim_quotes(s: Seq<u8>) -> Seq<u8> {
    trim_trailing_quotes(trim_leading_quotes(s))
}

/// A field rendered as `key=value`.
pub open spec fn kv_pair(f: LogFieldView) -> Seq<u8> {
    f.key + seq!['=' as u8] + f.value
}

/// The fields rendered as `key=value` pairs, space-joined in order.
pub open spec fn kv_join(fs: Seq<LogFieldView>) -> Seq<u8>
    decreases fs.len(),
{
    if fs.len() == 0 {
        Seq::empty()
    } else if fs.len() == 1 {
        kv_pair(fs[0])
    } else {
        kv_join(fs.drop_last()) + seq![' ' as u8] + kv_pair(fs.last())
    }
}

/// The line composed for an event: the explicit message if one was seen, with
/// the remaining fields' `key=value` rendering appended after a space when
/// there are any; with no explicit message, the fields' rendering alone; with
/// neither, the event's origin tag.
pub open spec fn composed_message(v: LogVisitorView, target: Seq<u8>) -> Seq<u8> {
    match v.message {
        Some(m) => if v.fields.len() == 0 {
            m
        } else {
            m + seq![' ' as u8] + kv_join(v.fields)
        },
        None => if v.fields.len() == 0 {
            target
        } else {
            kv_join(v.fields)
        },
    }
}

impl LogVisitor {
    /// A visitor that has seen nothing yet.
    pub fn new() -> (r: LogVisitor)
        ensures
            r@.message is None,
            r@.fields == Seq::<LogFieldView>::empty(),
    {
        let r = LogVisitor { message: None, fields: Vec::new() };
        proof {
            assert(r@.fields =~= Seq::<LogFieldView>::empty());
        }
        r
    }

    /// Records one rendered field: the field named `message` becomes the
    /// explicit message, with the quotes its debug rendering wraps it in
    /// trimmed away; any other field is kept as a `key=value` candidate.
    pub fn record_debug(&mut self, name: &[u8], rendered: Vec<u8>)
        ensures
            name@ == message_key() ==> final(self)@ == (LogVisitorView {
                message: Some(trim_quotes(rendered@)),
                fields: old(self)@.fields,
            }),
            name@ != message_key() ==> final(self)@ == (LogVisitorView {
                message: old(self)@.message,
                fields: old(self)@.fields.push(
                    LogFieldView { key: name@, value: rendered@ },
                ),
            }),
    {
        let key_bytes: Vec<u8> = message_key_bytes();
        if crate::text::bytes_eq(name, key_bytes.as_slice()) {
            self.message = Some(trim_quotes_bytes(rendered));
            proof {
                assert(self@ =~= (LogVisitorView {
                    message: Some(trim_quotes(rendered@)),
                    fields: old(self)@.fields,
                }));
            }
        } else {
            let field = LogField { key: vstd::slice::slice_to_vec(name), value: rendered };
            let ghost fv = field@;
            self.fields.push(field);
            proof {
                assert(fv =~= (LogFieldView { key: name@, value: fv.value }));
                assert(self@.fields =~= old(self)@.fields.push(fv));
                assert(self@ =~= (LogVisitorView {
                    message: old(self)@.message,
                    fields: old(self)@.fields.push(fv),
                }));
            }
        }
    }
}

/// The bytes of the message field's name.
fn message_key_bytes() -> (r: Vec<u8>)
    ensures
        r@ == message_key(),
{
    let mut v: Vec<u8> = Vec::new();
    v.push('m' as u8);
    v.push('e' as u8);
    v.push('s' as u8);
    v.push('s' as u8);
    v.push('a' as u8);
    v.push('g' as u8);
    v.push('e' as u8);
    proof {
        assert(v@ =~= message_key());
    }
    v
}

/// Removes the double quotes a debug rendering wraps a string in from both
/// ends of `v`.
pub fn trim_quotes_bytes(v: Vec<u8>) -> (r: Vec<u8>)
    ensures
        r@ == trim_quotes(v@),
{
    let ghost s = v@;
    let mut start: usize = 0;
    proof {
        assert(s.skip(0) =~= s);
    }
    while start < v.len() && v[start] == ('"' as u8)
        invariant
            start <= v.len(),
            s == v@,
            trim_leading_quotes(s) == trim_leading_quotes(s.skip(start as int)),
        decreases v.len() - start,
    {
        proof {
            assert(s.skip(start as int)[0] == s[start as int]);
            assert(s.skip(start as int).drop_first() =~= s.skip(start + 1));
        }
        start = start + 1;
    }
    proof {
        if start < s.len() {
            assert(s.skip(start as int)[0] == s[start as int]);
            assert(trim_leading_quotes(s.skip(start as int)) == s.skip(start as int));
        } else {
            assert(s.skip(start as int) =~= Seq::<u8>::empty());
            assert(trim_leading_quotes(s.skip(start as int)) =~= s.skip(start as int));
        }
    }
    let ghost lead = s.skip(start as int);
    let mut end: usize = v.len();
    while end > start && v[end - 1] == ('"' as u8)
        invariant
            start <= end <= v.len(),
            s == v@,
            lead == s.skip(start as int),
            trim_leading_quotes(s) == lead,
            trim_trailing_quotes(lead) == trim_trailing_quotes(s.subrange(
                start as int,
                end as int,
            )),
        decreases end,
    {
        proof {
            let cur = s.subrange(start as int, end as int);
            assert(cur.last() == s[end - 1]);
            assert(cur.drop_last() =~= s.subrange(start as int, end - 1));
        }
        end = end - 1;
    }
    proof {
        let cur = s.subrange(start as int, end as int);
        if end > start {
            assert(cur.last() == s[end - 1]);
            assert(trim_trailing_quotes(cur) == cur);
        } else {
            assert(cur =~= Seq::<u8>::empty());
            assert(trim_trailing_quotes(cur) == cur);
        }
        assert(lead =~= s.subrange(start as int, s.len() as int));
    }
    let sl = vstd::slice::slice_subrange(v.as_slice(), start, end);
    let r = vstd::slice::slice_to_vec(sl);
    proof {
        assert(r@ == trim_quotes(s));
    }
    r
}

/// Appends `src` to `dst`, leaving `src` as it was.
fn append_bytes(dst: &mut Vec<u8>, src: &Vec<u8>)
    ensures
        final(dst)@ == old(dst)@ + src@,
{
    let mut i: usize = 0;
    while i < src.len()
        invariant
            i <= src.len(),
            dst@ == old(dst)@ + src@.take(i as int),
        decreases src.len() - i,
    {
        dst.push(src[i]);
        proof {
            assert(old(dst)@ + src@.take(i + 1) =~= (old(dst)@ + src@.take(i as int)).push(
                src@[i as int],
            ));
        }
        i = i + 1;
    }
    proof {
        assert(src@.take(src@.len() as int) =~= src@);
    }
}

/// Composes the line for one event from what the visitor collected and the
/// event's origin tag.
pub fn compose_log_message(visitor: &LogVisitor, target: &Vec<u8>) -> (r: Vec<u8>)
    ensures
        r@ == composed_message(visitor@, target@),
{
    let ghost fs = visitor@.fields;
    let mut joined: Vec<u8> = Vec::new();
    let mut i: usize = 0;
    proof {
        assert(joined@ =~= kv_join(fs.take(0)));
        assert(fs.take(0) =~= Seq::<LogFieldView>::empty());
    }
    while i < visitor.fields.len()
        invariant
            i <= visitor.fields.len(),
            fs == visitor@.fields,
            fs.len() == visitor.fields@.len(),
            forall|j: int| 0 <= j < fs.len() ==> fs[j] == visitor.fields@[j]@,
            joined@ == kv_join(fs.take(i as int)),
        decreases visitor.fields.len() - i,
    {
        if i > 0 {
            joined.push(' ' as u8);
        }
        let field = &visitor.fields[i];
        append_bytes(&mut joined, &field.key);
        joined.push('=' as u8);
        append_bytes(&mut joined, &field.value);
        proof {
            let prev = fs.take(i as int);
            let next = fs.take(i + 1);
            assert(next.drop_last() =~= prev);
            assert(next.last() == fs[i as int]);
            if i == 0 {
                assert(next.len() == 1);
                assert(kv_join(next) == kv_pair(fs[0]));
                assert(joined@ =~= kv_pair(fs[0]));
            } else {
                assert(kv_join(next) == kv_join(prev) + seq![' ' as u8] + kv_pair(
                    fs[i as int],
                ));
                assert(joined@ =~= kv_join(prev) + seq![' ' as u8] + kv_pair(fs[i as int]));
            }
        }
        i = i + 1;
    }
    proof {
        assert(fs.take(fs.len() as int) =~= fs);
    }
    match &visitor.message {
        Some(m) => {
            if visitor.fields.len() == 0 {
                clone_bytes(m)
            } else {
                let mut r = clone_bytes(m);
                r.push(' ' as u8);
                append_bytes(&mut r, &joined);
                proof {
                    assert(r@ =~= m@ + seq![' ' as u8] + kv_join(fs));
                }
                r
            }
        },
        None => {
            if visitor.fields.len() == 0 {
                clone_bytes(target)
            } else {
                joined
            }
        },
    }
}

/// The payload delivered to a registered callback for one event: the
/// severity's signed code, and the composed line with every embedded null
/// byte removed so it can travel as a C-style string.
pub fn log_payload(level: LogLevel, message: &Vec<u8>) -> (r: (i32, Vec<u8>))
    ensures
        r.0 == level.spec_code(),
        r.1@ == strip_nulls(message@),
        forall|i: int| 0 <= i < r.1@.len() ==> r.1@[i] != 0u8,
{
    (level.code_value(), sanitize_bytes(message))
}

} // verus!
