//! Rendering path templates: values placed in the path are percent-encoded.

use crate::api::EncodeError;
use vstd::prelude::*;

verus! {

/// Whether a byte stands for itself in a path segment: ASCII letters, digits, `-`, `.`, `_`
/// and `~`.
pub open spec fn is_unreserved(b: u8) -> bool {
    (0x41 <= b <= 0x5a) || (0x61 <= b <= 0x7a) || (0x30 <= b <= 0x39) || b == 0x2d || b == 0x2e
        || b == 0x5f || b == 0x7e
}

/// The upper-case hexadecimal digit of a value below 16.
pub open spec fn hex_digit(d: u8) -> u8 {
    if d < 10 {
        (0x30 + d) as u8
    } else {
        (0x41 + d - 10) as u8
    }
}

/// The encoding of one byte: itself where unreserved, else `%` and two hexadecimal digits.
pub open spec fn encode_byte(b: u8) -> Seq<u8> {
    if is_unreserved(b) {
        seq![b]
    } else {
        seq![0x25u8, hex_digit(b / 16), hex_digit(b % 16)]
    }
}

/// The percent-encoding of a byte string, byte by byte.
pub open spec fn percent_encoded(s: Seq<u8>) -> Seq<u8>
    decreases s.len(),
{
    if s.len() == 0 {
        Seq::empty()
    } else {
        percent_encoded(s.drop_last()) + encode_byte(s.last())
    }
}

fn hex_digit_exec(d: u8) -> (r: u8)
    requires
        d < 16,
    ensures
        r == hex_digit(d),
{
    if d < 10 {
        0x30 + d
    } else {
        0x41 + d - 10
    }
}

/// Percent-encodes a value for use in a path.
pub fn percent_encode(s: &[u8]) -> (r: Vec<u8>)
    ensures
        r@ == percent_encoded(s@),
{
    let mut out: Vec<u8> = Vec::new();
    let mut i: usize = 0;
    while i < s.len()
        invariant
            i <= s@.len(),
            out@ == percent_encoded(s@.take(i as int)),
        decreases s@.len() - i,
    {
        let b = s[i];
        if (0x41 <= b && b <= 0x5a) || (0x61 <= b && b <= 0x7a) || (0x30 <= b && b <= 0x39)
            || b == 0x2d || b == 0x2e || b == 0x5f || b == 0x7e {
            out.push(b);
        } else {
            out.push(0x25);
            out.push(hex_digit_exec(b / 16));
            out.push(hex_digit_exec(b % 16));
        }
        proof {
            assert(s@.take(i + 1).drop_last() =~= s@.take(i as int));
        }
        i = i + 1;
    }
    proof {
        assert(s@.take(i as int) =~= s@);
    }
    out
}

/// One piece of a path template.
pub enum Segment {
    /// Text copied as it is.
    Literal(Vec<u8>),
    /// A `{name}` placeholder, holding the name.
    Placeholder(Vec<u8>),
}

/// The value of a path-placed field, by name.
pub struct PathField {
    /// The field's name, as in the template's placeholder.
    pub name: Vec<u8>,
    /// The field's value, before encoding.
    pub value: Vec<u8>,
}

/// The value of the first field named `name`, if any.
pub open spec fn lookup(fields: Seq<PathField>, name: Seq<u8>) -> Option<Seq<u8>>
    decreases fields.len(),
{
    if fields.len() == 0 {
        None
    } else if fields[0].name@ == name {
        Some(fields[0].value@)
    } else {
        lookup(fields.drop_first(), name)
    }
}

/// The rendered path: literals as they are and each placeholder replaced by the percent-encoded
/// value of its field; `None` where a placeholder's field is absent or empty.
pub open spec fn rendered(segs: Seq<Segment>, fields: Seq<PathField>) -> Option<Seq<u8>>
    decreases segs.len(),
{
    if segs.len() == 0 {
        Some(Seq::empty())
    } else {
        match rendered(segs.drop_last(), fields) {
            None => None,
            Some(p) => match segs.last() {
                Segment::Literal(l) => Some(p + l@),
                Segment::Placeholder(n) => match lookup(fields, n@) {
                    Some(v) if v.len() > 0 => Some(p + percent_encoded(v)),
                    _ => None,
                },
            },
        }
    }
}

fn bytes_eq(a: &Vec<u8>, b: &Vec<u8>) -> (r: bool)
    ensures
        r == (a@ == b@),
{
    if a.len() != b.len() {
        return false;
    }
    let mut i: usize = 0;
    while i < a.len()
        invariant
            a@.len() == b@.len(),
            i <= a@.len(),
            forall|k: int| 0 <= k < i ==> a@[k] == b@[k],
        decreases a@.len() - i,
    {
        if a[i] != b[i] {
            return false;
        }
        i = i + 1;
    }
    assert(a@ =~= b@);
    true
}

fn find_field<'a>(fields: &'a Vec<PathField>, name: &Vec<u8>) -> (r: Option<&'a Vec<u8>>)
    ensures
        r is Some ==> lookup(fields@, name@) == Some(r->0@),
        r is None ==> lookup(fields@, name@) is None,
{
    let mut j: usize = 0;
    assert(fields@.subrange(0, fields@.len() as int) =~= fields@);
    while j < fields.len()
        invariant
            j <= fields@.len(),
            lookup(fields@, name@) == lookup(fields@.subrange(j as int, fields@.len() as int), name@),
        decreases fields@.len() - j,
    {
        proof {
            assert(fields@.subrange(j as int, fields@.len() as int).drop_first() =~= fields@.subrange(
                j + 1,
                fields@.len() as int,
            ));
        }
        if bytes_eq(&fields[j].name, name) {
            return Some(&fields[j].value);
        }
        j = j + 1;
    }
    None
}

/// Renders a path template from the values of the path-placed fields: `MissingPathField` exactly
/// where a placeholder has no field or an empty one.
pub fn render_path(segs: &Vec<Segment>, fields: &Vec<PathField>) -> (r: Result<Vec<u8>, EncodeError>)
    ensures
        rendered(segs@, fields@) is Some ==> (r matches Ok(p) && Some(p@) == rendered(segs@, fields@)),
        rendered(segs@, fields@) is None ==> r == Err::<Vec<u8>, EncodeError>(EncodeError::MissingPathField),
{
    let mut out: Vec<u8> = Vec::new();
    let mut i: usize = 0;
    while i < segs.len()
        invariant
            i <= segs@.len(),
            rendered(segs@.take(i as int), fields@) == Some(out@),
        decreases segs@.len() - i,
    {
        proof {
            assert(segs@.take(i + 1).drop_last() =~= segs@.take(i as int));
            assert(segs@.take(i + 1).last() == segs@[i as int]);
        }
        match &segs[i] {
            Segment::Literal(l) => {
                out.extend_from_slice(l.as_slice());
            },
            Segment::Placeholder(n) => {
                match find_field(fields, n) {
                    Some(v) if v.len() > 0 => {
                        let enc = percent_encode(v.as_slice());
                        out.extend_from_slice(enc.as_slice());
                    },
                    _ => {
                        proof {
                            lemma_rendered_none_extends(segs@, fields@, i as int + 1);
                            assert(segs@.take(segs@.len() as int) =~= segs@);
                        }
                        return Err(EncodeError::MissingPathField);
                    },
                }
            },
        }
        i = i + 1;
    }
    proof {
        assert(segs@.take(i as int) =~= segs@);
    }
    Ok(out)
}

proof fn lemma_rendered_none_extends(segs: Seq<Segment>, fields: Seq<PathField>, k: int)
    requires
        0 <= k <= segs.len(),
        rendered(segs.take(k), fields) is None,
    ensures
        rendered(segs, fields) is None,
    decreases segs.len() - k,
{
    if k < segs.len() {
        assert(segs.take(k + 1).drop_last() =~= segs.take(k));
        lemma_rendered_none_extends(segs, fields, k + 1);
    } else {
        assert(segs.take(k) =~= segs);
    }
}

} // verus!
