use vstd::prelude::*;
use vstd::string::StringSliceAdditionalSpecFns;
use vstd::utf8::{decode_utf8, encode_utf8, is_char_boundary};

use crate::span::Span;

verus! {

broadcast use {
    vstd::utf8::encode_utf8_valid_utf8,
    vstd::utf8::encode_utf8_decode_utf8,
    vstd::utf8::is_char_boundary_start_end_of_seq,
};

/// The text of one source file.
#[derive(Debug)]
pub struct Source {
    /// The text.
    pub text: String,
}

/// An error met while reading a name token out of its source.
#[derive(Clone, Copy, Debug, PartialEq, Eq, Structural)]
pub enum ParseError {
    /// The span does not cut the source at character boundaries within its length.
    BadSlice {
        /// The span that could not be cut out.
        span: Span,
    },
}

/// Whether `span` cuts the UTF-8 bytes `b` at two character boundaries, in order.
pub open spec fn valid_slice(b: Seq<u8>, span: Span) -> bool {
    &&& span.start <= span.end
    &&& span.end <= b.len()
    &&& is_char_boundary(b, span.start as int)
    &&& is_char_boundary(b, span.end as int)
}

/// The characters that `span` covers in `text`, where it cuts the text cleanly.
pub open spec fn slice_of(text: Seq<char>, span: Span) -> Option<Seq<char>> {
    let b = encode_utf8(text);
    if valid_slice(b, span) {
        Some(decode_utf8(b.subrange(span.start as int, span.end as int)))
    } else {
        None
    }
}

/// The name that a token at `span` spells in `text`, or the error for a span that does not fit.
pub open spec fn name_at(text: Seq<char>, span: Span) -> Result<Seq<char>, ParseError> {
    match slice_of(text, span) {
        Some(s) => Ok(s),
        None => Err(ParseError::BadSlice { span }),
    }
}

proof fn lemma_boundary_in_tail(b: Seq<u8>, start: int, end: int)
    requires
        vstd::utf8::valid_utf8(b),
        0 <= start <= end <= b.len(),
        is_char_boundary(b, start),
        is_char_boundary(b, end),
    ensures
        vstd::utf8::valid_utf8(b.subrange(start, b.len() as int)),
        is_char_boundary(b.subrange(start, b.len() as int), end - start),
{
    let tail = b.subrange(start, b.len() as int);
    vstd::utf8::valid_utf8_split(b, start);
    if end < b.len() {
        vstd::utf8::is_char_boundary_iff_not_is_continuation_byte(b, end);
        vstd::utf8::is_char_boundary_iff_not_is_continuation_byte(tail, end - start);
    } else {
        vstd::utf8::is_char_boundary_start_end_of_seq(tail);
    }
}

impl Source {
    /// A source holding `text`.
    pub fn new(text: String) -> (r: Source)
        ensures
            r.text@ == text@,
    {
        Source { text }
    }

    /// The text that `span` covers, where it cuts the text at character boundaries.
    pub fn source(&self, span: Span) -> (r: Option<&str>)
        ensures
            match slice_of(self.text@, span) {
                Some(s) => r is Some && r->0@ == s,
                None => r is None,
            },
    {
        let s = self.text.as_str();
        let ghost b = s.spec_bytes();
        assert(b == encode_utf8(self.text@));
        let len = s.as_bytes().len();
        if span.start <= span.end && span.end <= len && s.is_char_boundary(span.start)
            && s.is_char_boundary(span.end) {
            let (_, tail) = s.split_at(span.start);
            proof {
                lemma_boundary_in_tail(b, span.start as int, span.end as int);
            }
            let (mid, _) = tail.split_at(span.end - span.start);
            proof {
                let t = b.subrange(span.start as int, b.len() as int);
                assert(mid.spec_bytes() =~= b.subrange(span.start as int, span.end as int));
                vstd::utf8::valid_utf8_split(t, span.end - span.start);
                assert(t.subrange(0, span.end - span.start) =~= b.subrange(
                    span.start as int,
                    span.end as int,
                ));
                vstd::utf8::decode_utf8_encode_utf8(mid.spec_bytes());
                assert(decode_utf8(mid.spec_bytes()) == mid@);
                assert(valid_slice(b, span));
                assert(slice_of(self.text@, span) == Some(mid@));
            }
            Some(mid)
        } else {
            assert(slice_of(self.text@, span) is None);
            None
        }
    }
}

} // verus!
