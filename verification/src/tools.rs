//! What the agent's tools share: the bound on how much output a tool hands back.

pub mod shell;
pub mod transcribe_audio;

use vstd::prelude::*;
use vstd::string::{StringExecFns, StringSliceAdditionalSpecFns};
use vstd::utf8::{
    decode_utf8, decode_utf8_encode_utf8, decode_utf8_split, encode_utf8, encode_utf8_decode_utf8,
    encode_utf8_valid_utf8, is_char_boundary, valid_utf8, valid_utf8_split,
};

verus! {

/// The type of a tool's parameter.
#[derive(Clone, Copy, Debug, PartialEq, Eq, Structural)]
pub enum ParameterKind {
    Text,
    Integer,
}

/// One parameter of a tool, as the tool announces it to the model.
#[derive(Debug)]
pub struct ToolParameter {
    pub name: &'static str,
    pub kind: ParameterKind,
    pub description: &'static str,
    /// A call must give it.
    pub required: bool,
    /// The least value, of an integer that has one.
    pub minimum: Option<u64>,
    /// The greatest value, of an integer that has one.
    pub maximum: Option<u64>,
    /// The value of a call that gives none, of an integer that has one.
    pub default: Option<u64>,
}

/// The most bytes of one output stream that a tool hands back.
pub const MAX_TOOL_OUTPUT_BYTES: usize = 50_000;

/// What is put behind an output that was cut short.
pub const TRUNCATION_MARKER: &'static str = "\n... [output truncated]";

/// The last character boundary of `bytes` at or before `max`.
pub open spec fn cut_point(bytes: Seq<u8>, max: int) -> int
    decreases max,
{
    if max <= 0 {
        0
    } else if is_char_boundary(bytes, max) {
        max
    } else {
        cut_point(bytes, max - 1)
    }
}

/// The characters of `value` that lie wholly within its first `max` bytes.
pub open spec fn kept_prefix(value: Seq<char>, max: int) -> Seq<char> {
    let bytes = encode_utf8(value);
    decode_utf8(bytes.subrange(0, cut_point(bytes, max)))
}

/// `value` bounded to `max` bytes: unchanged where it fits, else the
/// characters that fit, followed by the marker.
pub open spec fn truncated(value: Seq<char>, max: int) -> Seq<char> {
    if encode_utf8(value).len() <= max {
        value
    } else {
        kept_prefix(value, max) + TRUNCATION_MARKER@
    }
}

/// Encoding a concatenation gives the concatenation of the encodings.
pub proof fn lemma_encode_concat(a: Seq<char>, b: Seq<char>)
    ensures
        encode_utf8(a + b) == encode_utf8(a) + encode_utf8(b),
    decreases a.len(),
{
    if a.len() == 0 {
        assert(a + b =~= b);
        assert(encode_utf8(a) + encode_utf8(b) =~= encode_utf8(b));
    } else {
        assert((a + b).drop_first() =~= a.drop_first() + b);
        lemma_encode_concat(a.drop_first(), b);
        assert(encode_utf8(a + b) =~= encode_utf8(a) + encode_utf8(b));
    }
}

/// `cut_point` is a character boundary within `0..=max`, and no boundary lies
/// between it and `max`.
pub proof fn lemma_cut_point(bytes: Seq<u8>, max: int)
    requires
        valid_utf8(bytes),
        0 <= max,
    ensures
        0 <= cut_point(bytes, max) <= max,
        is_char_boundary(bytes, cut_point(bytes, max)),
        forall|j: int| cut_point(bytes, max) < j <= max ==> !is_char_boundary(bytes, j),
    decreases max,
{
    if max > 0 && !is_char_boundary(bytes, max) {
        lemma_cut_point(bytes, max - 1);
    }
}

/// What `truncated` keeps of a value that does not fit is a prefix of it, and
/// takes no more than `max` bytes.
pub proof fn law_kept_prefix(value: Seq<char>, max: int)
    requires
        0 <= max < encode_utf8(value).len(),
    ensures
        kept_prefix(value, max).is_prefix_of(value),
        encode_utf8(kept_prefix(value, max)).len() <= max,
{
    let bytes = encode_utf8(value);
    encode_utf8_valid_utf8(value);
    lemma_cut_point(bytes, max);
    let cut = cut_point(bytes, max);
    valid_utf8_split(bytes, cut);
    decode_utf8_split(bytes, cut);
    encode_utf8_decode_utf8(value);
    decode_utf8_encode_utf8(bytes.subrange(0, cut));
    let head = decode_utf8(bytes.subrange(0, cut));
    let tail = decode_utf8(bytes.subrange(cut, bytes.len() as int));
    assert(value =~= head + tail);
    assert(head =~= value.subrange(0, head.len() as int));
}

/// A bounded value takes no more bytes than the bound and the marker together.
pub proof fn law_truncated_is_bounded(value: Seq<char>, max: int)
    requires
        0 <= max,
    ensures
        encode_utf8(truncated(value, max)).len() <= max + encode_utf8(TRUNCATION_MARKER@).len(),
{
    if encode_utf8(value).len() > max {
        law_kept_prefix(value, max);
        lemma_encode_concat(kept_prefix(value, max), TRUNCATION_MARKER@);
    }
}

/// A value that fits within the bound is handed back as it is, unmarked.
pub proof fn law_fitting_value_is_kept(value: Seq<char>, max: int)
    requires
        encode_utf8(value).len() <= max,
    ensures
        truncated(value, max) == value,
{
}

/// Bounds `value` to `max_bytes` bytes, cutting at a character boundary and
/// marking the cut.
pub fn truncate_output(value: &str, max_bytes: usize) -> (out: String)
    ensures
        out@ == truncated(value@, max_bytes as int),
        encode_utf8(out@).len() <= max_bytes + encode_utf8(TRUNCATION_MARKER@).len(),
{
    proof {
        law_truncated_is_bounded(value@, max_bytes as int);
        encode_utf8_valid_utf8(value@);
    }
    if value.as_bytes().len() <= max_bytes {
        return String::from_str(value);
    }
    let mut end: usize = max_bytes;
    while end > 0 && !value.is_char_boundary(end)
        invariant
            end <= max_bytes,
            cut_point(value.spec_bytes(), max_bytes as int) == cut_point(
                value.spec_bytes(),
                end as int,
            ),
        decreases end,
    {
        end -= 1;
    }
    let (head, _) = value.split_at(end);
    proof {
        let bytes = value.spec_bytes();
        assert(head.spec_bytes() == bytes.subrange(0, end as int));
        encode_utf8_decode_utf8(head@);
        assert(head@ == kept_prefix(value@, max_bytes as int));
    }
    let mut out = String::from_str(head);
    out.append(TRUNCATION_MARKER);
    out
}

} // verus!
