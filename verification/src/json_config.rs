use vstd::prelude::*;
use vstd::string::StringExecFns;

verus! {

/// Default maximum accepted payload size in bytes (2 MB).
pub const DEFAULT_LIMIT: usize = 2_097_152;

/// What the content-type gate reads of a declared media type: its top-level
/// type, its subtype, and its suffix (the part after `+`), if any.
/// `application/vnd.custom+json` has type `application`, subtype `vnd.custom`
/// and suffix `json`.
pub struct MimeType {
    pub type_: String,
    pub subtype: String,
    pub suffix: Option<String>,
}

/// A media type is JSON-shaped when its subtype or its suffix is exactly
/// `json`.
pub open spec fn spec_is_json_mime(m: MimeType) -> bool {
    m.subtype@ == "json"@ || (m.suffix matches Some(s) && s@ == "json"@)
}

impl MimeType {
    pub fn new(type_: String, subtype: String, suffix: Option<String>) -> (r: MimeType)
        ensures
            r.type_ == type_,
            r.subtype == subtype,
            r.suffix == suffix,
    {
        MimeType { type_, subtype, suffix }
    }

    pub fn is_json(&self) -> (r: bool)
        ensures
            r == spec_is_json_mime(*self),
    {
        let json = String::from_str("json");
        if self.subtype == json {
            return true;
        }
        match &self.suffix {
            Some(s) => *s == json,
            None => false,
        }
    }
}

/// A predicate over media types, supplied by the application to widen the
/// set of content types that may be decoded.
pub trait MimePredicate {
    fn accepts(&self, mime: &MimeType) -> bool;
}

/// Stands where no custom predicate is configured; accepts nothing.
pub struct NoPredicate;

impl MimePredicate for NoPredicate {
    fn accepts(&self, _mime: &MimeType) -> bool {
        false
    }
}

/// The content-type gate's decision, with the predicate's verdict (when one
/// was configured and consulted) taken as a given: a present media type
/// passes when it is JSON-shaped or the predicate accepted it; an absent one
/// passes exactly when no content-type header is required.
pub open spec fn spec_gate(
    mime: Option<MimeType>,
    predicate_verdict: Option<bool>,
    content_type_required: bool,
) -> bool {
    match mime {
        Some(m) => spec_is_json_mime(m) || predicate_verdict == Some(true),
        None => !content_type_required,
    }
}

/// Law: without a content-type header, a request is let through exactly
/// when the header is not required, whatever predicate may be configured.
pub proof fn lemma_gate_missing_header(predicate_verdict: Option<bool>, content_type_required: bool)
    ensures
        spec_gate(None, predicate_verdict, content_type_required) == !content_type_required,
{
}

/// Law: with a media type present and a predicate consulted, a request is
/// let through exactly when the media type is JSON-shaped or the predicate
/// returned true for it.
pub proof fn lemma_gate_predicate(m: MimeType, verdict: bool, content_type_required: bool)
    ensures
        spec_gate(Some(m), Some(verdict), content_type_required) == (spec_is_json_mime(m)
            || verdict),
{
}

/// Runs the content-type gate, run once before the body reader starts. The
/// predicate is consulted only for a present media type that is not
/// JSON-shaped; its verdict then decides.
pub fn content_type_ok<P: MimePredicate>(
    mime: Option<&MimeType>,
    predicate: Option<&P>,
    content_type_required: bool,
) -> (r: bool)
    ensures
        mime is None ==> r == !content_type_required,
        mime matches Some(m) && spec_is_json_mime(*m) ==> r,
        mime matches Some(m) && !spec_is_json_mime(*m) && predicate is None ==> !r,
{
    match mime {
        Some(m) => {
            if m.is_json() {
                true
            } else {
                match predicate {
                    Some(p) => p.accepts(m),
                    None => false,
                }
            }
        },
        None => !content_type_required,
    }
}

/// An ASCII decimal digit.
pub open spec fn spec_digit(c: u8) -> bool {
    48 <= c <= 57
}

pub open spec fn spec_all_digits(s: Seq<u8>) -> bool {
    forall|i: int| 0 <= i < s.len() ==> spec_digit(#[trigger] s[i])
}

/// The numeric value of a sequence of ASCII decimal digits.
pub open spec fn spec_digits_value(s: Seq<u8>) -> int
    decreases s.len(),
{
    if s.len() == 0 {
        0
    } else {
        spec_digits_value(s.drop_last()) * 10 + (s.last() - 48)
    }
}

/// The digit part of a length header value: an optional leading `+` is
/// stripped.
pub open spec fn spec_strip_plus(s: Seq<u8>) -> Seq<u8> {
    if s.len() > 0 && s[0] == 43 {
        s.drop_first()
    } else {
        s
    }
}

/// The declared length read from a `Content-Length` header value: an
/// optional leading `+` followed by at least one digit, whose value fits a
/// `usize`. Anything else (empty, other characters, too large) is no
/// declared length.
pub open spec fn spec_parse_content_length(s: Seq<u8>) -> Option<usize> {
    let digits = spec_strip_plus(s);
    if digits.len() > 0 && spec_all_digits(digits) && spec_digits_value(digits) <= usize::MAX {
        Some(spec_digits_value(digits) as usize)
    } else {
        None
    }
}

proof fn lemma_all_digits_take(s: Seq<u8>, i: int)
    requires
        spec_all_digits(s),
        0 <= i <= s.len(),
    ensures
        spec_all_digits(s.take(i)),
{
    assert forall|j: int| 0 <= j < s.take(i).len() implies spec_digit(#[trigger] s.take(i)[j]) by {
        assert(s.take(i)[j] == s[j]);
    }
}

proof fn lemma_all_digits_extend(s: Seq<u8>, i: int)
    requires
        0 <= i < s.len(),
        spec_all_digits(s.take(i)),
        spec_digit(s[i]),
    ensures
        spec_all_digits(s.take(i + 1)),
{
    assert forall|j: int| 0 <= j < s.take(i + 1).len() implies spec_digit(
        #[trigger] s.take(i + 1)[j],
    ) by {
        if j < i {
            assert(s.take(i + 1)[j] == s.take(i)[j]);
        } else {
            assert(s.take(i + 1)[j] == s[i]);
        }
    }
}

proof fn lemma_digits_value_nonneg(s: Seq<u8>)
    requires
        spec_all_digits(s),
    ensures
        spec_digits_value(s) >= 0,
    decreases s.len(),
{
    if s.len() > 0 {
        assert(s.drop_last() == s.take(s.len() - 1));
        lemma_all_digits_take(s, s.len() - 1);
        lemma_digits_value_nonneg(s.drop_last());
    }
}

/// The value of a digit string only grows as digits are appended.
proof fn lemma_digits_value_prefix_le(s: Seq<u8>, i: int)
    requires
        spec_all_digits(s),
        0 <= i <= s.len(),
    ensures
        spec_digits_value(s.take(i)) <= spec_digits_value(s),
    decreases s.len() - i,
{
    if i == s.len() {
        assert(s.take(i) =~= s);
    } else {
        assert(s.take(i + 1).drop_last() =~= s.take(i));
        assert(s.take(i + 1).last() == s[i]);
        lemma_all_digits_take(s, i);
        lemma_digits_value_nonneg(s.take(i));
        assert(spec_digits_value(s.take(i + 1)) == spec_digits_value(s.take(i)) * 10 + (s[i]
            - 48));
        lemma_digits_value_prefix_le(s, i + 1);
    }
}

/// Reads a declared body length from the raw bytes of a `Content-Length`
/// header value.
pub fn parse_content_length(s: &[u8]) -> (r: Option<usize>)
    ensures
        r == spec_parse_content_length(s@),
{
    let ghost digits: Seq<u8> = spec_strip_plus(s@);
    let start: usize = if s.len() > 0 && s[0] == 43 {
        1
    } else {
        0
    };
    proof {
        assert(digits.len() == s@.len() - start);
        assert(forall|j: int| 0 <= j < digits.len() ==> #[trigger] digits[j] == s@[j + start]);
    }
    if s.len() == start {
        return None;
    }
    let mut value: usize = 0;
    let mut i: usize = start;
    while i < s.len()
        invariant
            start <= i <= s@.len(),
            start <= 1,
            digits == spec_strip_plus(s@),
            digits.len() == s@.len() - start,
            forall|j: int| 0 <= j < digits.len() ==> #[trigger] digits[j] == s@[j + start],
            spec_all_digits(digits.take(i - start)),
            value == spec_digits_value(digits.take(i - start)),
        decreases s@.len() - i,
    {
        let c = s[i];
        if c < 48 || c > 57 {
            proof {
                assert(digits[i - start] == s@[i as int]);
                assert(!spec_digit(digits[i - start]));
                assert(!spec_all_digits(digits));
            }
            return None;
        }
        let d = (c - 48) as usize;
        proof {
            assert(digits.take(i - start + 1).drop_last() =~= digits.take(i - start));
            assert(digits.take(i - start + 1).last() == digits[i - start]);
            assert(digits[i - start] == s@[i as int]);
            assert(spec_digits_value(digits.take(i - start + 1)) == value * 10 + d);
            lemma_all_digits_extend(digits, i - start);
        }
        if value > (usize::MAX - d) / 10 {
            proof {
                assert(10 * ((usize::MAX - d) / 10) >= usize::MAX - d - 9);
                assert(value * 10 + d > usize::MAX);
                if spec_all_digits(digits) {
                    lemma_digits_value_prefix_le(digits, i - start + 1);
                    assert(spec_digits_value(digits) > usize::MAX);
                }
            }
            return None;
        }
        proof {
            assert(10 * ((usize::MAX - d) / 10) <= usize::MAX - d);
            assert(value * 10 + d <= usize::MAX);
        }
        value = value * 10 + d;
        i = i + 1;
    }
    proof {
        assert(digits.take(i - start) =~= digits);
    }
    Some(value)
}

/// Per-route decode configuration, immutable once resolved for a request:
/// the size limit, whether a content-type header must be present, and an
/// optional custom content-type predicate.
pub struct JsonConfig<P> {
    pub limit: usize,
    pub content_type_required: bool,
    pub content_type: Option<P>,
}

impl<P> JsonConfig<P> {
    /// Set maximum accepted payload size. By default this limit is 2MB.
    pub fn limit(self, limit: usize) -> (r: Self)
        ensures
            r.limit == limit,
            r.content_type_required == self.content_type_required,
            r.content_type == self.content_type,
    {
        JsonConfig { limit, content_type_required: self.content_type_required, content_type: self.content_type }
    }

    /// Set predicate for allowed content types.
    pub fn content_type<Q>(self, predicate: Q) -> (r: JsonConfig<Q>)
        ensures
            r.limit == self.limit,
            r.content_type_required == self.content_type_required,
            r.content_type == Some(predicate),
    {
        JsonConfig {
            limit: self.limit,
            content_type_required: self.content_type_required,
            content_type: Some(predicate),
        }
    }

    /// Sets whether or not the request must have a `Content-Type` header to
    /// be parsed.
    pub fn content_type_required(self, content_type_required: bool) -> (r: Self)
        ensures
            r.limit == self.limit,
            r.content_type_required == content_type_required,
            r.content_type == self.content_type,
    {
        JsonConfig { limit: self.limit, content_type_required, content_type: self.content_type }
    }
}

impl Default for JsonConfig<NoPredicate> {
    /// The process-wide fallback: 2MB limit, content-type header required,
    /// no custom predicate.
    fn default() -> (r: Self)
        ensures
            r.limit == DEFAULT_LIMIT,
            r.content_type_required == true,
            r.content_type is None,
    {
        JsonConfig { limit: DEFAULT_LIMIT, content_type_required: true, content_type: None }
    }
}

} // verus!
