use vstd::prelude::*;

use crate::json::{
    lossy_utf8, object_array_parse, object_parse, parse_object, parse_object_array, utf8_lossy,
};

verus! {

/// The shape a payload was classified into: opaque text, one JSON object,
/// or a JSON array of objects. Exactly one variant is active; a value is
/// produced fresh per incoming message and never mutated afterwards.
pub enum ClassifiedValue {
    Text(String),
    Object(serde_json::Map<String, serde_json::Value>),
    ObjectArray(Vec<serde_json::Map<String, serde_json::Value>>),
}

/// The mathematical shape of a `ClassifiedValue`: text as a sequence of
/// characters, object arrays as a sequence of objects.
pub enum ClassifiedView {
    Text(Seq<char>),
    Object(serde_json::Map<String, serde_json::Value>),
    ObjectArray(Seq<serde_json::Map<String, serde_json::Value>>),
}

impl View for ClassifiedValue {
    type V = ClassifiedView;

    open spec fn view(&self) -> ClassifiedView {
        match self {
            ClassifiedValue::Text(s) => ClassifiedView::Text(s@),
            ClassifiedValue::Object(m) => ClassifiedView::Object(*m),
            ClassifiedValue::ObjectArray(a) => ClassifiedView::ObjectArray(a@),
        }
    }
}

/// JSON's whitespace characters, the ones a JSON parser skips before the
/// first token.
pub open spec fn is_json_ws(c: char) -> bool {
    c == ' ' || c == '\t' || c == '\n' || c == '\r'
}

/// The first character of `t` that is not JSON whitespace, if any.
pub open spec fn first_non_ws(t: Seq<char>) -> Option<char>
    decreases t.len(),
{
    if t.len() == 0 {
        None
    } else if is_json_ws(t[0]) {
        first_non_ws(t.drop_first())
    } else {
        Some(t[0])
    }
}

/// The cheap structural sniff that picks the array branch: the first
/// non-whitespace character is an opening bracket.
pub open spec fn sniffs_array(t: Seq<char>) -> bool {
    first_non_ws(t) == Some('[')
}

/// What `classify` returns for a payload: decode the bytes leniently; if
/// the text sniffs as an array, the only parse tried is array-of-objects;
/// otherwise the only parse tried is single-object; any failure degrades to
/// the decoded text.
pub open spec fn spec_classify(b: Seq<u8>) -> ClassifiedView {
    let t = lossy_utf8(b);
    if sniffs_array(t) {
        match object_array_parse(t) {
            Some(items) => ClassifiedView::ObjectArray(items),
            None => ClassifiedView::Text(t),
        }
    } else {
        match object_parse(t) {
            Some(obj) => ClassifiedView::Object(obj),
            None => ClassifiedView::Text(t),
        }
    }
}

proof fn lemma_first_non_ws_skip(t: Seq<char>, i: int)
    requires
        0 <= i <= t.len(),
        forall|j: int| 0 <= j < i ==> is_json_ws(t[j]),
    ensures
        first_non_ws(t.skip(i)) == first_non_ws(t),
    decreases i,
{
    if i > 0 {
        assert(is_json_ws(t[0]));
        lemma_first_non_ws_skip(t.drop_first(), i - 1);
        assert(t.skip(i) =~= t.drop_first().skip(i - 1));
    } else {
        assert(t.skip(0) =~= t);
    }
}

/// Whether the first non-whitespace character of `t` is `[`.
fn sniff_array(t: &str) -> (r: bool)
    ensures
        r == sniffs_array(t@),
{
    let n = t.unicode_len();
    let mut i: usize = 0;
    while i < n
        invariant
            n == t@.len(),
            i <= n,
            forall|j: int| 0 <= j < i ==> is_json_ws(t@[j]),
        decreases n - i,
    {
        let c = t.get_char(i);
        if !(c == ' ' || c == '\t' || c == '\n' || c == '\r') {
            proof {
                lemma_first_non_ws_skip(t@, i as int);
                assert(t@.skip(i as int)[0] == c);
            }
            return c == '[';
        }
        i += 1;
    }
    proof {
        lemma_first_non_ws_skip(t@, n as int);
        assert(t@.skip(n as int) =~= Seq::<char>::empty());
    }
    false
}

/// Turn a raw payload into its classified shape. Deterministic and total:
/// whatever fails to parse comes back as the decoded text.
pub fn classify(raw: &[u8]) -> (r: ClassifiedValue)
    ensures
        r@ == spec_classify(raw@),
        raw@.len() == 0 ==> r@ == ClassifiedView::Text(Seq::<char>::empty()),
{
    let text = utf8_lossy(raw);
    proof {
        if raw@.len() == 0 {
            assert(text@ =~= Seq::<char>::empty());
        }
    }
    if sniff_array(text.as_str()) {
        match parse_object_array(text.as_str()) {
            Some(items) => ClassifiedValue::ObjectArray(items),
            None => ClassifiedValue::Text(text),
        }
    } else {
        match parse_object(text.as_str()) {
            Some(obj) => ClassifiedValue::Object(obj),
            None => ClassifiedValue::Text(text),
        }
    }
}

/// A payload whose decoded text is a JSON array of objects is classified
/// as `ObjectArray` of exactly that parse, elements in array order. The
/// second hypothesis is the structural sniff, which every JSON array
/// satisfies: its first non-whitespace character is the bracket.
pub proof fn lemma_classify_object_array(b: Seq<u8>)
    requires
        object_array_parse(lossy_utf8(b)) is Some,
        sniffs_array(lossy_utf8(b)),
    ensures
        spec_classify(b) == ClassifiedView::ObjectArray(
            object_array_parse(lossy_utf8(b)).unwrap(),
        ),
{
}

/// A payload whose decoded text is one JSON object is classified as
/// `Object` of exactly that parse. The second hypothesis rules out the
/// array branch, which every JSON object satisfies: its first
/// non-whitespace character is the brace, not the bracket.
pub proof fn lemma_classify_object(b: Seq<u8>)
    requires
        object_parse(lossy_utf8(b)) is Some,
        !sniffs_array(lossy_utf8(b)),
    ensures
        spec_classify(b) == ClassifiedView::Object(object_parse(lossy_utf8(b)).unwrap()),
{
}

/// Any payload whose decoded text parses neither way is classified as
/// `Text` of the decoded text itself: classification never fails, it
/// degrades. Only the parse matching the sniffed branch is ever tried.
pub proof fn lemma_classify_text(b: Seq<u8>)
    requires
        sniffs_array(lossy_utf8(b)) ==> object_array_parse(lossy_utf8(b)) is None,
        !sniffs_array(lossy_utf8(b)) ==> object_parse(lossy_utf8(b)) is None,
    ensures
        spec_classify(b) == ClassifiedView::Text(lossy_utf8(b)),
{
}

} // verus!
