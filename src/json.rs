//! JSON text of individual string values, as written by `serde_json`.

use vstd::prelude::*;

verus! {

/// The compact JSON text of a string value: the string between double
/// quotes, with quotes, backslashes and control characters escaped.
pub uninterp spec fn json_string_text(s: Seq<char>) -> Seq<char>;

/// Relies on serde_json's `Display` for `Value`: a string value is written
/// as one JSON string literal, which depends on the characters alone.
#[verifier::external_body]
pub(crate) fn quote_json(s: &str) -> (r: String)
    ensures
        r@ == json_string_text(s@),
{
    serde_json::Value::String(s.to_string()).to_string()
}

/// The JSON array of the given strings, without the brackets.
pub open spec fn json_items(xs: Seq<&'static str>) -> Seq<char>
    decreases xs.len(),
{
    if xs.len() == 0 {
        Seq::empty()
    } else if xs.len() == 1 {
        json_string_text(xs[0]@)
    } else {
        json_items(xs.drop_last()) + ","@ + json_string_text(xs.last()@)
    }
}

/// The compact JSON array of the given strings.
pub open spec fn json_array(xs: Seq<&'static str>) -> Seq<char> {
    "["@ + json_items(xs) + "]"@
}

/// Appends the JSON array of `xs` to `out`.
pub(crate) fn append_json_array(out: &mut String, xs: &Vec<&'static str>)
    ensures
        final(out)@ == old(out)@ + json_array(xs@),
{
    out.append("[");
    let ghost start = old(out)@ + "["@;
    let mut i: usize = 0;
    while i < xs.len()
        invariant
            i <= xs@.len(),
            out@ == start + json_items(xs@.take(i as int)),
        decreases xs@.len() - i,
    {
        assert(xs@.take(i + 1).drop_last() == xs@.take(i as int));
        if i > 0 {
            out.append(",");
        }
        let q = quote_json(xs[i]);
        out.append(q.as_str());
        i = i + 1;
    }
    assert(xs@.take(xs@.len() as int) == xs@);
    out.append("]");
}

} // verus!
