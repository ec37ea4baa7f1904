use vstd::prelude::*;

verus! {

/// What the standard formatting machinery renders as the placeholder line
/// for an erased key: a function of the label, the tag and the payload
/// length alone.
pub uninterp spec fn rendered(label: Seq<char>, tag: u64, len: int) -> Seq<char>;

/// Relies on the std `format!` macro: renders the generic placeholder for
/// an erased key, naming the label, the type tag and the payload size.
#[verifier::external_body]
pub(crate) fn render_key(label: &str, tag: u64, len: usize) -> (r: String)
    ensures
        r@ == rendered(label@, tag, len as int),
{
    format!("{}(tag={}, {} bytes)", label, tag, len)
}

} // verus!
