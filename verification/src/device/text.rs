//! Short texts.
use vstd::prelude::*;
use vstd::string::*;

verus! {

#[verifier::external_type_specification]
#[verifier::external_body]
pub struct ExHeaplessString<const N: usize>(heapless::String<N>);

/// The characters of a text.
pub uninterp spec fn hstring_text(s: heapless::String<20>) -> Seq<char>;

/// `heapless::String::new`: a text without characters.
#[verifier::external_body]
pub(crate) fn hstring_new() -> (s: heapless::String<20>)
    ensures
        hstring_text(s) == Seq::<char>::empty(),
{
    heapless::String::new()
}

/// `heapless::String::push_str`: the characters are appended, unless that were more than twenty
/// bytes of UTF-8, which is reported and leaves the text as it is.
#[verifier::external_body]
pub(crate) fn hstring_push_str(s: &mut heapless::String<20>, text: &str) -> (stored: bool)
    ensures
        stored <==> vstd::utf8::encode_utf8(hstring_text(*old(s))).len() + vstd::utf8::encode_utf8(
            text@,
        ).len() <= 20,
        stored ==> hstring_text(*final(s)) == hstring_text(*old(s)) + text@,
        !stored ==> hstring_text(*final(s)) == hstring_text(*old(s)),
{
    s.push_str(text).is_ok()
}

/// `heapless::String::as_str`: the same characters.
#[verifier::external_body]
pub(crate) fn hstring_as_str(s: &heapless::String<20>) -> (r: &str)
    ensures
        r@ == hstring_text(*s),
{
    s.as_str()
}

/// `core::str::from_utf8`: the text that bytes encode, if they are valid UTF-8.
#[verifier::external_body]
pub(crate) fn parse_utf8(bytes: &[u8]) -> (r: Option<&str>)
    ensures
        r is Some <==> vstd::utf8::valid_utf8(bytes@),
        r matches Some(s) ==> vstd::utf8::encode_utf8(s@) == bytes@,
{
    core::str::from_utf8(bytes).ok()
}

} // verus!
