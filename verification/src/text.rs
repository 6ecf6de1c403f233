//! How values are shown to people, through the formatter of the standard library.
use vstd::prelude::*;

verus! {

/// The formatter of the standard library. What is inside is not looked at.
#[verifier::external_type_specification]
#[verifier::external_body]
pub struct ExFormatter<'a>(core::fmt::Formatter<'a>);

/// The error of a formatter. It carries nothing but the fact that there was one.
#[verifier::external_type_specification]
#[verifier::external_body]
pub struct ExFormatError(core::fmt::Error);

/// The text that was written to a formatter so far.
pub uninterp spec fn text_written(f: core::fmt::Formatter<'_>) -> Seq<char>;

/// `core::fmt::Formatter::write_str` writes a string to the formatter as it is. It succeeds only if
/// all of the string was written. Of what was written where it fails, nothing is claimed.
pub assume_specification<'a>[ core::fmt::Formatter::<'a>::write_str ](
    f: &mut core::fmt::Formatter<'a>,
    data: &str,
) -> (r: core::fmt::Result)
    ensures
        r is Ok ==> text_written(*final(f)) == text_written(*old(f)) + data@,
;

} // verus!
