use vstd::prelude::*;

verus! {

/// The first MIME type that `mime_guess` registers for the extension of
/// `path`, if any.
pub uninterp spec fn guessed_mime(path: Seq<char>) -> Option<Seq<char>>;

/// The MIME type shown for a path: the guess, or the empty string when there
/// is none.
pub open spec fn mime_of(path: Seq<char>) -> Seq<char> {
    match guessed_mime(path) {
        Some(m) => m,
        None => Seq::empty(),
    }
}

/// Relies on `mime_guess::from_path` and `MimeGuess::first_raw`: a lookup of
/// the path's extension in a fixed table, without disk access.
#[verifier::external_body]
fn first_guess(path: &str) -> (r: Option<String>)
    ensures
        r matches Some(m) ==> guessed_mime(path@) == Some(m@),
        r is None ==> guessed_mime(path@) is None,
{
    mime_guess::from_path(path).first_raw().map(String::from)
}

/// The MIME type guessed from the extension of `path`, or the empty string.
pub fn guess_mime(path: &str) -> (r: String)
    ensures
        r@ == mime_of(path@),
{
    match first_guess(path) {
        Some(m) => m,
        None => String::new(),
    }
}

} // verus!
