//! Decorative banner text: a message rendered as large ASCII-art letters in
//! the bundled standard FIGlet font.

use vstd::prelude::*;

verus! {

/// The ASCII-art rendering of a message in the standard FIGlet font; it
/// depends on the message alone.
pub uninterp spec fn figure_of(s: Seq<char>) -> Seq<char>;

/// Whether the standard FIGlet font renders a message at all: it does
/// exactly when the message holds at least one character the font covers;
/// this too depends on the message alone.
pub uninterp spec fn figure_renders(s: Seq<char>) -> bool;

/// Relies on figlet_rs: `FIGlet::standard` parses the font bundled with the
/// crate, which always succeeds; `FIGlet::convert` renders the message in
/// it, returning `None` exactly when the message is empty or none of its
/// characters is in the font, whose required range is the printable ASCII
/// codes 32 through 126; and `FIGure::as_str` writes the rendered lines
/// out. Both the rendered text and whether rendering happens depend on the
/// message alone.
#[verifier::external_body]
fn figlet_standard(title: &str) -> (r: Option<String>)
    ensures
        r is Some == figure_renders(title@),
        r matches Some(s) ==> s@ == figure_of(title@),
        title@.len() == 0 ==> r is None,
        (exists|i: int|
            0 <= i < title@.len() && 32 <= #[trigger] title@[i] as int <= 126) ==> r is Some,
{
    match figlet_rs::FIGlet::standard() {
        Ok(font) => match font.convert(title) {
            Some(figure) => Some(figure.as_str()),
            None => None,
        },
        Err(_) => None,
    }
}

/// The banner for a title: its ASCII-art rendering in the standard FIGlet
/// font. `Some` comes back exactly when the font renders the title, and
/// always when the title holds a printable ASCII character; an empty title
/// yields `None`.
pub fn draw_title(title: &str) -> (r: Option<String>)
    ensures
        r is Some == figure_renders(title@),
        r matches Some(s) ==> s@ == figure_of(title@),
        title@.len() == 0 ==> r is None,
        (exists|i: int|
            0 <= i < title@.len() && 32 <= #[trigger] title@[i] as int <= 126) ==> r is Some,
{
    figlet_standard(title)
}

} // verus!
