//! Rendering of Markdown to HTML that is safe to show.

use vstd::prelude::*;

verus! {

/// The HTML that the renderer makes of a Markdown text, with raw HTML
/// left out and the table, strikethrough, task list, footnote and
/// description list extensions switched on.
pub uninterp spec fn rendered_html(markdown: Seq<char>) -> Seq<char>;

/// `comrak::markdown_to_html` under options that start from the defaults,
/// where raw HTML is not passed through, and switch five extensions on.
/// The HTML depends on the text alone and is only named.
#[verifier::external_body]
pub fn markdown_to_html_safe(markdown_input: &str) -> (html: String)
    ensures
        html@ == rendered_html(markdown_input@),
{
    let mut options = comrak::Options::default();
    options.extension.strikethrough = true;
    options.extension.table = true;
    options.extension.tasklist = true;
    options.extension.footnotes = true;
    options.extension.description_lists = true;
    comrak::markdown_to_html(markdown_input, &options)
}

} // verus!
