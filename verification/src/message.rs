//! The texts that leave the library: the request put to the summarizer and
//! the message posted to the channel.

use vstd::prelude::*;
use vstd::string::*;

verus! {

/// The title shown for an article that has none.
pub const NO_TITLE: &'static str = "No Title";

/// The attribution that closes every message.
pub const CAPTION: &'static str = "<a href=\"https://t.me/Tech_Chronicle/\">Tech Chronicle</a>";

/// The instruction that precedes the article's address in a summary request.
pub const PROMPT: &'static str = "дай описание этой новости в пределах 400 символов: ";

/// The title of an article as it is shown: its own, or the placeholder.
pub open spec fn shown_title(title: Option<Seq<char>>) -> Seq<char> {
    match title {
        Some(text) => text,
        None => NO_TITLE@,
    }
}

/// The text of the request for a summary of the article at `reference`.
pub open spec fn prompt_text(reference: Seq<char>) -> Seq<char> {
    PROMPT@ + reference
}

/// The text of the message for one article: the title in bold, a link to the
/// source, the summary, and the attribution, separated by blank lines.
pub open spec fn message_text(title: Seq<char>, link: Seq<char>, summary: Seq<char>) -> Seq<char> {
    "<b># "@ + title + "</b> | <a href=\""@ + link + "\">источник</a>\n\n"@ + summary + "\n\n"@
        + CAPTION@
}

/// Builds the request for a summary: the fixed instruction followed by the
/// article's address.
pub fn enrichment_prompt(reference: &str) -> (prompt: String)
    ensures
        prompt@ == prompt_text(reference@),
{
    let mut prompt = String::from_str(PROMPT);
    prompt.append(reference);
    prompt
}

/// Builds the message for one article from its title, its link and the
/// summary obtained for it.
pub fn format_message(title: &str, link: &str, summary: &str) -> (message: String)
    ensures
        message@ == message_text(title@, link@, summary@),
{
    let mut message = String::from_str("<b># ");
    message.append(title);
    message.append("</b> | <a href=\"");
    message.append(link);
    message.append("\">источник</a>\n\n");
    message.append(summary);
    message.append("\n\n");
    message.append(CAPTION);
    message
}

} // verus!
