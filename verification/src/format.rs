//! The status line of one operation.

use vstd::prelude::*;
use vstd::string::StringExecFns;
use crate::decimal::{decimal, decimal_string};
use crate::token::{ProgressToken, TokenView};

verus! {

/// The status line of the operation `token`, from what is known of it.
///
/// The token comes first, in square brackets. Of the percentage, the title
/// and the message, those that are present follow: the percentage with a
/// percent sign, then the title, then the message, which a dash sets off from
/// the title.
pub open spec fn progress_line(
    token: TokenView,
    title: Option<Seq<char>>,
    message: Option<Seq<char>>,
    percentage: Option<u32>,
) -> Seq<char> {
    let name = "["@ + token.text() + "]"@;
    match (title, message, percentage) {
        (Some(title), Some(message), Some(percentage)) => name + " "@ + decimal(percentage as nat)
            + "% "@ + title + " - "@ + message,
        (Some(title), None, Some(percentage)) => name + " "@ + decimal(percentage as nat) + "% "@
            + title,
        (Some(title), Some(message), None) => name + " "@ + title + " - "@ + message,
        (None, Some(message), Some(percentage)) => name + " "@ + decimal(percentage as nat)
            + "% "@ + message,
        (Some(title), None, None) => name + " "@ + title,
        (None, Some(message), None) => name + " "@ + message,
        (None, None, Some(percentage)) => name + " "@ + decimal(percentage as nat) + "%"@,
        (None, None, None) => name,
    }
}

/// Writes the status line of the operation `token`.
pub fn format_progress(
    token: &ProgressToken,
    title: &Option<String>,
    msg: &Option<String>,
    percentage: &Option<u32>,
) -> (line: String)
    ensures
        line@ == progress_line(token@, title.deep_view(), msg.deep_view(), *percentage),
{
    proof {
        reveal_strlit("% ");
        reveal_strlit("%");
        reveal_strlit(" ");
    }
    let mut line = String::from_str("[");
    line.append(token.text().as_str());
    line.append("]");
    if let Some(percentage) = percentage {
        line.append(" ");
        line.append(decimal_string(*percentage as u64).as_str());
        line.append("%");
    }
    match (title, msg) {
        (Some(title), Some(message)) => {
            line.append(" ");
            line.append(title.as_str());
            line.append(" - ");
            line.append(message.as_str());
        },
        (Some(text), None) | (None, Some(text)) => {
            line.append(" ");
            line.append(text.as_str());
        },
        (None, None) => {},
    }
    line
}

} // verus!
