//! What a handler hands back for transmission.

use vstd::prelude::*;

verus! {

/// One reply per invocation: plain text, or the description of a structured
/// embed block (the embeds this bot sends carry a description and nothing
/// else).
pub enum Reply {
    PlainText(String),
    StructuredEmbed(String),
}

impl Reply {
    /// The text the reply carries, whichever form it takes.
    pub open spec fn text(&self) -> Seq<char> {
        match self {
            Reply::PlainText(t) => t@,
            Reply::StructuredEmbed(d) => d@,
        }
    }

    /// Whether the reply is rendered as an embed block.
    pub open spec fn is_embed(&self) -> bool {
        self is StructuredEmbed
    }
}

} // verus!
