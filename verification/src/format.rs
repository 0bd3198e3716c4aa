//! The document formats, and how a file's extension selects one.

use vstd::prelude::*;
use vstd::string::StringExecFns;
use crate::error::{ProfigError, ProfigErrorView};
use crate::text::same_text;

verus! {

/// A document format.
#[derive(Clone, Copy, Debug, PartialEq, Eq)]
pub enum Format {
    Toml,
    Json,
    Yaml,
}

/// A character with an ASCII capital letter turned into its small letter.
pub open spec fn lower_char(c: char) -> char {
    if 'A' <= c && c <= 'Z' {
        ((c as u8) + 32) as char
    } else {
        c
    }
}

/// A text with its ASCII capital letters turned into small letters.
pub open spec fn ascii_lower(text: Seq<char>) -> Seq<char> {
    Seq::new(text.len(), |i: int| lower_char(text[i]))
}

/// The format that an extension in small letters names.
pub open spec fn format_named(extension: Seq<char>) -> Option<Format> {
    if extension == "json"@ {
        Some(Format::Json)
    } else if extension == "toml"@ {
        Some(Format::Toml)
    } else if extension == "yaml"@ || extension == "yml"@ {
        Some(Format::Yaml)
    } else {
        None
    }
}

/// What the error for an extension that names no format says.
pub open spec fn unsupported_message(extension: Seq<char>) -> Seq<char> {
    "Unsupported or missing file extension: '"@ + extension + "'"@
}

/// `str::to_ascii_lowercase`: a copy of the text in which the ASCII letters
/// `A` to `Z` are replaced by `a` to `z` and every other character is kept.
#[verifier::external_body]
fn to_lower(text: &str) -> (r: String)
    ensures
        r@ == ascii_lower(text@),
{
    text.to_ascii_lowercase()
}

impl Format {
    /// The name of the format, as parse errors give it.
    pub open spec fn label(self) -> Seq<char> {
        match self {
            Format::Toml => "toml"@,
            Format::Json => "json"@,
            Format::Yaml => "yaml"@,
        }
    }

    /// The name of the format, as parse errors give it.
    pub fn name(&self) -> (r: &'static str)
        ensures
            r@ == self.label(),
    {
        match self {
            Format::Toml => "toml",
            Format::Json => "json",
            Format::Yaml => "yaml",
        }
    }

    /// The error for a document that is malformed in this format.
    pub fn parse_error(&self, detail: String) -> (r: ProfigError)
        ensures
            r@ == (ProfigErrorView::Parse { format: self.label(), error: detail@ }),
    {
        ProfigError::Parse { format: self.name(), error: detail }
    }

    /// Selects the format by a file's extension, whatever the case of its
    /// letters: `json`, `toml`, and `yaml` or `yml`. Any other extension, an
    /// empty one too, is an error that names the extension in small letters.
    pub fn from_extension(extension: &str) -> (r: Result<Format, ProfigError>)
        ensures
            match format_named(ascii_lower(extension@)) {
                Some(format) => r == Ok::<Format, ProfigError>(format),
                None => r matches Err(e) && e@ == ProfigErrorView::InvalidFormat(
                    unsupported_message(ascii_lower(extension@)),
                ),
            },
    {
        let lower = to_lower(extension);
        if same_text(lower.as_str(), "json") {
            Ok(Format::Json)
        } else if same_text(lower.as_str(), "toml") {
            Ok(Format::Toml)
        } else if same_text(lower.as_str(), "yaml") || same_text(lower.as_str(), "yml") {
            Ok(Format::Yaml)
        } else {
            let mut message = String::from_str("Unsupported or missing file extension: '");
            message.append(lower.as_str());
            message.append("'");
            Err(ProfigError::InvalidFormat(message))
        }
    }
}

} // verus!
