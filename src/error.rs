use vstd::prelude::*;
use vstd::string::*;

verus! {

#[verifier::external_type_specification]
#[verifier::external_body]
pub struct ExJsonError(serde_json::Error);

/// Why the collection could not be loaded.
#[derive(Debug)]
pub enum LoadError {
    /// The file could not be opened or read; holds the system's message.
    Io(String),
    /// The text is not JSON of the collection's shape; holds the parser's
    /// message and the text as read.
    Schema { message: String, contents: String },
}

/// The process exit status of a run that fails.
pub const FAILURE_STATUS: i32 = 1;

pub open spec fn schema_text(message: Seq<char>, contents: Seq<char>) -> Seq<char> {
    seq!['E', 'r', 'r', 'o', 'r', ' ', 'J', 'S', 'O', 'N', ':', ' '] + message + seq![
        '\n',
        'J',
        'S',
        'O',
        'N',
        ' ',
        'c',
        'o',
        'n',
        't',
        'e',
        'n',
        't',
        ':',
        '\n',
    ] + contents
}

/// Relies on serde_json::Error's Display impl: the parser's message.
#[verifier::external_body]
fn json_error_message(e: &serde_json::Error) -> String {
    e.to_string()
}

impl LoadError {
    /// The error for a parse failure of `contents` with the parser's
    /// `message`.
    pub fn schema(message: &str, contents: &str) -> (r: LoadError)
        ensures
            r matches LoadError::Schema { message: m, contents: c } && m@ == message@ && c@
                == contents@,
    {
        LoadError::Schema { message: String::from_str(message), contents: String::from_str(contents) }
    }

    /// The error for a parse failure of `contents`, with the message that
    /// serde_json gives for `e`.
    pub fn from_json(e: &serde_json::Error, contents: &str) -> (r: LoadError)
        ensures
            r matches LoadError::Schema { contents: c, .. } && c@ == contents@,
    {
        let message = json_error_message(e);
        LoadError::schema(message.as_str(), contents)
    }

    /// The text written to the error stream: the system's message for an
    /// I/O failure; for a schema failure, the parser's message followed by
    /// the text that failed.
    pub fn describe(&self) -> (r: String)
        ensures
            self matches LoadError::Io(m) ==> r@ == m@,
            self matches LoadError::Schema { message, contents } ==> r@ == schema_text(
                message@,
                contents@,
            ),
    {
        match self {
            LoadError::Io(m) => m.clone(),
            LoadError::Schema { message, contents } => {
                let mut s = String::from_str("Error JSON: ");
                s.append(message.as_str());
                s.append("\nJSON content:\n");
                s.append(contents.as_str());
                proof {
                    reveal_strlit("Error JSON: ");
                    reveal_strlit("\nJSON content:\n");
                }
                assert(s@ =~= schema_text(message@, contents@));
                s
            },
        }
    }

    /// Whether the error is a schema failure rather than an I/O one.
    pub fn is_schema(&self) -> (r: bool)
        ensures
            r == (self is Schema),
    {
        match self {
            LoadError::Io(_) => false,
            LoadError::Schema { .. } => true,
        }
    }
}

} // verus!
