//! Error codes reported to API clients.

use vstd::prelude::*;

verus! {

/// Gives the string representation of a value.
pub trait AsStr {
    /// Get the string representation of a structure
    fn as_str(&self) -> &str;
}

/// The codes of the errors that the API reports; each names itself.
#[derive(Debug, Clone, Copy, PartialEq, Eq, Structural)]
pub enum ErrorCode {
    E40001,
    E50001,
    E50002,
}

impl ErrorCode {
    /// The text of a code: the name of its variant.
    pub open spec fn spec_name(self) -> Seq<char> {
        match self {
            ErrorCode::E40001 => "E40001"@,
            ErrorCode::E50001 => "E50001"@,
            ErrorCode::E50002 => "E50002"@,
        }
    }

    /// The text of the code, as an owned string.
    pub fn to_text(&self) -> (r: String)
        ensures
            r@ == self.spec_name(),
    {
        String::from_str(self.as_str())
    }
}

impl AsStr for ErrorCode {
    fn as_str(&self) -> (r: &'static str)
        ensures
            r@ == self.spec_name(),
    {
        match self {
            ErrorCode::E40001 => {
                proof {
                    reveal_strlit("E40001");
                }
                "E40001"
            },
            ErrorCode::E50001 => {
                proof {
                    reveal_strlit("E50001");
                }
                "E50001"
            },
            ErrorCode::E50002 => {
                proof {
                    reveal_strlit("E50002");
                }
                "E50002"
            },
        }
    }
}

} // verus!
