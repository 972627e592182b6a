//! What a run tells the user without failing.

use vstd::prelude::*;
use vstd::string::*;

verus! {

/// A fallback that the user is told of. It is information, not an error.
#[derive(Clone, Copy, Debug, PartialEq, Eq, Structural)]
pub enum Notice {
    /// No variant was named, or the name was not recognised: the default
    /// variant is used.
    DefaultVariant,
    /// The scheme was named neither `light` nor `dark`: the dark scheme is
    /// used.
    DefaultScheme,
}

impl Notice {
    /// The text of this notice.
    pub open spec fn message_text(self) -> Seq<char> {
        match self {
            Notice::DefaultVariant =>
                "no variant was given or didn't recognize the variant.\nusing default (Tonal Spot)"@,
            Notice::DefaultScheme => "didn't recognize the scheme.\nusing default (dark)"@,
        }
    }

    /// The text of this notice.
    pub fn message(&self) -> (text: String)
        ensures
            text@ == self.message_text(),
    {
        match *self {
            Notice::DefaultVariant => String::from_str(
                "no variant was given or didn't recognize the variant.\nusing default (Tonal Spot)",
            ),
            Notice::DefaultScheme => String::from_str(
                "didn't recognize the scheme.\nusing default (dark)",
            ),
        }
    }
}

} // verus!
