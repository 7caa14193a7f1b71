//! The elevation boundary: how a step on the far side of it is reported back.

use crate::agent::{Outcome, OutcomeModel};
use crate::sentence;
use crate::sentence::{say, say_about, Filler, FillerModel, Phrase, Sentence, SentenceModel, Slot};
use crate::text;
use crate::text::trim;
use vstd::prelude::*;
use vstd::string::*;

verus! {

/// What a relaunch came to.
///
/// A decline is a value rather than an error, and rather than an exit code,
/// because it is neither: nothing failed, and no child ever ran to have a code.
/// Folding it into either one is what makes a surface announce a decision as a
/// fault.
#[derive(Clone, Copy, PartialEq, Eq, Debug, Structural)]
pub enum Elevated {
    /// The child ran and exited with this code.
    Ran(u32),
    /// The user said no at the administrator prompt.
    Declined,
    /// This machine cannot elevate at all. Distinct from a failure because nothing
    /// went wrong -- the machine is configured this way, and only an administrator
    /// can act on it.
    Unavailable,
}

/// A sentence that already is in the user's language.
pub open spec fn verbatim(s: Seq<char>) -> SentenceModel {
    sentence::about(Phrase::Verbatim, Slot::Detail, FillerModel::Text(s))
}

fn say_verbatim(s: String) -> (r: Sentence)
    ensures
        r@ == verbatim(s@),
{
    say_about(Phrase::Verbatim, Slot::Detail, Filler::Text(s))
}

/// What an elevated one-shot came to, from how it ran and the sentence it left.
/// Absent or empty is *couldn't confirm*, never a fabricated success.
pub open spec fn came_to(
    ran: Result<Elevated, Seq<char>>,
    left: Option<Seq<char>>,
) -> OutcomeModel {
    match ran {
        Err(e) => OutcomeModel::Failed {
            message: sentence::about(Phrase::ErrElevationFailed, Slot::Detail, FillerModel::Text(e)),
        },
        Ok(Elevated::Declined) => OutcomeModel::Declined,
        Ok(Elevated::Unavailable) => OutcomeModel::Failed {
            message: sentence::plain(Phrase::ErrElevationUnavailable),
        },
        Ok(Elevated::Ran(code)) => {
            let said = text::trimmed(text::or_nothing(left));
            if said.len() == 0 {
                OutcomeModel::Failed { message: sentence::plain(Phrase::ErrElevatedUnconfirmed) }
            } else if code == 0 {
                OutcomeModel::Done { message: verbatim(said), detail: Seq::empty() }
            } else {
                OutcomeModel::Failed { message: verbatim(said) }
            }
        },
    }
}

proof fn nothing_trims_to_nothing()
    ensures
        text::trimmed(Seq::empty()).len() == 0,
{
}

pub fn outcome(ran: Result<Elevated, String>, left: Option<&str>) -> (r: Outcome)
    ensures
        r@ == came_to(
            match ran {
                Ok(e) => Ok(e),
                Err(s) => Err(s@),
            },
            text::opt_str(left),
        ),
{
    match ran {
        Err(e) => Outcome::Failed {
            message: say_about(Phrase::ErrElevationFailed, Slot::Detail, Filler::Text(e)),
        },
        // A decline is a decision: it returns the dialog to its question and says
        // nothing anywhere else.
        Ok(Elevated::Declined) => Outcome::Declined,
        Ok(Elevated::Unavailable) => Outcome::Failed { message: say(Phrase::ErrElevationUnavailable) },
        Ok(Elevated::Ran(code)) => {
            proof {
                nothing_trims_to_nothing();
            }
            let said = match left {
                Some(s) => trim(s),
                None => String::new(),
            };
            assert(said@ =~= text::trimmed(text::or_nothing(text::opt_str(left))));
            // It ran, and left nothing to say what happened.
            if said.as_str().is_empty() {
                return Outcome::Failed { message: say(Phrase::ErrElevatedUnconfirmed) };
            }
            if code == 0 {
                let detail: Vec<Sentence> = Vec::new();
                assert(sentence::sentences(detail@) =~= Seq::empty());
                Outcome::Done { message: say_verbatim(said), detail }
            } else {
                Outcome::Failed { message: say_verbatim(said) }
            }
        },
    }
}

/// Success is reported only where the child ran, exited with 0 and left something
/// to say; and a decline is neither a success nor a failure.
pub proof fn law_no_success_is_made_up(ran: Result<Elevated, Seq<char>>, left: Option<Seq<char>>)
    ensures
        came_to(ran, left) is Done <==> ran == Ok::<Elevated, Seq<char>>(Elevated::Ran(0))
            && text::trimmed(text::or_nothing(left)).len() > 0,
        came_to(ran, left) is Declined <==> ran == Ok::<Elevated, Seq<char>>(Elevated::Declined),
{
}

/// What an elevated step came to is what it left in writing, for better or for worse; a
/// prompt that was declined is no failure, and each way of not running has its own words.
pub proof fn law_what_a_step_came_to(code: u32, left: Seq<char>, e: Seq<char>)
    ensures
        ({
            let said = text::trimmed(left);
            let words = sentence::about(Phrase::Verbatim, Slot::Detail, FillerModel::Text(said));
            let r = came_to(Ok(Elevated::Ran(code)), Some(left));
            &&& said.len() > 0 && code == 0 ==> r == OutcomeModel::Done {
                message: words,
                detail: Seq::empty(),
            }
            &&& said.len() > 0 && code != 0 ==> r == OutcomeModel::Failed { message: words }
            &&& said.len() == 0 ==> r == OutcomeModel::Failed {
                message: sentence::plain(Phrase::ErrElevatedUnconfirmed),
            }
        }),
        came_to(Ok(Elevated::Ran(code)), None) == (OutcomeModel::Failed {
            message: sentence::plain(Phrase::ErrElevatedUnconfirmed),
        }),
        came_to(Ok(Elevated::Declined), Some(left)) == OutcomeModel::Declined,
        came_to(Ok(Elevated::Unavailable), Some(left)) == (OutcomeModel::Failed {
            message: sentence::plain(Phrase::ErrElevationUnavailable),
        }),
        came_to(Err(e), Some(left)) == (OutcomeModel::Failed {
            message: sentence::about(Phrase::ErrElevationFailed, Slot::Detail, FillerModel::Text(e)),
        }),
{
    nothing_trims_to_nothing();
}

} // verus!
