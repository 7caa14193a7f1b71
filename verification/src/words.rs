//! What a surface says in one place: a sentence, or the copy that the product has for
//! something in the current status.

use crate::describe::{Action, Blocker};
use crate::sentence;
use crate::sentence::{say, Phrase, Sentence, SentenceModel};
use vstd::prelude::*;

verus! {

/// What a surface says in one place.
pub enum Words {
    Said(Sentence),
    /// The status's headline.
    Headline,
    /// Who this machine is working as.
    Identity,
    /// Why the machine is not working.
    Blocked(Blocker),
    /// What an action is called in the current status.
    Offer(Action),
}

#[verifier::ext_equal]
pub enum WordsModel {
    Said(SentenceModel),
    Headline,
    Identity,
    Blocked(Blocker),
    Offer(Action),
}

impl View for Words {
    type V = WordsModel;

    open spec fn view(&self) -> WordsModel {
        match *self {
            Words::Said(s) => WordsModel::Said(s@),
            Words::Headline => WordsModel::Headline,
            Words::Identity => WordsModel::Identity,
            Words::Blocked(b) => WordsModel::Blocked(b),
            Words::Offer(act) => WordsModel::Offer(act),
        }
    }
}

/// A phrase as what a control says.
pub open spec fn phrased(p: Phrase) -> WordsModel {
    WordsModel::Said(sentence::plain(p))
}

pub fn words(p: Phrase) -> (r: Words)
    ensures
        r@ == phrased(p),
{
    Words::Said(say(p))
}

} // verus!
