//! Realm enrollment: telling the OS that `EXAMPLE.SITE` is a Kerberos realm, and
//! checking whether it already knows.
//!
//! **Only Windows needs any of this.** A Mac resolves the realm from DNS with no
//! configuration file and no elevation, so its answer is always
//! [`State::Enrolled`].

use crate::text;
use vstd::prelude::*;

verus! {

/// The OS's view of the realm, compared against the broker's.
#[derive(PartialEq, Eq, Debug)]
pub enum State {
    Enrolled,
    /// The realm is unknown to the OS.
    NotEnrolled,
    /// Registered, but not as the broker describes it. Each string is a
    /// human-readable difference, shown in the enrollment confirmation.
    Stale(Vec<String>),
}

#[verifier::ext_equal]
pub enum StateModel {
    Enrolled,
    NotEnrolled,
    Stale(Seq<Seq<char>>),
}

impl View for State {
    type V = StateModel;

    open spec fn view(&self) -> StateModel {
        match *self {
            State::Enrolled => StateModel::Enrolled,
            State::NotEnrolled => StateModel::NotEnrolled,
            State::Stale(diffs) => StateModel::Stale(text::texts(diffs@)),
        }
    }
}

impl State {
    pub fn needs_action(&self) -> (r: bool)
        ensures
            r == !(self@ is Enrolled),
    {
        !matches!(self, State::Enrolled)
    }
}

} // verus!
