//! The default run: prove an identity, exchange the proof for a TGT, put it in this
//! user's cache. Signing off is its inverse and lives here for that reason.

use crate::agent::failure::{InjectError, InjectErrorModel};
use crate::broker::{
    BrokerError, BrokerErrorModel, REFUSED_GRANTS_DISABLED, REFUSED_NOT_GRANTED,
};
use crate::config::{copied_grant, Grant, GrantModel, Settings, SettingsModel};
use crate::text;
use crate::text::{decimal_of, same};
use vstd::prelude::*;
use vstd::string::*;

verus! {

/// What a run does about the device grant this machine may hold.
pub enum Standing {
    /// Prove it, instead of signing in.
    Prove(Grant),
    /// Sign in. `whose` is the account the machine works as, where using somebody
    /// else's ticket is worth a word.
    SignIn { whose: Option<String> },
}

/// The account a machine works as: what its grant last obtained, else the pin.
pub open spec fn works_as(m: SettingsModel) -> Option<Seq<char>> {
    match m.file.grant {
        Some(GrantModel { principal: Some(p), .. }) => Some(p),
        _ => m.grant_for(),
    }
}

/// A credential named outright beats a stored one; without that a granted machine
/// could not be given a token at all.
pub open spec fn proves(m: SettingsModel, no_grant: bool, token_file: bool) -> bool {
    !no_grant && !token_file && m.file.grant is Some
}

pub fn standing(settings: &Settings, no_grant: bool, token_file: bool) -> (r: Standing)
    ensures
        match r {
            Standing::Prove(g) => proves(settings@, no_grant, token_file) && Some(g@)
                == settings@.file.grant,
            Standing::SignIn { whose } => !proves(settings@, no_grant, token_file)
                && text::opt_text(whose) == (if no_grant {
                works_as(settings@)
            } else {
                None
            }),
        },
{
    if no_grant {
        return Standing::SignIn { whose: account(settings) };
    }
    if token_file {
        return Standing::SignIn { whose: None };
    }
    match copied_grant(settings.grant()) {
        Some(g) => Standing::Prove(g),
        None => Standing::SignIn { whose: None },
    }
}

fn account(settings: &Settings) -> (r: Option<String>)
    ensures
        text::opt_text(r) == works_as(settings@),
{
    if let Some(g) = settings.grant() {
        if let Some(p) = &g.principal {
            return Some(p.clone());
        }
    }
    text::owned(settings.grant_for())
}

/// What a run costs that signs in on a machine which works as somebody: the ticket it
/// injects is the caller's, so anything written with it is owned by them -- and it does
/// not last, because the tray re-injects from the grant.
pub open spec fn warning(target: Seq<char>) -> Seq<char> {
    "[kerbridge] --no-grant: the ticket this injects is YOURS, not "@ + target
        + "'s. Files written with it are owned by you, and the tray re-injects as "@ + target
        + " at its next cycle."@
}

pub fn warn_ticket_is_yours(target: &str) -> (r: String)
    ensures
        r@ == warning(target@),
{
    let mut s = "[kerbridge] --no-grant: the ticket this injects is YOURS, not ".to_owned();
    s.append(target);
    s.append("'s. Files written with it are owned by you, and the tray re-injects as ");
    s.append(target);
    s.append(" at its next cycle.");
    s
}

/// What a run says before it proves a grant.
pub fn announcement(grant: &Grant) -> (r: String)
    ensures
        r@ == "[kerbridge] this device holds grant "@ + grant@.grant_id
            + "; proving it with the TPM key instead of signing in (--no-grant to sign in anyway)"@,
{
    let mut s = "[kerbridge] this device holds grant ".to_owned();
    s.append(grant.grant_id.as_str());
    s.append(
        "; proving it with the TPM key instead of signing in (--no-grant to sign in anyway)",
    );
    s
}

/// What became of proving a grant.
pub enum Proved {
    /// It worked: this is what the machine works as.
    Injected(String),
    /// It was refused in a way a sign-in fixes. The grant stays.
    SignIn(String),
    /// The run stops.
    Stopped(String),
}

#[verifier::ext_equal]
pub enum ProvedModel {
    Injected(Seq<char>),
    SignIn(Seq<char>),
    Stopped(Seq<char>),
}

impl View for Proved {
    type V = ProvedModel;

    open spec fn view(&self) -> ProvedModel {
        match *self {
            Proved::Injected(p) => ProvedModel::Injected(p@),
            Proved::SignIn(s) => ProvedModel::SignIn(s@),
            Proved::Stopped(s) => ProvedModel::Stopped(s@),
        }
    }
}

/// What a failed injection says.
pub open spec fn complaint(e: InjectErrorModel) -> Seq<char> {
    match e {
        InjectErrorModel::Broker(b) => b.says(),
        InjectErrorModel::Local(s) => s,
    }
}

/// A refusal after which the person at the keyboard can still sign in: an assertion
/// that is expired, revoked or without its key, and the two refusals that say the
/// grant is finished while a browser still works. Falling back on anything else would
/// open a browser to paper over a broker that is answering perfectly well.
pub open spec fn fixed_by_signing_in(e: InjectErrorModel) -> Option<Seq<char>> {
    match e {
        InjectErrorModel::Broker(BrokerErrorModel::InvalidProof(why)) => Some(
            "[kerbridge] the grant was refused ("@ + why + "); signing in instead"@,
        ),
        InjectErrorModel::Broker(BrokerErrorModel::NotAdmitted(why)) => if why
            == REFUSED_GRANTS_DISABLED@ || why == REFUSED_NOT_GRANTED@ {
            Some(
                "[kerbridge] this device's grant is no longer accepted ("@ + why
                    + "); signing in instead"@,
            )
        } else {
            None
        },
        _ => None,
    }
}

/// What a run does once a grant was presented.
pub open spec fn proved(r: Result<Seq<char>, InjectErrorModel>) -> ProvedModel {
    match r {
        Ok(principal) => ProvedModel::Injected(principal),
        Err(e) => match fixed_by_signing_in(e) {
            Some(line) => ProvedModel::SignIn(line),
            None => ProvedModel::Stopped(
                "injecting a TGT with this device's grant: "@ + complaint(e),
            ),
        },
    }
}

fn instead(before: &str, why: &str) -> (r: String)
    ensures
        r@ == before@ + why@ + "); signing in instead"@,
{
    let mut s = before.to_owned();
    s.append(why);
    s.append("); signing in instead");
    s
}

pub fn granted_injection(injected: Result<String, InjectError>) -> (r: Proved)
    ensures
        r@ == proved(
            match injected {
                Ok(p) => Ok(p@),
                Err(e) => Err(e@),
            },
        ),
{
    let e = match injected {
        Ok(principal) => {
            return Proved::Injected(principal);
        },
        Err(e) => e,
    };
    let said = match e {
        InjectError::Broker(b) => {
            if let BrokerError::InvalidProof(why) = &b {
                return Proved::SignIn(instead("[kerbridge] the grant was refused (", why.as_str()));
            }
            if let BrokerError::NotAdmitted(why) = &b {
                if same(why.as_str(), REFUSED_GRANTS_DISABLED) || same(
                    why.as_str(),
                    REFUSED_NOT_GRANTED,
                ) {
                    return Proved::SignIn(
                        instead(
                            "[kerbridge] this device's grant is no longer accepted (",
                            why.as_str(),
                        ),
                    );
                }
            }
            b.message()
        },
        InjectError::Local(s) => s,
    };
    Proved::Stopped(text::joined("injecting a TGT with this device's grant: ", said.as_str()))
}

/// What signing off says. The device grant survives, as it does in the tray.
pub fn signed_off(purged: u64, realm: &str) -> (r: String)
    ensures
        r@ == "[kerbridge] purged "@ + text::decimal(purged as nat) + " ticket(s) for "@ + realm@,
{
    let mut s = "[kerbridge] purged ".to_owned();
    s.append(decimal_of(purged).as_str());
    s.append(" ticket(s) for ");
    s.append(realm);
    s
}

// ------------------------------------------------------------------------ laws

/// A browser opens only where signing in helps: a broker that cannot be reached, one
/// that is overloaded, one that speaks another protocol, and a refusal of the account
/// itself all stop the run.
pub proof fn law_a_browser_papers_over_nothing(e: BrokerErrorModel)
    ensures
        proved(Err(InjectErrorModel::Broker(e))) is SignIn <==> (e is InvalidProof || (e matches
            BrokerErrorModel::NotAdmitted(why) && (why == REFUSED_GRANTS_DISABLED@ || why
            == REFUSED_NOT_GRANTED@))),
        !(proved(Err(InjectErrorModel::Broker(e))) is Injected),
{
}

/// A machine works as the principal its grant has worked as, else as the account that is
/// pinned; its grant proves it unless that is forbidden or a token was given.
pub proof fn law_whom_a_machine_works_as(m: SettingsModel, no_grant: bool, token_file: bool)
    ensures
        m.file.grant matches Some(g) ==> (g.principal is Some ==> works_as(m) == g.principal),
        m.file.grant matches Some(g) ==> (g.principal is None ==> works_as(m) == m.grant_for()),
        m.file.grant is None ==> works_as(m) == m.grant_for(),
        proves(m, no_grant, token_file) <==> m.file.grant is Some && !no_grant && !token_file,
{
}

/// A ticket that the grant obtained is in; a grant that is refused as a proof, or no longer
/// accepted here, is answered by signing in; anything else stops, and says why.
pub proof fn law_what_a_grant_came_to(p: Seq<char>, b: BrokerErrorModel, s: Seq<char>)
    ensures
        proved(Ok(p)) == ProvedModel::Injected(p),
        proved(Err(InjectErrorModel::Local(s))) == ProvedModel::Stopped(
            "injecting a TGT with this device's grant: "@ + s,
        ),
        b matches BrokerErrorModel::InvalidProof(why) ==> proved(Err(InjectErrorModel::Broker(b)))
            == ProvedModel::SignIn(
            "[kerbridge] the grant was refused ("@ + why + "); signing in instead"@,
        ),
        b matches BrokerErrorModel::NotAdmitted(why) ==> (why == "device grants are not enabled"@
            || why == "account may not authorize a device"@) ==> proved(
            Err(InjectErrorModel::Broker(b)),
        ) == ProvedModel::SignIn(
            "[kerbridge] this device's grant is no longer accepted ("@ + b->NotAdmitted_0
                + "); signing in instead"@,
        ),
        !(b is InvalidProof) && !(b is NotAdmitted) ==> proved(Err(InjectErrorModel::Broker(b)))
            == ProvedModel::Stopped("injecting a TGT with this device's grant: "@ + b.says()),
        b matches BrokerErrorModel::NotAdmitted(why) ==> why != "device grants are not enabled"@
            && why != "account may not authorize a device"@ ==> proved(
            Err(InjectErrorModel::Broker(b)),
        ) == ProvedModel::Stopped("injecting a TGT with this device's grant: "@ + b.says()),
{
}

} // verus!
