//! What this run acts on: which broker, which account, which realm, and the access
//! token that proves the caller. Every subcommand starts here.

use crate::agent::signin::Tokens;
use crate::broker;
use crate::broker::check_target;
use crate::config::{Settings, SettingsModel};
use crate::text;
use crate::text::owned;
use vstd::prelude::*;
use vstd::string::*;

verus! {

/// Which account a run acts on: the one on the command line, else the pin. Named,
/// because the two come from different people, and being told "--for" about a value
/// nobody typed is a wild goose chase.
pub open spec fn targeted(asked: Option<Seq<char>>, pin: Option<Seq<char>>) -> Result<
    Option<Seq<char>>,
    Seq<char>,
> {
    match (asked, pin) {
        (Some(t), _) => match broker::target_fault(t) {
            None => Ok(Some(t)),
            Some(why) => Err("--for: "@ + why),
        },
        (None, Some(t)) => match broker::target_fault(t) {
            None => Ok(Some(t)),
            Some(why) => Err("the account this machine gets tickets as: "@ + why),
        },
        (None, None) => Ok(None),
    }
}

/// An optional text, or why there is none.
pub open spec fn optional(r: Result<Option<String>, String>) -> Result<Option<Seq<char>>, Seq<char>> {
    match r {
        Ok(t) => Ok(text::opt_text(t)),
        Err(e) => Err(e@),
    }
}

fn checked(target: &str, whence: &str) -> (r: Result<Option<String>, String>)
    ensures
        optional(r) == (match broker::target_fault(target@) {
            None => Ok(Some(target@)),
            Some(why) => Err(whence@ + why),
        }),
{
    match check_target(target) {
        Ok(()) => Ok(Some(target.to_owned())),
        Err(why) => Err(text::joined(whence, why.as_str())),
    }
}

/// Which account a `--grant*` run acts on. The check happens here rather than only at
/// the broker because the round trip in between is a browser sign-in, and the end of
/// one is the worst place to be told the name was never going to work.
pub fn resolve_target(asked: Option<&str>, settings: &Settings) -> (r: Result<
    Option<String>,
    String,
>)
    ensures
        optional(r) == targeted(text::opt_str(asked), settings@.grant_for()),
{
    match asked {
        Some(t) => checked(t, "--for: "),
        None => match settings.grant_for() {
            Some(t) => checked(t, "the account this machine gets tickets as: "),
            None => Ok(None),
        },
    }
}

/// Whether DNS is asked for a broker at all: only where nothing is configured.
pub fn asks_dns(asked: Option<&str>, settings: &Settings) -> (r: bool)
    ensures
        r == (asked is None && settings@.broker_url() is None),
{
    asked.is_none() && settings.broker_url().is_none()
}

pub open spec fn no_broker() -> Seq<char> {
    "no broker configured -- pass --broker <url>, publish a _kerbridge._tcp.<domain> SRV record, or set it in the tray's Settings window"@
}

/// The settings with a broker that was found in DNS, which only an unconfigured
/// machine takes.
pub open spec fn with_found(m: SettingsModel, asked: bool, found: Option<Seq<char>>) -> SettingsModel {
    if !asked && m.broker_url() is None && found is Some {
        SettingsModel { discovered: found, ..m }
    } else {
        m
    }
}

/// The broker of a run: `--broker`, then the configured value, then what DNS says. No
/// built-in default: guessing a broker URL is guessing who may authenticate this
/// machine.
pub open spec fn brokered(m: SettingsModel, asked: Option<Seq<char>>, found: Option<Seq<char>>) -> Result<
    Seq<char>,
    Seq<char>,
> {
    match asked {
        Some(url) => Ok(url),
        None => match with_found(m, false, found).broker_url() {
            Some(url) => Ok(url),
            None => Err(no_broker()),
        },
    }
}

/// A text, or why there is none.
pub open spec fn outcome_of(r: Result<String, String>) -> Result<Seq<char>, Seq<char>> {
    match r {
        Ok(s) => Ok(s@),
        Err(e) => Err(e@),
    }
}

pub fn resolve_broker(asked: Option<&str>, settings: &mut Settings, found: Option<String>) -> (r:
    Result<String, String>)
    ensures
        outcome_of(r) == brokered(old(settings)@, text::opt_str(asked), text::opt_text(found)),
        final(settings)@ == with_found(old(settings)@, asked is Some, text::opt_text(found)),
{
    if let Some(b) = asked {
        return Ok(b.to_owned());
    }
    if settings.broker_url().is_none() {
        if let Some(url) = found {
            settings.set_discovered(url);
        }
    }
    match settings.broker_url() {
        Some(url) => Ok(url.to_owned()),
        None => Err(
            "no broker configured -- pass --broker <url>, publish a _kerbridge._tcp.<domain> SRV record, or set it in the tray's Settings window".to_owned(),
        ),
    }
}

/// What a browser sign-in gives a run: the base its broker calls hang off -- the
/// address asked, with the source segment the broker confirmed -- and the token.
pub fn token_of(base_url: &str, tokens: Option<Tokens>) -> (r: Result<(String, String), String>)
    ensures
        match (tokens, r) {
            (Some(t), Ok((base, token))) => base@ == base_url@ && token@ == t@.access_token,
            (None, Err(e)) => e@ == "sign-in cancelled"@,
            _ => false,
        },
{
    match tokens {
        Some(t) => Ok((base_url.to_owned(), t.access_token)),
        None => Err("sign-in cancelled".to_owned()),
    }
}

/// The realm's name where this machine already knows it, so that removing or purging a
/// realm works even when the broker is unreachable.
pub fn known_realm(settings: &Settings) -> (r: Option<String>)
    ensures
        text::opt_text(r) == (if settings@.file.cache.realm.len() == 0 {
            None
        } else {
            Some(settings@.file.cache.realm)
        }),
{
    let realm = settings.cache().realm.as_str();
    if realm.is_empty() {
        None
    } else {
        owned(Some(realm))
    }
}

// ------------------------------------------------------------------------ laws

/// A broker in DNS never moves a machine that has one configured, and never one that
/// was told which to use.
pub proof fn law_dns_moves_no_configured_machine(
    m: SettingsModel,
    asked: Option<Seq<char>>,
    found: Option<Seq<char>>,
)
    requires
        asked is Some || m.broker_url() is Some,
    ensures
        brokered(m, asked, found) == brokered(m, asked, None),
        brokered(m, asked, found) is Ok,
        with_found(m, asked is Some, found) == m,
{
}

/// An account that was asked for is taken over the one that is pinned, and without either
/// it is whoever asks. One that cannot be is refused, under the name of where it came from.
pub proof fn law_which_account_it_is(t: Seq<char>, pin: Option<Seq<char>>)
    ensures
        broker::target_fault(t) is None ==> targeted(Some(t), pin) == Ok::<
            Option<Seq<char>>,
            Seq<char>,
        >(Some(t)),
        broker::target_fault(t) matches Some(why) ==> targeted(Some(t), pin) == Err::<
            Option<Seq<char>>,
            Seq<char>,
        >("--for: "@ + why),
        broker::target_fault(t) is None ==> targeted(None, Some(t)) == Ok::<
            Option<Seq<char>>,
            Seq<char>,
        >(Some(t)),
        broker::target_fault(t) matches Some(why) ==> targeted(None, Some(t)) == Err::<
            Option<Seq<char>>,
            Seq<char>,
        >("the account this machine gets tickets as: "@ + why),
        targeted(None, None) == Ok::<Option<Seq<char>>, Seq<char>>(None),
{
}

/// The broker is the one asked for, else the one configured, else the one DNS found; and
/// without any of them none is made up.
pub proof fn law_which_broker_it_is(
    m: SettingsModel,
    asked: Option<Seq<char>>,
    found: Option<Seq<char>>,
    url: Seq<char>,
)
    ensures
        asked == Some(url) ==> brokered(m, asked, found) == Ok::<Seq<char>, Seq<char>>(url),
        asked is None && m.broker_url() == Some(url) ==> brokered(m, asked, found) == Ok::<
            Seq<char>,
            Seq<char>,
        >(url),
        asked is None && m.broker_url() is None && found == Some(url) ==> brokered(m, asked, found)
            == Ok::<Seq<char>, Seq<char>>(url),
        asked is None && m.broker_url() is None && found is None ==> brokered(m, asked, found)
            is Err,
        asked is None && m.broker_url() is None && found == Some(url) ==> with_found(
            m,
            false,
            found,
        ).broker_url() == Some(url),
        with_found(m, true, found) == m,
{
}

} // verus!
