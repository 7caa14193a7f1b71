//! Broker and OIDC discovery.
//!
//! The helper is given only a broker URL and derives everything else, so it stays
//! agnostic to the realm and IdP behind that broker. `GET {broker}/config` yields
//! the OIDC authority, public client id and scopes plus the Kerberos realm the
//! client should register; standard OIDC discovery against the authority yields
//! the authorize and token endpoints.
//!
//! TLS is mandatory: the broker is trusted to name the realm's KDCs, which is a
//! decision about who may authenticate this machine, so a plaintext answer is
//! refused outright rather than warned about.
//!
//! The two requests are the caller's to make, between [`config_url`],
//! [`read_config`] and [`read_metadata`].

use crate::address;
use crate::address::{parse, require_https, shares_origin, without_slash, Origin, OriginModel};
use crate::encode;
use crate::encode::uppercase;
use crate::errors;
use crate::errors::{AmbiguousSource, Cause, CauseModel, Chain};
use crate::http;
use crate::http::{get_text, Reply, ReplyModel};
use crate::json;
use crate::json::{bool_field, text_field, texts_field, u64_field, Json, JsonDoc};
use crate::text;
use crate::text::{copied, copied_all, decimal_of, joined, trim};
use vstd::prelude::*;
use vstd::string::*;

verus! {

/// Everything a browser sign-in needs, resolved from the broker URL alone.
pub struct OidcConfig {
    pub client_id: String,
    /// What the UI calls the IdP ("Entra", or whatever the operator renamed it
    /// to). Required: the client has no provider name of its own to fall back on.
    pub display_name: String,
    /// The authority the broker named, verbatim. The endpoints below are what the
    /// browser flow uses; this is kept because WAM asks for the authority itself,
    /// not for an endpoint.
    pub authority: String,
    pub scopes: Vec<String>,
    pub authorization_endpoint: String,
    pub token_endpoint: String,
    /// The authority's RP-initiated logout endpoint, when it advertises one.
    pub end_session_endpoint: Option<String>,
}

#[verifier::ext_equal]
pub struct OidcModel {
    pub client_id: Seq<char>,
    pub display_name: Seq<char>,
    pub authority: Seq<char>,
    pub scopes: Seq<Seq<char>>,
    pub authorization_endpoint: Seq<char>,
    pub token_endpoint: Seq<char>,
    pub end_session_endpoint: Option<Seq<char>>,
}

impl View for OidcConfig {
    type V = OidcModel;

    open spec fn view(&self) -> OidcModel {
        OidcModel {
            client_id: self.client_id@,
            display_name: self.display_name@,
            authority: self.authority@,
            scopes: text::texts(self.scopes@),
            authorization_endpoint: self.authorization_endpoint@,
            token_endpoint: self.token_endpoint@,
            end_session_endpoint: text::opt_text(self.end_session_endpoint),
        }
    }
}

impl Clone for OidcConfig {
    fn clone(&self) -> (r: Self)
        ensures
            r@ == self@,
    {
        OidcConfig {
            client_id: self.client_id.clone(),
            display_name: self.display_name.clone(),
            authority: self.authority.clone(),
            scopes: copied_all(&self.scopes),
            authorization_endpoint: self.authorization_endpoint.clone(),
            token_endpoint: self.token_endpoint.clone(),
            end_session_endpoint: copied(&self.end_session_endpoint),
        }
    }
}

/// The realm state the client is expected to register with Windows.
///
/// `kdcs` may legitimately be empty: the default deployment publishes
/// `_kerberos._udp.<realm>` and enrollment then registers the realm without
/// pinning a KDC name. `services` is the escape hatch for service hosts that
/// live *outside* the realm's DNS zone.
pub struct KerberosConfig {
    pub realm: String,
    pub kdcs: Vec<String>,
    pub services: Vec<String>,
}

/// A realm, its KDCs and its services.
#[verifier::ext_equal]
pub struct KerberosModel {
    pub realm: Seq<char>,
    pub kdcs: Seq<Seq<char>>,
    pub services: Seq<Seq<char>>,
}

/// No realm at all.
pub open spec fn no_realm() -> KerberosModel {
    KerberosModel { realm: Seq::empty(), kdcs: Seq::empty(), services: Seq::empty() }
}

impl View for KerberosConfig {
    type V = KerberosModel;

    open spec fn view(&self) -> KerberosModel {
        KerberosModel {
            realm: self.realm@,
            kdcs: text::texts(self.kdcs@),
            services: text::texts(self.services@),
        }
    }
}

impl Clone for KerberosConfig {
    fn clone(&self) -> (r: Self)
        ensures
            r@ == self@,
    {
        KerberosConfig {
            realm: self.realm.clone(),
            kdcs: copied_all(&self.kdcs),
            services: copied_all(&self.services),
        }
    }
}

impl Default for KerberosConfig {
    fn default() -> (r: Self)
        ensures
            r@ == no_realm(),
    {
        let r = KerberosConfig { realm: String::new(), kdcs: Vec::new(), services: Vec::new() };
        assert(r@ =~= no_realm());
        r
    }
}

/// What this deployment allows in the way of device grants.
///
/// `days` of 0 means the feature is off, and it is the whole answer. A broker
/// too old to publish the block reads the same way.
pub struct DeviceGrantConfig {
    pub days: u32,
    /// What an assertion must name to be accepted. Copied from the broker rather
    /// than derived here, so the two ends cannot disagree about spelling.
    pub audience: String,
}

#[verifier::ext_equal]
pub struct DeviceGrantModel {
    pub days: u32,
    pub audience: Seq<char>,
}

impl DeviceGrantModel {
    pub open spec fn is_enabled(self) -> bool {
        self.days > 0 && self.audience.len() > 0
    }
}

/// Device grants switched off.
pub open spec fn no_grants() -> DeviceGrantModel {
    DeviceGrantModel { days: 0, audience: Seq::empty() }
}

impl View for DeviceGrantConfig {
    type V = DeviceGrantModel;

    open spec fn view(&self) -> DeviceGrantModel {
        DeviceGrantModel { days: self.days, audience: self.audience@ }
    }
}

impl Clone for DeviceGrantConfig {
    fn clone(&self) -> (r: Self)
        ensures
            r@ == self@,
    {
        DeviceGrantConfig { days: self.days, audience: self.audience.clone() }
    }
}

impl Default for DeviceGrantConfig {
    fn default() -> (r: Self)
        ensures
            r@ == no_grants(),
    {
        DeviceGrantConfig { days: 0, audience: String::new() }
    }
}

impl DeviceGrantConfig {
    pub fn enabled(&self) -> (r: bool)
        ensures
            r == self@.is_enabled(),
    {
        self.days > 0 && !self.audience.as_str().is_empty()
    }
}

/// What this deployment prefers a client here to do, in the cases the user and
/// IT have both left open.
///
/// Every field is `None` on a broker that publishes no `client_defaults` block,
/// which is the ordinary case and reads as "no opinion" rather than as "off".
///
/// A default never overrides a choice; it decides where there is none.
/// `config::Settings` holds the resolution order.
#[derive(Clone, Copy, PartialEq, Eq, Debug, Structural)]
pub struct Defaults {
    /// Start the agent at login. Applied to the real login-item entry rather
    /// than only remembered.
    pub autostart: Option<bool>,
    pub windows_sign_in: Option<bool>,
    pub ntlm_fallback_recovery: Option<bool>,
}

/// No opinion on anything.
pub open spec fn no_defaults() -> Defaults {
    Defaults { autostart: None, windows_sign_in: None, ntlm_fallback_recovery: None }
}

impl Default for Defaults {
    fn default() -> (r: Self)
        ensures
            r == no_defaults(),
    {
        Defaults { autostart: None, windows_sign_in: None, ntlm_fallback_recovery: None }
    }
}

/// The whole `/config` document, as the helper uses it.
pub struct BrokerConfig {
    /// Where this run's `/ticket`, `/nonce` and `/devices` are: the broker's
    /// answer to which source the address reached, resolved to an absolute URL.
    ///
    /// Never stored. Writing it to `config.toml` would pin a machine following
    /// DNS to whichever source answers today.
    pub base_url: String,
    pub oidc: OidcConfig,
    pub kerberos: KerberosConfig,
    pub device_grant: DeviceGrantConfig,
    pub defaults: Defaults,
    /// Where the tray menu's *Help* goes, when the deployment publishes one.
    pub help_url: Option<String>,
}

#[verifier::ext_equal]
pub struct BrokerModel {
    pub base_url: Seq<char>,
    pub oidc: OidcModel,
    pub kerberos: KerberosModel,
    pub device_grant: DeviceGrantModel,
    pub defaults: Defaults,
    pub help_url: Option<Seq<char>>,
}

impl View for BrokerConfig {
    type V = BrokerModel;

    open spec fn view(&self) -> BrokerModel {
        BrokerModel {
            base_url: self.base_url@,
            oidc: self.oidc@,
            kerberos: self.kerberos@,
            device_grant: self.device_grant@,
            defaults: self.defaults,
            help_url: text::opt_text(self.help_url),
        }
    }
}

impl Clone for BrokerConfig {
    fn clone(&self) -> (r: Self)
        ensures
            r@ == self@,
    {
        BrokerConfig {
            base_url: self.base_url.clone(),
            oidc: self.oidc.clone(),
            kerberos: self.kerberos.clone(),
            device_grant: self.device_grant.clone(),
            defaults: self.defaults,
            help_url: copied(&self.help_url),
        }
    }
}

// ----------------------------------------------------------- reading documents

/// `a`, `b` and `c`, one after another.
fn three(a: &str, b: &str, c: &str) -> (r: String)
    ensures
        r@ == a@ + b@ + c@,
{
    let ab = joined(a, b);
    joined(ab.as_str(), c)
}

/// The string called `key`, or an error that names it.
pub open spec fn text_required(d: JsonDoc, key: Seq<char>) -> Result<Seq<char>, Seq<CauseModel>> {
    match d.text_at(key) {
        Some(s) => Ok(s),
        None => Err(errors::saying("missing string field `"@ + key + "`"@)),
    }
}

pub fn str_field(value: &Json, key: &str) -> (r: Result<String, Chain>)
    ensures
        match r {
            Ok(s) => text_required(json::doc(*value), key@) == Ok::<Seq<char>, Seq<CauseModel>>(s@),
            Err(e) => text_required(json::doc(*value), key@) == Err::<Seq<char>, Seq<CauseModel>>(
                e@,
            ),
        },
{
    match text_field(value, key) {
        Some(s) => Ok(s),
        None => Err(Chain::new(three("missing string field `", key, "`"))),
    }
}

/// The strings in the array called `key`, or an error that names it.
pub open spec fn texts_required(d: JsonDoc, key: Seq<char>) -> Result<
    Seq<Seq<char>>,
    Seq<CauseModel>,
> {
    match d.texts_at(key) {
        Some(v) => Ok(v),
        None => Err(errors::saying("`"@ + key + "` is missing or not an array"@)),
    }
}

pub fn str_array(value: &Json, key: &str) -> (r: Result<Vec<String>, Chain>)
    ensures
        match r {
            Ok(v) => texts_required(json::doc(*value), key@) == Ok::<
                Seq<Seq<char>>,
                Seq<CauseModel>,
            >(text::texts(v@)),
            Err(e) => texts_required(json::doc(*value), key@) == Err::<
                Seq<Seq<char>>,
                Seq<CauseModel>,
            >(e@),
        },
{
    match texts_field(value, key) {
        Some(v) => Ok(v),
        None => Err(Chain::new(three("`", key, "` is missing or not an array"))),
    }
}

/// The sources that a body names, where the broker could not tell which one was
/// meant. The list decides it, not the status alone: a 404 is also what a bare web
/// server, a stale reverse proxy or a wrong hostname returns.
pub open spec fn sources_named(status: u16, body: Result<JsonDoc, Seq<char>>) -> Option<
    Seq<Seq<char>>,
> {
    match body {
        Ok(d) if status == 404 => match d.texts_at("sources"@) {
            Some(v) if v.len() > 0 => Some(v),
            _ => None,
        },
        _ => None,
    }
}

/// Whether an answer is the ambiguous one, given what parsing made of its body.
pub fn ambiguous_source_in(status: u16, body: &Result<Json, String>) -> (r: Option<AmbiguousSource>)
    ensures
        sources_named(
            status,
            match *body {
                Ok(j) => Ok(json::doc(j)),
                Err(e) => Err(e@),
            },
        ) == match r {
            Some(a) => Some(a@),
            None => None,
        },
{
    if status != 404 {
        return None;
    }
    match body {
        Ok(j) => match texts_field(j, "sources") {
            Some(sources) => {
                assert(text::texts(sources@).len() == sources@.len());
                if sources.len() > 0 {
                    Some(AmbiguousSource { sources })
                } else {
                    None
                }
            },
            None => None,
        },
        Err(_) => None,
    }
}

pub fn ambiguous_source(status: u16, body: &str) -> (r: Option<AmbiguousSource>)
    ensures
        sources_named(status, json::json_text(body@)) == match r {
            Some(a) => Some(a@),
            None => None,
        },
{
    let parsed = json::parse(body);
    ambiguous_source_in(status, &parsed)
}

/// What is said of an answer that is not a 200.
pub open spec fn status_refusal(url: Seq<char>, status: u16, body: Seq<char>) -> Seq<char> {
    "GET "@ + url + " returned "@ + text::decimal(status as nat) + ": "@ + text::trimmed(body)
}

fn refuse_status(url: &str, status: u16, body: &str) -> (r: Chain)
    ensures
        r@ == errors::saying(status_refusal(url@, status, body@)),
{
    let a = three("GET ", url, " returned ");
    let n = decimal_of(status as u64);
    let b = three(a.as_str(), n.as_str(), ": ");
    let t = trim(body);
    Chain::new(joined(b.as_str(), t.as_str()))
}

/// The document in an answer, or why there is none.
pub open spec fn document(url: Seq<char>, reply: ReplyModel) -> Result<JsonDoc, Seq<CauseModel>> {
    match reply {
        ReplyModel::Answered { status, body } => if status != 200 {
            Err(errors::saying(status_refusal(url, status, body)))
        } else {
            match json::json_text(body) {
                Ok(d) => Ok(d),
                Err(e) => Err(
                    errors::while_doing("parsing JSON from "@ + url, errors::saying(e)),
                ),
            }
        },
        _ => Err(http::get_failure(url, reply)),
    }
}

/// The `/config` document in an answer, or why there is none.
pub open spec fn config_document(url: Seq<char>, reply: ReplyModel) -> Result<
    JsonDoc,
    Seq<CauseModel>,
> {
    match reply {
        ReplyModel::Answered { status, body } => match sources_named(status, json::json_text(body)) {
            Some(sources) => Err(seq![CauseModel::Ambiguous(sources)]),
            None => document(url, reply),
        },
        _ => document(url, reply),
    }
}

fn fetch_json(url: &str, reply: Reply) -> (r: Result<Json, Chain>)
    ensures
        match r {
            Ok(j) => document(url@, reply@) == Ok::<JsonDoc, Seq<CauseModel>>(json::doc(j)),
            Err(e) => document(url@, reply@) == Err::<JsonDoc, Seq<CauseModel>>(e@),
        },
{
    let (status, body) = match get_text(url, reply) {
        Ok(answer) => answer,
        Err(e) => {
            return Err(e);
        },
    };
    if status != 200 {
        return Err(refuse_status(url, status, body.as_str()));
    }
    match json::parse(body.as_str()) {
        Ok(j) => Ok(j),
        Err(e) => {
            let context = joined("parsing JSON from ", url);
            Err(Chain::new(e).context(context.as_str()))
        },
    }
}

fn fetch_broker_config(url: &str, reply: Reply) -> (r: Result<Json, Chain>)
    ensures
        match r {
            Ok(j) => config_document(url@, reply@) == Ok::<JsonDoc, Seq<CauseModel>>(json::doc(j)),
            Err(e) => config_document(url@, reply@) == Err::<JsonDoc, Seq<CauseModel>>(e@),
        },
{
    if let Reply::Answered { status, body } = &reply {
        if let Some(a) = ambiguous_source(*status, body.as_str()) {
            return Err(Chain::of(Cause::Ambiguous(a)));
        }
    }
    fetch_json(url, reply)
}

// ------------------------------------------------------------------- the base

/// The base that a resolved reference gives: never off the origin that was asked.
pub open spec fn settled(
    asked: Option<OriginModel>,
    reference: Seq<char>,
    resolved: Result<(Seq<char>, Option<OriginModel>), Seq<char>>,
) -> Result<Seq<char>, Seq<CauseModel>> {
    match resolved {
        Err(e) => Err(
            errors::saying(
                "/config base_url `"@ + reference + "` is not a URL reference ("@ + e + ")"@,
            ),
        ),
        Ok((href, origin)) => if address::same_origin(origin, asked) {
            Ok(text::without_trailing(href, '/'))
        } else {
            Err(
                errors::saying(
                    "/config base_url `"@ + reference + "` points off `"@ + address::origin_text(
                        asked,
                    ) + "`"@,
                ),
            )
        },
    }
}

/// A URL with its origin, or what is wrong with it.
pub open spec fn resolution(r: Result<(String, Option<Origin>), String>) -> Result<
    (Seq<char>, Option<OriginModel>),
    Seq<char>,
> {
    match r {
        Ok((href, origin)) => Ok((href@, address::origin_view(origin))),
        Err(e) => Err(e@),
    }
}

/// The base that a reference settles to, given the origin that was asked and what
/// resolving the reference made of it.
pub fn settle_base(
    asked: &Option<Origin>,
    reference: &str,
    resolved: &Result<(String, Option<Origin>), String>,
) -> (r: Result<String, Chain>)
    ensures
        match r {
            Ok(s) => settled(address::origin_view(*asked), reference@, resolution(*resolved))
                == Ok::<Seq<char>, Seq<CauseModel>>(s@),
            Err(e) => settled(address::origin_view(*asked), reference@, resolution(*resolved))
                == Err::<Seq<char>, Seq<CauseModel>>(e@),
        },
{
    let named = joined("/config base_url `", reference);
    match resolved {
        Err(e) => {
            let a = three(named.as_str(), "` is not a URL reference (", e.as_str());
            Err(Chain::new(joined(a.as_str(), ")")))
        },
        Ok((href, origin)) => {
            if shares_origin(origin, asked) {
                Ok(without_slash(href.as_str()))
            } else {
                let place = match asked {
                    Some(o) => o.text.as_str(),
                    None => "null",
                };
                let b = three(named.as_str(), "` points off `", place);
                Err(Chain::new(joined(b.as_str(), "`")))
            }
        },
    }
}

/// What resolving a reference against a base gives: the URL and its origin.
pub open spec fn resolved_against(base: Seq<char>, reference: Seq<char>) -> Result<
    (Seq<char>, Option<OriginModel>),
    Seq<char>,
> {
    match address::url_join(base, reference) {
        Ok(a) => Ok((a.href, address::origin_of(a.href))),
        Err(e) => Err(e),
    }
}

/// The base the rest of this run's broker calls hang off, from the `base_url` in
/// the document and the address it was fetched from.
pub open spec fn base_of(config_url: Seq<char>, d: JsonDoc) -> Result<
    Seq<char>,
    Seq<CauseModel>,
> {
    match address::url_parse(config_url) {
        Err(e) => Err(errors::saying("not a URL: `"@ + config_url + "` ("@ + e + ")"@)),
        Ok(asked) => match address::url_join(asked.href, "."@) {
            Err(e) => Err(errors::saying("no base for `"@ + config_url + "` ("@ + e + ")"@)),
            Ok(base) => match d.text_at("base_url"@) {
                None => Ok(text::without_trailing(base.href, '/')),
                Some(reference) => settled(
                    address::origin_of(asked.href),
                    reference,
                    resolved_against(base.href, reference),
                ),
            },
        },
    }
}

/// Resolved as a reference against the address asked, so a broker that answers a
/// bare `/config` can say "you reached `entra`" without knowing the deployment's
/// public name -- it sits on loopback behind a reverse proxy and does not have
/// one.
///
/// Absent on a broker predating source routing, which reads as "the address you
/// asked is the base".
pub fn resolve_base_url(config_url: &str, config: &Json) -> (r: Result<String, Chain>)
    ensures
        match r {
            Ok(s) => base_of(config_url@, json::doc(*config)) == Ok::<Seq<char>, Seq<CauseModel>>(
                s@,
            ),
            Err(e) => base_of(config_url@, json::doc(*config)) == Err::<Seq<char>, Seq<CauseModel>>(
                e@,
            ),
        },
{
    let asked = match parse(config_url) {
        Ok(a) => a,
        Err(e) => {
            let a = three("not a URL: `", config_url, "` (");
            return Err(Chain::new(three(a.as_str(), e.as_str(), ")")));
        },
    };
    let base = match address::join(asked.href.as_str(), ".") {
        Ok(a) => a,
        Err(e) => {
            let a = three("no base for `", config_url, "` (");
            return Err(Chain::new(three(a.as_str(), e.as_str(), ")")));
        },
    };
    match text_field(config, "base_url") {
        None => Ok(without_slash(base.href.as_str())),
        Some(reference) => {
            let resolved = match address::join(base.href.as_str(), reference.as_str()) {
                Ok(a) => {
                    let origin = address::origin(a.href.as_str());
                    Ok((a.href, origin))
                },
                Err(e) => Err(e),
            };
            let asked = address::origin(asked.href.as_str());
            settle_base(&asked, reference.as_str(), &resolved)
        },
    }
}

// ---------------------------------------------------------------- the requests

/// Where a broker's `/config` is, or why the broker is not asked.
pub fn config_url(broker_url: &str) -> (r: Result<String, Chain>)
    ensures
        r is Ok <==> address::is_https(broker_url@),
        r matches Ok(url) ==> url@ == text::without_trailing(broker_url@, '/') + "/config"@,
        r matches Err(e) ==> e@ == errors::saying(address::https_refusal(broker_url@)),
{
    match require_https(broker_url) {
        Ok(()) => {
            let base = without_slash(broker_url);
            Ok(joined(base.as_str(), "/config"))
        },
        Err(e) => Err(e),
    }
}

/// The `/config` document and the base it resolves to.
pub open spec fn config_and_base(url: Seq<char>, reply: ReplyModel) -> Result<
    (JsonDoc, Seq<char>),
    Seq<CauseModel>,
> {
    match config_document(url, reply) {
        Err(e) => Err(errors::while_doing("fetching broker /config"@, e)),
        Ok(d) => match base_of(url, d) {
            Err(e) => Err(e),
            Ok(base) => Ok((d, base)),
        },
    }
}

fn fetch_config_and_base(url: &str, reply: Reply) -> (r: Result<(Json, String), Chain>)
    ensures
        match r {
            Ok((j, base)) => config_and_base(url@, reply@) == Ok::<
                (JsonDoc, Seq<char>),
                Seq<CauseModel>,
            >((json::doc(j), base@)),
            Err(e) => config_and_base(url@, reply@) == Err::<
                (JsonDoc, Seq<char>),
                Seq<CauseModel>,
            >(e@),
        },
{
    let config = match fetch_broker_config(url, reply) {
        Ok(c) => c,
        Err(e) => {
            return Err(e.context("fetching broker /config"));
        },
    };
    match resolve_base_url(url, &config) {
        Ok(base) => Ok((config, base)),
        Err(e) => Err(e),
    }
}

/// Which source this address reaches, and nothing else: no OIDC metadata, unlike a
/// whole discovery. The device-grant paths need that -- a machine proving itself
/// with its own key must reach a ticket with the IdP unreachable.
///
/// `url` is the one [`config_url`] gave, and `reply` what asking it came to.
pub fn source_base(url: &str, reply: Reply) -> (r: Result<String, Chain>)
    ensures
        match r {
            Ok(base) => config_and_base(url@, reply@) matches Ok(read) && read.1 == base@,
            Err(e) => config_and_base(url@, reply@) == Err::<
                (JsonDoc, Seq<char>),
                Seq<CauseModel>,
            >(e@),
        },
{
    match fetch_config_and_base(url, reply) {
        Ok((_, base)) => Ok(base),
        Err(e) => Err(e),
    }
}

/// What `/config` says on its own, before the authority it names was asked.
pub struct ConfigRead {
    pub base_url: String,
    pub client_id: String,
    pub display_name: String,
    pub authority: String,
    pub scopes: Vec<String>,
    pub kerberos: KerberosConfig,
    pub device_grant: DeviceGrantConfig,
    pub defaults: Defaults,
    pub help_url: Option<String>,
}

#[verifier::ext_equal]
pub struct ConfigReadModel {
    pub base_url: Seq<char>,
    pub client_id: Seq<char>,
    pub display_name: Seq<char>,
    pub authority: Seq<char>,
    pub scopes: Seq<Seq<char>>,
    pub kerberos: KerberosModel,
    pub device_grant: DeviceGrantModel,
    pub defaults: Defaults,
    pub help_url: Option<Seq<char>>,
}

impl View for ConfigRead {
    type V = ConfigReadModel;

    open spec fn view(&self) -> ConfigReadModel {
        ConfigReadModel {
            base_url: self.base_url@,
            client_id: self.client_id@,
            display_name: self.display_name@,
            authority: self.authority@,
            scopes: text::texts(self.scopes@),
            kerberos: self.kerberos@,
            device_grant: self.device_grant@,
            defaults: self.defaults,
            help_url: text::opt_text(self.help_url),
        }
    }
}

/// A string that must be there, with where it was looked for.
pub open spec fn text_in(d: JsonDoc, key: Seq<char>, place: Seq<char>) -> Result<
    Seq<char>,
    Seq<CauseModel>,
> {
    match text_required(d, key) {
        Ok(s) => Ok(s),
        Err(e) => Err(errors::while_doing(place, e)),
    }
}

fn str_field_in(value: &Json, key: &str, place: &str) -> (r: Result<String, Chain>)
    ensures
        match r {
            Ok(s) => text_in(json::doc(*value), key@, place@) == Ok::<Seq<char>, Seq<CauseModel>>(
                s@,
            ),
            Err(e) => text_in(json::doc(*value), key@, place@) == Err::<
                Seq<char>,
                Seq<CauseModel>,
            >(e@),
        },
{
    match str_field(value, key) {
        Ok(s) => Ok(s),
        Err(e) => Err(e.context(place)),
    }
}

/// A URL that must be `https`, with what names it.
pub open spec fn https_in(url: Seq<char>, place: Seq<char>) -> Result<(), Seq<CauseModel>> {
    if address::is_https(url) {
        Ok(())
    } else {
        Err(errors::while_doing(place, errors::saying(address::https_refusal(url))))
    }
}

fn require_https_in(url: &str, place: &str) -> (r: Result<(), Chain>)
    ensures
        match r {
            Ok(()) => https_in(url@, place@) == Ok::<(), Seq<CauseModel>>(()),
            Err(e) => https_in(url@, place@) == Err::<(), Seq<CauseModel>>(e@),
        },
{
    match require_https(url) {
        Ok(()) => Ok(()),
        Err(e) => Err(e.context(place)),
    }
}

/// What the deployment allows in the way of device grants. Absent entirely on a
/// broker predating them, which reads as off.
pub open spec fn grants_in(d: JsonDoc) -> DeviceGrantModel {
    match d.member("device_grant"@) {
        None => no_grants(),
        Some(block) => DeviceGrantModel {
            days: match block.u64_at("days"@) {
                Some(n) => (n as int % 0x1_0000_0000) as u32,
                None => 0,
            },
            audience: text::or_nothing(block.text_at("audience"@)),
        },
    }
}

pub fn read_grants(config: &Json) -> (r: DeviceGrantConfig)
    ensures
        r@ == grants_in(json::doc(*config)),
{
    match config.get("device_grant") {
        None => DeviceGrantConfig::default(),
        Some(block) => DeviceGrantConfig {
            days: match u64_field(block, "days") {
                Some(n) => (n % 0x1_0000_0000) as u32,
                None => 0,
            },
            audience: match text_field(block, "audience") {
                Some(s) => s,
                None => String::new(),
            },
        },
    }
}

/// What the deployment prefers. A field of the wrong type reads as absent: this
/// decides convenience, never access, so a typo in it may not be what stops a
/// machine signing in.
pub open spec fn defaults_in(d: JsonDoc) -> Defaults {
    match d.member("client_defaults"@) {
        None => no_defaults(),
        Some(block) => Defaults {
            autostart: block.bool_at("autostart"@),
            windows_sign_in: block.bool_at("windows_sign_in"@),
            ntlm_fallback_recovery: block.bool_at("ntlm_fallback_recovery"@),
        },
    }
}

pub fn read_defaults(config: &Json) -> (r: Defaults)
    ensures
        r == defaults_in(json::doc(*config)),
{
    match config.get("client_defaults") {
        None => Defaults::default(),
        Some(block) => Defaults {
            autostart: bool_field(block, "autostart"),
            windows_sign_in: bool_field(block, "windows_sign_in"),
            ntlm_fallback_recovery: bool_field(block, "ntlm_fallback_recovery"),
        },
    }
}

/// The help page, where there is one over TLS. A plaintext one is dropped rather
/// than refused with the whole document: a mistyped help link must not stop this
/// machine signing in.
pub open spec fn help_in(d: JsonDoc) -> Option<Seq<char>> {
    match d.text_at("help_url"@) {
        Some(url) if address::is_https(url) => Some(url),
        _ => None,
    }
}

pub fn read_help(config: &Json) -> (r: Option<String>)
    ensures
        text::opt_text(r) == help_in(json::doc(*config)),
{
    match text_field(config, "help_url") {
        Some(url) => if require_https(url.as_str()).is_ok() {
            Some(url)
        } else {
            None
        },
        None => None,
    }
}

/// The realm in its block. Both lists are optional: absent means "none", which is
/// the common layout.
pub open spec fn realm_in(d: JsonDoc) -> Result<KerberosModel, Seq<CauseModel>> {
    match d.member("kerberos"@) {
        None => Err(errors::saying("/config has no `kerberos` block"@)),
        Some(block) => match text_in(block, "realm"@, "/config kerberos"@) {
            Err(e) => Err(e),
            Ok(realm) => Ok(
                KerberosModel {
                    realm: encode::uppercased(realm),
                    kdcs: match block.texts_at("kdcs"@) {
                        Some(v) => v,
                        None => Seq::empty(),
                    },
                    services: match block.texts_at("services"@) {
                        Some(v) => v,
                        None => Seq::empty(),
                    },
                },
            ),
        },
    }
}

fn texts_or_none(value: &Json, key: &str) -> (r: Vec<String>)
    ensures
        text::texts(r@) == match json::doc(*value).texts_at(key@) {
            Some(v) => v,
            None => Seq::empty(),
        },
{
    match texts_field(value, key) {
        Some(v) => v,
        None => {
            let none: Vec<String> = Vec::new();
            assert(text::texts(none@) =~= Seq::empty());
            none
        },
    }
}

pub fn read_realm(config: &Json) -> (r: Result<KerberosConfig, Chain>)
    ensures
        match r {
            Ok(k) => realm_in(json::doc(*config)) == Ok::<KerberosModel, Seq<CauseModel>>(k@),
            Err(e) => realm_in(json::doc(*config)) == Err::<KerberosModel, Seq<CauseModel>>(e@),
        },
{
    let block = match config.get("kerberos") {
        Some(block) => block,
        None => {
            return Err(Chain::new("/config has no `kerberos` block".to_owned()));
        },
    };
    let realm = match str_field_in(block, "realm", "/config kerberos") {
        Ok(s) => s,
        Err(e) => {
            return Err(e);
        },
    };
    Ok(
        KerberosConfig {
            realm: uppercase(realm.as_str()),
            kdcs: texts_or_none(block, "kdcs"),
            services: texts_or_none(block, "services"),
        },
    )
}

/// Client id, display name, authority and scopes: the public client a browser
/// sign-in runs as.
pub open spec fn client_in(d: JsonDoc) -> Result<
    (Seq<char>, Seq<char>, Seq<char>, Seq<Seq<char>>),
    Seq<CauseModel>,
> {
    match d.member("oidc"@) {
        None => Err(errors::saying("/config has no `oidc` block"@)),
        Some(block) => match text_in(block, "client_id"@, "/config oidc"@) {
            Err(e) => Err(e),
            Ok(client_id) => match text_in(block, "display_name"@, "/config oidc"@) {
                Err(e) => Err(e),
                Ok(display_name) => match text_in(block, "authority"@, "/config oidc"@) {
                    Err(e) => Err(e),
                    Ok(authority) => match texts_required(block, "scopes"@) {
                        Err(e) => Err(errors::while_doing("/config oidc"@, e)),
                        Ok(scopes) => if scopes.len() == 0 {
                            Err(errors::saying("/config oidc.scopes is empty"@))
                        } else {
                            Ok((client_id, display_name, authority, scopes))
                        },
                    },
                },
            },
        },
    }
}

pub fn read_client(config: &Json) -> (r: Result<(String, String, String, Vec<String>), Chain>)
    ensures
        match r {
            Ok((i, n, a, s)) => client_in(json::doc(*config)) == Ok::<
                (Seq<char>, Seq<char>, Seq<char>, Seq<Seq<char>>),
                Seq<CauseModel>,
            >((i@, n@, a@, text::texts(s@))),
            Err(e) => client_in(json::doc(*config)) == Err::<
                (Seq<char>, Seq<char>, Seq<char>, Seq<Seq<char>>),
                Seq<CauseModel>,
            >(e@),
        },
{
    let block = match config.get("oidc") {
        Some(block) => block,
        None => {
            return Err(Chain::new("/config has no `oidc` block".to_owned()));
        },
    };
    let client_id = match str_field_in(block, "client_id", "/config oidc") {
        Ok(s) => s,
        Err(e) => {
            return Err(e);
        },
    };
    let display_name = match str_field_in(block, "display_name", "/config oidc") {
        Ok(s) => s,
        Err(e) => {
            return Err(e);
        },
    };
    let authority = match str_field_in(block, "authority", "/config oidc") {
        Ok(s) => s,
        Err(e) => {
            return Err(e);
        },
    };
    let scopes = match str_array(block, "scopes") {
        Ok(v) => v,
        Err(e) => {
            return Err(e.context("/config oidc"));
        },
    };
    assert(text::texts(scopes@).len() == scopes@.len());
    if scopes.len() == 0 {
        return Err(Chain::new("/config oidc.scopes is empty".to_owned()));
    }
    Ok((client_id, display_name, authority, scopes))
}

/// The whole of what a `/config` document says, with the base it was settled to.
pub open spec fn config_in(d: JsonDoc, base_url: Seq<char>) -> Result<
    ConfigReadModel,
    Seq<CauseModel>,
> {
    match client_in(d) {
        Err(e) => Err(e),
        Ok((client_id, display_name, authority, scopes)) => match realm_in(d) {
            Err(e) => Err(e),
            Ok(kerberos) => match https_in(authority, "/config oidc.authority"@) {
                Err(e) => Err(e),
                Ok(_) => Ok(
                    ConfigReadModel {
                        base_url,
                        client_id,
                        display_name,
                        authority,
                        scopes,
                        kerberos,
                        device_grant: grants_in(d),
                        defaults: defaults_in(d),
                        help_url: help_in(d),
                    },
                ),
            },
        },
    }
}

/// The whole of what `/config` says.
pub open spec fn config_read(url: Seq<char>, reply: ReplyModel) -> Result<
    ConfigReadModel,
    Seq<CauseModel>,
> {
    match config_and_base(url, reply) {
        Err(e) => Err(e),
        Ok((d, base_url)) => config_in(d, base_url),
    }
}

/// What a `/config` document says, once it is one and its base is settled.
pub fn config_of(config: &Json, base_url: String) -> (r: Result<ConfigRead, Chain>)
    ensures
        match r {
            Ok(c) => config_in(json::doc(*config), base_url@) == Ok::<
                ConfigReadModel,
                Seq<CauseModel>,
            >(c@),
            Err(e) => config_in(json::doc(*config), base_url@) == Err::<
                ConfigReadModel,
                Seq<CauseModel>,
            >(e@),
        },
{
    let (client_id, display_name, authority, scopes) = match read_client(config) {
        Ok(client) => client,
        Err(e) => {
            return Err(e);
        },
    };
    let kerberos = match read_realm(config) {
        Ok(k) => k,
        Err(e) => {
            return Err(e);
        },
    };
    // The helper does not trust the broker to name the token endpoints; it runs
    // standard discovery against the authority itself.
    if let Err(e) = require_https_in(authority.as_str(), "/config oidc.authority") {
        return Err(e);
    }
    Ok(
        ConfigRead {
            base_url,
            client_id,
            display_name,
            authority,
            scopes,
            kerberos,
            device_grant: read_grants(config),
            defaults: read_defaults(config),
            help_url: read_help(config),
        },
    )
}

/// What `/config` says. `url` is the one [`config_url`] gave, and `reply` what
/// asking it came to.
pub fn read_config(url: &str, reply: Reply) -> (r: Result<ConfigRead, Chain>)
    ensures
        match r {
            Ok(c) => config_read(url@, reply@) == Ok::<ConfigReadModel, Seq<CauseModel>>(c@),
            Err(e) => config_read(url@, reply@) == Err::<ConfigReadModel, Seq<CauseModel>>(e@),
        },
{
    match fetch_config_and_base(url, reply) {
        Ok((config, base_url)) => config_of(&config, base_url),
        Err(e) => Err(e),
    }
}

/// Where an authority's discovery document is.
pub fn metadata_url(authority: &str) -> (r: String)
    ensures
        r@ == text::without_trailing(authority@, '/') + "/.well-known/openid-configuration"@,
{
    let base = without_slash(authority);
    joined(base.as_str(), "/.well-known/openid-configuration")
}

/// The endpoints an authority's discovery document names. The three arrive from
/// the network and are where the secrets go, so none of them may be plaintext.
pub open spec fn endpoints_in(d: JsonDoc) -> Result<
    (Seq<char>, Seq<char>, Option<Seq<char>>),
    Seq<CauseModel>,
> {
    match text_in(d, "authorization_endpoint"@, "OIDC metadata"@) {
        Err(e) => Err(e),
        Ok(authorization) => match text_in(d, "token_endpoint"@, "OIDC metadata"@) {
            Err(e) => Err(e),
            Ok(token) => {
                let logout = d.text_at("end_session_endpoint"@);
                match https_in(authorization, "OIDC metadata authorization_endpoint"@) {
                    Err(e) => Err(e),
                    Ok(_) => match https_in(token, "OIDC metadata token_endpoint"@) {
                        Err(e) => Err(e),
                        Ok(_) => match logout {
                            None => Ok((authorization, token, logout)),
                            Some(url) => match https_in(
                                url,
                                "OIDC metadata end_session_endpoint"@,
                            ) {
                                Err(e) => Err(e),
                                Ok(_) => Ok((authorization, token, logout)),
                            },
                        },
                    },
                }
            },
        },
    }
}

pub fn read_endpoints(metadata: &Json) -> (r: Result<(String, String, Option<String>), Chain>)
    ensures
        match r {
            Ok((a, t, l)) => endpoints_in(json::doc(*metadata)) == Ok::<
                (Seq<char>, Seq<char>, Option<Seq<char>>),
                Seq<CauseModel>,
            >((a@, t@, text::opt_text(l))),
            Err(e) => endpoints_in(json::doc(*metadata)) == Err::<
                (Seq<char>, Seq<char>, Option<Seq<char>>),
                Seq<CauseModel>,
            >(e@),
        },
{
    let authorization = match str_field_in(metadata, "authorization_endpoint", "OIDC metadata") {
        Ok(s) => s,
        Err(e) => {
            return Err(e);
        },
    };
    let token = match str_field_in(metadata, "token_endpoint", "OIDC metadata") {
        Ok(s) => s,
        Err(e) => {
            return Err(e);
        },
    };
    let logout = text_field(metadata, "end_session_endpoint");
    if let Err(e) = require_https_in(
        authorization.as_str(),
        "OIDC metadata authorization_endpoint",
    ) {
        return Err(e);
    }
    if let Err(e) = require_https_in(token.as_str(), "OIDC metadata token_endpoint") {
        return Err(e);
    }
    if let Some(url) = &logout {
        // Refused rather than dropped: silently disabling cloud logout would leave
        // the tray offering a sign-out that no longer signs out.
        if let Err(e) = require_https_in(url.as_str(), "OIDC metadata end_session_endpoint") {
            return Err(e);
        }
    }
    Ok((authorization, token, logout))
}

/// The whole discovery, once the authority's document is there too.
pub open spec fn completed(c: ConfigReadModel, d: JsonDoc) -> Result<BrokerModel, Seq<CauseModel>> {
    match endpoints_in(d) {
        Err(e) => Err(e),
        Ok((authorization_endpoint, token_endpoint, end_session_endpoint)) => Ok(
            BrokerModel {
                base_url: c.base_url,
                oidc: OidcModel {
                    client_id: c.client_id,
                    display_name: c.display_name,
                    authority: c.authority,
                    scopes: c.scopes,
                    authorization_endpoint,
                    token_endpoint,
                    end_session_endpoint,
                },
                kerberos: c.kerberos,
                device_grant: c.device_grant,
                defaults: c.defaults,
                help_url: c.help_url,
            },
        ),
    }
}

/// The whole discovery, once the authority has answered too.
pub open spec fn discovered(c: ConfigReadModel, url: Seq<char>, reply: ReplyModel) -> Result<
    BrokerModel,
    Seq<CauseModel>,
> {
    match document(url, reply) {
        Err(e) => Err(errors::while_doing("fetching OIDC discovery document"@, e)),
        Ok(d) => completed(c, d),
    }
}

/// What `/config` said, with the endpoints that the authority's document names.
pub fn complete(config: ConfigRead, metadata: &Json) -> (r: Result<BrokerConfig, Chain>)
    ensures
        match r {
            Ok(b) => completed(config@, json::doc(*metadata)) == Ok::<
                BrokerModel,
                Seq<CauseModel>,
            >(b@),
            Err(e) => completed(config@, json::doc(*metadata)) == Err::<
                BrokerModel,
                Seq<CauseModel>,
            >(e@),
        },
{
    match read_endpoints(metadata) {
        Err(e) => Err(e),
        Ok((authorization_endpoint, token_endpoint, end_session_endpoint)) => Ok(
            BrokerConfig {
                base_url: config.base_url,
                oidc: OidcConfig {
                    client_id: config.client_id,
                    display_name: config.display_name,
                    authority: config.authority,
                    scopes: config.scopes,
                    authorization_endpoint,
                    token_endpoint,
                    end_session_endpoint,
                },
                kerberos: config.kerberos,
                device_grant: config.device_grant,
                defaults: config.defaults,
                help_url: config.help_url,
            },
        ),
    }
}

/// The whole discovery. `url` is the one [`metadata_url`] gave for the authority
/// in `config`, and `reply` what asking it came to.
pub fn read_metadata(config: ConfigRead, url: &str, reply: Reply) -> (r: Result<BrokerConfig, Chain>)
    ensures
        match r {
            Ok(b) => discovered(config@, url@, reply@) == Ok::<BrokerModel, Seq<CauseModel>>(b@),
            Err(e) => discovered(config@, url@, reply@) == Err::<BrokerModel, Seq<CauseModel>>(e@),
        },
{
    match fetch_json(url, reply) {
        Ok(metadata) => complete(config, &metadata),
        Err(e) => Err(e.context("fetching OIDC discovery document")),
    }
}

// ------------------------------------------------------------------------ laws

/// A base that the broker names may not move the client off the origin it reached:
/// wherever a document names one and a base comes of it, that base is a URL of the
/// origin that was asked.
pub proof fn law_a_base_stays_on_its_origin(config_url: Seq<char>, d: JsonDoc)
    requires
        d.text_at("base_url"@) is Some,
        base_of(config_url, d) is Ok,
    ensures
        ({
            let asked = address::url_parse(config_url)->Ok_0;
            let base = address::url_join(asked.href, "."@)->Ok_0;
            let resolved = address::url_join(base.href, d.text_at("base_url"@)->0)->Ok_0;
            address::same_origin(address::origin_of(resolved.href), address::origin_of(asked.href))
                && base_of(config_url, d)->Ok_0
                == text::without_trailing(resolved.href, '/')
        }),
{
}

/// Nothing that a discovery hands on is reached over plaintext: not the authority,
/// not an endpoint, not the help page.
pub proof fn law_nothing_discovered_is_plaintext(
    config_url: Seq<char>,
    config_reply: ReplyModel,
    metadata_url: Seq<char>,
    metadata_reply: ReplyModel,
)
    requires
        config_read(config_url, config_reply) is Ok,
        discovered(
            config_read(config_url, config_reply)->Ok_0,
            metadata_url,
            metadata_reply,
        ) is Ok,
    ensures
        ({
            let b = discovered(
                config_read(config_url, config_reply)->Ok_0,
                metadata_url,
                metadata_reply,
            )->Ok_0;
            &&& address::is_https(b.oidc.authority)
            &&& address::is_https(b.oidc.authorization_endpoint)
            &&& address::is_https(b.oidc.token_endpoint)
            &&& b.oidc.end_session_endpoint is Some ==> address::is_https(
                b.oidc.end_session_endpoint->0,
            )
            &&& b.help_url is Some ==> address::is_https(b.help_url->0)
            &&& b.oidc.scopes.len() > 0
        }),
{
}

/// Whether an answer is a 404 whose body lists at least one source.
pub open spec fn lists_sources(reply: ReplyModel) -> bool {
    match reply {
        ReplyModel::Answered { status, body } => match json::json_text(body) {
            Ok(d) => status == 404 && (d.texts_at("sources"@) matches Some(v) && v.len() > 0),
            Err(_) => false,
        },
        _ => false,
    }
}

/// An answer that lists the sources it could have meant is told apart from every
/// other one, whatever the rest of it says, and no other answer is.
pub proof fn law_only_a_404_naming_sources_is_ambiguous(url: Seq<char>, reply: ReplyModel)
    ensures
        (config_document(url, reply) matches Err(e) && errors::first_ambiguous(e) is Some)
            <==> lists_sources(reply),
{
    reveal_with_fuel(errors::first_ambiguous, 3);
    match reply {
        ReplyModel::Answered { status, body } => {},
        ReplyModel::Failed(f) => {},
        ReplyModel::Unread(e) => {
            let c = http::get_failure(url, reply);
            assert(c =~= seq![CauseModel::Said("reading response body"@), CauseModel::Said(e)]);
        },
    }
    if let ReplyModel::Answered { status, body } = reply {
        if let Err(e) = json::json_text(body) {
            let c = errors::while_doing("parsing JSON from "@ + url, errors::saying(e));
            assert(c.drop_first() =~= errors::saying(e));
        }
    }
}

/// What a discovery hands on stands in the two documents it was read from, each thing under
/// its own key: the public client, the realm and the deployment's policies in the broker's,
/// the three endpoints in the authority's.
pub proof fn law_a_discovery_says_what_its_documents_say(
    config_url: Seq<char>,
    config: Seq<char>,
    c: JsonDoc,
    metadata_url: Seq<char>,
    metadata: Seq<char>,
    m: JsonDoc,
    read: ConfigReadModel,
    b: BrokerModel,
)
    requires
        json::json_text(config) == Ok::<JsonDoc, Seq<char>>(c),
        json::json_text(metadata) == Ok::<JsonDoc, Seq<char>>(m),
        config_read(config_url, ReplyModel::Answered { status: 200, body: config }) == Ok::<
            ConfigReadModel,
            Seq<CauseModel>,
        >(read),
        discovered(read, metadata_url, ReplyModel::Answered { status: 200, body: metadata })
            == Ok::<BrokerModel, Seq<CauseModel>>(b),
    ensures
        m.text_at("authorization_endpoint"@) == Some(b.oidc.authorization_endpoint),
        m.text_at("token_endpoint"@) == Some(b.oidc.token_endpoint),
        m.text_at("end_session_endpoint"@) == b.oidc.end_session_endpoint,
        c.member("oidc"@) matches Some(oidc) && oidc.text_at("client_id"@) == Some(
            b.oidc.client_id,
        ) && oidc.text_at("display_name"@) == Some(b.oidc.display_name) && oidc.text_at(
            "authority"@,
        ) == Some(b.oidc.authority) && oidc.texts_at("scopes"@) == Some(b.oidc.scopes),
        c.member("kerberos"@) matches Some(k) && (k.text_at("realm"@) matches Some(realm)
            && b.kerberos.realm == encode::uppercased(realm)) && b.kerberos.kdcs == (
        match k.texts_at("kdcs"@) {
            Some(v) => v,
            None => Seq::empty(),
        }) && b.kerberos.services == (match k.texts_at("services"@) {
            Some(v) => v,
            None => Seq::empty(),
        }),
        match c.member("device_grant"@) {
            Some(g) => (b.device_grant.days == (match g.u64_at("days"@) {
                Some(n) => n as int % 0x1_0000_0000,
                None => 0,
            }) && b.device_grant.audience == (match g.text_at("audience"@) {
                Some(a) => a,
                None => Seq::empty(),
            })),
            None => b.device_grant.days == 0 && b.device_grant.audience.len() == 0,
        },
        match c.member("client_defaults"@) {
            Some(p) => b.defaults.autostart == p.bool_at("autostart"@)
                && b.defaults.windows_sign_in == p.bool_at("windows_sign_in"@)
                && b.defaults.ntlm_fallback_recovery == p.bool_at("ntlm_fallback_recovery"@),
            None => b.defaults.autostart is None && b.defaults.windows_sign_in is None
                && b.defaults.ntlm_fallback_recovery is None,
        },
        b.help_url == (match c.text_at("help_url"@) {
            Some(u) => if address::url_parse(u) matches Ok(a) && a.scheme == "https"@ {
                Some(u)
            } else {
                None
            },
            None => None,
        }),
        base_of(config_url, c) == Ok::<Seq<char>, Seq<CauseModel>>(b.base_url),
{
}

/// A document that says what is needed is never refused: a `/config` with a client, a realm
/// and an authority over TLS is read, whatever else stands in it, and one that lacks any of
/// them is not.
pub proof fn law_what_a_config_needs(d: JsonDoc, base: Seq<char>)
    ensures
        config_in(d, base) is Ok <==> {
            &&& d.member("oidc"@) matches Some(oidc) && oidc.text_at("client_id"@) is Some
                && oidc.text_at("display_name"@) is Some && (oidc.text_at("authority"@) matches Some(
                authority,
            ) && (address::url_parse(authority) matches Ok(a) && a.scheme == "https"@)) && (
            oidc.texts_at("scopes"@) matches Some(scopes) && scopes.len() > 0)
            &&& d.member("kerberos"@) matches Some(k) && k.text_at("realm"@) is Some
        },
        config_in(d, base) matches Ok(c) ==> c.base_url == base,
{
}

/// An authority's document is taken exactly where it names both endpoints over TLS, and a
/// logout, if it names one, over TLS too.
pub proof fn law_what_a_metadata_document_needs(c: ConfigReadModel, d: JsonDoc)
    ensures
        completed(c, d) is Ok <==> {
            &&& d.text_at("authorization_endpoint"@) matches Some(a) && (address::url_parse(
                a,
            ) matches Ok(u) && u.scheme == "https"@)
            &&& d.text_at("token_endpoint"@) matches Some(t) && (address::url_parse(
                t,
            ) matches Ok(u) && u.scheme == "https"@)
            &&& d.text_at("end_session_endpoint"@) matches Some(l) ==> (address::url_parse(
                l,
            ) matches Ok(u) && u.scheme == "https"@)
        },
{
}

/// A document is read exactly where it was answered for with a 200 and parses, and then as
/// it stands; a `/config` also where an answer names no sources to choose from.
pub proof fn law_only_a_200_is_a_document(url: Seq<char>, reply: ReplyModel, d: JsonDoc)
    ensures
        document(url, reply) == Ok::<JsonDoc, Seq<CauseModel>>(d) <==> (
        reply matches ReplyModel::Answered { status, body } && status == 200 && json::json_text(
            body,
        ) == Ok::<JsonDoc, Seq<char>>(d)),
        config_document(url, reply) == Ok::<JsonDoc, Seq<CauseModel>>(d) <==> document(url, reply)
            == Ok::<JsonDoc, Seq<CauseModel>>(d),
{
}

/// Where a base comes from: a document that names none leaves the directory of the address
/// that was asked; one that names a reference moves inside the origin that was asked, and
/// is refused for anything else.
pub proof fn law_a_base_is_the_directory_or_a_reference_inside(url: Seq<char>, d: JsonDoc)
    ensures
        base_of(url, d) is Ok ==> address::url_parse(url) is Ok,
        address::url_parse(url) matches Ok(asked) ==> match address::url_join(asked.href, "."@) {
            Err(_) => base_of(url, d) is Err,
            Ok(dir) => match d.text_at("base_url"@) {
                None => base_of(url, d) == Ok::<Seq<char>, Seq<CauseModel>>(
                    text::without_trailing(dir.href, '/'),
                ),
                Some(reference) => base_of(url, d) is Ok <==> (address::url_join(
                    dir.href,
                    reference,
                ) matches Ok(r) && address::same_origin(
                    address::origin_of(r.href),
                    address::origin_of(asked.href),
                )),
            },
        },
{
}

/// Device grants are on exactly where the deployment gives them days and names an audience.
pub proof fn law_grants_are_on_with_days_and_an_audience(g: DeviceGrantModel)
    ensures
        g.is_enabled() <==> g.days > 0 && g.audience.len() > 0,
{
}

/// A base that a document names is that reference, resolved against the document's own
/// directory, without slashes at its end.
pub proof fn law_a_named_base_is_resolved(url: Seq<char>, d: JsonDoc, reference: Seq<char>)
    requires
        d.text_at("base_url"@) == Some(reference),
        base_of(url, d) is Ok,
    ensures
        ({
            let asked = address::url_parse(url)->Ok_0;
            let dir = address::url_join(asked.href, "."@)->Ok_0;
            let r = address::url_join(dir.href, reference)->Ok_0;
            &&& address::url_parse(url) is Ok
            &&& address::url_join(asked.href, "."@) is Ok
            &&& address::url_join(dir.href, reference) is Ok
            &&& base_of(url, d) == Ok::<Seq<char>, Seq<CauseModel>>(
                text::without_trailing(r.href, '/'),
            )
        }),
{
}

/// What a document lacks is said by its name, and where: the client's members in their
/// order, then the realm.
pub proof fn law_what_a_document_lacks_is_named(d: JsonDoc, base: Seq<char>, block: JsonDoc)
    ensures
        d.member("oidc"@) is None ==> config_in(d, base) == Err::<ConfigReadModel, Seq<CauseModel>>(
            errors::saying("/config has no `oidc` block"@),
        ),
        d.member("oidc"@) == Some(block) && block.text_at("client_id"@) is None ==> config_in(
            d,
            base,
        ) == Err::<ConfigReadModel, Seq<CauseModel>>(
            errors::while_doing(
                "/config oidc"@,
                errors::saying("missing string field `"@ + "client_id"@ + "`"@),
            ),
        ),
        d.member("oidc"@) == Some(block) && block.text_at("client_id"@) is Some && block.text_at(
            "display_name"@,
        ) is None ==> config_in(d, base) == Err::<ConfigReadModel, Seq<CauseModel>>(
            errors::while_doing(
                "/config oidc"@,
                errors::saying("missing string field `"@ + "display_name"@ + "`"@),
            ),
        ),
        d.member("oidc"@) == Some(block) && block.text_at("client_id"@) is Some && block.text_at(
            "display_name"@,
        ) is Some && block.text_at("authority"@) is None ==> config_in(d, base) == Err::<
            ConfigReadModel,
            Seq<CauseModel>,
        >(
            errors::while_doing(
                "/config oidc"@,
                errors::saying("missing string field `"@ + "authority"@ + "`"@),
            ),
        ),
        client_in(d) is Ok && d.member("kerberos"@) is None ==> config_in(d, base) == Err::<
            ConfigReadModel,
            Seq<CauseModel>,
        >(errors::saying("/config has no `kerberos` block"@)),
        client_in(d) is Ok && d.member("kerberos"@) == Some(block) && block.text_at("realm"@)
            is None ==> config_in(d, base) == Err::<ConfigReadModel, Seq<CauseModel>>(
            errors::while_doing(
                "/config kerberos"@,
                errors::saying("missing string field `"@ + "realm"@ + "`"@),
            ),
        ),
{
}

/// A refused fetch names its address, its status and what was said; a 404 that lists sources
/// is told by those, in their order.
pub proof fn law_a_refused_fetch_is_told(url: Seq<char>, status: u16, body: Seq<char>)
    ensures
        status != 200 ==> document(url, ReplyModel::Answered { status, body }) == Err::<
            JsonDoc,
            Seq<CauseModel>,
        >(
            errors::saying(
                "GET "@ + url + " returned "@ + text::decimal(status as nat) + ": "@
                    + text::trimmed(body),
            ),
        ),
        json::json_text(body) matches Ok(d) ==> (d.texts_at("sources"@) matches Some(v) ==> (v.len()
            > 0 ==> (config_document(url, ReplyModel::Answered { status: 404, body }) matches Err(e)
            && errors::first_ambiguous(e) == Some(v)))),
        json::json_text(body) matches Err(e) ==> document(
            url,
            ReplyModel::Answered { status: 200, body },
        ) == Err::<JsonDoc, Seq<CauseModel>>(
            errors::while_doing("parsing JSON from "@ + url, errors::saying(e)),
        ),
{
}

/// What contracts speak of is what the fields hold, each under its own name.
pub proof fn law_every_field_is_seen_under_its_name(o: OidcConfig, k: KerberosConfig, g: DeviceGrantConfig, b: BrokerConfig)
    ensures
        o@.client_id == o.client_id@,
        o@.display_name == o.display_name@,
        o@.authority == o.authority@,
        o@.scopes == text::texts(o.scopes@),
        o@.authorization_endpoint == o.authorization_endpoint@,
        o@.token_endpoint == o.token_endpoint@,
        o@.end_session_endpoint == text::opt_text(o.end_session_endpoint),
        k@.realm == k.realm@,
        k@.kdcs == text::texts(k.kdcs@),
        k@.services == text::texts(k.services@),
        g@.days == g.days,
        g@.audience == g.audience@,
        b@.base_url == b.base_url@,
        b@.oidc == b.oidc@,
        b@.kerberos == b.kerberos@,
        b@.device_grant == b.device_grant@,
        b@.defaults == b.defaults,
        b@.help_url == text::opt_text(b.help_url),
{
}

} // verus!
