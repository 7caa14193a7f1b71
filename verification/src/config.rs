//! Where the helper keeps its (non-secret) state, and who gets to decide what.
//!
//! Three layers, and the distinction is the whole point:
//!
//! * A policy layer -- what *IT* decided. Read-only to the agent, and it wins.
//! * `config.toml` -- what *this user* chose.
//! * The deployment defaults -- what the broker's `/config` says a client here
//!   should do when nobody above has said.
//!
//! **A setting the user has not touched is absent from the file, never written
//! out at its default.** That is what leaves room for the layer below: a stated
//! value cannot be told apart from a decision.
//!
//! **No secret is stored in any of them.**

use crate::discovery::{Defaults, KerberosConfig, KerberosModel};
use crate::text;
use crate::text::{copied, copied_all, has_text, joined, owned, same_all, same_opt, trim};
use vstd::prelude::*;
use vstd::string::*;

verus! {

/// Folder name for this user's state. The product name, not a component name,
/// and the same string on every platform.
pub const APP_DIR: &'static str = "KerBridge";

/// The broker's Kerberos block as last discovered, persisted so the tray can
/// render and check enrollment offline.
pub struct Cache {
    pub realm: String,
    pub kdcs: Vec<String>,
    pub services: Vec<String>,
}

impl View for Cache {
    type V = KerberosModel;

    open spec fn view(&self) -> KerberosModel {
        KerberosModel {
            realm: self.realm@,
            kdcs: text::texts(self.kdcs@),
            services: text::texts(self.services@),
        }
    }
}

impl Cache {
    pub fn to_kerberos(&self) -> (r: KerberosConfig)
        ensures
            r@ == self@,
    {
        KerberosConfig {
            realm: self.realm.clone(),
            kdcs: copied_all(&self.kdcs),
            services: copied_all(&self.services),
        }
    }
}

/// The device grant this machine holds, as far as this machine knows.
///
/// Not a secret and deliberately not authoritative: the key itself lives in the
/// TPM and the grant itself lives in the directory. Every field is re-checked
/// server-side on every exchange, so a stale copy costs a refused request, never
/// access.
pub struct Grant {
    /// The operator handle, for self-revocation at sign-out.
    pub grant_id: String,
    /// The `kb1|` value to claim.
    pub identity: String,
    /// The realm principal this grant last obtained, learned from the exchange
    /// itself. `None` until one exchange has run. The only way the agent can tell
    /// a ticket the grant produced from one somebody else's sign-in left behind.
    pub principal: Option<String>,
    /// What an assertion must name, copied from `/config` at grant time.
    pub audience: String,
    /// Unix seconds by which someone must sign in through a browser again.
    pub sign_in_required_by: i64,
}

#[verifier::ext_equal]
pub struct GrantModel {
    pub grant_id: Seq<char>,
    pub identity: Seq<char>,
    pub principal: Option<Seq<char>>,
    pub audience: Seq<char>,
    pub sign_in_required_by: i64,
}

impl View for Grant {
    type V = GrantModel;

    open spec fn view(&self) -> GrantModel {
        GrantModel {
            grant_id: self.grant_id@,
            identity: self.identity@,
            principal: text::opt_text(self.principal),
            audience: self.audience@,
            sign_in_required_by: self.sign_in_required_by,
        }
    }
}

impl Clone for Grant {
    fn clone(&self) -> (r: Self)
        ensures
            r@ == self@,
    {
        Grant {
            grant_id: self.grant_id.clone(),
            identity: self.identity.clone(),
            principal: copied(&self.principal),
            audience: self.audience.clone(),
            sign_in_required_by: self.sign_in_required_by,
        }
    }
}

/// The grant behind an optional one.
pub open spec fn opt_grant(g: Option<Grant>) -> Option<GrantModel> {
    match g {
        Some(g) => Some(g@),
        None => None,
    }
}

/// A copy of an optional grant.
pub fn copied_grant(g: Option<&Grant>) -> (r: Option<Grant>)
    ensures
        match (r, g) {
            (Some(a), Some(b)) => a@ == b@,
            (None, None) => true,
            _ => false,
        },
{
    match g {
        Some(g) => Some(g.clone()),
        None => None,
    }
}

/// `config.toml` itself.
pub struct FileConfig {
    pub broker_url: Option<String>,
    /// Whom this machine authorizes itself for -- a login name or a literal
    /// `kb1|` value. Absent is the ordinary case: whoever signs in here.
    pub grant_for: Option<String>,
    /// What this machine is supposed to be working as: `realm|delegated-user`,
    /// with the second half empty where nobody is delegated. Absent means it is
    /// not supposed to be working at all.
    pub expected_working_as: Option<String>,
    pub grant: Option<Grant>,
    /// Whether this machine has settled its autostart entry, and to what. Says
    /// only that something deliberate happened: the user used the checkbox, or a
    /// deployment default was applied once.
    pub autostart: Option<bool>,
    /// Gates the *entire* NTLM-fallback machinery. `None` is "the user has not
    /// decided", which is what lets the deployment default speak.
    pub ntlm_fallback_recovery: Option<bool>,
    /// Let the OS's own token store issue the broker token before the browser is
    /// tried. `None` as above.
    pub windows_sign_in: Option<bool>,
    /// A browser sign-in this agent left at the authority.
    pub browser_session: bool,
    pub cache: Cache,
}

#[verifier::ext_equal]
pub struct FileModel {
    pub broker_url: Option<Seq<char>>,
    pub grant_for: Option<Seq<char>>,
    pub expected_working_as: Option<Seq<char>>,
    pub grant: Option<GrantModel>,
    pub autostart: Option<bool>,
    pub ntlm_fallback_recovery: Option<bool>,
    pub windows_sign_in: Option<bool>,
    pub browser_session: bool,
    pub cache: KerberosModel,
}

impl View for FileConfig {
    type V = FileModel;

    open spec fn view(&self) -> FileModel {
        FileModel {
            broker_url: text::opt_text(self.broker_url),
            grant_for: text::opt_text(self.grant_for),
            expected_working_as: text::opt_text(self.expected_working_as),
            grant: opt_grant(self.grant),
            autostart: self.autostart,
            ntlm_fallback_recovery: self.ntlm_fallback_recovery,
            windows_sign_in: self.windows_sign_in,
            browser_session: self.browser_session,
            cache: self.cache@,
        }
    }
}

/// A file in which nothing was decided.
pub open spec fn empty_file() -> FileModel {
    FileModel {
        broker_url: None,
        grant_for: None,
        expected_working_as: None,
        grant: None,
        autostart: None,
        ntlm_fallback_recovery: None,
        windows_sign_in: None,
        browser_session: false,
        cache: crate::discovery::no_realm(),
    }
}

impl Default for FileConfig {
    fn default() -> (r: Self)
        ensures
            r@ == empty_file(),
    {
        let r = FileConfig {
            broker_url: None,
            grant_for: None,
            expected_working_as: None,
            grant: None,
            autostart: None,
            ntlm_fallback_recovery: None,
            windows_sign_in: None,
            browser_session: false,
            cache: Cache { realm: String::new(), kdcs: Vec::new(), services: Vec::new() },
        };
        assert(r@ =~= empty_file());
        r
    }
}

/// Machine policy. Absent values mean "not managed", which is the normal case.
pub struct Policy {
    pub broker_url: Option<String>,
    pub grant_for: Option<String>,
    pub autostart: Option<bool>,
    pub ntlm_fallback_recovery: Option<bool>,
    pub windows_sign_in: Option<bool>,
}

#[verifier::ext_equal]
pub struct PolicyModel {
    pub broker_url: Option<Seq<char>>,
    pub grant_for: Option<Seq<char>>,
    pub autostart: Option<bool>,
    pub ntlm_fallback_recovery: Option<bool>,
    pub windows_sign_in: Option<bool>,
}

impl View for Policy {
    type V = PolicyModel;

    open spec fn view(&self) -> PolicyModel {
        PolicyModel {
            broker_url: text::opt_text(self.broker_url),
            grant_for: text::opt_text(self.grant_for),
            autostart: self.autostart,
            ntlm_fallback_recovery: self.ntlm_fallback_recovery,
            windows_sign_in: self.windows_sign_in,
        }
    }
}

/// A machine nobody manages.
pub open spec fn unmanaged() -> PolicyModel {
    PolicyModel {
        broker_url: None,
        grant_for: None,
        autostart: None,
        ntlm_fallback_recovery: None,
        windows_sign_in: None,
    }
}

impl Default for Policy {
    fn default() -> (r: Self)
        ensures
            r@ == unmanaged(),
    {
        Policy {
            broker_url: None,
            grant_for: None,
            autostart: None,
            ntlm_fallback_recovery: None,
            windows_sign_in: None,
        }
    }
}

impl Policy {
    /// The policy that a machine's raw values amount to. An empty broker address
    /// and a blank target are no decision.
    pub fn from_values(
        broker_url: Option<String>,
        grant_for: Option<String>,
        autostart: Option<bool>,
        ntlm_fallback_recovery: Option<bool>,
        windows_sign_in: Option<bool>,
    ) -> (r: Self)
        ensures
            r@ == (PolicyModel {
                broker_url: match text::opt_text(broker_url) {
                    Some(s) if s.len() > 0 => Some(s),
                    _ => None,
                },
                grant_for: match text::opt_text(grant_for) {
                    Some(s) if text::trimmed(s).len() > 0 => Some(s),
                    _ => None,
                },
                autostart,
                ntlm_fallback_recovery,
                windows_sign_in,
            }),
    {
        let broker_url = match broker_url {
            Some(s) => if s.as_str().is_empty() {
                None
            } else {
                Some(s)
            },
            None => None,
        };
        let grant_for = match grant_for {
            Some(s) => if trim(s.as_str()).as_str().is_empty() {
                None
            } else {
                Some(s)
            },
            None => None,
        };
        Policy { broker_url, grant_for, autostart, ntlm_fallback_recovery, windows_sign_in }
    }
}

/// `https://` in front, unless the string already carries a scheme: an explicit
/// `http://` is left as the user typed it, to be refused later and not silently
/// rewritten.
pub open spec fn https_form(url: Seq<char>) -> Seq<char> {
    if text::holds_text(url, "://"@) {
        url
    } else {
        "https://"@ + url
    }
}

pub fn with_https(url: &str) -> (r: String)
    ensures
        r@ == https_form(url@),
{
    if has_text(url, "://") {
        url.to_owned()
    } else {
        joined("https://", url)
    }
}

/// The resolved view the app uses: file preferences with policy layered on top,
/// and the deployment's own defaults and DNS underneath both.
pub struct Settings {
    pub file: FileConfig,
    pub policy: Policy,
    /// A broker found in DNS this run. Deliberately not written to disk: DNS
    /// stays the authority.
    pub discovered: Option<String>,
    /// What the broker's `/config` says this deployment prefers, as of this
    /// run. Memory-only for the same reason.
    pub defaults: Defaults,
    /// The platform is Windows, which alone has a token store to ride and an
    /// NTLM fallback to recover from.
    pub windows: bool,
}

#[verifier::ext_equal]
pub struct SettingsModel {
    pub file: FileModel,
    pub policy: PolicyModel,
    pub discovered: Option<Seq<char>>,
    pub defaults: Defaults,
    pub windows: bool,
}

/// The first of the layers that says anything.
pub open spec fn first_of<T>(a: Option<T>, b: Option<T>) -> Option<T> {
    if a is Some {
        a
    } else {
        b
    }
}

impl SettingsModel {
    /// What IT decided beats what the user chose, and both beat what the network
    /// volunteered.
    pub open spec fn broker_url(self) -> Option<Seq<char>> {
        first_of(self.policy.broker_url, first_of(self.file.broker_url, self.discovered))
    }

    pub open spec fn grant_for(self) -> Option<Seq<char>> {
        first_of(self.policy.grant_for, self.file.grant_for)
    }

    pub open spec fn ntlm_fallback_recovery(self) -> bool {
        self.windows && match first_of(
            self.policy.ntlm_fallback_recovery,
            first_of(self.file.ntlm_fallback_recovery, self.defaults.ntlm_fallback_recovery),
        ) {
            Some(on) => on,
            None => self.windows,
        }
    }

    pub open spec fn windows_sign_in(self) -> bool {
        self.windows && match first_of(
            self.policy.windows_sign_in,
            first_of(self.file.windows_sign_in, self.defaults.windows_sign_in),
        ) {
            Some(on) => on,
            None => true,
        }
    }

    /// Whether the startup box stands still: a machine-wide entry or policy decides.
    pub open spec fn autostart_locked(self, machine_wide: bool) -> bool {
        machine_wide || self.policy.autostart is Some
    }

    /// What autostart should be, and whether that answer is a seed to record:
    /// policy is applied and not recorded, a settled answer is not re-applied,
    /// and a deployment default decides a profile that has never decided.
    pub open spec fn autostart_want(self) -> Option<(bool, bool)> {
        match self.policy.autostart {
            Some(on) => Some((on, false)),
            None => if self.file.autostart is Some {
                None
            } else {
                match self.defaults.autostart {
                    Some(on) => Some((on, true)),
                    None => None,
                }
            },
        }
    }

    /// What to write into the per-user login entry, given whether a machine-wide
    /// one exists and what the per-user one says now.
    pub open spec fn autostart_write(self, machine_wide: bool, enabled: bool) -> Option<bool> {
        match self.autostart_want() {
            Some((want, _)) if !machine_wide && enabled != want => Some(want),
            _ => None,
        }
    }

    /// The answer that enforcing autostart leaves recorded, when it records one.
    pub open spec fn autostart_record(self, machine_wide: bool, enabled: bool, written: bool) -> Option<
        bool,
    > {
        match self.autostart_want() {
            Some((want, true)) if !machine_wide && (enabled == want || written) => Some(want),
            _ => None,
        }
    }

    pub open spec fn with_file(self, file: FileModel) -> SettingsModel {
        SettingsModel { file, ..self }
    }

    /// With the expectation recorded or forgotten.
    pub open spec fn expecting(self, scope: Option<Seq<char>>) -> SettingsModel {
        self.with_file(FileModel { expected_working_as: scope, ..self.file })
    }

    /// With the grant recorded or forgotten.
    pub open spec fn holding(self, grant: Option<GrantModel>) -> SettingsModel {
        self.with_file(FileModel { grant, ..self.file })
    }

    /// With the grant known to work as `principal`, where there is one.
    pub open spec fn working_as(self, principal: Seq<char>) -> SettingsModel {
        match self.file.grant {
            Some(g) => self.holding(Some(GrantModel { principal: Some(principal), ..g })),
            None => self,
        }
    }

    pub open spec fn caching(self, k: KerberosModel) -> SettingsModel {
        self.with_file(FileModel { cache: k, ..self.file })
    }

    pub open spec fn with_session(self, on: bool) -> SettingsModel {
        self.with_file(FileModel { browser_session: on, ..self.file })
    }

    pub open spec fn with_broker(self, url: Seq<char>) -> SettingsModel {
        let url = text::trimmed(url);
        self.with_file(
            FileModel {
                broker_url: if url.len() == 0 {
                    None
                } else {
                    Some(https_form(url))
                },
                ..self.file
            },
        )
    }

    pub open spec fn with_target(self, target: Seq<char>) -> SettingsModel {
        let target = text::trimmed(target);
        self.with_file(
            FileModel {
                grant_for: if target.len() == 0 {
                    None
                } else {
                    Some(target)
                },
                ..self.file
            },
        )
    }

    pub open spec fn with_windows_sign_in(self, on: bool) -> SettingsModel {
        self.with_file(FileModel { windows_sign_in: Some(on), ..self.file })
    }

    pub open spec fn with_autostart(self, on: bool) -> SettingsModel {
        self.with_file(FileModel { autostart: Some(on), ..self.file })
    }
}

impl View for Settings {
    type V = SettingsModel;

    open spec fn view(&self) -> SettingsModel {
        SettingsModel {
            file: self.file@,
            policy: self.policy@,
            discovered: text::opt_text(self.discovered),
            defaults: self.defaults,
            windows: self.windows,
        }
    }
}

fn first_str<'a>(a: &'a Option<String>, b: Option<&'a str>) -> (r: Option<&'a str>)
    ensures
        text::opt_str(r) == first_of(text::opt_text(*a), text::opt_str(b)),
{
    match a {
        Some(s) => Some(s.as_str()),
        None => b,
    }
}

fn first_bool(a: Option<bool>, b: Option<bool>) -> (r: Option<bool>)
    ensures
        r == first_of(a, b),
{
    match a {
        Some(x) => Some(x),
        None => b,
    }
}

impl Settings {
    /// The settings of a run that has heard from nobody yet: what the file holds
    /// and what policy says. An unreadable file reads as an empty one.
    pub fn new(file: Option<FileConfig>, policy: Policy, windows: bool) -> (r: Self)
        ensures
            r@ == (SettingsModel {
                file: match file {
                    Some(f) => f@,
                    None => empty_file(),
                },
                policy: policy@,
                discovered: None,
                defaults: crate::discovery::no_defaults(),
                windows,
            }),
    {
        let file = match file {
            Some(f) => f,
            None => FileConfig::default(),
        };
        Settings { file, policy, discovered: None, defaults: Defaults::default(), windows }
    }

    pub fn broker_url(&self) -> (r: Option<&str>)
        ensures
            text::opt_str(r) == self@.broker_url(),
    {
        let dns = first_str(&self.discovered, None);
        let user = first_str(&self.file.broker_url, dns);
        first_str(&self.policy.broker_url, user)
    }

    /// Record a broker found in DNS. It sits below both layers above, so a late
    /// lookup cannot move a configured client.
    pub fn set_discovered(&mut self, url: String)
        ensures
            final(self)@ == (SettingsModel { discovered: Some(url@), ..old(self)@ }),
    {
        self.discovered = Some(url);
    }

    /// True when policy supplies the broker URL, so the UI must not offer to edit it.
    pub fn broker_url_locked(&self) -> (r: bool)
        ensures
            r == (self@.policy.broker_url is Some),
    {
        self.policy.broker_url.is_some()
    }

    /// Store a user-entered broker URL. A scheme-less entry (`broker.example.site`)
    /// gets `https://` prepended -- TLS is mandatory anyway, so typing it is noise.
    pub fn set_broker_url(&mut self, url: &str)
        ensures
            final(self)@ == old(self)@.with_broker(url@),
    {
        let url = trim(url);
        self.file.broker_url = if url.as_str().is_empty() {
            None
        } else {
            Some(with_https(url.as_str()))
        };
    }

    /// Whom this machine authorizes itself for, machine-wide value first.
    pub fn grant_for(&self) -> (r: Option<&str>)
        ensures
            text::opt_str(r) == self@.grant_for(),
    {
        let user = first_str(&self.file.grant_for, None);
        first_str(&self.policy.grant_for, user)
    }

    /// True when policy supplies it, so the UI shows it rather than offering to
    /// edit something it cannot change.
    pub fn grant_for_locked(&self) -> (r: bool)
        ensures
            r == (self@.policy.grant_for is Some),
    {
        self.policy.grant_for.is_some()
    }

    pub fn set_grant_for(&mut self, target: &str)
        ensures
            final(self)@ == old(self)@.with_target(target@),
    {
        let target = trim(target);
        self.file.grant_for = if target.as_str().is_empty() {
            None
        } else {
            Some(target)
        };
    }

    /// The scope this machine last landed a ticket in.
    pub fn expected_working_as(&self) -> (r: Option<&str>)
        ensures
            text::opt_str(r) == self@.file.expected_working_as,
    {
        first_str(&self.file.expected_working_as, None)
    }

    /// Record, or forget, that expectation. Returns true when it is news, so the
    /// ordinary re-injection does not rewrite `config.toml` every few hours.
    pub fn set_expected_working_as(&mut self, scope: Option<&str>) -> (news: bool)
        ensures
            final(self)@ == old(self)@.expecting(text::opt_str(scope)),
            news == (old(self)@.file.expected_working_as != text::opt_str(scope)),
    {
        let next = owned(scope);
        let changed = !same_opt(&next, &self.file.expected_working_as);
        self.file.expected_working_as = next;
        changed
    }

    /// Record what the broker's `/config` said this deployment prefers. Sits
    /// below both layers above.
    pub fn set_defaults(&mut self, defaults: Defaults)
        ensures
            final(self)@ == (SettingsModel { defaults, ..old(self)@ }),
    {
        self.defaults = defaults;
    }

    pub fn ntlm_fallback_recovery(&self) -> (r: bool)
        ensures
            r == self@.ntlm_fallback_recovery(),
    {
        let below = first_bool(
            self.file.ntlm_fallback_recovery,
            self.defaults.ntlm_fallback_recovery,
        );
        self.windows && match first_bool(self.policy.ntlm_fallback_recovery, below) {
            Some(on) => on,
            None => self.ntlm_fallback_default(),
        }
    }

    /// Windows clears nothing on its own; macOS recovers from the same expiry
    /// within minutes and needs nothing restarted.
    fn ntlm_fallback_default(&self) -> (r: bool)
        ensures
            r == self@.windows,
    {
        self.windows
    }

    /// Both halves: the stored preference, **and** a platform with a credential
    /// store to ride.
    pub fn windows_sign_in(&self) -> (r: bool)
        ensures
            r == self@.windows_sign_in(),
    {
        let below = first_bool(self.file.windows_sign_in, self.defaults.windows_sign_in);
        self.windows && match first_bool(self.policy.windows_sign_in, below) {
            Some(on) => on,
            None => true,
        }
    }

    /// True when policy supplies it, so the checkbox reads the managed value
    /// and does not move.
    pub fn windows_sign_in_locked(&self) -> (r: bool)
        ensures
            r == (self@.policy.windows_sign_in is Some),
    {
        self.policy.windows_sign_in.is_some()
    }

    pub fn set_windows_sign_in(&mut self, on: bool)
        ensures
            final(self)@ == old(self)@.with_windows_sign_in(on),
    {
        self.file.windows_sign_in = Some(on);
    }

    /// True when policy decides autostart, so the checkbox reads the managed
    /// value and does not move.
    pub fn autostart_managed(&self) -> (r: bool)
        ensures
            r == (self@.policy.autostart is Some),
    {
        self.policy.autostart.is_some()
    }

    /// True when the startup checkbox does not move: a per-user setting can countermand
    /// neither a machine-wide entry nor policy.
    pub fn autostart_locked(&self, machine_wide: bool) -> (r: bool)
        ensures
            r == self@.autostart_locked(machine_wide),
    {
        machine_wide || self.autostart_managed()
    }

    fn autostart_wanted(&self) -> (r: Option<(bool, bool)>)
        ensures
            r == self@.autostart_want(),
    {
        match self.policy.autostart {
            Some(on) => Some((on, false)),
            None => match self.file.autostart {
                Some(_) => None,
                None => match self.defaults.autostart {
                    Some(on) => Some((on, true)),
                    None => None,
                },
            },
        }
    }

    /// What the per-user login entry has to be changed to, before
    /// [`Settings::enforce_autostart`] can record anything.
    pub fn autostart_to_write(&self, machine_wide: bool, enabled: bool) -> (r: Option<bool>)
        ensures
            r == self@.autostart_write(machine_wide, enabled),
    {
        match self.autostart_wanted() {
            Some((want, _)) => if !machine_wide && enabled != want {
                Some(want)
            } else {
                None
            },
            None => None,
        }
    }

    /// Settle autostart against the operating system, and report whether
    /// `config.toml` now needs saving. `machine_wide` and `enabled` are what the
    /// operating system said, and `written` is whether the change that
    /// [`Settings::autostart_to_write`] asked for was made.
    ///
    /// **A policy answer is applied and not recorded.** Recording it would
    /// tattoo the file, so a machine leaving the policy's scope would go on
    /// starting the agent with nothing left to say why. A deployment default is
    /// recorded, because it is a seed: it decides a profile that has never
    /// decided, once, and a later choice then wins over it.
    pub fn enforce_autostart(&mut self, machine_wide: bool, enabled: bool, written: bool) -> (save:
        bool)
        ensures
            match old(self)@.autostart_record(machine_wide, enabled, written) {
                Some(on) => final(self)@ == old(self)@.with_autostart(on) && save,
                None => final(self)@ == old(self)@ && !save,
            },
    {
        match self.autostart_wanted() {
            Some((want, seed)) => {
                // Machine-wide beats every per-user entry, and no per-user act can
                // countermand it.
                if machine_wide {
                    return false;
                }
                if enabled != want && !written {
                    return false;
                }
                if !seed {
                    return false;
                }
                self.set_autostart_choice(want)
            },
            None => false,
        }
    }

    /// Which layer decided, for the log.
    pub fn autostart_source(&self) -> (r: &'static str)
        ensures
            r@ == (if self@.policy.autostart is Some {
                "machine policy"@
            } else if self@.file.autostart is Some {
                "this user"@
            } else {
                "the deployment default"@
            }),
    {
        if self.policy.autostart.is_some() {
            "machine policy"
        } else if self.file.autostart.is_some() {
            "this user"
        } else {
            "the deployment default"
        }
    }

    /// Record the autostart answer this machine has settled on. Returns true
    /// when that is news.
    pub fn set_autostart_choice(&mut self, on: bool) -> (news: bool)
        ensures
            final(self)@ == old(self)@.with_autostart(on),
            news == (old(self)@.file.autostart != Some(on)),
    {
        let changed = match self.file.autostart {
            Some(was) => was != on,
            None => true,
        };
        self.file.autostart = Some(on);
        changed
    }

    pub fn browser_session(&self) -> (r: bool)
        ensures
            r == self@.file.browser_session,
    {
        self.file.browser_session
    }

    /// Returns true when that is news.
    pub fn set_browser_session(&mut self, on: bool) -> (news: bool)
        ensures
            final(self)@ == old(self)@.with_session(on),
            news == (old(self)@.file.browser_session != on),
    {
        let changed = self.file.browser_session != on;
        self.file.browser_session = on;
        changed
    }

    pub fn cache(&self) -> (r: &Cache)
        ensures
            r@ == self@.file.cache,
    {
        &self.file.cache
    }

    pub fn grant(&self) -> (r: Option<&Grant>)
        ensures
            match (r, self@.file.grant) {
                (Some(g), Some(m)) => g@ == m,
                (None, None) => true,
                _ => false,
            },
    {
        self.file.grant.as_ref()
    }

    /// Record, or forget, this machine's device grant.
    pub fn set_grant(&mut self, grant: Option<Grant>)
        ensures
            final(self)@ == old(self)@.holding(opt_grant(grant)),
    {
        self.file.grant = grant;
    }

    /// Record what the grant just worked as. Returns true when that is news.
    pub fn set_grant_principal(&mut self, principal: &str) -> (news: bool)
        ensures
            final(self)@ == old(self)@.working_as(principal@),
            news == (old(self)@.file.grant matches Some(g) && g.principal != Some(principal@)),
    {
        let held = self.file.grant.take();
        match held {
            Some(g) => {
                let mut g = g;
                let next = Some(principal.to_owned());
                let changed = !same_opt(&g.principal, &next);
                g.principal = next;
                self.file.grant = Some(g);
                changed
            },
            None => false,
        }
    }

    /// Remember the broker's Kerberos block. Returns true when it changed, which
    /// is the tray's cue to re-check enrollment.
    pub fn set_cache(&mut self, k: &KerberosConfig) -> (news: bool)
        ensures
            final(self)@ == old(self)@.caching(k@),
            news == (old(self)@.file.cache != k@),
    {
        let unchanged = self.file.cache.realm == k.realm && same_all(&self.file.cache.kdcs, &k.kdcs)
            && same_all(&self.file.cache.services, &k.services);
        proof {
            if unchanged {
                assert(self.file.cache@ =~= k@);
            }
        }
        self.file.cache = Cache {
            realm: k.realm.clone(),
            kdcs: copied_all(&k.kdcs),
            services: copied_all(&k.services),
        };
        !unchanged
    }
}

/// Whether this machine starts the agent at login at all, by either route.
///
/// The one to gate behaviour on: reading the per-user preference alone leaves a
/// machine-wide deployment starting the agent every logon and never attempting
/// the sign-in that autostart exists for.
pub fn autostart_active(enabled: bool, machine_wide: bool) -> (r: bool)
    ensures
        r == (enabled || machine_wide),
{
    enabled || machine_wide
}

// ------------------------------------------------------------------------ laws

/// What the network volunteers -- a broker in DNS, a deployment default -- never
/// moves a machine that policy or its user has configured.
pub proof fn law_the_network_moves_no_choice(s: SettingsModel, url: Seq<char>, d: Defaults)
    ensures
        ({
            let t = SettingsModel { discovered: Some(url), defaults: d, ..s };
            &&& s.policy.broker_url is Some || s.file.broker_url is Some ==> t.broker_url()
                == s.broker_url()
            &&& s.policy.windows_sign_in is Some || s.file.windows_sign_in is Some
                ==> t.windows_sign_in() == s.windows_sign_in()
            &&& s.policy.ntlm_fallback_recovery is Some || s.file.ntlm_fallback_recovery is Some
                ==> t.ntlm_fallback_recovery() == s.ntlm_fallback_recovery()
            &&& s.policy.autostart is Some || s.file.autostart is Some ==> t.autostart_want()
                == s.autostart_want()
        }),
{
}

/// What policy says holds whatever the user writes into the file.
pub proof fn law_policy_wins(s: SettingsModel, file: FileModel)
    ensures
        ({
            let t = s.with_file(file);
            &&& s.policy.broker_url is Some ==> t.broker_url() == s.policy.broker_url
            &&& s.policy.grant_for is Some ==> t.grant_for() == s.policy.grant_for
            &&& s.policy.windows_sign_in is Some ==> t.windows_sign_in() == s.windows_sign_in()
            &&& s.policy.ntlm_fallback_recovery is Some ==> t.ntlm_fallback_recovery()
                == s.ntlm_fallback_recovery()
        }),
{
}

/// A platform without a token store claims none, and one without an NTLM
/// fallback arms nothing against it, whatever any layer says.
pub proof fn law_only_windows_has_the_windows_machinery(s: SettingsModel)
    requires
        !s.windows,
    ensures
        !s.windows_sign_in(),
        !s.ntlm_fallback_recovery(),
{
}

/// Enforcing autostart under policy leaves the file as it is, and a deployment
/// default is recorded at most once.
pub proof fn law_policy_is_applied_and_a_default_is_recorded_once(
    s: SettingsModel,
    machine_wide: bool,
    enabled: bool,
    written: bool,
)
    ensures
        s.policy.autostart is Some ==> s.autostart_record(machine_wide, enabled, written) is None,
        s.autostart_record(machine_wide, enabled, written) matches Some(on) ==> s.with_autostart(
            on,
        ).autostart_want() is None,
{
}

/// Recording what is recorded already changes nothing, so a landed exchange that
/// changed nothing writes nothing.
pub proof fn law_recording_twice_changes_nothing(
    s: SettingsModel,
    scope: Option<Seq<char>>,
    principal: Seq<char>,
    k: KerberosModel,
    on: bool,
)
    ensures
        s.expecting(scope).expecting(scope) == s.expecting(scope),
        s.expecting(scope).file.expected_working_as == scope,
        s.working_as(principal).working_as(principal) == s.working_as(principal),
        s.caching(k).caching(k) == s.caching(k),
        s.caching(k).file.cache == k,
        s.with_session(on).with_session(on) == s.with_session(on),
{
}

/// A broker address that a user types is stored with a scheme, and reading it
/// back stores it unchanged.
pub proof fn law_a_typed_address_carries_a_scheme(url: Seq<char>)
    ensures
        text::holds_text(https_form(url), "://"@),
        https_form(https_form(url)) == https_form(url),
{
    if !text::holds_text(url, "://"@) {
        reveal_strlit("://");
        reveal_strlit("https://");
        let s = "https://"@ + url;
        let t = s.skip(5);
        assert("://"@ =~= t.subrange(0, 3));
        assert("://"@.is_prefix_of(s.skip(5)));
    }
}

/// Every setting has its own layers, and the first that says anything decides: policy, then
/// the choice made here, then -- for a broker -- what DNS volunteered and -- for a switch --
/// what the deployment prefers; a switch that nothing decides is on.
pub proof fn law_every_setting_has_its_layers(s: SettingsModel, url: Seq<char>, on: bool)
    ensures
        s.policy.broker_url == Some(url) ==> s.broker_url() == Some(url),
        s.policy.broker_url is None && s.file.broker_url == Some(url) ==> s.broker_url() == Some(
            url,
        ),
        s.policy.broker_url is None && s.file.broker_url is None ==> s.broker_url()
            == s.discovered,
        s.policy.grant_for == Some(url) ==> s.grant_for() == Some(url),
        s.policy.grant_for is None ==> s.grant_for() == s.file.grant_for,
        s.windows && s.policy.ntlm_fallback_recovery == Some(on) ==> s.ntlm_fallback_recovery()
            == on,
        s.windows && s.policy.ntlm_fallback_recovery is None && s.file.ntlm_fallback_recovery
            == Some(on) ==> s.ntlm_fallback_recovery() == on,
        s.windows && s.policy.ntlm_fallback_recovery is None && s.file.ntlm_fallback_recovery
            is None && s.defaults.ntlm_fallback_recovery == Some(on) ==> s.ntlm_fallback_recovery()
            == on,
        s.windows && s.policy.ntlm_fallback_recovery is None && s.file.ntlm_fallback_recovery
            is None && s.defaults.ntlm_fallback_recovery is None ==> s.ntlm_fallback_recovery(),
        s.windows && s.policy.windows_sign_in == Some(on) ==> s.windows_sign_in() == on,
        s.windows && s.policy.windows_sign_in is None && s.file.windows_sign_in == Some(on)
            ==> s.windows_sign_in() == on,
        s.windows && s.policy.windows_sign_in is None && s.file.windows_sign_in is None
            && s.defaults.windows_sign_in == Some(on) ==> s.windows_sign_in() == on,
        s.windows && s.policy.windows_sign_in is None && s.file.windows_sign_in is None
            && s.defaults.windows_sign_in is None ==> s.windows_sign_in(),
{
}

/// The login entry is written only where it disagrees with policy, or with a deployment's
/// preference that nobody here has answered; never under a machine-wide entry. Only the
/// preference is recorded, once it holds.
pub proof fn law_when_the_login_entry_is_written(
    s: SettingsModel,
    machine_wide: bool,
    enabled: bool,
    written: bool,
    on: bool,
)
    ensures
        machine_wide ==> s.autostart_write(machine_wide, enabled) is None && s.autostart_record(
            machine_wide,
            enabled,
            written,
        ) is None,
        !machine_wide && s.policy.autostart == Some(on) ==> s.autostart_write(machine_wide, enabled)
            == (if enabled == on {
            None
        } else {
            Some(on)
        }) && s.autostart_record(machine_wide, enabled, written) is None,
        s.policy.autostart is None && s.file.autostart is Some ==> s.autostart_write(
            machine_wide,
            enabled,
        ) is None && s.autostart_record(machine_wide, enabled, written) is None,
        !machine_wide && s.policy.autostart is None && s.file.autostart is None
            && s.defaults.autostart == Some(on) ==> s.autostart_write(machine_wide, enabled) == (
        if enabled == on {
            None
        } else {
            Some(on)
        }) && s.autostart_record(machine_wide, enabled, written) == (if enabled == on || written {
            Some(on)
        } else {
            None
        }),
        s.policy.autostart is None && s.file.autostart is None && s.defaults.autostart is None
            ==> s.autostart_write(machine_wide, enabled) is None && s.autostart_record(
            machine_wide,
            enabled,
            written,
        ) is None,
        s.autostart_locked(machine_wide) <==> machine_wide || s.policy.autostart is Some,
{
}

/// Every change of the file is of one entry, and leaves the others, policy and what the
/// network said as they were.
pub proof fn law_every_change_is_of_one_entry(
    s: SettingsModel,
    t: Option<Seq<char>>,
    g: Option<GrantModel>,
    p: Seq<char>,
    k: KerberosModel,
    on: bool,
)
    ensures
        s.expecting(t) == (SettingsModel {
            file: FileModel { expected_working_as: t, ..s.file },
            ..s
        }),
        s.holding(g) == (SettingsModel { file: FileModel { grant: g, ..s.file }, ..s }),
        s.caching(k) == (SettingsModel { file: FileModel { cache: k, ..s.file }, ..s }),
        s.with_session(on) == (SettingsModel {
            file: FileModel { browser_session: on, ..s.file },
            ..s
        }),
        s.with_windows_sign_in(on) == (SettingsModel {
            file: FileModel { windows_sign_in: Some(on), ..s.file },
            ..s
        }),
        s.with_autostart(on) == (SettingsModel {
            file: FileModel { autostart: Some(on), ..s.file },
            ..s
        }),
        s.file.grant is None ==> s.working_as(p) == s,
        s.file.grant matches Some(h) ==> s.working_as(p) == (SettingsModel {
            file: FileModel { grant: Some(GrantModel { principal: Some(p), ..h }), ..s.file },
            ..s
        }),
        s.with_broker(p) == (SettingsModel {
            file: FileModel { broker_url: s.with_broker(p).file.broker_url, ..s.file },
            ..s
        }),
        s.with_target(p) == (SettingsModel {
            file: FileModel { grant_for: s.with_target(p).file.grant_for, ..s.file },
            ..s
        }),
{
}

/// A machine that nobody configured has decided nothing, and one that nobody manages is told
/// nothing.
pub proof fn law_nothing_is_decided_at_first(windows: bool)
    ensures
        ({
            let f = empty_file();
            &&& f.broker_url is None && f.grant_for is None && f.expected_working_as is None
            &&& f.grant is None && f.autostart is None && f.ntlm_fallback_recovery is None
            &&& f.windows_sign_in is None && !f.browser_session
            &&& f.cache.realm.len() == 0 && f.cache.kdcs.len() == 0 && f.cache.services.len() == 0
        }),
        ({
            let p = unmanaged();
            &&& p.broker_url is None && p.grant_for is None && p.autostart is None
            &&& p.ntlm_fallback_recovery is None && p.windows_sign_in is None
        }),
{
}

/// A broker or an account that is typed in is stored without blanks around it, the broker
/// with a scheme; nothing but blanks forgets it.
pub proof fn law_what_is_typed_in_is_stored(s: SettingsModel, typed: Seq<char>)
    ensures
        text::trimmed(typed).len() == 0 ==> s.with_broker(typed).file.broker_url is None
            && s.with_target(typed).file.grant_for is None,
        text::trimmed(typed).len() > 0 ==> s.with_target(typed).file.grant_for == Some(
            text::trimmed(typed),
        ),
        text::trimmed(typed).len() > 0 && text::holds_text(text::trimmed(typed), "://"@)
            ==> s.with_broker(typed).file.broker_url == Some(text::trimmed(typed)),
        text::trimmed(typed).len() > 0 && !text::holds_text(text::trimmed(typed), "://"@)
            ==> s.with_broker(typed).file.broker_url == Some("https://"@ + text::trimmed(typed)),
{
}

/// What contracts speak of is what the fields hold, each under its own name.
pub proof fn law_every_field_is_seen_under_its_name(g: Grant, f: FileConfig, p: Policy, s: Settings)
    ensures
        g@.grant_id == g.grant_id@,
        g@.identity == g.identity@,
        g@.principal == text::opt_text(g.principal),
        g@.audience == g.audience@,
        g@.sign_in_required_by == g.sign_in_required_by,
        f@.broker_url == text::opt_text(f.broker_url),
        f@.grant_for == text::opt_text(f.grant_for),
        f@.expected_working_as == text::opt_text(f.expected_working_as),
        f@.autostart == f.autostart,
        f@.ntlm_fallback_recovery == f.ntlm_fallback_recovery,
        f@.windows_sign_in == f.windows_sign_in,
        f@.browser_session == f.browser_session,
        f@.cache == f.cache@,
        p@.broker_url == text::opt_text(p.broker_url),
        p@.grant_for == text::opt_text(p.grant_for),
        p@.autostart == p.autostart,
        p@.ntlm_fallback_recovery == p.ntlm_fallback_recovery,
        p@.windows_sign_in == p.windows_sign_in,
        s@.file == s.file@,
        s@.policy == s.policy@,
        s@.discovered == text::opt_text(s.discovered),
        s@.defaults == s.defaults,
        s@.windows == s.windows,
{
}

} // verus!
