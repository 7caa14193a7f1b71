//! What the passing of time does: once a second, the timer asks.

use super::schedule;
use super::schedule::{
    days_left, midpoint_with, next_backoff, random_number, ESCALATE_SECS, FALLBACK_POLL_SECS,
    GRANT_DUE_SOON_SECS, GRANT_NOTIFY_INTERVAL, PRESENT_SECS, PROBE_FIRST_SECS, PROBE_MAX_SECS,
};
use super::{
    Agent, AgentModel, Notice, NoticeModel, NtlmFallback, Phase, Raise, Severity, Trigger,
};
use crate::sentence;
use crate::sentence::{
    say, say_about, say_about2, text_value, Filler, FillerModel, Phrase, Slot,
};
use vstd::prelude::*;

verus! {

/// What the ticket cache holds of the realm.
#[derive(Clone, Copy, PartialEq, Eq, Debug, Structural)]
pub enum Lookup {
    /// A TGT.
    Present,
    /// No TGT at all.
    Gone,
    /// The cache could not be asked.
    Unknown,
}

/// What a tick asks of its caller.
pub struct Tick {
    /// The status window should be rebuilt.
    pub redraw: bool,
    pub notice: Option<Notice>,
    /// Bring the status surface up, without focus: worth interrupting for broken
    /// drives, not worth stealing the foreground for.
    pub raise: Option<Raise>,
    /// Ask the broker for `/config`.
    pub probe: bool,
    /// Start a worker, with [`super::jobs::start_worker`].
    pub start: Option<Trigger>,
}

#[verifier::ext_equal]
pub struct TickModel {
    pub redraw: bool,
    pub notice: Option<NoticeModel>,
    pub raise: Option<Raise>,
    pub probe: bool,
    pub start: Option<Trigger>,
}

impl View for Tick {
    type V = TickModel;

    open spec fn view(&self) -> TickModel {
        TickModel {
            redraw: self.redraw,
            notice: match self.notice {
                Some(n) => Some(n@),
                None => None,
            },
            raise: self.raise,
            probe: self.probe,
            start: self.start,
        }
    }
}

/// A clock that has run out.
pub open spec fn due(at: Option<i64>, now: i64) -> bool {
    at matches Some(t) && now >= t
}

fn is_due(at: Option<i64>, now: i64) -> (r: bool)
    ensures
        r == due(at, now),
{
    match at {
        Some(t) => now >= t,
        None => false,
    }
}

impl AgentModel {
    /// The grant deadline, when it is inside the window, nobody has been told
    /// today, and somebody is at the keyboard to be told. An unknown idle time
    /// counts as present: a platform that cannot answer gets a toast on time rather
    /// than none.
    pub open spec fn deadline_notice(self, now: i64, idle: Option<i64>) -> Option<NoticeModel> {
        match self.settings.file.grant {
            None => None,
            Some(g) => {
                let deadline = g.sign_in_required_by;
                if deadline <= now || deadline - now > GRANT_DUE_SOON_SECS {
                    None
                } else if self.grant_notified_at matches Some(t) && now - t
                    < GRANT_NOTIFY_INTERVAL {
                    None
                } else if idle matches Some(secs) && secs > PRESENT_SECS {
                    None
                } else {
                    Some(
                        NoticeModel {
                            title: sentence::about(
                                Phrase::NotifyGrantDueTitle,
                                Slot::Days,
                                FillerModel::Days(
                                    schedule::days_to(deadline as int, now as int) as i64,
                                ),
                            ),
                            body: sentence::about2(
                                Phrase::NotifyGrantDueBody,
                                Slot::Realm,
                                FillerModel::Text(self.kerberos.realm),
                                Slot::Date,
                                FillerModel::Date(deadline),
                            ),
                            severity: Severity::Warning,
                        },
                    )
                }
            },
        }
    }

    /// Whether this tick looks for a vanished TGT: while the agent believes in a
    /// live one, no episode is open, and no worker holds the slot -- re-injection
    /// purges the realm before it submits, and that window looks exactly like this.
    pub open spec fn checks_ticket(self, now: i64) -> bool {
        &&& self.phase is Connected
        &&& now < self.end
        &&& self.fallback is Clear
        &&& self.settings.ntlm_fallback_recovery()
        &&& now >= self.fallback_check_at
        &&& self.kerberos.realm.len() > 0
        &&& !self.busy
    }

    /// With the deadline said, if it was.
    pub open spec fn deadline_said(self, now: i64, idle: Option<i64>) -> AgentModel {
        if self.deadline_notice(now, idle) is Some {
            AgentModel { grant_notified_at: Some(now), ..self }
        } else {
            self
        }
    }

    /// Whether the broker is asked again. Skipped while a worker holds the slot,
    /// which is already asking that endpoint the same question.
    pub open spec fn probes(self, now: i64) -> bool {
        due(self.probe_at, now) && !self.busy
    }

    /// With the next probe armed before the attempt, so that a failure cannot
    /// produce a tight loop.
    pub open spec fn probed(self, now: i64) -> AgentModel {
        if self.probes(now) {
            let wait = schedule::backoff_of(
                self.probe_backoff as int,
                PROBE_FIRST_SECS as int,
                PROBE_MAX_SECS as int,
            );
            AgentModel {
                probe_backoff: wait as i64,
                probe_at: Some((now + wait) as i64),
                ..self
            }
        } else {
            self
        }
    }

    /// The notification of a ticket that ran out.
    pub open spec fn stopped_notice(self) -> NoticeModel {
        NoticeModel {
            title: sentence::about(
                Phrase::NotifyStoppedTitle,
                Slot::Realm,
                FillerModel::Text(self.kerberos.realm),
            ),
            body: sentence::plain(Phrase::NotifyStoppedBody),
            severity: Severity::Error,
        }
    }

    /// The notification of a ticket that will run out.
    pub open spec fn expiring_notice(self, now: i64) -> NoticeModel {
        NoticeModel {
            title: sentence::about2(
                Phrase::NotifyExpiringTitle,
                Slot::Realm,
                FillerModel::Text(self.kerberos.realm),
                Slot::Duration,
                FillerModel::Duration((self.end - now) as i64),
            ),
            body: sentence::plain(Phrase::NotifyExpiringBody),
            severity: Severity::Warning,
        }
    }

    /// Whether the ticket's end is near and silence has failed.
    pub open spec fn escalates(self, now: i64) -> bool {
        !self.escalated && self.silent_failed && self.end - now <= ESCALATE_SECS
    }

    /// Whether the ticket is renewed.
    pub open spec fn renews(self, now: i64) -> bool {
        due(self.refresh_at, now) && !self.busy
    }

    /// A tick over a live session.
    pub open spec fn ticked_live(self, now: i64, found: Lookup, random: Option<u64>) -> AgentModel {
        AgentModel {
            fallback_check_at: if self.checks_ticket(now) {
                (now + FALLBACK_POLL_SECS) as i64
            } else {
                self.fallback_check_at
            },
            fallback: if self.checks_ticket(now) && found is Gone {
                NtlmFallback::Confirmed
            } else {
                self.fallback
            },
            refresh_at: if self.renews(now) {
                Some(schedule::midpoint_of(now as int, self.end as int, random) as i64)
            } else {
                self.refresh_at
            },
            escalated: self.escalated || self.escalates(now),
            ..self
        }
    }
}

/// A tick with no live session: a startup attempt that is due is made.
pub open spec fn ticked_idle(a: AgentModel, quiet: TickModel, now: i64) -> (AgentModel, TickModel) {
    if due(a.startup_retry_at, now) && !a.busy {
        (
            AgentModel { startup_retry_at: None, ..a },
            TickModel {
                start: if a.phase is SignedOut {
                    Some(Trigger::Startup)
                } else {
                    None
                },
                ..quiet
            },
        )
    } else {
        (a, quiet)
    }
}

/// A tick at which the ticket has run out.
pub open spec fn ticked_out(a: AgentModel, quiet: TickModel) -> (AgentModel, TickModel) {
    (
        AgentModel { phase: Phase::Expired, refresh_at: None, ..a },
        TickModel { redraw: true, notice: Some(a.stopped_notice()), ..quiet },
    )
}

/// What a tick over a live session asks.
pub open spec fn asked_live(a: AgentModel, quiet: TickModel, now: i64, found: Lookup) -> TickModel {
    let gone = a.checks_ticket(now) && found is Gone;
    TickModel {
        redraw: gone || a.escalates(now),
        notice: if a.escalates(now) {
            Some(a.expiring_notice(now))
        } else {
            quiet.notice
        },
        raise: if gone {
            Some(Raise::Repair)
        } else {
            None
        },
        start: if a.renews(now) {
            Some(Trigger::Renewal)
        } else {
            None
        },
        ..quiet
    }
}

/// What a tick does, and what it asks of its caller.
pub open spec fn ticked(
    m: AgentModel,
    now: i64,
    idle: Option<i64>,
    found: Lookup,
    random: Option<u64>,
) -> (AgentModel, TickModel) {
    let a = m.deadline_said(now, idle).probed(now);
    let quiet = TickModel {
        redraw: false,
        notice: m.deadline_notice(now, idle),
        raise: None,
        probe: m.probes(now),
        start: None,
    };
    if !(a.phase is Connected) {
        ticked_idle(a, quiet, now)
    } else if now >= a.end {
        ticked_out(a, quiet)
    } else {
        (a.ticked_live(now, found, random), asked_live(a, quiet, now, found))
    }
}

impl Agent {
    /// Whether the next tick wants to know what the ticket cache holds.
    pub fn wants_ticket_check(&self, now: i64) -> (r: bool)
        ensures
            r == self@.checks_ticket(now),
    {
        matches!(self.phase, Phase::Connected) && now < self.end && matches!(
            self.fallback,
            NtlmFallback::Clear
        ) && self.settings.ntlm_fallback_recovery() && now >= self.fallback_check_at
            && !self.kerberos.realm.as_str().is_empty() && !self.busy
    }

    fn grant_deadline_due(&self, now: i64, idle: Option<i64>) -> (r: Option<Notice>)
        requires
            schedule::clock(now),
            self@.sound(),
        ensures
            self@.deadline_notice(now, idle) == match r {
                Some(n) => Some(n@),
                None => None,
            },
    {
        let deadline: i64 = match self.settings.grant() {
            Some(g) => g.sign_in_required_by,
            None => {
                return None;
            },
        };
        if deadline <= now || deadline - now > GRANT_DUE_SOON_SECS {
            return None;
        }
        if let Some(t) = self.grant_notified_at {
            if now - t < GRANT_NOTIFY_INTERVAL {
                return None;
            }
        }
        if let Some(secs) = idle {
            if secs > PRESENT_SECS {
                return None;
            }
        }
        let left: i64 = days_left(deadline, now);
        Some(
            Notice {
                title: say_about(Phrase::NotifyGrantDueTitle, Slot::Days, Filler::Days(left)),
                body: say_about2(
                    Phrase::NotifyGrantDueBody,
                    Slot::Realm,
                    text_value(self.kerberos.realm.as_str()),
                    Slot::Date,
                    Filler::Date(deadline),
                ),
                severity: Severity::Warning,
            },
        )
    }

    fn tick_probe(&mut self, now: i64) -> (probe: bool)
        requires
            schedule::clock(now),
            old(self)@.sound(),
        ensures
            final(self)@ == old(self)@.probed(now),
            probe == old(self)@.probes(now),
            final(self)@.sound(),
    {
        if !is_due(self.probe_at, now) || self.busy {
            return false;
        }
        self.probe_backoff = next_backoff(self.probe_backoff, PROBE_FIRST_SECS, PROBE_MAX_SECS);
        self.probe_at = Some(now + self.probe_backoff);
        true
    }

    fn tick_idle(&mut self, quiet: Tick, now: i64) -> (r: Tick)
        requires
            old(self)@.sound(),
        ensures
            final(self)@ == ticked_idle(old(self)@, quiet@, now).0,
            r@ == ticked_idle(old(self)@, quiet@, now).1,
            final(self)@.sound(),
    {
        let mut r = quiet;
        if is_due(self.startup_retry_at, now) && !self.busy {
            self.startup_retry_at = None;
            r.start = if matches!(self.phase, Phase::SignedOut) {
                Some(Trigger::Startup)
            } else {
                None
            };
        }
        r
    }

    fn tick_out(&mut self, quiet: Tick) -> (r: Tick)
        requires
            old(self)@.sound(),
        ensures
            final(self)@ == ticked_out(old(self)@, quiet@).0,
            r@ == ticked_out(old(self)@, quiet@).1,
            final(self)@.sound(),
    {
        self.phase = Phase::Expired;
        self.refresh_at = None;
        let mut r = quiet;
        r.redraw = true;
        r.notice = Some(
            Notice {
                title: say_about(
                    Phrase::NotifyStoppedTitle,
                    Slot::Realm,
                    text_value(self.kerberos.realm.as_str()),
                ),
                body: say(Phrase::NotifyStoppedBody),
                severity: Severity::Error,
            },
        );
        r
    }

    fn expiring(&self, now: i64) -> (r: Notice)
        requires
            schedule::clock(now),
            self@.sound(),
        ensures
            r@ == self@.expiring_notice(now),
    {
        Notice {
            title: say_about2(
                Phrase::NotifyExpiringTitle,
                Slot::Realm,
                text_value(self.kerberos.realm.as_str()),
                Slot::Duration,
                Filler::Duration(self.end - now),
            ),
            body: say(Phrase::NotifyExpiringBody),
            severity: Severity::Warning,
        }
    }

    fn tick_live(&mut self, quiet: Tick, now: i64, found: Lookup, random: Option<u64>) -> (r: Tick)
        requires
            schedule::clock(now),
            old(self)@.sound(),
        ensures
            final(self)@ == old(self)@.ticked_live(now, found, random),
            r@ == asked_live(old(self)@, quiet@, now, found),
            final(self)@.sound(),
    {
        let check = self.wants_ticket_check(now);
        let renew = is_due(self.refresh_at, now) && !self.busy;
        let escalate = !self.escalated && self.silent_failed && self.end - now <= ESCALATE_SECS;
        let gone = check && matches!(found, Lookup::Gone);
        let notice = if escalate {
            Some(self.expiring(now))
        } else {
            quiet.notice
        };
        // The NTLM fallback, detected rather than guessed at: an access that fell
        // back evicts the injected TGT before its End Time.
        if check {
            self.fallback_check_at = now + FALLBACK_POLL_SECS;
        }
        if gone {
            self.fallback = NtlmFallback::Confirmed;
        }
        if renew {
            // Re-arm before the attempt so a failure cannot produce a tight loop.
            self.refresh_at = Some(midpoint_with(now, self.end, random));
        }
        if escalate {
            self.escalated = true;
        }
        Tick {
            redraw: gone || escalate,
            notice,
            raise: if gone {
                Some(Raise::Repair)
            } else {
                None
            },
            probe: quiet.probe,
            start: if renew {
                Some(Trigger::Renewal)
            } else {
                None
            },
        }
    }

    /// One tick, for a given random number.
    pub fn tick_with(&mut self, now: i64, idle: Option<i64>, found: Lookup, random: Option<u64>) -> (r:
        Tick)
        requires
            schedule::clock(now),
            old(self)@.sound(),
        ensures
            final(self)@ == ticked(old(self)@, now, idle, found, random).0,
            r@ == ticked(old(self)@, now, idle, found, random).1,
            final(self)@.sound(),
    {
        let notice = self.grant_deadline_due(now, idle);
        if notice.is_some() {
            self.grant_notified_at = Some(now);
        }
        // Before the phase is looked at, because a broker that went away is worth asking
        // about whether or not this machine holds a ticket.
        let probe = self.tick_probe(now);
        let quiet = Tick { redraw: false, notice, raise: None, probe, start: None };
        if !matches!(self.phase, Phase::Connected) {
            self.tick_idle(quiet, now)
        } else if now >= self.end {
            // With an SMB session open this is the state that drops the redirector
            // into a stuck NTLM fallback.
            self.tick_out(quiet)
        } else {
            self.tick_live(quiet, now, found, random)
        }
    }
}

/// Called once a second. `idle` is how long ago the last keystroke or click was,
/// where the platform can tell, and `found` what the ticket cache holds, where
/// [`Agent::wants_ticket_check`] asked for it.
pub fn tick(a: &mut Agent, now: i64, idle: Option<i64>, found: Lookup) -> (r: Tick)
    requires
        schedule::clock(now),
        old(a)@.sound(),
    ensures
        exists|random: Option<u64>|
            (#[trigger] ticked(old(a)@, now, idle, found, random)) == (final(a)@, r@),
        final(a)@.sound(),
{
    let random = random_number();
    a.tick_with(now, idle, found, random)
}

// ------------------------------------------------------------------------ laws

/// An expiry is announced exactly once: the tick that announces it leaves
/// `Connected`, and no tick from any other phase announces one.
pub proof fn law_an_expiry_is_announced_once(
    m: AgentModel,
    now: i64,
    idle: Option<i64>,
    found: Lookup,
    random: Option<u64>,
)
    ensures
        ({
            let (next, asked) = ticked(m, now, idle, found, random);
            (asked.notice matches Some(n) && n.title.phrase is NotifyStoppedTitle) <==> (
            m.phase is Connected && now >= m.end && next.phase is Expired)
        }),
{
}

/// The grant deadline is announced at most once a day: after a tick that announced
/// it, no tick within a day announces it again.
pub proof fn law_the_deadline_is_announced_at_most_once_a_day(
    m: AgentModel,
    now: i64,
    idle: Option<i64>,
    found: Lookup,
    random: Option<u64>,
    later: i64,
    idle_later: Option<i64>,
)
    requires
        m.deadline_notice(now, idle) is Some,
        now <= later < now + GRANT_NOTIFY_INTERVAL,
    ensures
        ticked(m, now, idle, found, random).0.grant_notified_at == Some(now),
        ticked(m, now, idle, found, random).0.deadline_notice(later, idle_later) is None,
{
}

/// Nobody is told of a deadline that has passed, of one more than a week away, or
/// while nobody is at the machine.
pub proof fn law_a_deadline_waits_for_a_human(m: AgentModel, now: i64, idle: Option<i64>)
    requires
        m.deadline_notice(now, idle) is Some,
    ensures
        m.settings.file.grant is Some,
        now < m.settings.file.grant->0.sign_in_required_by <= now + GRANT_DUE_SOON_SECS,
        idle matches Some(secs) ==> secs <= PRESENT_SECS,
{
}

/// One raise per episode: a tick raises the surface only as it opens an episode,
/// and no tick closes one.
pub proof fn law_an_episode_raises_once(
    m: AgentModel,
    now: i64,
    idle: Option<i64>,
    found: Lookup,
    random: Option<u64>,
)
    ensures
        ({
            let (next, asked) = ticked(m, now, idle, found, random);
            &&& asked.raise is Some <==> m.fallback is Clear && next.fallback is Confirmed
            &&& m.fallback is Confirmed ==> next.fallback is Confirmed && asked.raise is None
        }),
{
}

/// A tick starts nothing, asks nothing and looks for nothing while a worker holds
/// the slot.
pub proof fn law_a_tick_leaves_a_taken_slot_alone(
    m: AgentModel,
    now: i64,
    idle: Option<i64>,
    found: Lookup,
    random: Option<u64>,
)
    requires
        m.busy,
    ensures
        ({
            let (next, asked) = ticked(m, now, idle, found, random);
            asked.start is None && !asked.probe && asked.raise is None && next.busy
        }),
{
}

/// Every attempt is armed again before it is made, so that a failure cannot
/// produce a tight loop: after a tick that starts or probes, that clock is in the
/// future or is not running.
pub proof fn law_an_attempt_is_armed_before_it_is_made(
    m: AgentModel,
    now: i64,
    idle: Option<i64>,
    found: Lookup,
    random: Option<u64>,
)
    requires
        schedule::clock(now),
        m.sound(),
    ensures
        ({
            let (next, asked) = ticked(m, now, idle, found, random);
            &&& asked.start == Some(Trigger::Renewal) ==> (next.refresh_at matches Some(t) && t
                > now)
            &&& asked.start == Some(Trigger::Startup) ==> next.startup_retry_at is None
            &&& asked.probe ==> (next.probe_at matches Some(t) && t > now)
        }),
{
    schedule::law_a_renewal_lands_before_expiry(now as int, m.end as int, random);
    schedule::law_a_backoff_stays_in_its_bounds(
        m.probe_backoff as int,
        PROBE_FIRST_SECS as int,
        PROBE_MAX_SECS as int,
    );
}

/// A live session is warned about exactly where silence has failed and the end is near: a
/// tick says that the ticket is running out if and only if a silent renewal has failed, the
/// ticket ends within twenty minutes and nobody has been told of this one. It then
/// remembers having said so, names the realm and how long is left, and redraws.
pub proof fn law_an_end_nobody_could_prevent_is_told_once(
    m: AgentModel,
    now: i64,
    idle: Option<i64>,
    found: Lookup,
    random: Option<u64>,
)
    requires
        m.phase is Connected,
        now < m.end,
    ensures
        ({
            let (next, asked) = ticked(m, now, idle, found, random);
            let told = asked.notice matches Some(n) && n.title.phrase is NotifyExpiringTitle;
            &&& told <==> m.silent_failed && m.end - now <= 20 * 60 && !m.escalated
            &&& next.escalated <==> m.escalated || told
            &&& told ==> asked.redraw && asked.notice->0.severity is Warning
                && asked.notice->0.body.phrase is NotifyExpiringBody && asked.notice->0.title.args
                == seq![
                (Slot::Realm, FillerModel::Text(m.kerberos.realm)),
                (Slot::Duration, FillerModel::Duration((m.end - now) as i64)),
            ]
        }),
{
}

/// A live session is renewed exactly when its clock has run out and no worker holds the
/// slot, and a machine that is signed out tries again exactly when its own has. No tick
/// starts anything else.
pub proof fn law_a_tick_starts_what_is_due(
    m: AgentModel,
    now: i64,
    idle: Option<i64>,
    found: Lookup,
    random: Option<u64>,
)
    ensures
        ({
            let (next, asked) = ticked(m, now, idle, found, random);
            let live = m.phase is Connected && now < m.end;
            &&& asked.start == Some(Trigger::Renewal) <==> live && !m.busy && m.refresh_at is Some
                && m.refresh_at->0 <= now
            &&& asked.start == Some(Trigger::Startup) <==> m.phase is SignedOut && !m.busy
                && m.startup_retry_at is Some && m.startup_retry_at->0 <= now
            &&& asked.start is Some ==> asked.start == Some(Trigger::Renewal) || asked.start == Some(
                Trigger::Startup,
            )
            &&& asked.start != Some(Trigger::Renewal) && live ==> next.refresh_at == m.refresh_at
            &&& next.phase is Connected || live || next.phase == m.phase || (m.phase is Connected
                && next.phase is Expired && next.refresh_at is None)
        }),
{
}

/// A startup attempt that is due is spent whether or not it is made: only a connected
/// machine, a taken slot or a clock that is still running keeps it.
pub proof fn law_a_startup_attempt_is_spent_once(
    m: AgentModel,
    now: i64,
    idle: Option<i64>,
    found: Lookup,
    random: Option<u64>,
)
    ensures
        ({
            let next = ticked(m, now, idle, found, random).0;
            let due = m.startup_retry_at matches Some(t) && t <= now;
            next.startup_retry_at == (if !(m.phase is Connected) && !m.busy && due {
                None
            } else {
                m.startup_retry_at
            })
        }),
{
}

/// A vanished ticket opens an episode: the surface is raised for a repair exactly where a
/// live, undisturbed session that is due for a look was looked at and the ticket is gone.
/// The look is not repeated within the interval, and where none was due nothing is
/// concluded from what was found.
pub proof fn law_a_vanished_ticket_opens_an_episode(
    m: AgentModel,
    now: i64,
    idle: Option<i64>,
    found: Lookup,
    random: Option<u64>,
)
    requires
        schedule::clock(now),
    ensures
        ({
            let (next, asked) = ticked(m, now, idle, found, random);
            let looked = m.phase is Connected && now < m.end && m.fallback is Clear
                && m.settings.ntlm_fallback_recovery() && m.fallback_check_at <= now
                && m.kerberos.realm.len() > 0 && !m.busy;
            &&& m.checks_ticket(now) <==> looked
            &&& asked.raise == (if looked && found is Gone {
                Some(Raise::Repair)
            } else {
                None
            })
            &&& next.fallback == (if looked && found is Gone {
                NtlmFallback::Confirmed
            } else {
                m.fallback
            })
            &&& next.fallback_check_at == (if looked {
                (now + 30) as i64
            } else {
                m.fallback_check_at
            })
        }),
{
}

/// The broker is asked again exactly when the probe's clock has run out and no worker is
/// asking it already; each wait is twice the last one, from half a minute up to ten
/// minutes.
pub proof fn law_a_probe_backs_off(
    m: AgentModel,
    now: i64,
    idle: Option<i64>,
    found: Lookup,
    random: Option<u64>,
)
    requires
        schedule::clock(now),
        m.sound(),
    ensures
        ({
            let (next, asked) = ticked(m, now, idle, found, random);
            let wait = if m.probe_backoff * 2 < 30 {
                30int
            } else if m.probe_backoff * 2 > 600 {
                600int
            } else {
                m.probe_backoff * 2
            };
            &&& asked.probe <==> m.probe_at is Some && m.probe_at->0 <= now && !m.busy
            &&& asked.probe ==> next.probe_backoff == wait && next.probe_at is Some
                && next.probe_at->0 == now + wait
            &&& !asked.probe ==> next.probe_backoff == m.probe_backoff && next.probe_at
                == m.probe_at
        }),
{
}

/// The grant's deadline is told exactly where it is within a week, still ahead, not told
/// of for a day, and somebody is there to hear it -- unless the ticket itself has more
/// urgent news, which outranks it. It names the days that are left, the realm and the date.
pub proof fn law_a_deadline_is_told_when_it_can_be_heard(
    m: AgentModel,
    now: i64,
    idle: Option<i64>,
    found: Lookup,
    random: Option<u64>,
)
    requires
        schedule::clock(now),
    ensures
        ({
            let (next, asked) = ticked(m, now, idle, found, random);
            let by = m.settings.file.grant->0.sign_in_required_by;
            let heard = m.settings.file.grant is Some && now < by && by - now <= 7 * 86_400 && !(
            m.grant_notified_at matches Some(t) && now - t < 86_400) && !(idle matches Some(secs)
                && secs > 5 * 60);
            let urgent = m.phase is Connected && (now >= m.end || (m.silent_failed && !m.escalated
                && m.end - now <= 20 * 60));
            &&& m.deadline_notice(now, idle) is Some <==> heard
            &&& (asked.notice matches Some(n) && n.title.phrase is NotifyGrantDueTitle) <==> heard
                && !urgent
            &&& asked.notice is Some <==> heard || urgent
            &&& next.grant_notified_at == (if heard {
                Some(now)
            } else {
                m.grant_notified_at
            })
            &&& heard && !urgent ==> asked.notice->0.severity is Warning && asked.notice->0.body.args
                == seq![
                (Slot::Realm, FillerModel::Text(m.kerberos.realm)),
                (Slot::Date, FillerModel::Date(by)),
            ] && (asked.notice->0.title.args[0].1 matches FillerModel::Days(d) && (d - 1) * 86_400
                < by - now <= d * 86_400)
        }),
{
}

/// A ticket that runs out is the end of the session, said with its realm, and a tick over
/// any other machine leaves its phase alone.
pub proof fn law_a_ticket_that_ran_out_ends_the_session(
    m: AgentModel,
    now: i64,
    idle: Option<i64>,
    found: Lookup,
    random: Option<u64>,
)
    ensures
        ({
            let (next, asked) = ticked(m, now, idle, found, random);
            if m.phase is Connected && now >= m.end {
                &&& next.phase is Expired
                &&& next.refresh_at is None
                &&& asked.redraw
                &&& asked.start is None
                &&& asked.notice matches Some(n) && n.title.phrase is NotifyStoppedTitle
                    && n.title.args == seq![
                    (Slot::Realm, FillerModel::Text(m.kerberos.realm)),
                ] && n.body.phrase is NotifyStoppedBody && n.severity is Error
            } else {
                &&& next.phase == m.phase
                &&& next.end == m.end
                &&& next.settings == m.settings
                &&& next.kerberos == m.kerberos
            }
        }),
{
}

/// A surface is drawn again when a tick changed what it shows: the session ran out, its
/// ticket vanished, or its end was told; and no tick changes anything that it does not say.
pub proof fn law_a_tick_changes_what_it_says(
    m: AgentModel,
    now: i64,
    idle: Option<i64>,
    found: Lookup,
    random: Option<u64>,
)
    ensures
        ({
            let (next, asked) = ticked(m, now, idle, found, random);
            let out = m.phase is Connected && now >= m.end;
            let told = m.phase is Connected && now < m.end && m.silent_failed && !m.escalated
                && m.end - now <= 20 * 60;
            &&& asked.redraw <==> out || told || asked.raise is Some
            &&& next.settings == m.settings && next.kerberos == m.kerberos
            &&& next.enroll_state == m.enroll_state
            &&& next.principal == m.principal && next.start == m.start && next.end == m.end
                && next.renew_till == m.renew_till
            &&& next.message == m.message && next.fault == m.fault
            &&& next.first_failure_at == m.first_failure_at
            &&& next.in_flight == m.in_flight && next.busy == m.busy
            &&& next.just_authorized == m.just_authorized
            &&& next.granted_exchange_pending == m.granted_exchange_pending
            &&& next.silent_failed == m.silent_failed
            &&& next.startup_retries == m.startup_retries
            &&& next.startup_backoff == m.startup_backoff
            &&& next.refresh_backoff == m.refresh_backoff
            &&& next.device_grant == m.device_grant && next.help_url == m.help_url
                && next.idp_name == m.idp_name && next.source == m.source
        }),
{
}

/// A renewal that is started is armed again at the midpoint of what is left.
pub proof fn law_a_started_renewal_is_armed_at_the_midpoint(
    m: AgentModel,
    now: i64,
    idle: Option<i64>,
    found: Lookup,
    random: Option<u64>,
)
    ensures
        ({
            let (next, asked) = ticked(m, now, idle, found, random);
            asked.start == Some(Trigger::Renewal) ==> next.refresh_at == Some(
                schedule::midpoint_of(now as int, m.end as int, random) as i64,
            )
        }),
{
}

/// What contracts speak of is what the fields hold, each under its own name.
pub proof fn law_every_field_is_seen_under_its_name(t: Tick)
    ensures
        t@.redraw == t.redraw,
        t@.raise == t.raise,
        t@.probe == t.probe,
        t@.start == t.start,
{
}

} // verus!
