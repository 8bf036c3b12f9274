//! Verification sessions: throttled captcha issuance and one-time validation.

use vstd::prelude::*;

use crate::error::Error;

verus! {

/// Seconds that must pass after a request before a session may be issued
/// again.
pub const COOLDOWN_SECS: u64 = 600;

/// The number of distinct captcha codes; codes have six decimal digits.
pub const CAPTCHA_SPACE: u64 = 1000000;

/// The purpose of a verification session.
#[derive(Debug, Clone, Copy, PartialEq, Eq, Hash, Structural)]
pub enum VerifyVariant {
    /// Resetting the password of a verified account.
    ResetPassword,
    /// Activating an unverified account.
    Activation,
}

/// A captcha code sent to the user by email.
#[derive(Debug, Clone, Copy, PartialEq, Eq, Hash, Structural)]
pub struct Captcha {
    pub code: u32,
}

impl Captcha {
    /// The captcha made of the six low decimal digits of a random number.
    pub fn from_random(raw: u64) -> (r: Captcha)
        ensures
            r.code as u64 == raw % CAPTCHA_SPACE,
    {
        Captcha { code: (raw % CAPTCHA_SPACE) as u32 }
    }
}

/// A pending verification session.
#[derive(Debug, Clone, Copy, PartialEq, Eq, Structural)]
pub struct VerifyCx {
    /// The captcha that validates this session.
    pub captcha: Captcha,
    /// When the session was first issued, in seconds.
    pub created_at: u64,
    /// When the session was last (re)issued, in seconds.
    pub last_request_at: u64,
}

/// Whether a request at `now` comes within the cooldown after one at `last`.
pub open spec fn throttled(last: u64, now: u64) -> bool {
    now as int - last as int <= COOLDOWN_SECS as int
}

/// The result of a request at `now` on the session slot `s`, drawing `fresh`
/// as the new captcha, and the slot afterwards.
pub open spec fn request_outcome(s: Option<VerifyCx>, now: u64, fresh: Captcha) -> (
    Result<(), Error>,
    Option<VerifyCx>,
) {
    match s {
        None => (Ok(()), Some(VerifyCx { captcha: fresh, created_at: now, last_request_at: now })),
        Some(cx) => if throttled(cx.last_request_at, now) {
            (Err(Error::Throttled { last_request_at: cx.last_request_at }), s)
        } else {
            (
                Ok(()),
                Some(VerifyCx { captcha: fresh, created_at: cx.created_at, last_request_at: now }),
            )
        },
    }
}

/// The result of validating `c` against the session slot `s` of `variant`,
/// and the slot afterwards.
pub open spec fn validate_outcome(s: Option<VerifyCx>, variant: VerifyVariant, c: Captcha) -> (
    Result<(), Error>,
    Option<VerifyCx>,
) {
    match s {
        None => (Err(Error::VerifySessionNotFound(variant)), s),
        Some(cx) => if cx.captcha == c {
            (Ok(()), None)
        } else {
            (Err(Error::CaptchaIncorrect), s)
        },
    }
}

impl VerifyCx {
    /// A session issued at `now` with the captcha `captcha`.
    pub fn new(now: u64, captcha: Captcha) -> (r: VerifyCx)
        ensures
            r == (VerifyCx { captcha, created_at: now, last_request_at: now }),
    {
        VerifyCx { captcha, created_at: now, last_request_at: now }
    }

    /// The captcha of this session.
    pub fn captcha(&self) -> (r: Captcha)
        ensures
            r == self.captcha,
    {
        self.captcha
    }

    /// Reissues this session at `now` with the captcha `fresh`, unless the
    /// cooldown since the last request has not elapsed.
    pub fn update(&mut self, now: u64, fresh: Captcha) -> (r: Result<(), Error>)
        ensures
            r == request_outcome(Some(*old(self)), now, fresh).0,
            Some(*final(self)) == request_outcome(Some(*old(self)), now, fresh).1,
    {
        if now > self.last_request_at && now - self.last_request_at > COOLDOWN_SECS {
            self.captcha = fresh;
            self.last_request_at = now;
            Ok(())
        } else {
            Err(Error::Throttled { last_request_at: self.last_request_at })
        }
    }
}

/// Requests a session in `slot`: issues one if none is pending, else
/// reissues the pending one unless throttled.
pub fn request_session(slot: &mut Option<VerifyCx>, now: u64, fresh: Captcha) -> (r: Result<(), Error>)
    ensures
        r == request_outcome(*old(slot), now, fresh).0,
        *final(slot) == request_outcome(*old(slot), now, fresh).1,
{
    match slot {
        Some(cx) => cx.update(now, fresh),
        None => {
            *slot = Some(VerifyCx::new(now, fresh));
            Ok(())
        },
    }
}

/// Validates `captcha` against the session in `slot`, consuming the session
/// when it matches.
pub fn validate_session(slot: &mut Option<VerifyCx>, variant: VerifyVariant, captcha: Captcha) -> (r: Result<(), Error>)
    ensures
        r == validate_outcome(*old(slot), variant, captcha).0,
        *final(slot) == validate_outcome(*old(slot), variant, captcha).1,
{
    match slot {
        None => Err(Error::VerifySessionNotFound(variant)),
        Some(cx) => {
            if cx.captcha == captcha {
                *slot = None;
                Ok(())
            } else {
                Err(Error::CaptchaIncorrect)
            }
        },
    }
}

/// The verification sessions of a verified account, at most one per variant.
#[derive(Debug, Clone, Copy, PartialEq, Eq)]
pub struct Ext {
    /// The pending password reset session.
    pub reset_password: Option<VerifyCx>,
    /// The pending activation session.
    pub activation: Option<VerifyCx>,
}

impl Ext {
    /// The pending session of `variant`, if any.
    pub open spec fn slot(self, variant: VerifyVariant) -> Option<VerifyCx> {
        match variant {
            VerifyVariant::ResetPassword => self.reset_password,
            VerifyVariant::Activation => self.activation,
        }
    }

    /// The pending sessions, by variant.
    pub open spec fn view(self) -> Map<VerifyVariant, VerifyCx> {
        Map::new(|v: VerifyVariant| self.slot(v) is Some, |v: VerifyVariant| self.slot(v)->Some_0)
    }

    /// Sessions that leave every variant but `variant` as in `self`, and
    /// hold `s` for `variant`.
    pub open spec fn with_slot(self, variant: VerifyVariant, s: Option<VerifyCx>) -> Ext {
        match variant {
            VerifyVariant::ResetPassword => Ext { reset_password: s, ..self },
            VerifyVariant::Activation => Ext { activation: s, ..self },
        }
    }

    /// No pending session.
    pub fn new() -> (r: Ext)
        ensures
            r == (Ext { reset_password: None, activation: None }),
            forall|v: VerifyVariant| r.slot(v) is None,
    {
        Ext { reset_password: None, activation: None }
    }

    /// The pending session of `variant`, if any.
    pub fn get(&self, variant: VerifyVariant) -> (r: Option<VerifyCx>)
        ensures
            r == self.slot(variant),
    {
        match variant {
            VerifyVariant::ResetPassword => self.reset_password,
            VerifyVariant::Activation => self.activation,
        }
    }

    /// Requests a session of `variant` at `now`, with `fresh` as the captcha
    /// of an issued or reissued session. Other variants are untouched.
    pub fn request(&mut self, variant: VerifyVariant, now: u64, fresh: Captcha) -> (r: Result<(), Error>)
        ensures
            r == request_outcome(old(self).slot(variant), now, fresh).0,
            *final(self) == old(self).with_slot(variant, request_outcome(old(self).slot(variant), now, fresh).1),
    {
        match variant {
            VerifyVariant::ResetPassword => request_session(&mut self.reset_password, now, fresh),
            VerifyVariant::Activation => request_session(&mut self.activation, now, fresh),
        }
    }

    /// Validates `captcha` against the session of `variant`, removing the
    /// session when it matches. Other variants are untouched.
    pub fn validate(&mut self, variant: VerifyVariant, captcha: Captcha) -> (r: Result<(), Error>)
        ensures
            r == validate_outcome(old(self).slot(variant), variant, captcha).0,
            *final(self) == old(self).with_slot(variant, validate_outcome(old(self).slot(variant), variant, captcha).1),
    {
        match variant {
            VerifyVariant::ResetPassword => validate_session(&mut self.reset_password, variant, captcha),
            VerifyVariant::Activation => validate_session(&mut self.activation, variant, captcha),
        }
    }
}

/// A session requested again within the cooldown is throttled and keeps its
/// captcha; requested after the cooldown it is reissued with the new captcha,
/// which differs from the old one whenever the draw does.
pub proof fn lemma_request_cooldown(e: Ext, variant: VerifyVariant, t1: u64, c1: Captcha, t2: u64, c2: Captcha)
    requires
        request_outcome(e.slot(variant), t1, c1).0 is Ok,
    ensures
        ({
            let e1 = e.with_slot(variant, request_outcome(e.slot(variant), t1, c1).1);
            let (r2, s2) = request_outcome(e1.slot(variant), t2, c2);
            &&& e1.slot(variant) == Some(VerifyCx { captcha: c1, ..e1.slot(variant)->Some_0 })
            &&& t2 as int - t1 as int <= COOLDOWN_SECS as int ==> r2 == Err::<(), Error>(
                Error::Throttled { last_request_at: t1 },
            ) && e1.with_slot(variant, s2) == e1
            &&& t2 as int - t1 as int > COOLDOWN_SECS as int ==> r2 is Ok && s2->Some_0.captcha == c2
                && (c2 != c1 ==> s2->Some_0.captcha != e1.slot(variant)->Some_0.captcha)
        }),
{
    let e1 = e.with_slot(variant, request_outcome(e.slot(variant), t1, c1).1);
    assert(e1.with_slot(variant, e1.slot(variant)) == e1);
}

/// A correct captcha validates once: the session is consumed, and the same
/// captcha afterwards finds no session.
pub proof fn lemma_validate_once(e: Ext, variant: VerifyVariant, c: Captcha)
    requires
        e.slot(variant) is Some,
        e.slot(variant)->Some_0.captcha == c,
    ensures
        ({
            let (r1, s1) = validate_outcome(e.slot(variant), variant, c);
            let e1 = e.with_slot(variant, s1);
            &&& r1 is Ok
            &&& !e1@.contains_key(variant)
            &&& validate_outcome(e1.slot(variant), variant, c).0 == Err::<(), Error>(
                Error::VerifySessionNotFound(variant),
            )
        }),
{
}

/// A wrong captcha is refused and leaves the sessions as they were, so the
/// correct captcha still validates.
pub proof fn lemma_validate_incorrect(e: Ext, variant: VerifyVariant, wrong: Captcha)
    requires
        e.slot(variant) is Some,
        e.slot(variant)->Some_0.captcha != wrong,
    ensures
        ({
            let (r1, s1) = validate_outcome(e.slot(variant), variant, wrong);
            let e1 = e.with_slot(variant, s1);
            &&& r1 == Err::<(), Error>(Error::CaptchaIncorrect)
            &&& e1 == e
            &&& validate_outcome(e1.slot(variant), variant, e.slot(variant)->Some_0.captcha).0 is Ok
        }),
{
    assert(e.with_slot(variant, e.slot(variant)) == e);
}

/// Requests and validations of one variant leave every other variant's
/// session as it was.
pub proof fn lemma_variants_independent(e: Ext, variant: VerifyVariant, other: VerifyVariant, s: Option<VerifyCx>)
    requires
        variant != other,
    ensures
        e.with_slot(variant, s).slot(other) == e.slot(other),
        e.with_slot(variant, s).slot(variant) == s,
{
}

} // verus!
