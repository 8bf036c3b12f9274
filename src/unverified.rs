//! Unverified accounts: an allowed email address awaiting activation.

use vstd::prelude::*;
use vstd::utf8::encode_utf8;

use crate::error::Error;
use crate::mail::{address_valid, parse_address};
use crate::verify::{request_outcome, request_session, validate_outcome, validate_session, Captcha, VerifyCx, VerifyVariant};

verus! {

/// The SipHash-2-4 digest, under the all-zero key, of the UTF-8 bytes of
/// an email address.
pub uninterp spec fn email_sip24(email: Seq<char>) -> u64;

/// Relies on siphasher's `SipHasher24::new().hash`: the SipHash-2-4 digest
/// of the given bytes under the all-zero key, which depends on them alone.
#[verifier::external_body]
fn sip_hash_email(email: &str) -> (r: u64)
    ensures
        r == email_sip24(email@),
{
    siphasher::sip::SipHasher24::new().hash(email.as_bytes())
}

/// The domain suffix of the school's addresses.
pub open spec fn school_suffix() -> Seq<u8> {
    seq![64u8, 112, 107, 117, 115, 99, 104, 111, 111, 108, 46, 101, 100, 117, 46, 99, 110]
}

/// The domain suffix of the school's internal addresses.
pub open spec fn internal_suffix() -> Seq<u8> {
    seq![64u8, 105, 46, 112, 107, 117, 115, 99, 104, 111, 111, 108, 46, 101, 100, 117, 46, 99, 110]
}

/// Whether `s` ends with `suffix`.
pub open spec fn ends_with(s: Seq<u8>, suffix: Seq<u8>) -> bool {
    suffix.len() <= s.len() && s.subrange(s.len() - suffix.len(), s.len() as int) == suffix
}

/// Whether an email address belongs to an allowed domain: it ends with
/// `@pkuschool.edu.cn` or `@i.pkuschool.edu.cn`.
pub open spec fn allowed_email(email: Seq<char>) -> bool {
    ends_with(encode_utf8(email), school_suffix()) || ends_with(encode_utf8(email), internal_suffix())
}

fn bytes_end_with(s: &[u8], suffix: &[u8]) -> (r: bool)
    ensures
        r == ends_with(s@, suffix@),
{
    if suffix.len() > s.len() {
        return false;
    }
    let start: usize = s.len() - suffix.len();
    let mut i: usize = 0;
    while i < suffix.len()
        invariant
            suffix@.len() <= s@.len(),
            start == s@.len() - suffix@.len(),
            s@.len() <= usize::MAX,
            i <= suffix@.len(),
            forall|j: int| 0 <= j < i ==> s@[start + j] == suffix@[j],
        decreases suffix@.len() - i,
    {
        if s[start + i] != suffix[i] {
            assert(s@.subrange(start as int, s@.len() as int)[i as int] != suffix@[i as int]);
            return false;
        }
        i = i + 1;
    }
    assert(s@.subrange(start as int, s@.len() as int) == suffix@);
    true
}

/// Whether `email` belongs to an allowed domain.
pub fn is_allowed_email(email: &str) -> (r: bool)
    ensures
        r == allowed_email(email@),
{
    let bytes = email.as_bytes();
    let school: [u8; 17] = [64u8, 112, 107, 117, 115, 99, 104, 111, 111, 108, 46, 101, 100, 117, 46, 99, 110];
    let internal: [u8; 19] = [64u8, 105, 46, 112, 107, 117, 115, 99, 104, 111, 111, 108, 46, 101, 100, 117, 46, 99, 110];
    assert(school@ == school_suffix());
    assert(internal@ == internal_suffix());
    bytes_end_with(bytes, school.as_slice()) || bytes_end_with(bytes, internal.as_slice())
}

/// What an unverified account holds, as plain values.
pub struct UnverifiedView {
    pub email: Seq<char>,
    pub email_hash: u64,
    pub ext: Option<VerifyCx>,
}

/// The stored payload of an unverified account: every field but the email
/// hash, which the storage engine keeps as the record's dimension.
pub struct UnverifiedRecord {
    pub email: String,
    pub ext: Option<VerifyCx>,
}

/// What a stored payload holds, as plain values.
pub struct UnverifiedRecordView {
    pub email: Seq<char>,
    pub ext: Option<VerifyCx>,
}

impl View for UnverifiedRecord {
    type V = UnverifiedRecordView;

    open spec fn view(&self) -> UnverifiedRecordView {
        UnverifiedRecordView { email: self.email@, ext: self.ext }
    }
}

/// The payload written for an unverified account.
pub open spec fn unverified_record_of(u: UnverifiedView) -> UnverifiedRecordView {
    UnverifiedRecordView { email: u.email, ext: u.ext }
}

/// The unverified account read back from a payload stored under the email
/// hash `hash`.
pub open spec fn unverified_from_record(rec: UnverifiedRecordView, hash: u64) -> UnverifiedView {
    UnverifiedView { email: rec.email, email_hash: hash, ext: rec.ext }
}

/// An unverified account: an allowed email address, its partition hash,
/// and the activation session, if one was requested.
pub struct Unverified {
    email: String,
    email_hash: u64,
    ext: Option<VerifyCx>,
}

impl View for Unverified {
    type V = UnverifiedView;

    closed spec fn view(&self) -> UnverifiedView {
        UnverifiedView { email: self.email@, email_hash: self.email_hash, ext: self.ext }
    }
}

/// The unverified account made for `email`, with its hash assigned once.
pub open spec fn created_view(email: Seq<char>) -> UnverifiedView {
    UnverifiedView { email, email_hash: email_sip24(email), ext: None }
}

impl Unverified {
    /// The number of dimensions the storage engine partitions unverified
    /// accounts by.
    pub const DIMS: usize = 1;

    /// The schema version of the payload that [`Unverified::encode`] writes.
    pub const VERSION: u32 = 1;

    /// A new unverified account for `email`, with its partition hash
    /// computed from it. Fails with [`Error::InvalidEmail`] exactly when the
    /// address does not belong to an allowed domain.
    pub fn new(email: String) -> (r: Result<Unverified, Error>)
        ensures
            allowed_email(email@) ==> r is Ok && r->Ok_0@ == created_view(email@),
            !allowed_email(email@) ==> r == Err::<Unverified, Error>(Error::InvalidEmail),
    {
        if !is_allowed_email(email.as_str()) {
            return Err(Error::InvalidEmail);
        }
        let email_hash = sip_hash_email(email.as_str());
        Ok(Unverified { email, email_hash, ext: None })
    }

    /// The email address of this account.
    pub fn email(&self) -> (r: &str)
        ensures
            r@ == self@.email,
    {
        self.email.as_str()
    }

    /// The partition hash of this account, as assigned when it was created
    /// or loaded.
    pub fn email_hash(&self) -> (r: u64)
        ensures
            r == self@.email_hash,
    {
        self.email_hash
    }

    /// The activation session, if one was requested.
    pub fn ext(&self) -> (r: Option<VerifyCx>)
        ensures
            r == self@.ext,
    {
        self.ext
    }

    /// Requests the activation session at `now`, with `fresh` as the captcha
    /// of an issued or reissued session, and hands back the address to send
    /// the captcha to.
    ///
    /// Fails with [`Error::InvalidAddress`] if the email cannot be a
    /// recipient, and with [`Error::Throttled`] if the session was requested
    /// no more than the cooldown ago; either way nothing changes.
    pub fn send_captcha(&mut self, now: u64, fresh: Captcha) -> (r: Result<lettre::Address, Error>)
        ensures
            final(self)@.email == old(self)@.email,
            final(self)@.email_hash == old(self)@.email_hash,
            !address_valid(old(self)@.email) ==> r is Err && r->Err_0 == Error::InvalidAddress
                && final(self)@ == old(self)@,
            address_valid(old(self)@.email) ==> {
                let (o, s) = request_outcome(old(self)@.ext, now, fresh);
                &&& r is Ok <==> o is Ok
                &&& r is Err ==> o is Err && r->Err_0 == o->Err_0
                &&& final(self)@.ext == s
            },
    {
        let to = match parse_address(self.email.as_str()) {
            Ok(a) => a,
            Err(_) => return Err(Error::InvalidAddress),
        };
        match request_session(&mut self.ext, now, fresh) {
            Ok(()) => Ok(to),
            Err(e) => Err(e),
        }
    }

    /// Validates `captcha` against the activation session, consuming it when
    /// it matches.
    pub fn activate(&mut self, captcha: Captcha) -> (r: Result<(), Error>)
        ensures
            ({
                let (o, s) = validate_outcome(old(self)@.ext, VerifyVariant::Activation, captcha);
                &&& r == o
                &&& final(self)@ == UnverifiedView { ext: s, ..old(self)@ }
            }),
    {
        validate_session(&mut self.ext, VerifyVariant::Activation, captcha)
    }

    /// The partition key of dimension `dim`: the email hash.
    pub fn dim(&self, dim: usize) -> (r: u64)
        requires
            dim < Self::DIMS,
        ensures
            r == self@.email_hash,
    {
        self.email_hash
    }

    /// The payload to store for this account.
    pub fn encode(&self) -> (r: UnverifiedRecord)
        ensures
            r@ == unverified_record_of(self@),
    {
        UnverifiedRecord { email: self.email.clone(), ext: self.ext }
    }

    /// The unverified account stored as `rec` under the dimensions `dims`,
    /// whose first one is the email hash, taken as it is and not computed
    /// again. Only schema version 1 can be read.
    pub fn decode(version: u32, dims: &[u64], rec: UnverifiedRecord) -> (r: Result<Unverified, Error>)
        requires
            dims@.len() >= Self::DIMS,
        ensures
            version == Self::VERSION ==> r is Ok && r->Ok_0@ == unverified_from_record(rec@, dims@[0]),
            version != Self::VERSION ==> r == Err::<Unverified, Error>(Error::UnsupportedSchemaVersion(version)),
    {
        if version == Self::VERSION {
            Ok(Unverified { email: rec.email, email_hash: dims[0], ext: rec.ext })
        } else {
            Err(Error::UnsupportedSchemaVersion(version))
        }
    }
}

/// Decoding the payload written for an unverified account, under the
/// dimension `hash`, gives the account back with `hash` as its email hash
/// and every other field equal.
pub proof fn lemma_unverified_round_trip(u: UnverifiedView, hash: u64)
    ensures
        unverified_from_record(unverified_record_of(u), hash) == (UnverifiedView { email_hash: hash, ..u }),
{
}

/// Two unverified accounts created for the same email address carry the
/// same partition hash.
pub proof fn lemma_email_hash_deterministic(email: Seq<char>, a: UnverifiedView, b: UnverifiedView)
    requires
        a == created_view(email),
        b == created_view(email),
    ensures
        a.email_hash == b.email_hash,
        a.email_hash == email_sip24(email),
{
}

} // verus!
