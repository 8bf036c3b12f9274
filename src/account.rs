//! Verified accounts and the versioned record layout they are stored in.

use vstd::prelude::*;

use crate::error::Error;
use crate::mail::{address_valid, parse_address};
use crate::tag::Tag;
use crate::verify::{request_outcome, validate_outcome, Captcha, Ext, VerifyVariant};

verus! {

/// What an account holds, as plain values.
pub struct AccountView {
    pub id: u64,
    pub email: Seq<char>,
    pub password: Seq<char>,
    pub tags: Seq<Tag>,
    pub ext: Ext,
}

/// The stored payload of an account: every field but the id, which the
/// storage engine keeps as the record's dimension.
pub struct AccountRecord {
    pub email: String,
    pub password: String,
    pub tags: Vec<Tag>,
    pub ext: Ext,
}

/// What a stored payload holds, as plain values.
pub struct AccountRecordView {
    pub email: Seq<char>,
    pub password: Seq<char>,
    pub tags: Seq<Tag>,
    pub ext: Ext,
}

impl View for AccountRecord {
    type V = AccountRecordView;

    open spec fn view(&self) -> AccountRecordView {
        AccountRecordView {
            email: self.email@,
            password: self.password@,
            tags: self.tags@,
            ext: self.ext,
        }
    }
}

/// The payload written for an account.
pub open spec fn record_of(a: AccountView) -> AccountRecordView {
    AccountRecordView { email: a.email, password: a.password, tags: a.tags, ext: a.ext }
}

/// The account read back from a payload stored under the id `id`.
pub open spec fn account_from_record(rec: AccountRecordView, id: u64) -> AccountView {
    AccountView { id, email: rec.email, password: rec.password, tags: rec.tags, ext: rec.ext }
}

/// A verified account.
///
/// Sessions that need the user to prove control of the email address, such
/// as resetting the password, are kept in the account's [`Ext`].
pub struct Account {
    id: u64,
    email: String,
    password: String,
    tags: Vec<Tag>,
    ext: Ext,
}

impl View for Account {
    type V = AccountView;

    closed spec fn view(&self) -> AccountView {
        AccountView {
            id: self.id,
            email: self.email@,
            password: self.password@,
            tags: self.tags@,
            ext: self.ext,
        }
    }
}

/// Copies a list of tags, each equal to its original.
fn copy_tags(tags: &Vec<Tag>) -> (r: Vec<Tag>)
    ensures
        r@ == tags@,
{
    let mut r: Vec<Tag> = Vec::new();
    let mut i: usize = 0;
    while i < tags.len()
        invariant
            i <= tags@.len(),
            r@ == tags@.subrange(0, i as int),
        decreases tags@.len() - i,
    {
        r.push(tags[i].duplicate());
        i = i + 1;
    }
    assert(tags@.subrange(0, tags@.len() as int) == tags@);
    r
}

impl Account {
    /// The number of dimensions the storage engine partitions accounts by.
    pub const DIMS: usize = 1;

    /// The schema version of the payload that [`Account::encode`] writes.
    pub const VERSION: u32 = 1;

    /// An account with the given identity and tags, and no pending session.
    pub fn new(id: u64, email: String, password: String, tags: Vec<Tag>) -> (r: Account)
        ensures
            r@ == (AccountView { id, email: email@, password: password@, tags: tags@, ext: Ext { reset_password: None, activation: None } }),
    {
        Account { id, email, password, tags, ext: Ext::new() }
    }

    /// The unique id of this account.
    pub fn id(&self) -> (r: u64)
        ensures
            r == self@.id,
    {
        self.id
    }

    /// The email address of this account.
    pub fn email(&self) -> (r: &str)
        ensures
            r@ == self@.email,
    {
        self.email.as_str()
    }

    /// The tags of this account.
    pub fn tags(&self) -> (r: &Vec<Tag>)
        ensures
            r@ == self@.tags,
    {
        &self.tags
    }

    /// The pending verification sessions of this account.
    pub fn ext(&self) -> (r: &Ext)
        ensures
            *r == self@.ext,
    {
        &self.ext
    }

    /// Whether `password` is the account's current password.
    pub fn check_password(&self, password: &String) -> (r: bool)
        ensures
            r == (password@ == self@.password),
    {
        *password == self.password
    }

    /// Requests a verification session of `variant` at `now`, with `fresh`
    /// as the captcha of an issued or reissued session, and hands back the
    /// address to send the captcha to.
    ///
    /// Fails with [`Error::InvalidAddress`] if the account's email cannot be
    /// a recipient, and with [`Error::Throttled`] if the pending session was
    /// requested no more than the cooldown ago; either way nothing changes.
    pub fn req_verify(&mut self, variant: VerifyVariant, now: u64, fresh: Captcha) -> (r: Result<lettre::Address, Error>)
        ensures
            final(self)@.id == old(self)@.id,
            final(self)@.email == old(self)@.email,
            final(self)@.password == old(self)@.password,
            final(self)@.tags == old(self)@.tags,
            !address_valid(old(self)@.email) ==> r is Err && r->Err_0 == Error::InvalidAddress
                && final(self)@ == old(self)@,
            address_valid(old(self)@.email) ==> {
                let (o, s) = request_outcome(old(self)@.ext.slot(variant), now, fresh);
                &&& r is Ok <==> o is Ok
                &&& r is Err ==> o is Err && r->Err_0 == o->Err_0
                &&& final(self)@.ext == old(self)@.ext.with_slot(variant, s)
            },
    {
        let to = match parse_address(self.email.as_str()) {
            Ok(a) => a,
            Err(_) => return Err(Error::InvalidAddress),
        };
        match self.ext.request(variant, now, fresh) {
            Ok(()) => Ok(to),
            Err(e) => Err(e),
        }
    }

    /// Requests a password reset session at `now`; see [`Account::req_verify`].
    pub fn req_reset_password(&mut self, now: u64, fresh: Captcha) -> (r: Result<lettre::Address, Error>)
        ensures
            final(self)@.id == old(self)@.id,
            final(self)@.email == old(self)@.email,
            final(self)@.password == old(self)@.password,
            final(self)@.tags == old(self)@.tags,
            !address_valid(old(self)@.email) ==> r is Err && r->Err_0 == Error::InvalidAddress
                && final(self)@ == old(self)@,
            address_valid(old(self)@.email) ==> {
                let (o, s) = request_outcome(old(self)@.ext.slot(VerifyVariant::ResetPassword), now, fresh);
                &&& r is Ok <==> o is Ok
                &&& r is Err ==> o is Err && r->Err_0 == o->Err_0
                &&& final(self)@.ext == old(self)@.ext.with_slot(VerifyVariant::ResetPassword, s)
            },
    {
        self.req_verify(VerifyVariant::ResetPassword, now, fresh)
    }

    /// Validates `captcha` against the session of `variant`, consuming the
    /// session when it matches.
    pub fn do_verify(&mut self, variant: VerifyVariant, captcha: Captcha) -> (r: Result<(), Error>)
        ensures
            ({
                let (o, s) = validate_outcome(old(self)@.ext.slot(variant), variant, captcha);
                &&& r == o
                &&& final(self)@ == AccountView { ext: old(self)@.ext.with_slot(variant, s), ..old(self)@ }
            }),
    {
        self.ext.validate(variant, captcha)
    }

    /// Sets the password to `new_password` if `captcha` validates the
    /// pending password reset session, which is consumed.
    pub fn reset_password(&mut self, captcha: Captcha, new_password: String) -> (r: Result<(), Error>)
        ensures
            ({
                let (o, s) = validate_outcome(old(self)@.ext.slot(VerifyVariant::ResetPassword), VerifyVariant::ResetPassword, captcha);
                &&& r == o
                &&& r is Ok ==> final(self)@ == AccountView {
                    password: new_password@,
                    ext: old(self)@.ext.with_slot(VerifyVariant::ResetPassword, s),
                    ..old(self)@
                }
                &&& r is Err ==> final(self)@ == old(self)@
            }),
    {
        match self.do_verify(VerifyVariant::ResetPassword, captcha) {
            Ok(()) => {
                self.password = new_password;
                Ok(())
            },
            Err(e) => {
                proof {
                    assert(old(self)@.ext.with_slot(VerifyVariant::ResetPassword, old(self)@.ext.slot(VerifyVariant::ResetPassword)) == old(self)@.ext);
                }
                Err(e)
            },
        }
    }

    /// The partition key of dimension `dim`: the account's id.
    pub fn dim(&self, dim: usize) -> (r: u64)
        requires
            dim < Self::DIMS,
        ensures
            r == self@.id,
    {
        self.id
    }

    /// The payload to store for this account.
    pub fn encode(&self) -> (r: AccountRecord)
        ensures
            r@ == record_of(self@),
    {
        AccountRecord {
            email: self.email.clone(),
            password: self.password.clone(),
            tags: copy_tags(&self.tags),
            ext: self.ext,
        }
    }

    /// The account stored as `rec` under the dimensions `dims`, whose first
    /// one is the account's id. Only schema version 1 can be read.
    pub fn decode(version: u32, dims: &[u64], rec: AccountRecord) -> (r: Result<Account, Error>)
        requires
            dims@.len() >= Self::DIMS,
        ensures
            version == Self::VERSION ==> r is Ok && r->Ok_0@ == account_from_record(rec@, dims@[0]),
            version != Self::VERSION ==> r == Err::<Account, Error>(Error::UnsupportedSchemaVersion(version)),
    {
        if version == Self::VERSION {
            Ok(Account { id: dims[0], email: rec.email, password: rec.password, tags: rec.tags, ext: rec.ext })
        } else {
            Err(Error::UnsupportedSchemaVersion(version))
        }
    }
}

/// Decoding the payload written for an account, under the dimension `id`,
/// gives the account back with `id` as its id and every other field equal.
pub proof fn lemma_account_round_trip(a: AccountView, id: u64)
    ensures
        account_from_record(record_of(a), id) == (AccountView { id, ..a }),
{
}

} // verus!
