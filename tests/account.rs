use pkuaccount::account::AccountRecord;
use pkuaccount::unverified::is_allowed_email;
use pkuaccount::verify::COOLDOWN_SECS;
use pkuaccount::{
    Account, Captcha, Error, Ext, House, Permission, Tag, TagEntry, Unverified, VerifyCx,
    VerifyVariant,
};

const ALL: [Permission; 11] = [
    Permission::Post,
    Permission::GetPubPost,
    Permission::ReviewPost,
    Permission::RemovePost,
    Permission::SetPermissions,
    Permission::ViewFullAccount,
    Permission::ViewSimpleAccount,
    Permission::ManageNotifications,
    Permission::GetPubNotifications,
    Permission::UploadResource,
    Permission::Maintain,
];

fn account() -> Account {
    Account::new(
        7,
        "alice@pkuschool.edu.cn".to_string(),
        "old".to_string(),
        vec![Tag::Permission(Permission::Post), Tag::Department("math".to_string())],
    )
}

#[test]
fn contains_matches_table_exactly() {
    let declared = [
        (Permission::Post, Permission::GetPubPost),
        (Permission::SetPermissions, Permission::ViewFullAccount),
        (Permission::SetPermissions, Permission::ViewSimpleAccount),
        (Permission::ViewFullAccount, Permission::ViewSimpleAccount),
        (Permission::ReviewPost, Permission::GetPubPost),
        (Permission::RemovePost, Permission::GetPubPost),
        (Permission::RemovePost, Permission::ReviewPost),
        (Permission::ManageNotifications, Permission::GetPubNotifications),
    ];
    for a in ALL {
        for b in ALL {
            assert_eq!(a.contains(&b), declared.contains(&(a, b)), "{:?} {:?}", a, b);
        }
    }
    assert!(Permission::Post.contains(&Permission::GetPubPost));
    assert!(!Permission::GetPubPost.contains(&Permission::Post));
    assert!(!Permission::Maintain.contains(&Permission::Maintain));
}

#[test]
fn default_set_is_exact() {
    let set = Permission::default_set();
    assert_eq!(
        set,
        vec![
            Permission::Post,
            Permission::GetPubPost,
            Permission::ViewSimpleAccount,
            Permission::UploadResource,
            Permission::GetPubNotifications,
        ]
    );
    assert!(!set.contains(&Permission::Maintain));
    assert!(!set.contains(&Permission::SetPermissions));
}

#[test]
fn only_permission_entry_is_not_user_definable() {
    assert!(!TagEntry::Permission.is_user_defineable());
    assert!(TagEntry::Department.is_user_defineable());
    assert!(TagEntry::House.is_user_defineable());
    assert!(TagEntry::Academy.is_user_defineable());
    assert_eq!(TagEntry::VALUE, TagEntry::Permission);
}

#[test]
fn tag_classification() {
    let p = Tag::from(Permission::Maintain);
    assert_eq!(p, Tag::Permission(Permission::Maintain));
    assert_eq!(p.as_entry(), TagEntry::Permission);
    assert_eq!(p.as_permission(), Some(&Permission::Maintain));
    let d = Tag::Department("physics".to_string());
    assert_eq!(d.as_entry(), TagEntry::Department);
    assert_eq!(d.as_permission(), None);
    assert_eq!(Tag::House(House { code: 2 }).as_entry(), TagEntry::House);
    assert_eq!(d.duplicate(), d);
}

#[test]
fn captcha_keeps_six_digits() {
    assert_eq!(Captcha::from_random(1_234_567).code, 234_567);
    assert_eq!(Captcha::from_random(42).code, 42);
}

#[test]
fn request_within_cooldown_is_throttled() {
    let mut a = account();
    assert!(a.req_reset_password(1000, Captcha { code: 111111 }).is_ok());
    let cx = a.ext().get(VerifyVariant::ResetPassword).unwrap();
    assert_eq!(cx, VerifyCx { captcha: Captcha { code: 111111 }, created_at: 1000, last_request_at: 1000 });

    let r = a.req_reset_password(1000 + COOLDOWN_SECS, Captcha { code: 222222 });
    assert_eq!(r.err(), Some(Error::Throttled { last_request_at: 1000 }));
    assert_eq!(a.ext().get(VerifyVariant::ResetPassword).unwrap().captcha(), Captcha { code: 111111 });

    assert!(a.req_reset_password(1001 + COOLDOWN_SECS, Captcha { code: 222222 }).is_ok());
    let cx = a.ext().get(VerifyVariant::ResetPassword).unwrap();
    assert_eq!(cx.captcha, Captcha { code: 222222 });
    assert_eq!(cx.created_at, 1000);
    assert_eq!(cx.last_request_at, 1001 + COOLDOWN_SECS);
}

#[test]
fn correct_captcha_validates_once() {
    let mut a = account();
    a.req_reset_password(50, Captcha { code: 123456 }).unwrap();
    assert_eq!(a.reset_password(Captcha { code: 123456 }, "new".to_string()), Ok(()));
    assert!(a.check_password(&"new".to_string()));
    assert_eq!(a.ext().get(VerifyVariant::ResetPassword), None);
    assert_eq!(
        a.reset_password(Captcha { code: 123456 }, "other".to_string()),
        Err(Error::VerifySessionNotFound(VerifyVariant::ResetPassword))
    );
    assert!(a.check_password(&"new".to_string()));
}

#[test]
fn incorrect_captcha_leaves_session() {
    let mut a = account();
    a.req_reset_password(50, Captcha { code: 123456 }).unwrap();
    assert_eq!(a.reset_password(Captcha { code: 654321 }, "new".to_string()), Err(Error::CaptchaIncorrect));
    assert!(a.check_password(&"old".to_string()));
    assert!(a.ext().get(VerifyVariant::ResetPassword).is_some());
    assert_eq!(a.do_verify(VerifyVariant::ResetPassword, Captcha { code: 123456 }), Ok(()));
}

#[test]
fn variants_are_independent() {
    let mut e = Ext::new();
    assert_eq!(e.request(VerifyVariant::ResetPassword, 10, Captcha { code: 1 }), Ok(()));
    assert_eq!(e.request(VerifyVariant::Activation, 20, Captcha { code: 2 }), Ok(()));
    assert_eq!(e.validate(VerifyVariant::Activation, Captcha { code: 2 }), Ok(()));
    assert_eq!(e.get(VerifyVariant::ResetPassword).unwrap().captcha, Captcha { code: 1 });
    assert_eq!(
        e.validate(VerifyVariant::Activation, Captcha { code: 2 }),
        Err(Error::VerifySessionNotFound(VerifyVariant::Activation))
    );
}

#[test]
fn unusable_address_is_refused() {
    let mut a = Account::new(1, "nobody".to_string(), "pw".to_string(), vec![]);
    assert_eq!(a.req_reset_password(5, Captcha { code: 1 }).err(), Some(Error::InvalidAddress));
    assert_eq!(a.ext().get(VerifyVariant::ResetPassword), None);
}

#[test]
fn disallowed_domain_is_invalid_email() {
    assert_eq!(Unverified::new("bob@gmail.com".to_string()).err(), Some(Error::InvalidEmail));
    assert_eq!(Unverified::new("bob@xpkuschool.edu.cn.org".to_string()).err(), Some(Error::InvalidEmail));
    assert!(is_allowed_email("bob@i.pkuschool.edu.cn"));
    assert!(!is_allowed_email("pkuschool.edu.cn"));
}

#[test]
fn email_hash_is_deterministic() {
    let a = Unverified::new("bob@pkuschool.edu.cn".to_string()).unwrap();
    let b = Unverified::new("bob@pkuschool.edu.cn".to_string()).unwrap();
    assert_eq!(a.email_hash(), b.email_hash());
    assert_eq!(a.dim(0), a.email_hash());
    let expected = siphasher::sip::SipHasher24::new().hash(b"bob@pkuschool.edu.cn");
    assert_eq!(a.email_hash(), expected);
    let c = Unverified::new("carol@i.pkuschool.edu.cn".to_string()).unwrap();
    assert_ne!(a.email_hash(), c.email_hash());
}

#[test]
fn activation_session_flow() {
    let mut u = Unverified::new("bob@pkuschool.edu.cn".to_string()).unwrap();
    assert_eq!(u.ext(), None);
    assert!(u.send_captcha(100, Captcha { code: 9 }).is_ok());
    assert_eq!(u.send_captcha(200, Captcha { code: 8 }).err(), Some(Error::Throttled { last_request_at: 100 }));
    assert_eq!(u.activate(Captcha { code: 8 }), Err(Error::CaptchaIncorrect));
    assert_eq!(u.activate(Captcha { code: 9 }), Ok(()));
    assert_eq!(u.ext(), None);
}

#[test]
fn account_round_trip() {
    let mut a = account();
    a.req_reset_password(77, Captcha { code: 31337 }).unwrap();
    let rec = a.encode();
    let b = Account::decode(1, &[99], rec).unwrap();
    assert_eq!(b.id(), 99);
    assert_eq!(b.dim(0), 99);
    assert_eq!(b.email(), a.email());
    assert_eq!(b.tags(), a.tags());
    assert_eq!(b.ext(), a.ext());
    assert!(b.check_password(&"old".to_string()));
}

#[test]
fn unsupported_version_is_refused() {
    let rec = AccountRecord {
        email: "a@pkuschool.edu.cn".to_string(),
        password: String::new(),
        tags: vec![],
        ext: Ext::new(),
    };
    assert_eq!(Account::decode(2, &[1], rec).err(), Some(Error::UnsupportedSchemaVersion(2)));
}

#[test]
fn unverified_round_trip() {
    let mut u = Unverified::new("bob@pkuschool.edu.cn".to_string()).unwrap();
    u.send_captcha(5, Captcha { code: 77 }).unwrap();
    let back = Unverified::decode(1, &[12345], u.encode()).unwrap();
    assert_eq!(back.email(), u.email());
    assert_eq!(back.email_hash(), 12345);
    assert_eq!(back.ext(), u.ext());
    assert_eq!(
        Unverified::decode(3, &[1], u.encode()).err(),
        Some(Error::UnsupportedSchemaVersion(3))
    );
}
