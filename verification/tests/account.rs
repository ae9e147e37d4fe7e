use carbon::account::{
    account_changes, account_list, active_after_delete, profile_update, GetProfileError,
    Invalidation, Profile, ProfileUpdate, check_deleted, check_set_active, skin_changed,
    token_to_validate,
    Account, AccountChange, AccountEntry, AccountRefreshService, AccountStatus, AccountType, AccountWithStatus,
    BeginEnrollmentStatusError, CancelEnrollmentStatusError, DeleteAccountError,
    FinalizeEnrollmentError, FullAccount, FullAccountLoadError, FullAccountType, LastCheck,
    GetAccountStatusError, GetActiveAccountError, RefreshAccountError, SetActiveUuidError,
    ValidateAccountError, REFRESH_MARGIN_MS,
};

fn entry(access_token: Option<&str>, token_expires: Option<i64>) -> AccountEntry {
    AccountEntry {
        uuid: "u-1".to_string(),
        username: "steve".to_string(),
        access_token: access_token.map(str::to_string),
        ms_refresh_token: Some("refresh".to_string()),
        id_token: Some("id".to_string()),
        token_expires,
        skin_id: Some("skin".to_string()),
        last_used: 5,
    }
}

fn microsoft(refresh: Option<&str>, id: Option<&str>, token_expires: i64) -> FullAccount {
    FullAccount {
        username: "steve".to_string(),
        uuid: "u-1".to_string(),
        type_: FullAccountType::Microsoft {
            access_token: "access".to_string(),
            refresh_token: refresh.map(str::to_string),
            id_token: id.map(str::to_string),
            token_expires,
            skin_id: Some("skin".to_string()),
        },
        last_used: 5,
    }
}

fn offline() -> FullAccount {
    FullAccount {
        username: "alex".to_string(),
        uuid: "u-2".to_string(),
        type_: FullAccountType::Offline,
        last_used: 9,
    }
}

#[test]
fn entry_without_token_is_offline() {
    assert_eq!(
        FullAccount::try_from(entry(None, None)),
        Ok(FullAccount {
            username: "steve".to_string(),
            uuid: "u-1".to_string(),
            type_: FullAccountType::Offline,
            last_used: 5,
        })
    );
}

#[test]
fn entry_with_token_is_microsoft() {
    assert_eq!(
        FullAccount::try_from(entry(Some("access"), Some(1000))),
        Ok(microsoft(Some("refresh"), Some("id"), 1000))
    );
}

#[test]
fn entry_with_token_needs_expiry() {
    assert_eq!(
        FullAccount::try_from(entry(Some("access"), None)),
        Err(FullAccountLoadError::MissingExpiration("u-1".to_string()))
    );
}

#[test]
fn status_of_accounts() {
    let valid = AccountWithStatus::from(microsoft(Some("r"), Some("i"), 1000), 1000);
    assert_eq!(valid.status, AccountStatus::Usable { access_token: Some("access".to_string()) });
    assert_eq!(valid.account.type_, AccountType::Microsoft);
    assert_eq!(valid.account.skin_id, Some("skin".to_string()));
    let expired = AccountWithStatus::from(microsoft(Some("r"), Some("i"), 1000), 1001);
    assert_eq!(expired.status, AccountStatus::Expired);
    let no_refresh = AccountWithStatus::from(microsoft(None, Some("i"), 1000), 0);
    assert_eq!(no_refresh.status, AccountStatus::Invalid);
    let no_id = AccountWithStatus::from(microsoft(Some("r"), None, 1000), 0);
    assert_eq!(no_id.status, AccountStatus::Invalid);
    let off = AccountWithStatus::from(offline(), 0);
    assert_eq!(off.status, AccountStatus::Usable { access_token: None });
    assert_eq!(
        off.account,
        Account {
            username: "alex".to_string(),
            uuid: "u-2".to_string(),
            last_used: 9,
            type_: AccountType::Offline,
            skin_id: None,
        }
    );
}

#[test]
fn refreshing_shows_for_microsoft_accounts_only() {
    let ms = AccountWithStatus::from(microsoft(Some("r"), Some("i"), 1000), 2000);
    assert_eq!(ms.shown_status(true), AccountStatus::Refreshing);
    let ms = AccountWithStatus::from(microsoft(Some("r"), Some("i"), 1000), 2000);
    assert_eq!(ms.shown_status(false), AccountStatus::Expired);
    let off = AccountWithStatus::from(offline(), 0);
    assert_eq!(off.shown_status(true), AccountStatus::Usable { access_token: None });
}

#[test]
fn listed_form_of_an_entry() {
    let account = Account::of_entry(entry(Some("access"), None));
    assert_eq!(account.type_, AccountType::Microsoft);
    assert_eq!(account.uuid, "u-1");
    assert_eq!(account.username, "steve");
    assert_eq!(account.last_used, 5);
    assert_eq!(account.skin_id, Some("skin".to_string()));
    assert_eq!(Account::of_entry(entry(None, None)).type_, AccountType::Offline);
}

#[test]
fn invalidated_account_loses_its_tokens() {
    assert_eq!(
        microsoft(Some("r"), Some("i"), 77).invalidated(),
        Some(microsoft(None, None, 77))
    );
    assert_eq!(offline().invalidated(), None);
}

#[test]
fn set_active_needs_a_known_account() {
    assert_eq!(check_set_active(None, false), Ok(None));
    assert_eq!(check_set_active(Some("u".to_string()), true), Ok(Some("u".to_string())));
    assert_eq!(
        check_set_active(Some("u".to_string()), false),
        Err(SetActiveUuidError::AccountDoesNotExist("u".to_string()))
    );
}

#[test]
fn deleting_the_active_account_activates_the_most_recent() {
    let active = "a".to_string();
    assert_eq!(
        active_after_delete(Some(&active), &"a".to_string(), Some("b".to_string())),
        Some(Some("b".to_string()))
    );
    assert_eq!(active_after_delete(Some(&active), &"a".to_string(), None), Some(None));
    assert_eq!(
        active_after_delete(Some(&active), &"c".to_string(), Some("b".to_string())),
        None
    );
    assert_eq!(active_after_delete(None, &"a".to_string(), Some("b".to_string())), None);
}

#[test]
fn deleting_an_unknown_account_fails() {
    assert_eq!(check_deleted("u".to_string(), true), Ok(()));
    assert_eq!(
        check_deleted("u".to_string(), false),
        Err(DeleteAccountError::AccountDoesNotExist("u".to_string()))
    );
}

#[test]
fn only_usable_accounts_with_a_token_are_validated() {
    assert_eq!(
        token_to_validate(None, "u".to_string()),
        Err(ValidateAccountError::AccountMissing("u".to_string()))
    );
    let usable = AccountWithStatus::from(microsoft(Some("r"), Some("i"), 10), 5);
    assert_eq!(token_to_validate(Some(usable), "u".to_string()), Ok(Some("access".to_string())));
    let expired = AccountWithStatus::from(microsoft(Some("r"), Some("i"), 10), 50);
    assert_eq!(token_to_validate(Some(expired), "u".to_string()), Ok(None));
    let off = AccountWithStatus::from(offline(), 5);
    assert_eq!(token_to_validate(Some(off), "u".to_string()), Ok(None));
}

#[test]
fn skin_change_detection() {
    let a = "a".to_string();
    let b = "b".to_string();
    assert!(!skin_changed(None, None));
    assert!(!skin_changed(Some(&a), Some(&a.clone())));
    assert!(skin_changed(Some(&a), Some(&b)));
    assert!(skin_changed(Some(&a), None));
    assert!(skin_changed(None, Some(&b)));
}

#[test]
fn token_is_due_twelve_hours_before_expiry() {
    assert_eq!(REFRESH_MARGIN_MS, 12 * 60 * 60 * 1000);
    let expires = 100_000_000;
    assert!(!AccountRefreshService::is_due(expires, expires - REFRESH_MARGIN_MS - 1));
    assert!(!AccountRefreshService::is_due(expires, expires - REFRESH_MARGIN_MS));
    assert!(AccountRefreshService::is_due(expires, expires - REFRESH_MARGIN_MS + 1));
    assert!(AccountRefreshService::is_due(expires, expires));
    assert!(AccountRefreshService::is_due(i64::MIN, i64::MIN));
    assert!(!AccountRefreshService::is_due(i64::MAX, 0));
}

#[test]
fn first_due_account_skips_offline_accounts() {
    let accounts = vec![
        entry(None, Some(1)),
        entry(Some("access"), None),
        entry(Some("access"), Some(100_000_000)),
        entry(Some("access"), Some(50_000_000)),
        entry(Some("access"), Some(45_000_000)),
    ];
    assert_eq!(AccountRefreshService::first_due(&accounts, 0), None);
    assert_eq!(AccountRefreshService::first_due(&accounts, 7_000_000), Some(3));
    assert_eq!(AccountRefreshService::first_due(&accounts, 60_000_000), Some(2));
    assert_eq!(AccountRefreshService::first_due(&vec![], 60_000_000), None);
}

fn check(uuid: &str, time: u64) -> LastCheck {
    LastCheck { uuid: uuid.to_string(), time }
}

fn named(uuid: &str, access_token: Option<&str>) -> AccountEntry {
    let mut account = entry(access_token, Some(1));
    account.uuid = uuid.to_string();
    account
}

#[test]
fn least_recently_checked_is_the_first_minimum() {
    assert_eq!(AccountRefreshService::least_recently_checked(&vec![]), None);
    assert_eq!(AccountRefreshService::least_recently_checked(&vec![check("a", 5)]), Some(0));
    let checks = vec![check("a", 5), check("b", 3), check("c", 9), check("d", 3)];
    assert_eq!(AccountRefreshService::least_recently_checked(&checks), Some(1));
    let same = vec![check("a", 1), check("b", 1), check("c", 1)];
    assert_eq!(AccountRefreshService::least_recently_checked(&same), Some(0));
}

#[test]
fn checks_follow_the_stored_accounts() {
    let checks = vec![check("gone", 1), check("kept", 2), check("offline", 3)];
    let accounts = vec![
        named("new", Some("t")),
        named("kept", Some("t")),
        named("offline", None),
        named("other-offline", None),
    ];
    assert_eq!(
        AccountRefreshService::checks_to_keep(&checks, &accounts, 100),
        vec![check("kept", 2), check("new", 100)]
    );
}

#[test]
fn checks_of_no_accounts_are_empty() {
    let checks = vec![check("a", 1)];
    assert_eq!(AccountRefreshService::checks_to_keep(&checks, &vec![], 5), vec![]);
    assert_eq!(AccountRefreshService::checks_to_keep(&vec![], &vec![], 5), vec![]);
    assert_eq!(
        AccountRefreshService::checks_to_keep(&vec![], &vec![named("a", Some("t"))], 5),
        vec![check("a", 5)]
    );
}

#[test]
fn checks_list_an_account_once() {
    let accounts = vec![named("a", Some("t")), named("a", Some("t"))];
    assert_eq!(
        AccountRefreshService::checks_to_keep(&vec![], &accounts, 7),
        vec![check("a", 7)]
    );
}

#[test]
fn error_messages() {
    assert_eq!(
        GetActiveAccountError::AccountNotPresent.to_string(),
        "account selected but not present"
    );
    assert_eq!(
        GetAccountStatusError::TokenExpiryUnset.to_string(),
        "getting account status: microsoft account token expiry date is unset (invalid state)"
    );
    assert_eq!(
        GetAccountStatusError::TokenUnset.to_string(),
        "getting account status: microsoft account token is unset"
    );
    assert_eq!(BeginEnrollmentStatusError::InProgress.to_string(), "enrollment already active");
    assert_eq!(CancelEnrollmentStatusError::NotActive.to_string(), "no active enrollment");
    assert_eq!(RefreshAccountError::AlreadyRefreshing.to_string(), "already refreshing");
    assert_eq!(RefreshAccountError::NoAccount.to_string(), "account does not exist");
    assert_eq!(RefreshAccountError::NoRefreshToken.to_string(), "no refresh token");
    assert_eq!(
        RefreshAccountError::DbLoad(FullAccountLoadError::MissingExpiration("u".to_string()))
            .to_string(),
        "loading account from db: attempted to parse microsoft account DB entry(uuid u), but was missing refresh token expiration timestamp"
    );
    assert_eq!(FinalizeEnrollmentError::NotActive.to_string(), "no active enrollment");
    assert_eq!(FinalizeEnrollmentError::NotComplete.to_string(), "enrollment is not complete");
    assert_eq!(
        DeleteAccountError::AccountDoesNotExist("u".to_string()).to_string(),
        "attempted to delete account that is not in the account list: u"
    );
    assert_eq!(
        SetActiveUuidError::AccountDoesNotExist("u".to_string()).to_string(),
        "attempted to set the active account to one that does not exist in the account list: u"
    );
    assert_eq!(
        ValidateAccountError::AccountMissing("u".to_string()).to_string(),
        "attempted to validate an account that was not present in the account list: u"
    );
}

#[test]
fn changes_for_a_stored_microsoft_account() {
    assert_eq!(
        account_changes(&microsoft(Some("r"), None, 77), true),
        vec![
            AccountChange::SetUsername("steve".to_string()),
            AccountChange::SetAccessToken(Some("access".to_string())),
            AccountChange::SetMsRefreshToken(Some("r".to_string())),
            AccountChange::SetTokenExpires(Some(77)),
            AccountChange::SetIdToken(None),
            AccountChange::SetSkinId(Some("skin".to_string())),
        ]
    );
}

#[test]
fn changes_for_a_stored_offline_account_clear_the_tokens() {
    assert_eq!(
        account_changes(&offline(), true),
        vec![
            AccountChange::SetUsername("alex".to_string()),
            AccountChange::SetAccessToken(None),
            AccountChange::SetMsRefreshToken(None),
            AccountChange::SetTokenExpires(None),
        ]
    );
}

#[test]
fn changes_for_a_new_account() {
    assert_eq!(account_changes(&offline(), false), vec![]);
    assert_eq!(
        account_changes(&microsoft(Some("r"), Some("i"), 5), false),
        vec![
            AccountChange::SetAccessToken(Some("access".to_string())),
            AccountChange::SetMsRefreshToken(Some("r".to_string())),
            AccountChange::SetTokenExpires(Some(5)),
            AccountChange::SetIdToken(Some("i".to_string())),
            AccountChange::SetSkinId(Some("skin".to_string())),
        ]
    );
}

#[test]
fn account_list_keeps_length_and_order() {
    let mut first = entry(Some("access"), Some(1));
    first.uuid = "first".to_string();
    let mut second = entry(None, None);
    second.uuid = "second".to_string();
    let mut third = entry(Some("access"), None);
    third.uuid = "third".to_string();
    let listed = account_list(vec![first, second, third]);
    assert_eq!(listed.len(), 3);
    assert_eq!(
        listed.iter().map(|account| account.uuid.as_str()).collect::<Vec<_>>(),
        vec!["first", "second", "third"]
    );
    assert_eq!(
        listed.iter().map(|account| account.type_).collect::<Vec<_>>(),
        vec![AccountType::Microsoft, AccountType::Offline, AccountType::Microsoft]
    );
    assert_eq!(listed[0], Account::of_entry(entry_named("first", Some("access"), Some(1))));
    assert_eq!(account_list(vec![]), vec![]);
}

fn entry_named(uuid: &str, access_token: Option<&str>, expires: Option<i64>) -> AccountEntry {
    let mut account = entry(access_token, expires);
    account.uuid = uuid.to_string();
    account
}

#[test]
fn refused_token_expires_the_account_now() {
    assert_eq!(
        profile_update(Err(GetProfileError::AuthTokenInvalid), None, 1234),
        Ok(ProfileUpdate {
            changes: vec![AccountChange::SetTokenExpires(Some(1234))],
            invalidate: Some(Invalidation::AccountStatus),
        })
    );
}

#[test]
fn missing_game_profile_fails_the_check() {
    let skin = "skin".to_string();
    assert_eq!(
        profile_update(Err(GetProfileError::GameProfileMissing), Some(&skin), 1234),
        Err(GetProfileError::GameProfileMissing)
    );
}

#[test]
fn profile_brings_name_and_skin() {
    let recorded = "old".to_string();
    let profile = || Profile { username: "steve".to_string(), skin_id: Some("new".to_string()) };
    let changes = vec![
        AccountChange::SetUsername("steve".to_string()),
        AccountChange::SetSkinId(Some("new".to_string())),
    ];
    assert_eq!(
        profile_update(Ok(profile()), Some(&recorded), 5),
        Ok(ProfileUpdate { changes, invalidate: Some(Invalidation::Head) })
    );
    let same = "new".to_string();
    assert_eq!(profile_update(Ok(profile()), Some(&same), 5).unwrap().invalidate, None);
    assert_eq!(
        profile_update(Ok(profile()), None, 5).unwrap().invalidate,
        Some(Invalidation::Head)
    );
    let bare = Profile { username: "alex".to_string(), skin_id: None };
    assert_eq!(
        profile_update(Ok(bare), None, 5),
        Ok(ProfileUpdate {
            changes: vec![
                AccountChange::SetUsername("alex".to_string()),
                AccountChange::SetSkinId(None),
            ],
            invalidate: None,
        })
    );
}
