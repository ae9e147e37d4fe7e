//! Account records and the decisions of the account manager: how a stored
//! entry is read, which status an account has at a given time, and when an
//! operation on the account list is refused. Times are milliseconds since the
//! Unix epoch, in UTC.

use crate::transfer::text_view;
use vstd::prelude::*;
use vstd::string::StringExecFns;

verus! {

/// Twelve hours, in milliseconds: how long before its expiry a token is
/// refreshed.
pub const REFRESH_MARGIN_MS: i64 = 43_200_000;

/// An account as it is stored.
#[derive(Debug, PartialEq, Eq)]
pub struct AccountEntry {
    pub uuid: String,
    pub username: String,
    pub access_token: Option<String>,
    pub ms_refresh_token: Option<String>,
    pub id_token: Option<String>,
    pub token_expires: Option<i64>,
    pub skin_id: Option<String>,
    pub last_used: i64,
}

/// An account with everything needed to use it.
#[derive(Debug, PartialEq, Eq)]
pub struct FullAccount {
    pub username: String,
    pub uuid: String,
    pub type_: FullAccountType,
    pub last_used: i64,
}

#[derive(Debug, PartialEq, Eq)]
pub enum FullAccountType {
    Offline,
    Microsoft {
        access_token: String,
        refresh_token: Option<String>,
        id_token: Option<String>,
        token_expires: i64,
        skin_id: Option<String>,
    },
}

#[derive(Debug, Clone, Copy, PartialEq, Eq, Structural)]
pub enum AccountType {
    Offline,
    Microsoft,
}

/// An account as it is listed.
#[derive(Debug, PartialEq, Eq)]
pub struct Account {
    pub username: String,
    pub uuid: String,
    pub last_used: i64,
    pub type_: AccountType,
    pub skin_id: Option<String>,
}

#[derive(Debug, PartialEq, Eq)]
pub enum AccountStatus {
    Usable { access_token: Option<String> },
    Expired,
    Refreshing,
    Invalid,
}

#[derive(Debug, PartialEq, Eq)]
pub struct AccountWithStatus {
    pub account: Account,
    pub status: AccountStatus,
}

#[derive(Debug, PartialEq, Eq)]
pub enum GetActiveAccountError {
    AccountNotPresent,
}

#[derive(Debug, PartialEq, Eq)]
pub enum GetAccountStatusError {
    TokenExpiryUnset,
    TokenUnset,
}

#[derive(Debug, PartialEq, Eq)]
pub enum BeginEnrollmentStatusError {
    InProgress,
}

#[derive(Debug, PartialEq, Eq)]
pub enum CancelEnrollmentStatusError {
    NotActive,
}

#[derive(Debug, PartialEq, Eq)]
pub enum RefreshAccountError {
    AlreadyRefreshing,
    NoAccount,
    NoRefreshToken,
    DbLoad(FullAccountLoadError),
}

#[derive(Debug, PartialEq, Eq)]
pub enum FinalizeEnrollmentError {
    NotActive,
    NotComplete,
}

#[derive(Debug, PartialEq, Eq)]
pub enum DeleteAccountError {
    AccountDoesNotExist(String),
}

#[derive(Debug, PartialEq, Eq)]
pub enum SetActiveUuidError {
    AccountDoesNotExist(String),
}

#[derive(Debug, PartialEq, Eq)]
pub enum ValidateAccountError {
    AccountMissing(String),
}

#[derive(Debug, PartialEq, Eq)]
pub enum FullAccountLoadError {
    MissingExpiration(String),
}

/// `prefix` followed by `detail`.
fn message_with(prefix: &str, detail: &String) -> (text: String)
    ensures
        text@ == prefix@ + detail@,
{
    let mut text = String::from_str(prefix);
    text.append(detail.as_str());
    text
}

impl GetActiveAccountError {
    pub fn to_string(&self) -> (text: String)
        ensures
            text@ == "account selected but not present"@,
    {
        String::from_str("account selected but not present")
    }
}

impl GetAccountStatusError {
    pub open spec fn text(&self) -> Seq<char> {
        match self {
            GetAccountStatusError::TokenExpiryUnset =>
                "getting account status: microsoft account token expiry date is unset (invalid state)"@,
            GetAccountStatusError::TokenUnset =>
                "getting account status: microsoft account token is unset"@,
        }
    }

    pub fn to_string(&self) -> (text: String)
        ensures
            text@ == self.text(),
    {
        match self {
            GetAccountStatusError::TokenExpiryUnset => String::from_str(
                "getting account status: microsoft account token expiry date is unset (invalid state)",
            ),
            GetAccountStatusError::TokenUnset => String::from_str(
                "getting account status: microsoft account token is unset",
            ),
        }
    }
}

impl BeginEnrollmentStatusError {
    pub fn to_string(&self) -> (text: String)
        ensures
            text@ == "enrollment already active"@,
    {
        String::from_str("enrollment already active")
    }
}

impl CancelEnrollmentStatusError {
    pub fn to_string(&self) -> (text: String)
        ensures
            text@ == "no active enrollment"@,
    {
        String::from_str("no active enrollment")
    }
}

impl FullAccountLoadError {
    pub open spec fn text(&self) -> Seq<char> {
        match self {
            FullAccountLoadError::MissingExpiration(uuid) =>
                "attempted to parse microsoft account DB entry(uuid "@ + uuid@
                    + "), but was missing refresh token expiration timestamp"@,
        }
    }

    pub fn to_string(&self) -> (text: String)
        ensures
            text@ == self.text(),
    {
        match self {
            FullAccountLoadError::MissingExpiration(uuid) => {
                let mut text = message_with(
                    "attempted to parse microsoft account DB entry(uuid ",
                    uuid,
                );
                text.append("), but was missing refresh token expiration timestamp");
                text
            },
        }
    }
}

impl RefreshAccountError {
    pub open spec fn text(&self) -> Seq<char> {
        match self {
            RefreshAccountError::AlreadyRefreshing => "already refreshing"@,
            RefreshAccountError::NoAccount => "account does not exist"@,
            RefreshAccountError::NoRefreshToken => "no refresh token"@,
            RefreshAccountError::DbLoad(error) => "loading account from db: "@ + error.text(),
        }
    }

    pub fn to_string(&self) -> (text: String)
        ensures
            text@ == self.text(),
    {
        match self {
            RefreshAccountError::AlreadyRefreshing => String::from_str("already refreshing"),
            RefreshAccountError::NoAccount => String::from_str("account does not exist"),
            RefreshAccountError::NoRefreshToken => String::from_str("no refresh token"),
            RefreshAccountError::DbLoad(error) => {
                let detail = error.to_string();
                message_with("loading account from db: ", &detail)
            },
        }
    }
}

impl FinalizeEnrollmentError {
    pub open spec fn text(&self) -> Seq<char> {
        match self {
            FinalizeEnrollmentError::NotActive => "no active enrollment"@,
            FinalizeEnrollmentError::NotComplete => "enrollment is not complete"@,
        }
    }

    pub fn to_string(&self) -> (text: String)
        ensures
            text@ == self.text(),
    {
        match self {
            FinalizeEnrollmentError::NotActive => String::from_str("no active enrollment"),
            FinalizeEnrollmentError::NotComplete => String::from_str("enrollment is not complete"),
        }
    }
}

impl DeleteAccountError {
    pub open spec fn text(&self) -> Seq<char> {
        match self {
            DeleteAccountError::AccountDoesNotExist(uuid) =>
                "attempted to delete account that is not in the account list: "@ + uuid@,
        }
    }

    pub fn to_string(&self) -> (text: String)
        ensures
            text@ == self.text(),
    {
        match self {
            DeleteAccountError::AccountDoesNotExist(uuid) => message_with(
                "attempted to delete account that is not in the account list: ",
                uuid,
            ),
        }
    }
}

impl SetActiveUuidError {
    pub open spec fn text(&self) -> Seq<char> {
        match self {
            SetActiveUuidError::AccountDoesNotExist(uuid) =>
                "attempted to set the active account to one that does not exist in the account list: "@
                    + uuid@,
        }
    }

    pub fn to_string(&self) -> (text: String)
        ensures
            text@ == self.text(),
    {
        match self {
            SetActiveUuidError::AccountDoesNotExist(uuid) => message_with(
                "attempted to set the active account to one that does not exist in the account list: ",
                uuid,
            ),
        }
    }
}

impl ValidateAccountError {
    pub open spec fn text(&self) -> Seq<char> {
        match self {
            ValidateAccountError::AccountMissing(uuid) =>
                "attempted to validate an account that was not present in the account list: "@
                    + uuid@,
        }
    }

    pub fn to_string(&self) -> (text: String)
        ensures
            text@ == self.text(),
    {
        match self {
            ValidateAccountError::AccountMissing(uuid) => message_with(
                "attempted to validate an account that was not present in the account list: ",
                uuid,
            ),
        }
    }
}

/// What a stored entry loads to: an entry with an access token is a Microsoft
/// account and needs an expiry time; any other is an offline account.
pub open spec fn loaded(entry: AccountEntry) -> Result<FullAccount, FullAccountLoadError> {
    match entry.access_token {
        Some(access_token) => match entry.token_expires {
            Some(token_expires) => Ok(
                FullAccount {
                    username: entry.username,
                    uuid: entry.uuid,
                    type_: FullAccountType::Microsoft {
                        access_token,
                        refresh_token: entry.ms_refresh_token,
                        id_token: entry.id_token,
                        token_expires,
                        skin_id: entry.skin_id,
                    },
                    last_used: entry.last_used,
                },
            ),
            None => Err(FullAccountLoadError::MissingExpiration(entry.uuid)),
        },
        None => Ok(
            FullAccount {
                username: entry.username,
                uuid: entry.uuid,
                type_: FullAccountType::Offline,
                last_used: entry.last_used,
            },
        ),
    }
}

/// The kind of account a stored entry is listed as.
pub open spec fn listed_type(entry: AccountEntry) -> AccountType {
    if entry.access_token is Some {
        AccountType::Microsoft
    } else {
        AccountType::Offline
    }
}

/// The status of an account at time `now`: a Microsoft account without a
/// refresh token or without an identity token is invalid; one whose token
/// expired before `now` is expired; every other account is usable.
pub open spec fn status_at(type_: FullAccountType, now: i64) -> AccountStatus {
    match type_ {
        FullAccountType::Offline => AccountStatus::Usable { access_token: None },
        FullAccountType::Microsoft { access_token, refresh_token, id_token, token_expires, .. } => {
            if refresh_token is None || id_token is None {
                AccountStatus::Invalid
            } else if now > token_expires {
                AccountStatus::Expired
            } else {
                AccountStatus::Usable { access_token: Some(access_token) }
            }
        },
    }
}

/// The listed form of an account.
pub open spec fn listed(account: FullAccount) -> Account {
    Account {
        username: account.username,
        uuid: account.uuid,
        last_used: account.last_used,
        type_: match account.type_ {
            FullAccountType::Microsoft { .. } => AccountType::Microsoft,
            FullAccountType::Offline => AccountType::Offline,
        },
        skin_id: match account.type_ {
            FullAccountType::Microsoft { skin_id, .. } => skin_id,
            FullAccountType::Offline => None,
        },
    }
}

/// A Microsoft account without its refresh and identity tokens; `None` for an
/// offline account, which has no tokens.
pub open spec fn without_tokens(account: FullAccount) -> Option<FullAccount> {
    match account.type_ {
        FullAccountType::Offline => None,
        FullAccountType::Microsoft { access_token, token_expires, skin_id, .. } => Some(
            FullAccount {
                username: account.username,
                uuid: account.uuid,
                type_: FullAccountType::Microsoft {
                    access_token,
                    refresh_token: None,
                    id_token: None,
                    token_expires,
                    skin_id,
                },
                last_used: account.last_used,
            },
        ),
    }
}

/// The listed form of a stored entry.
pub open spec fn listed_entry(entry: AccountEntry) -> Account {
    Account {
        username: entry.username,
        uuid: entry.uuid,
        last_used: entry.last_used,
        type_: listed_type(entry),
        skin_id: entry.skin_id,
    }
}

/// The characters of an optional text.
pub open spec fn text_of(text: Option<String>) -> Option<Seq<char>> {
    match text {
        Some(text) => Some(text@),
        None => None,
    }
}

/// Whether the skin of a profile differs from the one on record.
pub open spec fn skin_differs(recorded: Option<Seq<char>>, fetched: Option<Seq<char>>) -> bool {
    recorded != fetched
}

/// Whether a token that expires at `token_expires` is to be refreshed at
/// `now`: from twelve hours before its expiry on.
pub open spec fn refresh_due(token_expires: i64, now: i64) -> bool {
    token_expires - REFRESH_MARGIN_MS < now
}

impl FullAccount {
    /// Reads a stored entry.
    pub fn try_from(value: AccountEntry) -> (result: Result<FullAccount, FullAccountLoadError>)
        ensures
            result == loaded(value),
    {
        let type_ = match value.access_token {
            Some(access_token) => match value.token_expires {
                Some(token_expires) => FullAccountType::Microsoft {
                    access_token,
                    refresh_token: value.ms_refresh_token,
                    id_token: value.id_token,
                    token_expires,
                    skin_id: value.skin_id,
                },
                None => {
                    return Err(FullAccountLoadError::MissingExpiration(value.uuid));
                },
            },
            None => FullAccountType::Offline,
        };
        Ok(
            FullAccount {
                username: value.username,
                uuid: value.uuid,
                type_,
                last_used: value.last_used,
            },
        )
    }

    /// The account as it stands after a refresh was refused because the
    /// account is no longer valid: its refresh and identity tokens are gone.
    /// `None` for an offline account, which has no tokens.
    pub fn invalidated(&self) -> (account: Option<FullAccount>)
        ensures
            account == without_tokens(*self),
    {
        match &self.type_ {
            FullAccountType::Offline => None,
            FullAccountType::Microsoft { access_token, token_expires, skin_id, .. } => Some(
                FullAccount {
                    username: self.username.clone(),
                    uuid: self.uuid.clone(),
                    type_: FullAccountType::Microsoft {
                        access_token: access_token.clone(),
                        refresh_token: None,
                        id_token: None,
                        token_expires: *token_expires,
                        skin_id: skin_id.clone(),
                    },
                    last_used: self.last_used,
                },
            ),
        }
    }
}

impl AccountWithStatus {
    /// The listed form of an account together with its status at `now`.
    pub fn from(value: FullAccount, now: i64) -> (result: AccountWithStatus)
        ensures
            result.account == listed(value),
            result.status == status_at(value.type_, now),
    {
        match value.type_ {
            FullAccountType::Offline => AccountWithStatus {
                account: Account {
                    username: value.username,
                    uuid: value.uuid,
                    last_used: value.last_used,
                    type_: AccountType::Offline,
                    skin_id: None,
                },
                status: AccountStatus::Usable { access_token: None },
            },
            FullAccountType::Microsoft {
                access_token,
                refresh_token,
                id_token,
                token_expires,
                skin_id,
            } => {
                let status = if refresh_token.is_none() || id_token.is_none() {
                    AccountStatus::Invalid
                } else if now > token_expires {
                    AccountStatus::Expired
                } else {
                    AccountStatus::Usable { access_token: Some(access_token) }
                };
                AccountWithStatus {
                    account: Account {
                        username: value.username,
                        uuid: value.uuid,
                        last_used: value.last_used,
                        type_: AccountType::Microsoft,
                        skin_id,
                    },
                    status,
                }
            },
        }
    }

    /// The status to show: a Microsoft account that is being refreshed shows
    /// as refreshing, whatever its own status.
    pub fn shown_status(self, refreshing: bool) -> (status: AccountStatus)
        ensures
            status == (if self.account.type_ == AccountType::Microsoft && refreshing {
                AccountStatus::Refreshing
            } else {
                self.status
            }),
    {
        match self.account.type_ {
            AccountType::Microsoft => if refreshing {
                AccountStatus::Refreshing
            } else {
                self.status
            },
            AccountType::Offline => self.status,
        }
    }
}

impl Account {
    /// The listed form of a stored entry.
    pub fn of_entry(entry: AccountEntry) -> (account: Account)
        ensures
            account == listed_entry(entry),
    {
        let type_ = match &entry.access_token {
            None => AccountType::Offline,
            Some(_) => AccountType::Microsoft,
        };
        Account {
            username: entry.username,
            uuid: entry.uuid,
            last_used: entry.last_used,
            type_,
            skin_id: entry.skin_id,
        }
    }
}

/// One change to a stored account.
#[derive(Debug, PartialEq, Eq)]
pub enum AccountChange {
    SetUsername(String),
    SetAccessToken(Option<String>),
    SetMsRefreshToken(Option<String>),
    SetTokenExpires(Option<i64>),
    SetIdToken(Option<String>),
    SetSkinId(Option<String>),
}

/// The changes that bring the stored tokens of an account up to date: an
/// offline account has none of them, a Microsoft account all of them.
pub open spec fn token_changes(type_: FullAccountType, clear: bool) -> Seq<AccountChange> {
    match type_ {
        FullAccountType::Offline => if clear {
            seq![
                AccountChange::SetAccessToken(None),
                AccountChange::SetMsRefreshToken(None),
                AccountChange::SetTokenExpires(None),
            ]
        } else {
            Seq::empty()
        },
        FullAccountType::Microsoft {
            access_token,
            refresh_token,
            id_token,
            token_expires,
            skin_id,
        } => seq![
            AccountChange::SetAccessToken(Some(access_token)),
            AccountChange::SetMsRefreshToken(refresh_token),
            AccountChange::SetTokenExpires(Some(token_expires)),
            AccountChange::SetIdToken(id_token),
            AccountChange::SetSkinId(skin_id),
        ],
    }
}

/// The changes with which `account` is stored. For an account that is stored
/// already, the user name is set and the tokens are replaced or, for an
/// offline account, cleared; the time of last use stays. A new account is
/// created with the tokens it has.
pub open spec fn stored_changes(account: FullAccount, exists: bool) -> Seq<AccountChange> {
    if exists {
        seq![AccountChange::SetUsername(account.username)] + token_changes(account.type_, true)
    } else {
        token_changes(account.type_, false)
    }
}

/// The changes with which `account` is stored, given whether an account with
/// its UUID is stored already.
pub fn account_changes(account: &FullAccount, exists: bool) -> (changes: Vec<AccountChange>)
    ensures
        changes@ == stored_changes(*account, exists),
{
    let mut changes: Vec<AccountChange> = Vec::new();
    if exists {
        changes.push(AccountChange::SetUsername(account.username.clone()));
    }
    match &account.type_ {
        FullAccountType::Offline => {
            if exists {
                changes.push(AccountChange::SetAccessToken(None));
                changes.push(AccountChange::SetMsRefreshToken(None));
                changes.push(AccountChange::SetTokenExpires(None));
            }
        },
        FullAccountType::Microsoft {
            access_token,
            refresh_token,
            id_token,
            token_expires,
            skin_id,
        } => {
            changes.push(AccountChange::SetAccessToken(Some(access_token.clone())));
            changes.push(AccountChange::SetMsRefreshToken(refresh_token.clone()));
            changes.push(AccountChange::SetTokenExpires(Some(*token_expires)));
            changes.push(AccountChange::SetIdToken(id_token.clone()));
            changes.push(AccountChange::SetSkinId(skin_id.clone()));
        },
    }
    changes
}

/// Whether an account may become the active one: no account at all always
/// may, a named account only if it is in the account list.
pub fn check_set_active(uuid: Option<String>, exists: bool) -> (result: Result<
    Option<String>,
    SetActiveUuidError,
>)
    ensures
        result == (match uuid {
            Some(uuid) if !exists => Err::<Option<String>, SetActiveUuidError>(
                SetActiveUuidError::AccountDoesNotExist(uuid),
            ),
            _ => Ok(uuid),
        }),
{
    match uuid {
        Some(uuid) => if exists {
            Ok(Some(uuid))
        } else {
            Err(SetActiveUuidError::AccountDoesNotExist(uuid))
        },
        None => Ok(None),
    }
}

/// The account that becomes active when `deleted` is removed: the most
/// recently used one where `deleted` was active; `None` where the active
/// account stays as it is.
pub fn active_after_delete(
    active: Option<&String>,
    deleted: &String,
    most_recent: Option<String>,
) -> (next: Option<Option<String>>)
    ensures
        next == (match active {
            Some(active) if active@ == deleted@ => Some(most_recent),
            _ => None,
        }),
{
    match active {
        Some(active) => if *active == *deleted {
            Some(most_recent)
        } else {
            None
        },
        None => None,
    }
}

/// The result of deleting an account, given whether it was found.
pub fn check_deleted(uuid: String, found: bool) -> (result: Result<(), DeleteAccountError>)
    ensures
        result == (if found {
            Ok::<(), DeleteAccountError>(())
        } else {
            Err(DeleteAccountError::AccountDoesNotExist(uuid))
        }),
{
    if found {
        Ok(())
    } else {
        Err(DeleteAccountError::AccountDoesNotExist(uuid))
    }
}

/// The access token with which the validity of an account is checked: only
/// an account in good standing that has one is checked.
pub fn token_to_validate(account: Option<AccountWithStatus>, uuid: String) -> (result: Result<
    Option<String>,
    ValidateAccountError,
>)
    ensures
        result == (match account {
            None => Err::<Option<String>, ValidateAccountError>(
                ValidateAccountError::AccountMissing(uuid),
            ),
            Some(account) => match account.status {
                AccountStatus::Usable { access_token: Some(token) } => Ok(Some(token)),
                _ => Ok(None),
            },
        }),
{
    match account {
        None => Err(ValidateAccountError::AccountMissing(uuid)),
        Some(account) => match account.status {
            AccountStatus::Usable { access_token: Some(token) } => Ok(Some(token)),
            _ => Ok(None),
        },
    }
}

/// Whether the skin of a profile differs from the one on record.
pub fn skin_changed(recorded: Option<&String>, fetched: Option<&String>) -> (changed: bool)
    ensures
        changed == skin_differs(text_view(recorded), text_view(fetched)),
{
    match (recorded, fetched) {
        (Some(recorded), Some(fetched)) => !(*recorded == *fetched),
        (None, None) => false,
        _ => true,
    }
}

/// The accounts as they are listed: the listed form of every stored entry,
/// in the order stored.
pub fn account_list(entries: Vec<AccountEntry>) -> (listed: Vec<Account>)
    ensures
        listed.len() == entries.len(),
        forall|i: int| 0 <= i < entries.len() ==> #[trigger] listed[i] == listed_entry(entries[i]),
{
    let ghost given = entries@;
    let mut listed: Vec<Account> = Vec::new();
    for entry in stored: entries
        invariant
            stored.seq() == given,
            listed.len() == stored.index(),
            forall|i: int| 0 <= i < listed.len() ==> #[trigger] listed[i] == listed_entry(given[i]),
    {
        listed.push(Account::of_entry(entry));
    }
    listed
}

/// What the profile service knows of an account.
#[derive(Debug, PartialEq, Eq)]
pub struct Profile {
    pub username: String,
    pub skin_id: Option<String>,
}

/// Why the profile service gave no profile.
#[derive(Debug, Clone, Copy, PartialEq, Eq, Structural)]
pub enum GetProfileError {
    /// The service refused the access token.
    AuthTokenInvalid,
    /// The account owns no game profile.
    GameProfileMissing,
}

/// What is read again after an account was checked.
#[derive(Debug, Clone, Copy, PartialEq, Eq, Structural)]
pub enum Invalidation {
    /// The status of the account.
    AccountStatus,
    /// The head rendered from the skin of the account.
    Head,
}

/// What follows from a check of an account against the profile service.
#[derive(Debug, PartialEq, Eq)]
pub struct ProfileUpdate {
    /// The changes to store.
    pub changes: Vec<AccountChange>,
    /// What is read again afterwards.
    pub invalidate: Option<Invalidation>,
}

/// The changes that follow from the answer of the profile service. A
/// refused token expires the stored token at `now`, and the status of the
/// account is read again. A profile brings its user name and skin, and the
/// head is read again exactly where the skin differs from the one on record.
pub open spec fn profile_changes(
    answer: Result<Profile, GetProfileError>,
    now: i64,
) -> Seq<AccountChange> {
    match answer {
        Ok(profile) => seq![
            AccountChange::SetUsername(profile.username),
            AccountChange::SetSkinId(profile.skin_id),
        ],
        Err(_) => seq![AccountChange::SetTokenExpires(Some(now))],
    }
}

/// What follows from the answer of the profile service to a check of an
/// account whose skin on record is `recorded_skin`. A missing game profile
/// fails the check and changes nothing.
pub fn profile_update(
    answer: Result<Profile, GetProfileError>,
    recorded_skin: Option<&String>,
    now: i64,
) -> (result: Result<ProfileUpdate, GetProfileError>)
    ensures
        match answer {
            Err(GetProfileError::GameProfileMissing) => result == Err::<
                ProfileUpdate,
                GetProfileError,
            >(GetProfileError::GameProfileMissing),
            Err(GetProfileError::AuthTokenInvalid) => {
                &&& result is Ok
                &&& result->Ok_0.changes@ == profile_changes(answer, now)
                &&& result->Ok_0.invalidate == Some(Invalidation::AccountStatus)
            },
            Ok(profile) => {
                &&& result is Ok
                &&& result->Ok_0.changes@ == profile_changes(answer, now)
                &&& result->Ok_0.invalidate == (if skin_differs(
                    text_view(recorded_skin),
                    text_of(profile.skin_id),
                ) {
                    Some(Invalidation::Head)
                } else {
                    None
                })
            },
        },
{
    match answer {
        Err(GetProfileError::GameProfileMissing) => Err(GetProfileError::GameProfileMissing),
        Err(GetProfileError::AuthTokenInvalid) => {
            let mut changes: Vec<AccountChange> = Vec::new();
            changes.push(AccountChange::SetTokenExpires(Some(now)));
            assert(changes@ =~= profile_changes(answer, now));
            Ok(ProfileUpdate { changes, invalidate: Some(Invalidation::AccountStatus) })
        },
        Ok(profile) => {
            let invalidate = if skin_changed(recorded_skin, profile.skin_id.as_ref()) {
                Some(Invalidation::Head)
            } else {
                None
            };
            let mut changes: Vec<AccountChange> = Vec::new();
            changes.push(AccountChange::SetUsername(profile.username));
            changes.push(AccountChange::SetSkinId(profile.skin_id));
            assert(changes@ =~= profile_changes(answer, now));
            Ok(ProfileUpdate { changes, invalidate })
        },
    }
}

/// The periodic checks of the accounts.
pub struct AccountRefreshService;

impl AccountRefreshService {
    /// Whether a token that expires at `token_expires` is to be refreshed at
    /// `now`.
    pub fn is_due(token_expires: i64, now: i64) -> (due: bool)
        ensures
            due == refresh_due(token_expires, now),
    {
        match token_expires.checked_sub(REFRESH_MARGIN_MS) {
            Some(threshold) => threshold < now,
            None => true,
        }
    }

    /// The first stored account, in the order given, whose token is to be
    /// refreshed at `now`. Offline accounts have no token, and an entry with
    /// a token but without an expiry time cannot be read: both are passed
    /// over.
    pub fn first_due(accounts: &Vec<AccountEntry>, now: i64) -> (found: Option<usize>)
        ensures
            match found {
                Some(k) => {
                    &&& k < accounts.len()
                    &&& account_due(accounts[k as int], now)
                    &&& forall|j: int| 0 <= j < k ==> !account_due(#[trigger] accounts[j], now)
                },
                None => forall|j: int|
                    0 <= j < accounts.len() ==> !account_due(#[trigger] accounts[j], now),
            },
    {
        let mut i: usize = 0;
        while i < accounts.len()
            invariant
                i <= accounts.len(),
                forall|j: int| 0 <= j < i ==> !account_due(#[trigger] accounts[j], now),
            decreases accounts.len() - i,
        {
            let due = match (&accounts[i].access_token, accounts[i].token_expires) {
                (Some(_), Some(token_expires)) => Self::is_due(token_expires, now),
                _ => false,
            };
            if due {
                return Some(i);
            }
            i = i + 1;
        }
        None
    }

    /// The checks to go on with, given the stored accounts: the last check
    /// of every account that still has a token is kept as it is, the last
    /// check of every other account is dropped, and an account with a token
    /// that has not been checked yet counts as checked at `now`.
    pub fn checks_to_keep(checks: &Vec<LastCheck>, accounts: &Vec<AccountEntry>, now: u64) -> (kept: Vec<
        LastCheck,
    >)
        ensures
            forall|k: int|
                0 <= k < kept.len() ==> has_token(accounts@, (#[trigger] kept[k]).uuid@),
            forall|k: int|
                0 <= k < kept.len() ==> checked_at(
                    checks@,
                    (#[trigger] kept[k]).uuid@,
                    kept[k].time,
                ) || (!is_checked(checks@, kept[k].uuid@) && kept[k].time == now),
            forall|i: int|
                0 <= i < checks.len() && has_token(accounts@, (#[trigger] checks[i]).uuid@)
                    ==> checked_at(kept@, checks[i].uuid@, checks[i].time),
            forall|uuid: Seq<char>| has_token(accounts@, uuid) ==> is_checked(kept@, uuid),
    {
        let mut kept: Vec<LastCheck> = Vec::new();
        let mut i: usize = 0;
        while i < checks.len()
            invariant
                i <= checks.len(),
                forall|k: int|
                    0 <= k < kept.len() ==> has_token(accounts@, (#[trigger] kept[k]).uuid@)
                        && checked_at(checks@, kept[k].uuid@, kept[k].time),
                forall|j: int|
                    0 <= j < i && has_token(accounts@, (#[trigger] checks[j]).uuid@)
                        ==> checked_at(kept@, checks[j].uuid@, checks[j].time),
            decreases checks.len() - i,
        {
            if has_account_with_token(accounts, &checks[i].uuid) {
                let ghost shorter = kept@;
                kept.push(LastCheck { uuid: checks[i].uuid.clone(), time: checks[i].time });
                proof {
                    lemma_checks_grow(shorter, kept@);
                    assert forall|k: int| 0 <= k < kept.len() implies has_token(
                        accounts@,
                        (#[trigger] kept[k]).uuid@,
                    ) && checked_at(checks@, kept[k].uuid@, kept[k].time) by {
                        if k < shorter.len() {
                            assert(kept[k] == shorter[k]);
                        }
                    }
                }
            }
            i = i + 1;
        }
        let mut a: usize = 0;
        while a < accounts.len()
            invariant
                a <= accounts.len(),
                forall|k: int|
                    0 <= k < kept.len() ==> has_token(accounts@, (#[trigger] kept[k]).uuid@),
                forall|k: int|
                    0 <= k < kept.len() ==> checked_at(
                        checks@,
                        (#[trigger] kept[k]).uuid@,
                        kept[k].time,
                    ) || (!is_checked(checks@, kept[k].uuid@) && kept[k].time == now),
                forall|i: int|
                    0 <= i < checks.len() && has_token(accounts@, (#[trigger] checks[i]).uuid@)
                        ==> checked_at(kept@, checks[i].uuid@, checks[i].time),
                forall|j: int|
                    0 <= j < a && (#[trigger] accounts[j]).access_token is Some ==> is_checked(
                        kept@,
                        accounts[j].uuid@,
                    ),
            decreases accounts.len() - a,
        {
            if accounts[a].access_token.is_some() && !is_listed(&kept, &accounts[a].uuid) {
                let ghost shorter = kept@;
                kept.push(LastCheck { uuid: accounts[a].uuid.clone(), time: now });
                proof {
                    lemma_checks_grow(shorter, kept@);
                    let uuid = accounts[a as int].uuid@;
                    if is_checked(checks@, uuid) {
                        let i = choose|i: int|
                            0 <= i < checks.len() && (#[trigger] checks[i]).uuid@ == uuid;
                        assert(checked_at(shorter, checks[i].uuid@, checks[i].time));
                    }
                    assert forall|k: int| 0 <= k < kept.len() implies has_token(
                        accounts@,
                        (#[trigger] kept[k]).uuid@,
                    ) by {
                        if k < shorter.len() {
                            assert(kept[k] == shorter[k]);
                        }
                    }
                    assert forall|k: int| 0 <= k < kept.len() implies checked_at(
                        checks@,
                        (#[trigger] kept[k]).uuid@,
                        kept[k].time,
                    ) || (!is_checked(checks@, kept[k].uuid@) && kept[k].time == now) by {
                        if k < shorter.len() {
                            assert(kept[k] == shorter[k]);
                        }
                    }
                }
            }
            a = a + 1;
        }
        proof {
            assert forall|uuid: Seq<char>| has_token(accounts@, uuid) implies is_checked(
                kept@,
                uuid,
            ) by {
                let j = choose|j: int|
                    0 <= j < accounts.len() && (#[trigger] accounts[j]).uuid@ == uuid
                        && accounts[j].access_token is Some;
                assert(is_checked(kept@, accounts[j].uuid@));
            }
        }
        kept
    }

    /// The position of the account that was checked longest ago; the first of
    /// them where several were checked at the same time. `None` where no
    /// account is on record.
    pub fn least_recently_checked(checks: &Vec<LastCheck>) -> (found: Option<usize>)
        ensures
            match found {
                Some(k) => {
                    &&& k < checks.len()
                    &&& forall|j: int|
                        0 <= j < checks.len() ==> checks[k as int].time <= (#[trigger] checks[j]).time
                    &&& forall|j: int|
                        0 <= j < k ==> checks[k as int].time < (#[trigger] checks[j]).time
                },
                None => checks.len() == 0,
            },
    {
        if checks.len() == 0 {
            return None;
        }
        let mut best: usize = 0;
        let mut i: usize = 1;
        while i < checks.len()
            invariant
                1 <= i <= checks.len(),
                best < i,
                forall|j: int| 0 <= j < i ==> checks[best as int].time <= (#[trigger] checks[j]).time,
                forall|j: int|
                    0 <= j < best ==> checks[best as int].time < (#[trigger] checks[j]).time,
            decreases checks.len() - i,
        {
            if checks[i].time < checks[best].time {
                best = i;
            }
            i = i + 1;
        }
        Some(best)
    }
}

/// Whether some stored account with this UUID has a token.
fn has_account_with_token(accounts: &Vec<AccountEntry>, uuid: &String) -> (found: bool)
    ensures
        found == has_token(accounts@, uuid@),
{
    let mut i: usize = 0;
    while i < accounts.len()
        invariant
            i <= accounts.len(),
            forall|j: int|
                0 <= j < i ==> !((#[trigger] accounts[j]).uuid@ == uuid@
                    && accounts[j].access_token is Some),
        decreases accounts.len() - i,
    {
        if accounts[i].uuid == *uuid && accounts[i].access_token.is_some() {
            return true;
        }
        i = i + 1;
    }
    false
}

/// Whether a check of the account with this UUID is on record.
fn is_listed(checks: &Vec<LastCheck>, uuid: &String) -> (found: bool)
    ensures
        found == is_checked(checks@, uuid@),
{
    let mut i: usize = 0;
    while i < checks.len()
        invariant
            i <= checks.len(),
            forall|j: int| 0 <= j < i ==> (#[trigger] checks[j]).uuid@ != uuid@,
        decreases checks.len() - i,
    {
        if checks[i].uuid == *uuid {
            return true;
        }
        i = i + 1;
    }
    false
}

/// What is on record stays on record when a check is added.
proof fn lemma_checks_grow(shorter: Seq<LastCheck>, longer: Seq<LastCheck>)
    requires
        longer.len() == shorter.len() + 1,
        forall|k: int| 0 <= k < shorter.len() ==> longer[k] == shorter[k],
    ensures
        forall|uuid: Seq<char>, time: u64|
            checked_at(shorter, uuid, time) ==> #[trigger] checked_at(longer, uuid, time),
        forall|uuid: Seq<char>| is_checked(shorter, uuid) ==> #[trigger] is_checked(longer, uuid),
        checked_at(longer, longer.last().uuid@, longer.last().time),
        is_checked(longer, longer.last().uuid@),
{
    assert forall|uuid: Seq<char>, time: u64| checked_at(shorter, uuid, time) implies #[trigger] checked_at(
        longer,
        uuid,
        time,
    ) by {
        let i = choose|i: int|
            0 <= i < shorter.len() && (#[trigger] shorter[i]).uuid@ == uuid && shorter[i].time
                == time;
        assert(longer[i] == shorter[i]);
    }
    assert forall|uuid: Seq<char>| is_checked(shorter, uuid) implies #[trigger] is_checked(
        longer,
        uuid,
    ) by {
        let i = choose|i: int| 0 <= i < shorter.len() && (#[trigger] shorter[i]).uuid@ == uuid;
        assert(longer[i] == shorter[i]);
    }
}

/// The time of the last check of one account, in milliseconds on a clock
/// that never goes back.
#[derive(Debug, PartialEq, Eq)]
pub struct LastCheck {
    pub uuid: String,
    pub time: u64,
}

/// Whether some stored account with this UUID has a token.
pub open spec fn has_token(accounts: Seq<AccountEntry>, uuid: Seq<char>) -> bool {
    exists|i: int|
        0 <= i < accounts.len() && (#[trigger] accounts[i]).uuid@ == uuid
            && accounts[i].access_token is Some
}

/// Whether a check of the account with this UUID at this time is on record.
pub open spec fn checked_at(checks: Seq<LastCheck>, uuid: Seq<char>, time: u64) -> bool {
    exists|i: int|
        0 <= i < checks.len() && (#[trigger] checks[i]).uuid@ == uuid && checks[i].time == time
}

/// Whether a check of the account with this UUID is on record.
pub open spec fn is_checked(checks: Seq<LastCheck>, uuid: Seq<char>) -> bool {
    exists|i: int| 0 <= i < checks.len() && (#[trigger] checks[i]).uuid@ == uuid
}

/// Whether the token of a stored account is to be refreshed at `now`.
pub open spec fn account_due(account: AccountEntry, now: i64) -> bool {
    match (account.access_token, account.token_expires) {
        (Some(_), Some(token_expires)) => refresh_due(token_expires, now),
        _ => false,
    }
}

} // verus!
