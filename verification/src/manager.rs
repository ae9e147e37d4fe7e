//! The state of the account manager: the enrollment in progress, the
//! accounts whose tokens are being refreshed, and the pause of the periodic
//! checks. Times are milliseconds on a clock that never goes back.

use crate::account::{
    loaded, without_tokens, AccountEntry, BeginEnrollmentStatusError,
    CancelEnrollmentStatusError, FinalizeEnrollmentError, FullAccount, FullAccountLoadError,
    FullAccountType, RefreshAccountError,
};
use vstd::prelude::*;

verus! {

/// How long the periodic checks pause after an account was checked by hand,
/// in milliseconds.
pub const REFRESH_PAUSE_MS: u64 = 30_000;

/// Why an enrollment or a refresh failed.
#[derive(Debug, Clone, Copy, PartialEq, Eq, Structural)]
pub enum EnrollmentFailure {
    /// The account is no longer valid and has to log in again.
    AccountInvalid,
    /// Anything else, such as a failed request.
    Other,
}

/// How far an enrollment or a refresh has come.
#[derive(Debug, PartialEq, Eq)]
pub enum EnrollmentStatus {
    RequestingCode,
    Complete(FullAccount),
    Failed(EnrollmentFailure),
}

/// Whether a refresh of `account` that has come to `status` is over. A
/// refresh is over when it is complete and when it has failed; the failed
/// refresh of an offline account, which cannot be refreshed at all, is left
/// as it is.
pub open spec fn refresh_over(account: FullAccount, status: EnrollmentStatus) -> bool {
    match status {
        EnrollmentStatus::RequestingCode => false,
        EnrollmentStatus::Complete(_) => true,
        EnrollmentStatus::Failed(_) => account.type_ is Microsoft,
    }
}

/// The account to store when a refresh of `account` has come to `status`:
/// the refreshed account when it is complete; the account without its
/// refresh and identity tokens when it failed because the account is no
/// longer valid; nothing in every other case.
pub open spec fn account_to_store(account: FullAccount, status: EnrollmentStatus) -> Option<
    FullAccount,
> {
    match status {
        EnrollmentStatus::Complete(refreshed) => Some(refreshed),
        EnrollmentStatus::Failed(EnrollmentFailure::AccountInvalid) => without_tokens(account),
        _ => None,
    }
}

/// The skins of the accounts.
#[derive(Debug, PartialEq, Eq)]
pub struct SkinManager {}

/// A manager together with the application it belongs to.
pub struct ManagerRef<'s, A, T> {
    pub app: &'s A,
    pub manager: &'s T,
}

/// Whether `uuid` is in `list`.
spec fn holds(list: Seq<String>, uuid: Seq<char>) -> bool {
    exists|i: int| 0 <= i < list.len() && (#[trigger] list[i])@ == uuid
}

/// The account manager.
#[derive(Debug)]
pub struct AccountManager {
    currently_refreshing: Vec<String>,
    active_enrollment: Option<EnrollmentStatus>,
    refreshloop_sleep: Option<u64>,
    skin_manager: SkinManager,
}

impl AccountManager {
    /// The enrollment in progress, if there is one.
    pub closed spec fn enrollment(&self) -> Option<EnrollmentStatus> {
        self.active_enrollment
    }

    /// The UUIDs of the accounts whose tokens are being refreshed.
    pub closed spec fn refreshing(&self) -> Set<Seq<char>> {
        Set::new(|uuid: Seq<char>| holds(self.currently_refreshing@, uuid))
    }

    /// The time until which the periodic checks pause, if they do.
    pub closed spec fn paused_until(&self) -> Option<u64> {
        self.refreshloop_sleep
    }

    /// The skin manager of this account manager.
    pub closed spec fn skins(&self) -> SkinManager {
        self.skin_manager
    }

    /// A manager with no enrollment, no refresh under way and no pause.
    pub fn new() -> (manager: Self)
        ensures
            manager.enrollment() is None,
            manager.refreshing() == Set::<Seq<char>>::empty(),
            manager.paused_until() is None,
    {
        let manager = AccountManager {
            currently_refreshing: Vec::new(),
            active_enrollment: None,
            refreshloop_sleep: None,
            skin_manager: SkinManager {  },
        };
        manager
    }

    /// Begins an enrollment. Refused while one is in progress.
    pub fn begin_enrollment(&mut self) -> (result: Result<(), BeginEnrollmentStatusError>)
        ensures
            final(self).refreshing() == old(self).refreshing(),
            final(self).paused_until() == old(self).paused_until(),
            match result {
                Ok(_) => old(self).enrollment() is None && final(self).enrollment() == Some(
                    EnrollmentStatus::RequestingCode,
                ),
                Err(error) => error == BeginEnrollmentStatusError::InProgress && old(
                    self,
                ).enrollment() is Some && final(self).enrollment() == old(self).enrollment(),
            },
    {
        match &self.active_enrollment {
            Some(_) => Err(BeginEnrollmentStatusError::InProgress),
            None => {
                self.active_enrollment = Some(EnrollmentStatus::RequestingCode);
                Ok(())
            },
        }
    }

    /// Records how far the enrollment in progress has come. Returns `false`,
    /// and records nothing, where none is in progress.
    pub fn enrollment_advanced(&mut self, status: EnrollmentStatus) -> (recorded: bool)
        ensures
            final(self).refreshing() == old(self).refreshing(),
            final(self).paused_until() == old(self).paused_until(),
            recorded == old(self).enrollment() is Some,
            final(self).enrollment() == (if recorded {
                Some(status)
            } else {
                None
            }),
    {
        match &self.active_enrollment {
            Some(_) => {
                self.active_enrollment = Some(status);
                true
            },
            None => false,
        }
    }

    /// How far the enrollment in progress has come.
    pub fn get_enrollment_status(&self) -> (status: Option<&EnrollmentStatus>)
        ensures
            match status {
                Some(status) => self.enrollment() == Some(*status),
                None => self.enrollment() is None,
            },
    {
        self.active_enrollment.as_ref()
    }

    /// Ends the enrollment in progress. Refused where there is none.
    pub fn cancel_enrollment(&mut self) -> (result: Result<(), CancelEnrollmentStatusError>)
        ensures
            final(self).refreshing() == old(self).refreshing(),
            final(self).paused_until() == old(self).paused_until(),
            final(self).enrollment() is None,
            match result {
                Ok(_) => old(self).enrollment() is Some,
                Err(error) => error == CancelEnrollmentStatusError::NotActive && old(
                    self,
                ).enrollment() is None,
            },
    {
        match self.active_enrollment.take() {
            Some(_) => Ok(()),
            None => Err(CancelEnrollmentStatusError::NotActive),
        }
    }

    /// Ends the enrollment in progress and hands out the enrolled account.
    /// Refused where no enrollment is in progress and where it is not
    /// complete; an incomplete enrollment is ended all the same.
    pub fn finalize_enrollment(&mut self) -> (result: Result<FullAccount, FinalizeEnrollmentError>)
        ensures
            final(self).refreshing() == old(self).refreshing(),
            final(self).paused_until() == old(self).paused_until(),
            final(self).enrollment() is None,
            result == (match old(self).enrollment() {
                None => Err::<FullAccount, FinalizeEnrollmentError>(
                    FinalizeEnrollmentError::NotActive,
                ),
                Some(EnrollmentStatus::Complete(account)) => Ok(account),
                Some(_) => Err(FinalizeEnrollmentError::NotComplete),
            }),
    {
        match self.active_enrollment.take() {
            None => Err(FinalizeEnrollmentError::NotActive),
            Some(EnrollmentStatus::Complete(account)) => Ok(account),
            Some(_) => Err(FinalizeEnrollmentError::NotComplete),
        }
    }

    /// Whether the tokens of the account with this UUID are being refreshed.
    pub fn is_refreshing(&self, uuid: &String) -> (refreshing: bool)
        ensures
            refreshing == self.refreshing().contains(uuid@),
    {
        let mut i: usize = 0;
        while i < self.currently_refreshing.len()
            invariant
                i <= self.currently_refreshing.len(),
                forall|j: int| 0 <= j < i ==> (#[trigger] self.currently_refreshing[j])@ != uuid@,
            decreases self.currently_refreshing.len() - i,
        {
            if self.currently_refreshing[i] == *uuid {
                return true;
            }
            i = i + 1;
        }
        false
    }

    /// Begins the refresh of the account stored as `entry` under `uuid` and
    /// returns the refresh token to use. Refused where there is no such
    /// account, where the account has no refresh token, where its refresh is
    /// under way already, and where the entry cannot be read, in this order.
    /// Only a refresh that begins is recorded.
    pub fn begin_refresh(&mut self, uuid: String, entry: Option<&AccountEntry>) -> (result: Result<
        String,
        RefreshAccountError,
    >)
        ensures
            final(self).enrollment() == old(self).enrollment(),
            final(self).paused_until() == old(self).paused_until(),
            result == (match entry {
                None => Err::<String, RefreshAccountError>(RefreshAccountError::NoAccount),
                Some(entry) => match entry.ms_refresh_token {
                    None => Err(RefreshAccountError::NoRefreshToken),
                    Some(token) => if old(self).refreshing().contains(uuid@) {
                        Err(RefreshAccountError::AlreadyRefreshing)
                    } else {
                        match loaded(*entry) {
                            Err(error) => Err(RefreshAccountError::DbLoad(error)),
                            Ok(_) => Ok(token),
                        }
                    },
                },
            }),
            final(self).refreshing() == (if result is Ok {
                old(self).refreshing().insert(uuid@)
            } else {
                old(self).refreshing()
            }),
    {
        let entry = match entry {
            None => {
                return Err(RefreshAccountError::NoAccount);
            },
            Some(entry) => entry,
        };
        let token = match &entry.ms_refresh_token {
            None => {
                return Err(RefreshAccountError::NoRefreshToken);
            },
            Some(token) => token.clone(),
        };
        if self.is_refreshing(&uuid) {
            return Err(RefreshAccountError::AlreadyRefreshing);
        }
        if entry.access_token.is_some() && entry.token_expires.is_none() {
            return Err(
                RefreshAccountError::DbLoad(
                    FullAccountLoadError::MissingExpiration(entry.uuid.clone()),
                ),
            );
        }
        let ghost before = self.currently_refreshing@;
        self.currently_refreshing.push(uuid);
        proof {
            assert forall|u: Seq<char>|
                final(self).refreshing().contains(u) == old(self).refreshing().insert(
                    uuid@,
                ).contains(u) by {
                if holds(before, u) {
                    let i = choose|i: int| 0 <= i < before.len() && (#[trigger] before[i])@ == u;
                    assert(self.currently_refreshing[i]@ == u);
                }
                if u == uuid@ {
                    assert(self.currently_refreshing[before.len() as int]@ == u);
                }
            }
        }
        Ok(token)
    }

    /// Ends the refresh of the account with this UUID.
    pub fn end_refresh(&mut self, uuid: &String)
        ensures
            final(self).enrollment() == old(self).enrollment(),
            final(self).paused_until() == old(self).paused_until(),
            final(self).refreshing() == old(self).refreshing().remove(uuid@),
    {
        let ghost before = self.currently_refreshing@;
        let mut kept: Vec<String> = Vec::new();
        let mut i: usize = 0;
        while i < self.currently_refreshing.len()
            invariant
                i <= self.currently_refreshing.len(),
                self.currently_refreshing@ == before,
                forall|k: int|
                    0 <= k < kept.len() ==> (#[trigger] kept[k])@ != uuid@ && holds(
                        before,
                        kept[k]@,
                    ),
                forall|j: int|
                    0 <= j < i && (#[trigger] before[j])@ != uuid@ ==> holds(kept@, before[j]@),
            decreases self.currently_refreshing.len() - i,
        {
            if !(self.currently_refreshing[i] == *uuid) {
                let ghost shorter = kept@;
                kept.push(self.currently_refreshing[i].clone());
                proof {
                    assert(kept[shorter.len() as int]@ == before[i as int]@);
                    assert forall|j: int|
                        0 <= j < i + 1 && (#[trigger] before[j])@ != uuid@ implies holds(
                        kept@,
                        before[j]@,
                    ) by {
                        if j < i {
                            let k = choose|k: int|
                                0 <= k < shorter.len() && (#[trigger] shorter[k])@ == before[j]@;
                            assert(kept[k]@ == before[j]@);
                        }
                    }
                    assert forall|k: int| 0 <= k < kept.len() implies (#[trigger] kept[k])@
                        != uuid@ && holds(before, kept[k]@) by {
                        if k < shorter.len() {
                            assert(kept[k] == shorter[k]);
                        }
                    }
                }
            }
            i = i + 1;
        }
        self.currently_refreshing = kept;
        proof {
            assert forall|u: Seq<char>|
                final(self).refreshing().contains(u) == old(self).refreshing().remove(
                    uuid@,
                ).contains(u) by {
                if holds(kept@, u) {
                    let k = choose|k: int| 0 <= k < kept.len() && (#[trigger] kept[k])@ == u;
                    assert(holds(before, kept[k]@));
                }
                if holds(before, u) && u != uuid@ {
                    let j = choose|j: int| 0 <= j < before.len() && (#[trigger] before[j])@ == u;
                    assert(holds(kept@, before[j]@));
                }
            }
        }
    }

    /// Records that the refresh of `account` has come to `status`, and
    /// returns the account to store. A refresh that is over is no longer
    /// under way.
    pub fn refresh_advanced(&mut self, account: &FullAccount, status: EnrollmentStatus) -> (store:
        Option<FullAccount>)
        ensures
            final(self).enrollment() == old(self).enrollment(),
            final(self).paused_until() == old(self).paused_until(),
            store == account_to_store(*account, status),
            final(self).refreshing() == (if refresh_over(*account, status) {
                old(self).refreshing().remove(account.uuid@)
            } else {
                old(self).refreshing()
            }),
    {
        let (store, over) = match status {
            EnrollmentStatus::RequestingCode => (None, false),
            EnrollmentStatus::Complete(refreshed) => (Some(refreshed), true),
            EnrollmentStatus::Failed(failure) => {
                let over = match &account.type_ {
                    FullAccountType::Microsoft { .. } => true,
                    FullAccountType::Offline => false,
                };
                match failure {
                    EnrollmentFailure::AccountInvalid => (account.invalidated(), over),
                    EnrollmentFailure::Other => (None, over),
                }
            },
        };
        if over {
            self.end_refresh(&account.uuid);
        }
        store
    }

    /// Pauses the periodic checks until half a minute after `now`.
    pub fn pause_checks(&mut self, now: u64)
        ensures
            final(self).enrollment() == old(self).enrollment(),
            final(self).refreshing() == old(self).refreshing(),
            final(self).paused_until() == Some(
                if now + REFRESH_PAUSE_MS > u64::MAX {
                    u64::MAX
                } else {
                    (now + REFRESH_PAUSE_MS) as u64
                },
            ),
    {
        self.refreshloop_sleep = Some(now.saturating_add(REFRESH_PAUSE_MS));
    }

    /// The time until which the periodic checks have to wait at `now`. A
    /// pause that lies in the past is over and is forgotten.
    pub fn checks_wait_until(&mut self, now: u64) -> (until: Option<u64>)
        ensures
            final(self).enrollment() == old(self).enrollment(),
            final(self).refreshing() == old(self).refreshing(),
            until == (match old(self).paused_until() {
                Some(time) if time >= now => Some(time),
                _ => None,
            }),
            final(self).paused_until() == until,
    {
        match self.refreshloop_sleep {
            Some(time) => if time < now {
                self.refreshloop_sleep = None;
                None
            } else {
                Some(time)
            },
            None => None,
        }
    }
}

impl<'s, A> ManagerRef<'s, A, AccountManager> {
    /// The skin manager of the account manager, with the same application.
    pub fn skin_manager(self) -> (skins: ManagerRef<'s, A, SkinManager>)
        ensures
            skins.app == self.app,
            *skins.manager == self.manager.skins(),
    {
        ManagerRef { app: self.app, manager: &self.manager.skin_manager }
    }
}

} // verus!
