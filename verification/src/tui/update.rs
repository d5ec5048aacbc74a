//! Looking for an update, and what is shown of it.
use tokio::sync::oneshot::error::TryRecvError;
use tokio::sync::oneshot::Receiver;
use vstd::prelude::*;

use crate::clock::Instant;
use crate::text::join;

verus! {

/// How long a transient status is shown, in nanoseconds.
pub const TRANSIENT_STATUS_NANOS: u128 = 10_000_000_000;

/// What a search for an update found.
pub struct UpdateInfo {
    pub available: bool,
    pub current_version: String,
    pub latest_version: String,
}

/// The outcome of a search for an update, or why there is none.
pub type UpdateCheck = Result<UpdateInfo, String>;

/// How this program was installed.
#[derive(Debug, PartialEq)]
pub enum InstallMethod {
    Homebrew,
    /// The program is a single file that can be replaced.
    Tarball { binary_path: String },
    /// In some other way, described here.
    Other(String),
}

impl Clone for InstallMethod {
    fn clone(&self) -> (res: Self)
        ensures
            res == *self,
    {
        match self {
            InstallMethod::Homebrew => InstallMethod::Homebrew,
            InstallMethod::Tarball { binary_path } => InstallMethod::Tarball {
                binary_path: binary_path.clone(),
            },
            InstallMethod::Other(how) => InstallMethod::Other(how.clone()),
        }
    }
}

/// The status line.
pub struct UpdateStatus {
    pub text: String,
    /// When it goes away, in nanoseconds on the clock of `Instant`; if there is
    /// no such time, it stays.
    pub expires_at: Option<u128>,
}

/// The status line by its text.
pub struct StatusView {
    pub text: Seq<char>,
    pub expires_at: Option<u128>,
}

impl View for UpdateStatus {
    type V = StatusView;

    open spec fn view(&self) -> StatusView {
        StatusView { text: self.text@, expires_at: self.expires_at }
    }
}

/// The view of an optional status line.
pub open spec fn status_view(status: Option<UpdateStatus>) -> Option<StatusView> {
    match status {
        Some(status) => Some(status@),
        None => None,
    }
}

/// A status line that stays.
pub open spec fn lasting(text: Seq<char>) -> StatusView {
    StatusView { text, expires_at: None }
}

/// A status line that goes away ten seconds after `now`.
pub open spec fn passing(text: Seq<char>, now: Instant) -> StatusView {
    StatusView { text, expires_at: Some((now.nanos + TRANSIENT_STATUS_NANOS) as u128) }
}

impl StatusView {
    /// The status line has had its time.
    pub open spec fn expired(self, now: Instant) -> bool {
        self.expires_at is Some && now.nanos >= self.expires_at->0
    }
}

impl UpdateStatus {
    /// A status line that stays.
    pub fn persistent(text: String) -> (res: Self)
        ensures
            res@ == lasting(text@),
            res.text == text,
    {
        UpdateStatus { text, expires_at: None }
    }

    /// A status line that goes away ten seconds after `now`.
    pub fn transient(text: String, now: Instant) -> (res: Self)
        ensures
            res@ == passing(text@, now),
            res.text == text,
    {
        UpdateStatus { text, expires_at: Some(now.nanos as u128 + TRANSIENT_STATUS_NANOS) }
    }

    /// Whether the status line has had its time.
    pub fn is_expired(&self, now: Instant) -> (res: bool)
        ensures
            res == self@.expired(now),
    {
        match self.expires_at {
            Some(deadline) => now.nanos as u128 >= deadline,
            None => false,
        }
    }
}

/// A status line that stays is never taken away; one that passes is shown for
/// ten seconds and no longer.
pub proof fn law_status_lifetime(text: Seq<char>, shown: Instant, now: Instant)
    ensures
        !lasting(text).expired(now),
        passing(text, shown).expired(now) <==> now.nanos - shown.nanos >= 10_000_000_000,
{
}

/// Why awaiting a channel for one value comes to nothing.
#[verifier::external_type_specification]
#[verifier::external_body]
pub struct ExRecvError(tokio::sync::oneshot::error::RecvError);

/// The receiving end of a channel for one value.
#[verifier::external_type_specification]
#[verifier::external_body]
#[verifier::reject_recursive_types(T)]
pub struct ExReceiver<T>(tokio::sync::oneshot::Receiver<T>);

/// What a channel for one value holds at a moment.
pub enum TryRecv<T> {
    /// The value.
    Value(T),
    /// Nothing yet.
    Empty,
    /// Nothing, and nothing will come.
    Closed,
}

/// Looks whether the value has come.
///
/// Calls `tokio::sync::oneshot::Receiver::try_recv`. What is found rests with the
/// sender. Taken on trust: where nothing has come yet, the receiver stays as it
/// was.
#[verifier::external_body]
pub(crate) fn try_recv<T>(rx: &mut Receiver<T>) -> (res: TryRecv<T>)
    ensures
        res is Empty ==> *final(rx) == *old(rx),
{
    match rx.try_recv() {
        Ok(value) => TryRecv::Value(value),
        Err(TryRecvError::Empty) => TryRecv::Empty,
        Err(TryRecvError::Closed) => TryRecv::Closed,
    }
}

/// An update came and can be installed.
pub open spec fn brings_update(found: TryRecv<UpdateCheck>) -> bool {
    found matches TryRecv::Value(Ok(info)) && info.available
}

/// What is known of an update after `found` came.
pub open spec fn info_after(found: TryRecv<UpdateCheck>, known: Option<UpdateInfo>) -> Option<
    UpdateInfo,
> {
    match found {
        TryRecv::Value(Ok(info)) => if info.available {
            Some(info)
        } else {
            known
        },
        _ => known,
    }
}

/// What is known of an update after `found` came, and whether it is news.
pub fn apply_check(found: TryRecv<UpdateCheck>, known: Option<UpdateInfo>) -> (res: (
    Option<UpdateInfo>,
    bool,
))
    ensures
        res.0 == info_after(found, known),
        res.1 == brings_update(found),
{
    match found {
        TryRecv::Value(Ok(info)) => {
            if info.available {
                (Some(info), true)
            } else {
                (known, false)
            }
        },
        _ => (known, false),
    }
}

/// Looks whether the search for an update has ended: what is then known, the
/// receiver if the search goes on, and whether an update was just found.
///
/// What has come rests with the search; for each thing that may come, the
/// result is what `info_after` and `brings_update` say of it.
pub fn poll_update_receiver(
    rx: Option<Receiver<UpdateCheck>>,
    current_info: Option<UpdateInfo>,
) -> (res: (Option<UpdateInfo>, Option<Receiver<UpdateCheck>>, bool))
    ensures
        rx is None ==> res.0 == current_info && res.1 is None && !res.2,
        rx is Some ==> exists|found: TryRecv<UpdateCheck>|
            {
                &&& res.0 == #[trigger] info_after(found, current_info)
                &&& res.2 == brings_update(found)
                &&& res.1 == if found is Empty {
                    rx
                } else {
                    None
                }
            },
{
    match rx {
        Some(rx) => {
            let mut rx = rx;
            let found = try_recv(&mut rx);
            let ghost g = found;
            let open = match &found {
                TryRecv::Empty => true,
                _ => false,
            };
            let (info, news) = apply_check(found, current_info);
            assert(info == info_after(g, current_info));
            if open {
                (info, Some(rx), news)
            } else {
                (info, None, news)
            }
        },
        None => (current_info, None, false),
    }
}

/// An install method that cannot be asked for the version found has to wait:
/// the update does not count as available.
pub open spec fn gated(check: UpdateCheck, actionable: Option<bool>) -> UpdateCheck {
    match check {
        Ok(info) => Ok(
            UpdateInfo { available: info.available && actionable != Some(false), ..info },
        ),
        Err(e) => Err(e),
    }
}

/// Whether the install method has to be asked if it can bring the version that
/// was found.
pub fn needs_install_probe(check: &UpdateCheck) -> (res: bool)
    ensures
        res == (*check matches Ok(info) && info.available),
{
    match check {
        Ok(info) => info.available,
        Err(_) => false,
    }
}

/// The outcome of a search, given whether the install method can bring the
/// version that was found. Where nothing was found that does not matter; where it
/// could not be asked, it counts as able.
pub fn gate_update(check: UpdateCheck, actionable: Option<bool>) -> (res: UpdateCheck)
    ensures
        res == gated(check, actionable),
{
    match check {
        Ok(info) => {
            let mut info = info;
            if let Some(false) = actionable {
                info.available = false;
            }
            Ok(info)
        },
        Err(e) => Err(e),
    }
}

/// Where an update runs.
#[derive(Clone, Copy, Debug, PartialEq, Eq, Structural)]
pub enum UpdateMode {
    /// In the foreground: it may ask for a password.
    Suspend,
    Background,
}

/// Where an update runs: in the background only where a file that may be
/// written is replaced, or the method asks for nothing.
pub open spec fn mode_of(method: InstallMethod, parent_writable: bool) -> UpdateMode {
    match method {
        InstallMethod::Homebrew => UpdateMode::Suspend,
        InstallMethod::Tarball { .. } => if parent_writable {
            UpdateMode::Background
        } else {
            UpdateMode::Suspend
        },
        InstallMethod::Other(_) => UpdateMode::Background,
    }
}

/// Where an update runs; `parent_writable` says whether the directory of the
/// program's file may be written.
pub fn update_mode(method: &InstallMethod, parent_writable: bool) -> (res: UpdateMode)
    ensures
        res == mode_of(*method, parent_writable),
{
    match method {
        InstallMethod::Homebrew => UpdateMode::Suspend,
        InstallMethod::Tarball { .. } => if parent_writable {
            UpdateMode::Background
        } else {
            UpdateMode::Suspend
        },
        InstallMethod::Other(_) => UpdateMode::Background,
    }
}

/// The status line when an update has ended.
pub open spec fn update_ended(result: Result<(), String>, now: Instant) -> StatusView {
    match result {
        Ok(_) => lasting("update complete. Restart aoe to use the new version."@),
        Err(e) => passing("update failed: "@ + e@, now),
    }
}

/// The status line when an update has ended.
pub fn ended_status(result: Result<(), String>, now: Instant) -> (res: UpdateStatus)
    ensures
        res@ == update_ended(result, now),
{
    match result {
        Ok(_) => UpdateStatus::persistent(
            "update complete. Restart aoe to use the new version.".to_owned(),
        ),
        Err(e) => UpdateStatus::transient(join("update failed: ", e.as_str()), now),
    }
}

/// The status line after an update that runs in the background was looked at.
pub open spec fn status_after(
    found: TryRecv<Result<(), String>>,
    status: Option<StatusView>,
    now: Instant,
) -> Option<StatusView> {
    match found {
        TryRecv::Value(result) => Some(update_ended(result, now)),
        TryRecv::Empty => status,
        TryRecv::Closed => Some(passing("update task ended unexpectedly"@, now)),
    }
}

/// The status line after an update that runs in the background was looked at,
/// and whether it changed.
pub fn apply_progress(
    found: TryRecv<Result<(), String>>,
    status: Option<UpdateStatus>,
    now: Instant,
) -> (res: (Option<UpdateStatus>, bool))
    ensures
        status_view(res.0) == status_after(found, status_view(status), now),
        res.1 == !(found is Empty),
        found is Empty ==> res.0 == status,
{
    match found {
        TryRecv::Value(result) => (Some(ended_status(result, now)), true),
        TryRecv::Empty => (status, false),
        TryRecv::Closed => (
            Some(UpdateStatus::transient("update task ended unexpectedly".to_owned(), now)),
            true,
        ),
    }
}

/// Looks whether an update that runs in the background has ended: the status
/// line, the receiver if it goes on, and whether the line changed.
///
/// What has come rests with the update; for each thing that may come, the result
/// is what `status_after` says of it.
pub fn poll_progress(
    rx: Option<Receiver<Result<(), String>>>,
    status: Option<UpdateStatus>,
    now: Instant,
) -> (res: (Option<UpdateStatus>, Option<Receiver<Result<(), String>>>, bool))
    ensures
        rx is None ==> res.0 == status && res.1 is None && !res.2,
        rx is Some ==> exists|found: TryRecv<Result<(), String>>|
            {
                &&& status_view(res.0) == #[trigger] status_after(found, status_view(status), now)
                &&& res.1 == if found is Empty {
                    rx
                } else {
                    None
                }
                &&& res.2 == !(found is Empty)
                &&& found is Empty ==> res.0 == status
            },
{
    match rx {
        Some(rx) => {
            let mut rx = rx;
            let found = try_recv(&mut rx);
            let ghost g = found;
            let open = match &found {
                TryRecv::Empty => true,
                _ => false,
            };
            let (line, changed) = apply_progress(found, status, now);
            assert(status_view(line) == status_after(g, status_view(status), now));
            if open {
                (line, Some(rx), changed)
            } else {
                (line, None, changed)
            }
        },
        None => (status, None, false),
    }
}

/// Only a search that found a version which can be had brings an update; then
/// that is what is known, and otherwise what was known stays.
pub proof fn law_only_a_find_is_news(
    found: TryRecv<UpdateCheck>,
    info: UpdateInfo,
    why: String,
    known: Option<UpdateInfo>,
)
    ensures
        info.available ==> brings_update(TryRecv::Value(Ok(info))) && info_after(
            TryRecv::Value(Ok(info)),
            known,
        ) == Some(info),
        !info.available ==> !brings_update(TryRecv::Value(Ok(info))) && info_after(
            TryRecv::Value(Ok(info)),
            known,
        ) == known,
        !brings_update(TryRecv::Value(Err(why))),
        info_after(TryRecv::Value(Err(why)), known) == known,
        found is Empty || found is Closed ==> !brings_update(found) && info_after(found, known)
            == known,
{
}

/// An update that the install method says it cannot bring is not offered; one
/// that it can bring, or that it could not be asked about, is. Nothing else of
/// what was found changes, and a failed search stays one.
pub proof fn law_unavailable_update_is_not_offered(
    info: UpdateInfo,
    why: String,
    actionable: Option<bool>,
)
    ensures
        gated(Ok(info), Some(false)) == Ok::<UpdateInfo, String>(
            (UpdateInfo { available: false, ..info }),
        ),
        gated(Ok(info), Some(true)) == Ok::<UpdateInfo, String>(info),
        gated(Ok(info), None) == Ok::<UpdateInfo, String>(info),
        gated(Err(why), actionable) == Err::<UpdateInfo, String>(why),
{
}

/// An update runs in the background unless it may ask for a password: Homebrew
/// does, and a program whose directory may not be written needs one.
pub proof fn law_update_suspends_where_it_may_ask(method: InstallMethod, parent_writable: bool)
    ensures
        method is Homebrew ==> mode_of(method, parent_writable) == UpdateMode::Suspend,
        method is Tarball ==> (mode_of(method, parent_writable) == UpdateMode::Background
            <==> parent_writable),
        method is Tarball && !parent_writable ==> mode_of(method, parent_writable)
            == UpdateMode::Suspend,
        method is Other ==> mode_of(method, parent_writable) == UpdateMode::Background,
{
}

/// The line for an update that is complete stays; the line for one that failed
/// says why and goes away after ten seconds, as does that for one that was lost.
/// While the update runs, the line stays what it is.
pub proof fn law_end_of_update_is_told(
    result: Result<(), String>,
    status: Option<StatusView>,
    now: Instant,
)
    ensures
        status_after(TryRecv::Empty, status, now) == status,
        status_after(TryRecv::Value(result), status, now) == Some(update_ended(result, now)),
        status_after(TryRecv::Closed, status, now) is Some,
        status_after(TryRecv::Closed, status, now)->0.text == "update task ended unexpectedly"@,
        status_after(TryRecv::Closed, status, now)->0.expires_at is Some,
        status_after(TryRecv::Closed, status, now)->0.expires_at->0 == now.nanos + 10_000_000_000,
        result is Ok ==> update_ended(result, now).expires_at is None && update_ended(
            result,
            now,
        ).text == "update complete. Restart aoe to use the new version."@,
        result matches Err(why) ==> {
            &&& update_ended(result, now).text == "update failed: "@ + why@
            &&& update_ended(result, now).expires_at is Some
            &&& update_ended(result, now).expires_at->0 == now.nanos + 10_000_000_000
        },
{
}

/// A passing line is shown for ten seconds, to the nanosecond, and then no
/// longer; a lasting one is never taken away.
pub proof fn law_passing_line_lasts_ten_seconds(text: Seq<char>, shown: Instant, now: Instant)
    ensures
        passing(text, shown).text == text,
        lasting(text).text == text,
        passing(text, shown).expired(now) <==> now.nanos >= shown.nanos + 10_000_000_000,
        !lasting(text).expired(now),
{
}

/// A status line is known by its text and by when it goes away.
pub proof fn law_status_line_is_known_by_its_text(status: UpdateStatus)
    ensures
        status_view(None) is None,
        status_view(Some(status)) is Some,
        status_view(Some(status))->0.text == status.text@,
        status_view(Some(status))->0.expires_at == status.expires_at,
{
}

} // verus!
