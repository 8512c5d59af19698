//! Where the credential lives, and the care its file needs.
//!
//! **Not in a config file.** Every mechanism a robot's configuration has is wrong for a secret:
//! something prints what a robot has changed, something else shows the whole file in an editor,
//! and "what was configured on this robot" is a report somebody generates. A bearer token would
//! be in all three.
//!
//! Nothing here touches a disk. What was read is handed in as [`Contents`]; writing is a
//! conversation in which [`Saving`] says what to do next and is told how it went.

use crate::error::{Error, ErrorView};
use crate::oauth::{TokenResponse, TokenView};
use crate::status::{Identity, IdentityView};
use crate::text::{copy_opt, has_nul, join2, opt_view, result_view, same, same_opt};
use crate::time::now_secs;
use vstd::prelude::*;
use vstd::string::*;

verus! {

// ── the record ───────────────────────────────────────────────────────────────

/// What is on disk.
///
/// The shape mirrors what the token endpoint returns, plus the two things it does not: an
/// absolute expiry (the response gives a duration, and a duration is meaningless after a reboot)
/// and the username, so a status call answers without a network round trip.
#[derive(Debug, PartialEq, Eq)]
pub struct Stored {
    /// The bearer token. **This key at this level is what other processes read.**
    pub access_token: String,
    /// Absent when Hugging Face issues none, which makes the token unrenewable rather than broken.
    pub refresh_token: Option<String>,
    /// Unix seconds. Absent means "the server did not say", which is treated as not expiring.
    pub expires_at: Option<i64>,
    /// As `/oauth/userinfo` reported it at login.
    pub username: Option<String>,
}

/// A [`Stored`] record, with its texts as sequences of characters.
pub struct StoredView {
    pub access_token: Seq<char>,
    pub refresh_token: Option<Seq<char>>,
    pub expires_at: Option<i64>,
    pub username: Option<Seq<char>>,
}

impl View for Stored {
    type V = StoredView;

    open spec fn view(&self) -> StoredView {
        StoredView {
            access_token: self.access_token@,
            refresh_token: opt_view(self.refresh_token),
            expires_at: self.expires_at,
            username: opt_view(self.username),
        }
    }
}

/// The difference of two points in time, held to the range it is reported in.
pub open spec fn saturating_diff(a: i64, b: i64) -> i64 {
    if a - b > i64::MAX {
        i64::MAX
    } else if a - b < i64::MIN {
        i64::MIN
    } else {
        (a - b) as i64
    }
}

/// When a token that lasts `expires_in` seconds from `now` expires, or the last point in time a
/// record can hold where that comes first.
pub open spec fn expiry(expires_in: Option<u64>, now: i64) -> Option<i64> {
    match expires_in {
        Some(secs) => Some(
            if now + secs > i64::MAX {
                i64::MAX
            } else {
                (now + secs) as i64
            },
        ),
        None => None,
    }
}

impl StoredView {
    /// Seconds until the access token expires, seen from `now`. Seen from a clock that has not been
    /// set, which shows nothing after the epoch, every expiry has passed.
    pub open spec fn expires_in(self, now: i64) -> i64 {
        match self.expires_at {
            None => i64::MAX,
            Some(at) => if now <= 0 && saturating_diff(at, now) >= 0 {
                -1i64
            } else {
                saturating_diff(at, now)
            },
        }
    }

    /// What a caller is told about this credential, seen from `now`.
    pub open spec fn identity(self, now: i64) -> IdentityView {
        IdentityView {
            username: match self.username {
                Some(name) => name,
                None => "unknown"@,
            },
            token_expires_in: self.expires_in(now),
            refreshable: self.refresh_token is Some,
        }
    }

    /// The record of a token issued at `now`.
    pub open spec fn of(token: TokenView, now: i64, username: Option<Seq<char>>) -> StoredView {
        StoredView {
            access_token: token.access_token,
            refresh_token: token.refresh_token,
            expires_at: expiry(token.expires_in, now),
            username,
        }
    }
}

impl Clone for Stored {
    fn clone(&self) -> (r: Stored)
        ensures
            r == *self,
    {
        Stored {
            access_token: self.access_token.clone(),
            refresh_token: copy_opt(&self.refresh_token),
            expires_at: self.expires_at,
            username: copy_opt(&self.username),
        }
    }
}

impl Stored {
    /// The record of a token issued at `now`.
    pub fn of(token: TokenResponse, now: i64, username: Option<String>) -> (r: Stored)
        ensures
            r@ == StoredView::of(token@, now, opt_view(username)),
    {
        Stored {
            access_token: token.access_token,
            refresh_token: token.refresh_token,
            expires_at: match token.expires_in {
                Some(secs) => {
                    let at: i128 = now as i128 + secs as i128;
                    Some(
                        if at > i64::MAX as i128 {
                            i64::MAX
                        } else {
                            at as i64
                        },
                    )
                },
                None => None,
            },
            username,
        }
    }

    /// Whether this is the same record, field for field.
    pub fn same(&self, other: &Stored) -> (r: bool)
        ensures
            r == (self@ == other@),
    {
        self.access_token == other.access_token && same_opt(
            &self.refresh_token,
            &other.refresh_token,
        ) && same_opt(&self.username, &other.username) && match (self.expires_at, other.expires_at) {
            (Some(a), Some(b)) => a == b,
            (None, None) => true,
            _ => false,
        }
    }

    /// Seconds until the access token expires, seen from `now`; negative once it has, and on a
    /// clock that has not been set. [`i64::MAX`] when the server named no expiry.
    pub fn expires_in_at(&self, now: i64) -> (r: i64)
        ensures
            r == self@.expires_in(now),
    {
        match self.expires_at {
            None => i64::MAX,
            Some(at) => {
                let left: i128 = at as i128 - now as i128;
                if now <= 0 && left >= 0 {
                    -1
                } else if left > i64::MAX as i128 {
                    i64::MAX
                } else if left < i64::MIN as i128 {
                    i64::MIN
                } else {
                    left as i64
                }
            },
        }
    }

    /// Seconds until the access token expires; negative once it has. [`i64::MAX`] when unknown.
    ///
    /// [`Stored::expires_in_at`], seen from what the clock shows, which is never before the epoch.
    pub fn expires_in(&self) -> (r: i64)
        ensures
            exists|now: i64| now >= 0 && r == #[trigger] self@.expires_in(now),
    {
        self.expires_in_at(now_secs())
    }

    /// What a caller is told about this credential, seen from `now`.
    pub fn identity_at(&self, now: i64) -> (r: Identity)
        ensures
            r@ == self@.identity(now),
    {
        Identity {
            username: match &self.username {
                Some(name) => name.clone(),
                None => "unknown".to_owned(),
            },
            token_expires_in: self.expires_in_at(now),
            refreshable: self.refresh_token.is_some(),
        }
    }

    /// What a caller is told about this credential.
    ///
    /// [`Stored::identity_at`], seen from what the clock shows, which is never before the epoch.
    pub fn identity(&self) -> (r: Identity)
        ensures
            exists|now: i64| now >= 0 && r@ == #[trigger] self@.identity(now),
    {
        self.identity_at(now_secs())
    }
}

// ── the file ─────────────────────────────────────────────────────────────────

/// The token file, and the three operations anything has on it.
///
/// **Configurable rather than abstract.** A path, an optional group and a mode cover the
/// differences between boards that actually exist: a different filesystem layout, a robot with no
/// group to share the token with, a stricter mode.
#[derive(Debug, PartialEq, Eq)]
pub struct FileStore {
    path: String,
    group: Option<String>,
    mode: u32,
}

/// A [`FileStore`], with its texts as sequences of characters.
pub struct FileStoreView {
    /// Where the credential is, as it is shown.
    pub path: Seq<char>,
    /// The group that may read it besides its owner.
    pub group: Option<Seq<char>>,
    /// The mode the file ends up with.
    pub mode: u32,
}

impl View for FileStore {
    type V = FileStoreView;

    closed spec fn view(&self) -> FileStoreView {
        FileStoreView { path: self.path@, group: opt_view(self.group), mode: self.mode }
    }
}

impl Clone for FileStore {
    fn clone(&self) -> (r: FileStore)
        ensures
            r == *self,
    {
        FileStore { path: self.path.clone(), group: copy_opt(&self.group), mode: self.mode }
    }
}

/// What was found where the credential should be. `T` is what the file says.
#[derive(Debug, PartialEq, Eq)]
pub enum Contents<T> {
    /// No file, or none that can be read.
    Missing,
    /// A file that does not parse, and why.
    Unparsed(String),
    /// A record.
    Record(T),
}

impl<T: View> Contents<T> {
    /// The record, where there is one. Why a file does not parse is for a log alone, and no result
    /// depends on it.
    pub open spec fn record(self) -> Option<T::V> {
        match self {
            Contents::Record(record) => Some(record@),
            _ => None,
        }
    }
}

/// How removing the file went.
#[derive(Debug, PartialEq, Eq)]
pub enum Removed {
    /// It is gone.
    Gone,
    /// There was none.
    NotFound,
    /// It is still there, and why.
    Failed(String),
}

impl FileStore {
    /// A credential at `path`, readable only by the user that writes it.
    ///
    /// `path` is the path as it is shown to a person.
    pub fn at(path: String) -> (r: FileStore)
        ensures
            r@ == (FileStoreView { path: path@, group: None, mode: 0o600 }),
    {
        FileStore { path, group: None, mode: 0o600 }
    }

    /// Let one more group read it, by **name**.
    ///
    /// By name because `systemd-sysusers` and its equivalents allocate dynamically: a number
    /// written down is right on one board and wrong on the next. This also relaxes the mode to
    /// `0640`, since group ownership without the group-read bit gives nobody anything — call
    /// [`Self::mode`] afterwards for the unusual case where that is what you meant.
    pub fn readable_by_group(self, group: String) -> (r: FileStore)
        ensures
            r@ == (FileStoreView { group: Some(group@), mode: 0o640, ..self@ }),
    {
        FileStore { path: self.path, group: Some(group), mode: 0o640 }
    }

    /// Override the mode the file ends up with.
    pub fn mode(self, mode: u32) -> (r: FileStore)
        ensures
            r@ == (FileStoreView { mode, ..self@ }),
    {
        FileStore { path: self.path, group: self.group, mode }
    }

    /// Where the credential is.
    pub fn path(&self) -> (r: &String)
        ensures
            r@ == self@.path,
    {
        &self.path
    }

    /// What is stored, or `None` when the robot belongs to nobody.
    ///
    /// A file that will not parse is `None` rather than an error: the recovery for a corrupt
    /// credential is signing in again, and a daemon that refuses to start — or a status call that
    /// fails — because of one would make that harder rather than safer.
    pub fn load(&self, contents: Contents<Stored>) -> (r: Option<Stored>)
        ensures
            opt_view(r) == contents.record(),
    {
        match contents {
            Contents::Record(stored) => Some(stored),
            _ => None,
        }
    }

    /// Whether what is stored is this very record, so that whoever wrote it may take it back
    /// without taking back what somebody else wrote since.
    pub fn still_holds(&self, contents: Contents<Stored>, record: &Stored) -> (r: bool)
        ensures
            r == (contents.record() == Some(record@)),
    {
        match self.load(contents) {
            Some(stored) => stored.same(record),
            None => false,
        }
    }

    /// Forget the credential. Returns who it belonged to, if anyone.
    ///
    /// `contents` is what was there before the file was removed. Clearing nothing is not an
    /// error: signing out twice is not a failure.
    pub fn clear(&self, contents: Contents<Stored>, removed: Removed) -> (r: Result<
        Option<String>,
        Error,
    >)
        ensures
            match removed {
                Removed::Gone => r is Ok && opt_view(r->Ok_0) == (match contents.record() {
                    Some(stored) => stored.username,
                    None => None,
                }),
                Removed::NotFound => r == Ok::<Option<String>, Error>(None),
                Removed::Failed(why) => r is Err && r->Err_0@ == (ErrorView::Io {
                    path: self@.path,
                    source: why@,
                }),
            },
    {
        let was = match self.load(contents) {
            Some(stored) => stored.username,
            None => None,
        };
        match removed {
            Removed::Gone => Ok(was),
            Removed::NotFound => Ok(None),
            Removed::Failed(why) => Err(Error::Io { path: self.path.clone(), source: why }),
        }
    }
}

/// The one field that a process which is not the writer reads.
#[derive(Debug, PartialEq, Eq)]
pub struct Credential {
    pub access_token: String,
}

impl View for Credential {
    type V = Seq<char>;

    open spec fn view(&self) -> Seq<char> {
        self.access_token@
    }
}

/// The token that a reader of a credential gets: the one that is there, unless it is empty.
pub open spec fn usable(token: Option<Seq<char>>) -> Option<Seq<char>> {
    match token {
        Some(token) => if token.len() == 0 {
            None
        } else {
            Some(token)
        },
        None => None,
    }
}

/// The access token out of a credential file, or `None` when the robot belongs to nobody.
///
/// **The reading half, for a process that is not the one that writes.** Deliberately the smallest
/// possible reader: one field, so a record that grows another does not break the parse.
pub fn read_access_token(contents: Contents<Credential>) -> (r: Option<String>)
    ensures
        opt_view(r) == usable(contents.record()),
{
    match contents {
        Contents::Record(credential) => if credential.access_token.as_str().is_empty() {
            None
        } else {
            Some(credential.access_token)
        },
        _ => None,
    }
}

// ── writing a file that is never briefly readable ────────────────────────────

/// A path with another extension. What `std::path::Path::with_extension` gives on Unix, the one
/// kind of system whose file modes are spoken of here.
pub uninterp spec fn path_with_extension(path: Seq<char>, extension: Seq<char>) -> Seq<char>;

/// A path without its last component, if it has one. What `std::path::Path::parent` gives on
/// Unix.
pub uninterp spec fn path_parent(path: Seq<char>) -> Option<Seq<char>>;

/// `std::path::Path::with_extension`: [`path_with_extension`] names what it gives, which depends
/// on the two texts alone. An extension with a path separator in it, which it panics on, is left
/// out.
#[verifier::external_body]
fn with_extension(path: &str, extension: &str) -> (r: String)
    requires
        !extension@.contains('/'),
    ensures
        r@ == path_with_extension(path@, extension@),
{
    std::path::Path::new(path).with_extension(extension).to_string_lossy().into_owned()
}

/// `std::path::Path::parent`: [`path_parent`] names what it gives, which depends on the text
/// alone.
#[verifier::external_body]
fn parent(path: &str) -> (r: Option<String>)
    ensures
        opt_view(r) == path_parent(path@),
{
    std::path::Path::new(path).parent().map(|dir| dir.to_string_lossy().into_owned())
}

/// The extension of the temporary file.
pub const TEMP_EXTENSION: &'static str = "tmp";

/// What the temporary file's name has behind the credential's, where that has the extension
/// already.
pub const TEMP_SUFFIX: &'static str = ".tmp";

/// How the temporary file's name comes of the credential's. The two always differ.
#[derive(Debug, Clone, Copy, PartialEq, Eq, Structural)]
pub enum Temp {
    /// With the extension [`TEMP_EXTENSION`] in place of its own.
    Extension,
    /// With [`TEMP_SUFFIX`] behind it.
    Suffix,
}

/// The directory whose entry a rename changes.
#[derive(Debug, Clone, Copy, PartialEq, Eq, Structural)]
pub enum Directory {
    /// The one the process is in, for a path that is a bare filename.
    Working,
    /// The one the path names.
    Parent,
}

/// One thing to do to the disk while a credential is saved.
///
/// The temporary file is in the same directory; [`FileStore::temp`] says what it is called.
#[derive(Debug, PartialEq, Eq)]
pub enum SaveAction {
    /// Remove a temporary file that somebody left there. That there is none is as good.
    RemoveTemp,
    /// Create the temporary file with this mode, and open it for writing. One that is there is a
    /// failure: its rights would be kept.
    Create(u32),
    /// Write all of [`Saving::bytes`] to it.
    Write,
    /// Flush it to the disk.
    SyncFile,
    /// Rename it over the credential.
    Rename,
    /// Open the directory the credential is in.
    OpenDir(Directory),
    /// Flush that directory, so the rename survives a power cut and not only a crash.
    SyncDir,
    /// Look a group up by name.
    FindGroup(String),
    /// Give the credential to a group, leaving its owner alone.
    GiveGroup(u32),
    /// Set the credential's mode.
    SetMode(u32),
    /// Nothing more. A complaint comes with a credential that was saved, and stayed private to
    /// its owner although a group was named.
    Finish(Result<Option<String>, Error>),
}

/// A [`SaveAction`], with its texts as sequences of characters.
pub enum SaveActionView {
    RemoveTemp,
    Create(u32),
    Write,
    SyncFile,
    Rename,
    OpenDir(Directory),
    SyncDir,
    FindGroup(Seq<char>),
    GiveGroup(u32),
    SetMode(u32),
    Finish(Result<Option<Seq<char>>, ErrorView>),
}

impl View for SaveAction {
    type V = SaveActionView;

    open spec fn view(&self) -> SaveActionView {
        match self {
            SaveAction::RemoveTemp => SaveActionView::RemoveTemp,
            SaveAction::Create(mode) => SaveActionView::Create(*mode),
            SaveAction::Write => SaveActionView::Write,
            SaveAction::SyncFile => SaveActionView::SyncFile,
            SaveAction::Rename => SaveActionView::Rename,
            SaveAction::OpenDir(dir) => SaveActionView::OpenDir(*dir),
            SaveAction::SyncDir => SaveActionView::SyncDir,
            SaveAction::FindGroup(name) => SaveActionView::FindGroup(name@),
            SaveAction::GiveGroup(gid) => SaveActionView::GiveGroup(*gid),
            SaveAction::SetMode(mode) => SaveActionView::SetMode(*mode),
            SaveAction::Finish(Ok(complaint)) => SaveActionView::Finish(Ok(opt_view(*complaint))),
            SaveAction::Finish(Err(e)) => SaveActionView::Finish(Err(e@)),
        }
    }
}

/// How a [`SaveAction`] went.
#[derive(Debug, PartialEq, Eq)]
pub enum SaveEvent {
    /// It was done.
    Done,
    /// It could not be done, and why.
    Failed(String),
    /// The group that was looked up, or that there is none of that name.
    Group(Option<u32>),
}

/// A [`SaveEvent`], with its text as a sequence of characters.
pub enum SaveEventView {
    Done,
    Failed(Seq<char>),
    Group(Option<u32>),
}

impl View for SaveEvent {
    type V = SaveEventView;

    open spec fn view(&self) -> SaveEventView {
        match self {
            SaveEvent::Done => SaveEventView::Done,
            SaveEvent::Failed(why) => SaveEventView::Failed(why@),
            SaveEvent::Group(gid) => SaveEventView::Group(*gid),
        }
    }
}

/// How far a credential's way to the disk has come: which action it waits to hear of.
#[derive(Debug, Clone, Copy, PartialEq, Eq, Structural)]
pub enum SavePhase {
    RemovingTemp,
    Creating,
    Writing,
    SyncingFile,
    Renaming,
    OpeningDir,
    SyncingDir,
    FindingGroup,
    GivingGroup,
    SettingMode,
    Finished,
}

/// A credential on its way to the disk.
#[derive(Debug, PartialEq, Eq)]
pub struct Saving {
    store: FileStore,
    bytes: Vec<u8>,
    phase: SavePhase,
}

/// A [`Saving`], with its texts as sequences of characters.
pub struct SavingView {
    pub store: FileStoreView,
    pub bytes: Seq<u8>,
    pub phase: SavePhase,
}

impl View for Saving {
    type V = SavingView;

    closed spec fn view(&self) -> SavingView {
        SavingView { store: self.store@, bytes: self.bytes@, phase: self.phase }
    }
}

impl FileStoreView {
    /// How the temporary file's name comes of the credential's.
    pub open spec fn temp_kind(self) -> Temp {
        if path_with_extension(self.path, TEMP_EXTENSION@) == self.path {
            Temp::Suffix
        } else {
            Temp::Extension
        }
    }

    /// The temporary file, as it is shown.
    pub open spec fn temp(self) -> Seq<char> {
        match self.temp_kind() {
            Temp::Extension => path_with_extension(self.path, TEMP_EXTENSION@),
            Temp::Suffix => self.path + TEMP_SUFFIX@,
        }
    }

    /// The directory the credential is in, as it is shown.
    pub open spec fn dir(self) -> Seq<char> {
        match path_parent(self.path) {
            Some(dir) => if dir.len() == 0 {
                "."@
            } else {
                dir
            },
            None => seq![],
        }
    }

    /// What follows the flush of the directory: the mode at once where no group is named, the
    /// group first where one is. A name with a NUL in it is no group's.
    pub open spec fn then_share(self) -> (SavePhase, SaveActionView) {
        match self.group {
            None => (SavePhase::SettingMode, SaveActionView::SetMode(self.mode)),
            Some(name) => if name.contains('\0') {
                (
                    SavePhase::Finished,
                    SaveActionView::Finish(Ok(Some("no such group on this system"@))),
                )
            } else {
                (SavePhase::FindingGroup, SaveActionView::FindGroup(name))
            },
        }
    }

    /// What follows the rename: the flush of the directory, where the path has one.
    pub open spec fn then_flush(self) -> (SavePhase, SaveActionView) {
        match path_parent(self.path) {
            None => self.then_share(),
            Some(dir) => (
                SavePhase::OpeningDir,
                SaveActionView::OpenDir(
                    if dir.len() == 0 {
                        Directory::Working
                    } else {
                        Directory::Parent
                    },
                ),
            ),
        }
    }

    /// What follows looking the group up. A path with a NUL in it can be given to nobody.
    pub open spec fn then_give(self, gid: Option<u32>) -> (SavePhase, SaveActionView) {
        match gid {
            None => (
                SavePhase::Finished,
                SaveActionView::Finish(Ok(Some("no such group on this system"@))),
            ),
            Some(gid) => if self.path.contains('\0') {
                (
                    SavePhase::Finished,
                    SaveActionView::Finish(
                        Ok(Some("this process may not give a file to that group"@)),
                    ),
                )
            } else {
                (SavePhase::GivingGroup, SaveActionView::GiveGroup(gid))
            },
        }
    }

    /// Giving up on a file.
    pub open spec fn fail(self, path: Seq<char>, source: Seq<char>) -> (SavePhase, SaveActionView) {
        (SavePhase::Finished, SaveActionView::Finish(Err(ErrorView::Io { path, source })))
    }

    /// What follows a step that was done.
    pub open spec fn done(self, phase: SavePhase) -> (SavePhase, SaveActionView) {
        match phase {
            SavePhase::RemovingTemp => (SavePhase::Creating, SaveActionView::Create(0o600)),
            SavePhase::Creating => (SavePhase::Writing, SaveActionView::Write),
            SavePhase::Writing => (SavePhase::SyncingFile, SaveActionView::SyncFile),
            SavePhase::SyncingFile => (SavePhase::Renaming, SaveActionView::Rename),
            SavePhase::Renaming => self.then_flush(),
            SavePhase::OpeningDir => (SavePhase::SyncingDir, SaveActionView::SyncDir),
            SavePhase::SyncingDir => self.then_share(),
            SavePhase::GivingGroup => (SavePhase::SettingMode, SaveActionView::SetMode(self.mode)),
            _ => (SavePhase::Finished, SaveActionView::Finish(Ok(None))),
        }
    }

    /// What follows a step that failed: the end, with the file it failed on — except for the
    /// group, which may never cost the token.
    pub open spec fn failed(self, phase: SavePhase, why: Seq<char>) -> (SavePhase, SaveActionView) {
        match phase {
            SavePhase::RemovingTemp | SavePhase::Creating | SavePhase::Writing
            | SavePhase::SyncingFile => self.fail(self.temp(), why),
            SavePhase::OpeningDir | SavePhase::SyncingDir => self.fail(self.dir(), why),
            SavePhase::GivingGroup => (
                SavePhase::Finished,
                SaveActionView::Finish(Ok(Some("this process may not give a file to that group"@))),
            ),
            _ => self.fail(self.path, why),
        }
    }

    /// How a save begins, with the credential as bytes or with why it could not be encoded.
    pub open spec fn begin(self, encoded: Result<Seq<u8>, Seq<char>>) -> (SavePhase, SaveActionView) {
        match encoded {
            Ok(_) => (SavePhase::RemovingTemp, SaveActionView::RemoveTemp),
            Err(why) => self.fail(self.path, why),
        }
    }
}

impl SavingView {
    /// Whether an event is one this phase can hear: how the action it waits for went.
    pub open spec fn accepts(self, event: SaveEventView) -> bool {
        match event {
            SaveEventView::Group(_) => self.phase == SavePhase::FindingGroup,
            _ => self.phase != SavePhase::FindingGroup && self.phase != SavePhase::Finished,
        }
    }

    /// What follows an event.
    pub open spec fn next(self, event: SaveEventView) -> (SavePhase, SaveActionView) {
        match event {
            SaveEventView::Done => self.store.done(self.phase),
            SaveEventView::Failed(why) => self.store.failed(self.phase, why),
            SaveEventView::Group(gid) => self.store.then_give(gid),
        }
    }

    /// The save after an event.
    pub open spec fn after(self, event: SaveEventView) -> SavingView {
        SavingView { phase: self.next(event).0, ..self }
    }
}

impl FileStore {
    /// How the temporary file's name comes of the credential's.
    pub fn temp_kind(&self) -> (r: Temp)
        ensures
            r == self@.temp_kind(),
    {
        proof {
            reveal_strlit("tmp");
        }
        if same(&with_extension(self.path.as_str(), TEMP_EXTENSION), self.path.as_str()) {
            Temp::Suffix
        } else {
            Temp::Extension
        }
    }

    /// The temporary file through which the credential is replaced, as it is shown. Never the
    /// credential itself.
    pub fn temp(&self) -> (r: String)
        ensures
            r@ == self@.temp(),
            r@ != self@.path,
    {
        proof {
            reveal_strlit("tmp");
            reveal_strlit(".tmp");
        }
        let temp = match self.temp_kind() {
            Temp::Extension => with_extension(self.path.as_str(), TEMP_EXTENSION),
            Temp::Suffix => join2(self.path.as_str(), TEMP_SUFFIX),
        };
        assert(self@.path.len() < (self@.path + TEMP_SUFFIX@).len());
        temp
    }

    /// Replace the credential, atomically, readable only by its owner and the named group.
    ///
    /// `encoded` is the record as bytes, or why it could not be encoded. The answer is a save
    /// under way and the first thing to do; [`Saving::step`] says what follows.
    ///
    /// **The one window this cannot close.** Hugging Face rotates the refresh token on every
    /// refresh, so between "the server issued a new pair" and "the new pair is on disk" the old
    /// refresh token is already dead. A power cut in that window leaves a robot holding a
    /// credential Hugging Face will not renew. It surfaces as a refresh failure in
    /// [`Status::last_error`](crate::Status::last_error) and is fixed by signing in again.
    pub fn save(&self, encoded: Result<Vec<u8>, String>) -> (r: (Saving, SaveAction))
        ensures
            r.0@.store == self@,
            r.0@.bytes == (match encoded {
                Ok(bytes) => bytes@,
                Err(_) => seq![],
            }),
            (r.0@.phase, r.1@) == self@.begin(result_view(encoded)),
    {
        let store = self.clone();
        match encoded {
            Ok(bytes) => (
                Saving { store, bytes, phase: SavePhase::RemovingTemp },
                SaveAction::RemoveTemp,
            ),
            Err(why) => {
                let e = Error::Io { path: self.path.clone(), source: why };
                (
                    Saving { store, bytes: Vec::new(), phase: SavePhase::Finished },
                    SaveAction::Finish(Err(e)),
                )
            },
        }
    }
}

impl Saving {
    /// What [`SaveAction::Write`] writes.
    pub fn bytes(&self) -> (r: &Vec<u8>)
        ensures
            r@ == self@.bytes,
    {
        &self.bytes
    }

    /// Whether an event is one that is waited for.
    pub fn accepts(&self, event: &SaveEvent) -> (r: bool)
        ensures
            r == self@.accepts(event@),
    {
        match event {
            SaveEvent::Group(_) => self.phase == SavePhase::FindingGroup,
            _ => self.phase != SavePhase::FindingGroup && self.phase != SavePhase::Finished,
        }
    }

    fn share(&self) -> (r: (SavePhase, SaveAction))
        ensures
            (r.0, r.1@) == self@.store.then_share(),
    {
        match &self.store.group {
            None => (SavePhase::SettingMode, SaveAction::SetMode(self.store.mode)),
            Some(name) => if has_nul(name.as_str()) {
                (
                    SavePhase::Finished,
                    SaveAction::Finish(Ok(Some("no such group on this system".to_owned()))),
                )
            } else {
                (SavePhase::FindingGroup, SaveAction::FindGroup(name.clone()))
            },
        }
    }

    fn flush(&self) -> (r: (SavePhase, SaveAction))
        ensures
            (r.0, r.1@) == self@.store.then_flush(),
    {
        match parent(self.store.path.as_str()) {
            None => self.share(),
            Some(dir) => if dir.as_str().is_empty() {
                (SavePhase::OpeningDir, SaveAction::OpenDir(Directory::Working))
            } else {
                (SavePhase::OpeningDir, SaveAction::OpenDir(Directory::Parent))
            },
        }
    }

    fn dir(&self) -> (r: String)
        ensures
            r@ == self@.store.dir(),
    {
        match parent(self.store.path.as_str()) {
            Some(dir) => if dir.as_str().is_empty() {
                ".".to_owned()
            } else {
                dir
            },
            None => String::new(),
        }
    }

    fn done(&self) -> (r: (SavePhase, SaveAction))
        ensures
            (r.0, r.1@) == self@.store.done(self@.phase),
    {
        match self.phase {
            SavePhase::RemovingTemp => (SavePhase::Creating, SaveAction::Create(0o600)),
            SavePhase::Creating => (SavePhase::Writing, SaveAction::Write),
            SavePhase::Writing => (SavePhase::SyncingFile, SaveAction::SyncFile),
            SavePhase::SyncingFile => (SavePhase::Renaming, SaveAction::Rename),
            SavePhase::Renaming => self.flush(),
            SavePhase::OpeningDir => (SavePhase::SyncingDir, SaveAction::SyncDir),
            SavePhase::SyncingDir => self.share(),
            SavePhase::GivingGroup => (
                SavePhase::SettingMode,
                SaveAction::SetMode(self.store.mode),
            ),
            _ => (SavePhase::Finished, SaveAction::Finish(Ok(None))),
        }
    }

    fn failed(&self, why: String) -> (r: (SavePhase, SaveAction))
        ensures
            (r.0, r.1@) == self@.store.failed(self@.phase, why@),
    {
        let path = match self.phase {
            SavePhase::RemovingTemp | SavePhase::Creating | SavePhase::Writing
            | SavePhase::SyncingFile => self.store.temp(),
            SavePhase::OpeningDir | SavePhase::SyncingDir => self.dir(),
            SavePhase::GivingGroup => {
                let complaint = "this process may not give a file to that group".to_owned();
                return (SavePhase::Finished, SaveAction::Finish(Ok(Some(complaint))));
            },
            _ => self.store.path.clone(),
        };
        let e = Error::Io { path, source: why };
        (SavePhase::Finished, SaveAction::Finish(Err(e)))
    }

    fn found(&self, gid: Option<u32>) -> (r: (SavePhase, SaveAction))
        ensures
            (r.0, r.1@) == self@.store.then_give(gid),
    {
        match gid {
            None => (
                SavePhase::Finished,
                SaveAction::Finish(Ok(Some("no such group on this system".to_owned()))),
            ),
            Some(gid) => if has_nul(self.store.path.as_str()) {
                let complaint = "this process may not give a file to that group".to_owned();
                (SavePhase::Finished, SaveAction::Finish(Ok(Some(complaint))))
            } else {
                (SavePhase::GivingGroup, SaveAction::GiveGroup(gid))
            },
        }
    }

    /// Hear how the last action went, and say what to do next.
    ///
    /// The file is created anew, private, and relaxed afterwards, so it is never group- or
    /// world-readable while it belongs to the writing user's default group. The mode is only
    /// relaxed **after** the group actually changed: relaxing it first — or anyway — would hand
    /// group-read to the writer's own default group, which is wider than what was asked for.
    ///
    /// **Neither of the two ways the group can fail may fail the save.** By the time a token is
    /// being written somebody has approved a code on their phone. A half-provisioned board has no
    /// such group; an unprivileged writer cannot give a file to a group it is not in. Both leave
    /// the token private to its owner and say so once.
    pub fn step(&mut self, event: SaveEvent) -> (r: SaveAction)
        requires
            old(self)@.accepts(event@),
        ensures
            final(self)@ == old(self)@.after(event@),
            r@ == old(self)@.next(event@).1,
    {
        let next = match event {
            SaveEvent::Done => self.done(),
            SaveEvent::Failed(why) => self.failed(why),
            SaveEvent::Group(gid) => self.found(gid),
        };
        self.phase = next.0;
        next.1
    }
}

} // verus!
