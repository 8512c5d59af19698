//! What a save does to a disk, step by step, whatever goes wrong on the way.
//!
//! A model: the two files a save touches, what has reached the disk of them, and what each
//! [`SaveAction`](crate::SaveAction) does when it is done and when it fails. The laws below speak
//! of every run of [`Saving::step`](crate::Saving::step) against it, and so of every instant at
//! which the power may go.

use crate::store::{path_parent, usable, FileStoreView, SaveActionView, SaveEventView, SavePhase, SavingView, StoredView, TEMP_SUFFIX};
use vstd::prelude::*;
use vstd::string::*;

verus! {

/// A file, as far as a save is concerned with it.
pub struct FileModel {
    pub bytes: Seq<u8>,
    /// The permission bits.
    pub mode: u32,
    /// The group it was given to, or `None` for the one that its writer's files get.
    pub group: Option<u32>,
    /// Whether its bytes have been flushed to the disk.
    pub flushed: bool,
}

/// The two files a save touches: the credential, and the temporary file beside it.
pub struct Disk {
    pub temp: Option<FileModel>,
    pub credential: Option<FileModel>,
    /// The file that the directory is known to name as the credential on the disk itself, where
    /// a rename gets when the directory is flushed.
    pub entry: Option<FileModel>,
}

impl FileModel {
    /// It gives none of these rights.
    pub open spec fn withholds(self, rights: u32) -> bool {
        self.mode & rights == 0
    }

    /// Nobody but the owner has any right to it.
    pub open spec fn is_private(self) -> bool {
        self.withholds(!0o600u32)
    }

    /// Users who are neither the owner nor in the group have no right to it.
    pub open spec fn closed_to_others(self) -> bool {
        self.withholds(0o007)
    }

    /// The group has no right to it.
    pub open spec fn closed_to_group(self) -> bool {
        self.withholds(0o070)
    }
}

impl Disk {
    /// The disk with another credential in place of the same file: a mode or a group that changed.
    pub open spec fn with_credential(self, file: FileModel) -> Disk {
        Disk {
            credential: Some(file),
            entry: if self.entry == self.credential {
                Some(file)
            } else {
                self.entry
            },
            ..self
        }
    }

    /// Whether nothing of the credential is only in memory.
    pub open spec fn is_settled(self) -> bool {
        &&& self.entry == self.credential
        &&& self.credential is Some ==> self.credential->0.flushed
    }
}

/// Whether doing `action`, with the outcome `event`, can take the disk from `before` to `after`.
///
/// A file is created with no more rights than asked for, and not where there is one. A write that
/// fails has written some part. A removal or a rename that fails, a mode or a group that cannot be
/// set, change nothing. What is written reaches the disk when it is flushed, and so does a rename.
pub open spec fn performs(
    saving: SavingView,
    action: SaveActionView,
    event: SaveEventView,
    before: Disk,
    after: Disk,
) -> bool {
    match action {
        SaveActionView::RemoveTemp => after == if event is Done {
            Disk { temp: None, ..before }
        } else {
            before
        },
        SaveActionView::Create(mode) => if event is Done {
            &&& before.temp is None
            &&& after.temp is Some
            &&& after == Disk { temp: after.temp, ..before }
            &&& after.temp->0.bytes == Seq::<u8>::empty()
            &&& after.temp->0.mode & !mode == 0
            &&& after.temp->0.group is None
        } else {
            after == before
        },
        SaveActionView::Write => match before.temp {
            Some(file) => {
                &&& after.temp is Some
                &&& after == Disk { temp: after.temp, ..before }
                &&& after.temp->0.mode == file.mode
                &&& after.temp->0.group == file.group
                &&& event is Done ==> after.temp->0.bytes == saving.bytes
                &&& !(event is Done) ==> after.temp->0.bytes.is_prefix_of(saving.bytes)
            },
            None => after == before,
        },
        SaveActionView::SyncFile => match before.temp {
            Some(file) if event is Done => after == Disk {
                temp: Some(FileModel { flushed: true, ..file }),
                ..before
            },
            _ => after == before,
        },
        SaveActionView::Rename => if event is Done && before.temp is Some {
            after == Disk { temp: None, credential: before.temp, ..before }
        } else {
            after == before
        },
        SaveActionView::SyncDir => if event is Done {
            after == Disk { entry: before.credential, ..before }
        } else {
            after == before
        },
        SaveActionView::GiveGroup(gid) => match before.credential {
            Some(file) if event is Done => after == before.with_credential(
                FileModel { group: Some(gid), ..file },
            ),
            _ => after == before,
        },
        SaveActionView::SetMode(mode) => match before.credential {
            Some(file) if event is Done => after == before.with_credential(
                FileModel { mode, ..file },
            ),
            _ => after == before,
        },
        _ => after == before,
    }
}

/// Whether a file can be found to hold `left` once the power was gone: its bytes, where they had
/// been flushed; anything, where they had not.
pub open spec fn file_survives(file: Option<FileModel>, left: Option<Seq<u8>>) -> bool {
    match file {
        Some(file) => left is Some && (file.flushed ==> left->0 == file.bytes),
        None => left is None,
    }
}

/// Whether the credential can be found to hold `left` once the power was gone. A rename whose
/// directory was not flushed may have reached the disk, or not.
pub open spec fn survives(disk: Disk, left: Option<Seq<u8>>) -> bool {
    file_survives(disk.entry, left) || file_survives(disk.credential, left)
}

/// The bytes of a file, where there is one.
pub open spec fn bytes_of(file: Option<FileModel>) -> Option<Seq<u8>> {
    match file {
        Some(file) => Some(file.bytes),
        None => None,
    }
}

/// A save at some instant: how far it has come, what it wants done, and the disk.
pub struct SavePoint {
    pub saving: SavingView,
    pub action: SaveActionView,
    pub disk: Disk,
}

/// The instant at which `store` begins to save `bytes` on a disk.
pub open spec fn save_start(store: FileStoreView, bytes: Seq<u8>, disk: Disk) -> SavePoint {
    let begun = store.begin(Ok(bytes));
    SavePoint { saving: SavingView { store, bytes, phase: begun.0 }, action: begun.1, disk }
}

/// Where a save has come to once its actions went as `steps` say, each with the disk it left.
pub open spec fn save_point(start: SavePoint, steps: Seq<(SaveEventView, Disk)>) -> SavePoint
    decreases steps.len(),
{
    if steps.len() == 0 {
        start
    } else {
        let point = save_point(start, steps.drop_last());
        let (event, disk) = steps.last();
        SavePoint { saving: point.saving.after(event), action: point.saving.next(event).1, disk }
    }
}

/// Whether `steps` can happen: each event is one that is waited for, and each disk one that the
/// action can leave.
pub open spec fn save_happens(start: SavePoint, steps: Seq<(SaveEventView, Disk)>) -> bool
    decreases steps.len(),
{
    steps.len() > 0 ==> {
        let point = save_point(start, steps.drop_last());
        let (event, disk) = steps.last();
        &&& save_happens(start, steps.drop_last())
        &&& point.saving.accepts(event)
        &&& performs(point.saving, point.action, event, point.disk, disk)
    }
}

/// Whether a save has come to its end and succeeded.
pub open spec fn succeeded(point: SavePoint) -> bool {
    point.action matches SaveActionView::Finish(done) && done is Ok
}

/// Whether a save has come to its end and succeeded, with something to complain of.
pub open spec fn complains(point: SavePoint) -> bool {
    point.action matches SaveActionView::Finish(done) && done is Ok && done->Ok_0 is Some
}

/// Whether a group with this number was found when it was looked up.
pub open spec fn was_found(steps: Seq<(SaveEventView, Disk)>, gid: u32) -> bool {
    exists|k: int| 0 <= k < steps.len() && (#[trigger] steps[k]).0 == SaveEventView::Group(Some(gid))
}

/// Whether a credential was shared with the group that was asked for, if one was: it belongs to a
/// group that was found.
pub open spec fn given_away(
    store: FileStoreView,
    steps: Seq<(SaveEventView, Disk)>,
    file: FileModel,
) -> bool {
    store.group is Some ==> file.group is Some && was_found(steps, file.group->0)
}

/// Whether a disk holds the whole new credential, and nothing else of it.
pub open spec fn holds(disk: Disk, bytes: Seq<u8>) -> bool {
    &&& disk.credential is Some
    &&& disk.credential->0.bytes == bytes
    &&& disk.temp is None
}

/// Whether the temporary file is being filled.
spec fn filling(phase: SavePhase) -> bool {
    ||| phase == SavePhase::Writing
    ||| phase == SavePhase::SyncingFile
    ||| phase == SavePhase::Renaming
}

/// Whether the credential has been renamed into place and not yet shared.
spec fn in_place(phase: SavePhase) -> bool {
    ||| phase == SavePhase::OpeningDir
    ||| phase == SavePhase::SyncingDir
    ||| phase == SavePhase::FindingGroup
    ||| phase == SavePhase::GivingGroup
    ||| phase == SavePhase::SettingMode
}

/// Whether the directory has been flushed since.
spec fn is_flushed(phase: SavePhase) -> bool {
    ||| phase == SavePhase::FindingGroup
    ||| phase == SavePhase::GivingGroup
    ||| phase == SavePhase::SettingMode
}

/// Which action each phase waits to hear of.
spec fn action_inv(
    store: FileStoreView,
    steps: Seq<(SaveEventView, Disk)>,
    point: SavePoint,
) -> bool {
    let action = point.action;
    match point.saving.phase {
        SavePhase::RemovingTemp => action is RemoveTemp,
        SavePhase::Creating => action == SaveActionView::Create(0o600),
        SavePhase::Writing => action is Write,
        SavePhase::SyncingFile => action is SyncFile,
        SavePhase::Renaming => action is Rename,
        SavePhase::OpeningDir => action is OpenDir,
        SavePhase::SyncingDir => action is SyncDir,
        SavePhase::FindingGroup => action is FindGroup && store.group is Some,
        SavePhase::GivingGroup => action is GiveGroup && store.group is Some && was_found(
            steps,
            action->GiveGroup_0,
        ),
        SavePhase::SettingMode => action == SaveActionView::SetMode(store.mode),
        SavePhase::Finished => action is Finish,
    }
}

/// What is so at every instant of a save.
spec fn save_inv(
    store: FileStoreView,
    bytes: Seq<u8>,
    first: Disk,
    steps: Seq<(SaveEventView, Disk)>,
    point: SavePoint,
) -> bool {
    let phase = point.saving.phase;
    let action = point.action;
    let disk = point.disk;
    &&& point.saving.store == store
    &&& point.saving.bytes == bytes
    &&& action_inv(store, steps, point)
    &&& phase == SavePhase::RemovingTemp ==> disk == first
    &&& phase == SavePhase::Creating ==> disk == Disk { temp: None, ..first }
    &&& filling(phase) ==> disk == Disk { temp: disk.temp, ..first } && disk.temp is Some
    &&& (phase == SavePhase::SyncingFile || phase == SavePhase::Renaming) ==> disk.temp->0.bytes
        == bytes
    &&& phase == SavePhase::Renaming ==> disk.temp->0.flushed
    &&& in_place(phase) ==> holds(disk, bytes) && disk.credential->0.flushed
    &&& phase == SavePhase::SettingMode ==> given_away(store, steps, disk.credential->0)
    &&& (phase == SavePhase::OpeningDir || phase == SavePhase::SyncingDir) ==> disk.entry
        == first.entry
    &&& (is_flushed(phase) && path_parent(store.path) is Some) ==> disk.entry == disk.credential
    &&& (is_flushed(phase) && path_parent(store.path) is None) ==> disk.entry == first.entry
        || disk.entry == disk.credential
    &&& phase == SavePhase::Finished ==> {
        ||| disk.credential == first.credential && disk.entry == first.entry && !succeeded(point)
        ||| {
            &&& holds(disk, bytes)
            &&& disk.credential->0.flushed
            &&& disk.entry == first.entry || disk.entry == disk.credential
            &&& (succeeded(point) && path_parent(store.path) is Some) ==> disk.entry
                == disk.credential
        }
    }
    &&& action == SaveActionView::Finish(Ok(None)) ==> {
        &&& disk.credential->0.mode == store.mode
        &&& given_away(store, steps, disk.credential->0)
    }
}

proof fn lemma_found_stays(steps: Seq<(SaveEventView, Disk)>, gid: u32)
    requires
        steps.len() > 0,
        was_found(steps.drop_last(), gid),
    ensures
        was_found(steps, gid),
{
    let k = choose|k: int|
        0 <= k < steps.drop_last().len() && (#[trigger] steps.drop_last()[k]).0
            == SaveEventView::Group(Some(gid));
    assert(steps[k].0 == SaveEventView::Group(Some(gid)));
}

proof fn lemma_save_inv(
    store: FileStoreView,
    bytes: Seq<u8>,
    first: Disk,
    steps: Seq<(SaveEventView, Disk)>,
)
    requires
        save_happens(save_start(store, bytes, first), steps),
    ensures
        save_inv(store, bytes, first, steps, save_point(save_start(store, bytes, first), steps)),
    decreases steps.len(),
{
    let start = save_start(store, bytes, first);
    if steps.len() > 0 {
        lemma_save_inv(store, bytes, first, steps.drop_last());
        let point = save_point(start, steps.drop_last());
        let (event, disk) = steps.last();
        let next = save_point(start, steps);
        if point.saving.phase == SavePhase::FindingGroup {
            assert(event is Group);
            if next.saving.phase == SavePhase::GivingGroup {
                let gid = next.action->GiveGroup_0;
                assert(steps[steps.len() - 1].0 == SaveEventView::Group(Some(gid)));
                assert(was_found(steps, gid));
            }
        }
        if point.saving.phase == SavePhase::GivingGroup {
            lemma_found_stays(steps, point.action->GiveGroup_0);
        }
        if point.saving.phase == SavePhase::SettingMode && store.group is Some {
            lemma_found_stays(steps, point.disk.credential->0.group->0);
        }
    }
}

/// What is so, at every instant of a save, of rights that the owner's reading and writing are not
/// among: a new file gives none of them until it is given the mode that was asked for.
spec fn rights_inv(
    store: FileStoreView,
    rights: u32,
    first: Disk,
    steps: Seq<(SaveEventView, Disk)>,
    point: SavePoint,
) -> bool {
    let phase = point.saving.phase;
    let disk = point.disk;
    &&& disk.temp is Some ==> disk.temp == first.temp || disk.temp->0.withholds(rights)
    &&& filling(phase) ==> disk.temp->0.withholds(rights)
    &&& in_place(phase) ==> disk.credential->0.withholds(rights)
    &&& phase == SavePhase::Finished ==> {
        ||| disk.credential == first.credential && !succeeded(point)
        ||| disk.credential is Some && disk.credential->0.withholds(rights)
        ||| disk.credential is Some && disk.credential->0.mode == store.mode && given_away(
            store,
            steps,
            disk.credential->0,
        )
    }
    &&& complains(point) ==> holds(disk, point.saving.bytes) && disk.credential->0.withholds(rights)
}

proof fn lemma_new_file_withholds(mode: u32, rights: u32)
    requires
        mode & !0o600u32 == 0,
        rights & 0o600 == 0,
    ensures
        mode & rights == 0,
{
    assert(mode & rights == 0) by (bit_vector)
        requires
            mode & !0o600u32 == 0,
            rights & 0o600 == 0,
    ;
}

proof fn lemma_rights_inv(
    store: FileStoreView,
    bytes: Seq<u8>,
    rights: u32,
    first: Disk,
    steps: Seq<(SaveEventView, Disk)>,
)
    requires
        save_happens(save_start(store, bytes, first), steps),
        rights & 0o600 == 0,
    ensures
        rights_inv(store, rights, first, steps, save_point(save_start(store, bytes, first), steps)),
    decreases steps.len(),
{
    let start = save_start(store, bytes, first);
    if steps.len() > 0 {
        let before = steps.drop_last();
        lemma_rights_inv(store, bytes, rights, first, before);
        lemma_save_inv(store, bytes, first, before);
        lemma_save_inv(store, bytes, first, steps);
        let point = save_point(start, before);
        if point.saving.phase == SavePhase::Creating && steps.last().0 is Done {
            lemma_new_file_withholds(steps.last().1.temp->0.mode, rights);
        }
        if point.saving.phase == SavePhase::SettingMode && store.group is Some {
            lemma_found_stays(steps, point.disk.credential->0.group->0);
        }
    }
}

// ── the laws ─────────────────────────────────────────────────────────────────

/// **The temporary file is never the credential.** Whatever the path, a save truncates nothing
/// that it is to replace.
pub proof fn the_two_files_differ(store: FileStoreView)
    ensures
        store.temp() != store.path,
{
    reveal_strlit(".tmp");
    assert((store.path + TEMP_SUFFIX@).len() > store.path.len());
}

/// **A save replaces the credential atomically.** At every instant, whatever has failed, the
/// credential is the file that was there before, or it holds the new bytes, all of them.
pub proof fn save_is_atomic(
    store: FileStoreView,
    bytes: Seq<u8>,
    first: Disk,
    steps: Seq<(SaveEventView, Disk)>,
)
    requires
        save_happens(save_start(store, bytes, first), steps),
    ensures
        ({
            let disk = save_point(save_start(store, bytes, first), steps).disk;
            ||| disk.credential == first.credential
            ||| disk.credential is Some && disk.credential->0.bytes == bytes
        }),
{
    lemma_save_inv(store, bytes, first, steps);
}

/// **A save that succeeds has saved.** The credential holds the new bytes, and no temporary file
/// is left behind holding a copy of them.
pub proof fn success_means_stored(
    store: FileStoreView,
    bytes: Seq<u8>,
    first: Disk,
    steps: Seq<(SaveEventView, Disk)>,
)
    requires
        save_happens(save_start(store, bytes, first), steps),
        succeeded(save_point(save_start(store, bytes, first), steps)),
    ensures
        holds(save_point(save_start(store, bytes, first), steps).disk, bytes),
{
    lemma_save_inv(store, bytes, first, steps);
}

/// **The power may go at any instant.** Where the credential that was there had reached the disk,
/// what is found afterwards is that one or the new one, whole; and once a save has succeeded, the
/// new one. The second is of a path that has a directory to flush, as that of every file has.
pub proof fn a_save_survives_a_power_cut(
    store: FileStoreView,
    bytes: Seq<u8>,
    first: Disk,
    steps: Seq<(SaveEventView, Disk)>,
    left: Option<Seq<u8>>,
)
    requires
        save_happens(save_start(store, bytes, first), steps),
        first.is_settled(),
        survives(save_point(save_start(store, bytes, first), steps).disk, left),
    ensures
        left == bytes_of(first.credential) || left == Some(bytes),
        succeeded(save_point(save_start(store, bytes, first), steps)) && path_parent(store.path)
            is Some ==> left == Some(bytes),
{
    lemma_save_inv(store, bytes, first, steps);
}

/// **A token is never readable by other users, at any instant.** Where the store asks for no
/// rights for others, no file that a save has made gives them any: what they may read is at most
/// what lay there before, as it was, whatever rights it had; and once a save has succeeded, not
/// the credential.
pub proof fn never_readable_by_others(
    store: FileStoreView,
    bytes: Seq<u8>,
    first: Disk,
    steps: Seq<(SaveEventView, Disk)>,
)
    requires
        save_happens(save_start(store, bytes, first), steps),
        store.mode & 0o007 == 0,
    ensures
        ({
            let point = save_point(save_start(store, bytes, first), steps);
            let disk = point.disk;
            &&& disk.temp is Some ==> disk.temp == first.temp || disk.temp->0.closed_to_others()
            &&& disk.credential is Some ==> disk.credential == first.credential
                || disk.credential->0.closed_to_others()
            &&& succeeded(point) ==> disk.credential is Some
                && disk.credential->0.closed_to_others()
        }),
{
    assert(0o007u32 & 0o600 == 0) by (bit_vector);
    lemma_save_inv(store, bytes, first, steps);
    lemma_rights_inv(store, bytes, 0o007, first, steps);
}

/// **The group is let in only once the file is its own.** Where a group is named, a new file gives
/// its group a right only after it was given to a group that was looked up and found; until then
/// the group it belongs to is its writer's, and that one gets nothing.
pub proof fn shared_only_with_the_group_that_was_found(
    store: FileStoreView,
    bytes: Seq<u8>,
    first: Disk,
    steps: Seq<(SaveEventView, Disk)>,
)
    requires
        save_happens(save_start(store, bytes, first), steps),
        store.group is Some,
    ensures
        ({
            let disk = save_point(save_start(store, bytes, first), steps).disk;
            &&& disk.temp is Some ==> disk.temp == first.temp || disk.temp->0.closed_to_group()
            &&& disk.credential is Some ==> {
                ||| disk.credential == first.credential
                ||| disk.credential->0.closed_to_group()
                ||| disk.credential->0.group is Some && was_found(
                    steps,
                    disk.credential->0.group->0,
                )
            }
        }),
{
    assert(0o070u32 & 0o600 == 0) by (bit_vector);
    lemma_save_inv(store, bytes, first, steps);
    lemma_rights_inv(store, bytes, 0o070, first, steps);
}

/// **The group never costs the token.** A group that does not exist, and one that this process
/// may not give a file to, are complaints about a save that succeeded: the credential is there,
/// and private to its owner.
pub proof fn the_group_never_costs_the_token(
    store: FileStoreView,
    bytes: Seq<u8>,
    first: Disk,
    steps: Seq<(SaveEventView, Disk)>,
    event: SaveEventView,
    disk: Disk,
)
    requires
        save_happens(save_start(store, bytes, first), steps.push((event, disk))),
        ({
            let phase = save_point(save_start(store, bytes, first), steps).saving.phase;
            ||| phase == SavePhase::FindingGroup && event == SaveEventView::Group(None)
            ||| phase == SavePhase::GivingGroup && event is Failed
        }),
    ensures
        ({
            let end = save_point(save_start(store, bytes, first), steps.push((event, disk)));
            &&& complains(end)
            &&& holds(end.disk, bytes)
            &&& end.disk.credential->0.is_private()
        }),
{
    let all = steps.push((event, disk));
    assert(all.drop_last() =~= steps);
    assert(!0o600u32 & 0o600 == 0) by (bit_vector);
    lemma_save_inv(store, bytes, first, steps);
    lemma_save_inv(store, bytes, first, all);
    lemma_rights_inv(store, bytes, !0o600u32, first, steps);
}

/// **A complaint comes with a credential that is there, and private.** Whatever kept the group
/// from being let in — one that does not exist, one that the file may not be given to, a name or a
/// path that the system does not take — the token is saved, and nobody but its owner may read it.
pub proof fn a_complaint_comes_with_a_private_credential(
    store: FileStoreView,
    bytes: Seq<u8>,
    first: Disk,
    steps: Seq<(SaveEventView, Disk)>,
)
    requires
        save_happens(save_start(store, bytes, first), steps),
        complains(save_point(save_start(store, bytes, first), steps)),
    ensures
        ({
            let disk = save_point(save_start(store, bytes, first), steps).disk;
            &&& holds(disk, bytes)
            &&& disk.credential->0.is_private()
        }),
{
    assert(!0o600u32 & 0o600 == 0) by (bit_vector);
    lemma_save_inv(store, bytes, first, steps);
    lemma_rights_inv(store, bytes, !0o600u32, first, steps);
}

/// Whether the new credential is not yet in place: everything up to the rename.
pub open spec fn not_yet_renamed(phase: SavePhase) -> bool {
    ||| phase == SavePhase::RemovingTemp
    ||| phase == SavePhase::Creating
    ||| phase == SavePhase::Writing
    ||| phase == SavePhase::SyncingFile
    ||| phase == SavePhase::Renaming
}

/// **A save that fails spoils nothing.** Where what failed came no later than the rename, the save
/// ends with an error and the credential is the file that was there before, untouched; where it
/// came after, the new one is there, whole.
pub proof fn a_failed_save_spoils_nothing(
    store: FileStoreView,
    bytes: Seq<u8>,
    first: Disk,
    steps: Seq<(SaveEventView, Disk)>,
    why: Seq<char>,
    disk: Disk,
)
    requires
        save_happens(
            save_start(store, bytes, first),
            steps.push((SaveEventView::Failed(why), disk)),
        ),
    ensures
        ({
            let phase = save_point(save_start(store, bytes, first), steps).saving.phase;
            let end = save_point(
                save_start(store, bytes, first),
                steps.push((SaveEventView::Failed(why), disk)),
            );
            &&& end.saving.phase == SavePhase::Finished
            &&& not_yet_renamed(phase) ==> {
                &&& end.action matches SaveActionView::Finish(done) && done is Err
                &&& end.disk.credential == first.credential
                &&& end.disk.entry == first.entry
            }
            &&& !not_yet_renamed(phase) ==> holds(end.disk, bytes)
        }),
{
    let all = steps.push((SaveEventView::Failed(why), disk));
    assert(all.drop_last() =~= steps);
    lemma_save_inv(store, bytes, first, steps);
    lemma_save_inv(store, bytes, first, all);
}

/// **A save that has nothing to complain of did all that was asked.** The credential ends with
/// the mode the store asks for, and with a group of the name it asks for, if it asks for one.
pub proof fn no_complaint_means_all_was_done(
    store: FileStoreView,
    bytes: Seq<u8>,
    first: Disk,
    steps: Seq<(SaveEventView, Disk)>,
)
    requires
        save_happens(save_start(store, bytes, first), steps),
        save_point(save_start(store, bytes, first), steps).action == SaveActionView::Finish(
            Ok(None),
        ),
    ensures
        ({
            let disk = save_point(save_start(store, bytes, first), steps).disk;
            &&& holds(disk, bytes)
            &&& disk.credential->0.mode == store.mode
            &&& given_away(store, steps, disk.credential->0)
        }),
{
    lemma_save_inv(store, bytes, first, steps);
}

/// Whether nothing went wrong: whatever was tried was done, and a group looked up was there.
pub open spec fn all_went_well(steps: Seq<(SaveEventView, Disk)>) -> bool {
    forall|k: int|
        0 <= k < steps.len() ==> !((#[trigger] steps[k]).0 is Failed) && steps[k].0
            != SaveEventView::Group(None)
}

/// **A save succeeds unless something fails.** Where whatever was tried was done, a save that has
/// ended has nothing to complain of. A NUL in the path or the group's name, which the system
/// takes in neither, is the one exception.
pub proof fn a_save_succeeds_unless_something_fails(
    store: FileStoreView,
    bytes: Seq<u8>,
    first: Disk,
    steps: Seq<(SaveEventView, Disk)>,
)
    requires
        save_happens(save_start(store, bytes, first), steps),
        all_went_well(steps),
        !store.path.contains('\0'),
        store.group is Some ==> !store.group->0.contains('\0'),
        save_point(save_start(store, bytes, first), steps).saving.phase == SavePhase::Finished,
    ensures
        save_point(save_start(store, bytes, first), steps).action == SaveActionView::Finish(
            Ok(None),
        ),
{
    let before = steps.drop_last();
    lemma_save_inv(store, bytes, first, before);
    assert(steps[steps.len() - 1] == steps.last());
}

/// How many actions a save can still want, at most.
pub open spec fn steps_left(phase: SavePhase) -> nat {
    match phase {
        SavePhase::RemovingTemp => 10,
        SavePhase::Creating => 9,
        SavePhase::Writing => 8,
        SavePhase::SyncingFile => 7,
        SavePhase::Renaming => 6,
        SavePhase::OpeningDir => 5,
        SavePhase::SyncingDir => 4,
        SavePhase::FindingGroup => 3,
        SavePhase::GivingGroup => 2,
        SavePhase::SettingMode => 1,
        SavePhase::Finished => 0,
    }
}

/// **A save comes to an end.** Whatever happens, it wants no more than ten things done.
pub proof fn a_save_ends(start: SavePoint, steps: Seq<(SaveEventView, Disk)>)
    requires
        save_happens(start, steps),
    ensures
        steps.len() + steps_left(save_point(start, steps).saving.phase) <= steps_left(
            start.saving.phase,
        ) <= 10,
    decreases steps.len(),
{
    if steps.len() > 0 {
        a_save_ends(start, steps.drop_last());
    }
}

/// What is found on a disk where the credential should be, by a reader that parses with `parse`.
pub open spec fn found<R>(disk: Disk, parse: spec_fn(Seq<u8>) -> Option<R>) -> Option<R> {
    match disk.credential {
        Some(file) => parse(file.bytes),
        None => None,
    }
}

/// **What is read is what was written.** Once a save has succeeded, any reader — of the whole
/// record, or of the one field another process wants — gets what it makes of the bytes that were
/// saved, and until then what it would have made of the file that was there before.
pub proof fn what_is_read_is_what_was_written<R>(
    store: FileStoreView,
    bytes: Seq<u8>,
    first: Disk,
    steps: Seq<(SaveEventView, Disk)>,
    parse: spec_fn(Seq<u8>) -> Option<R>,
)
    requires
        save_happens(save_start(store, bytes, first), steps),
    ensures
        ({
            let point = save_point(save_start(store, bytes, first), steps);
            &&& found(point.disk, parse) == parse(bytes) || found(point.disk, parse) == found(
                first,
                parse,
            )
            &&& succeeded(point) ==> found(point.disk, parse) == parse(bytes)
        }),
{
    lemma_save_inv(store, bytes, first, steps);
}

/// **The record saved last is the record that is read.** For any way of writing records down that
/// a reader gets them back from, and that the reader of the one field finds the token in: after
/// two saves that succeeded, [`FileStore::load`](crate::FileStore::load) is given the second
/// record, whole, and nothing of the first;
/// [`read_access_token`](crate::read_access_token) has its token, unless that is empty; and no
/// temporary file is left.
pub proof fn the_last_record_saved_is_the_one_that_is_read(
    store: FileStoreView,
    encode: spec_fn(StoredView) -> Seq<u8>,
    parse: spec_fn(Seq<u8>) -> Option<StoredView>,
    read: spec_fn(Seq<u8>) -> Option<Seq<char>>,
    earlier: StoredView,
    later: StoredView,
    first: Disk,
    once: Seq<(SaveEventView, Disk)>,
    again: Seq<(SaveEventView, Disk)>,
)
    requires
        forall|record: StoredView| parse(#[trigger] encode(record)) == Some(record),
        forall|record: StoredView| read(#[trigger] encode(record)) == Some(record.access_token),
        save_happens(save_start(store, encode(earlier), first), once),
        succeeded(save_point(save_start(store, encode(earlier), first), once)),
        ({
            let between = save_point(save_start(store, encode(earlier), first), once).disk;
            &&& save_happens(save_start(store, encode(later), between), again)
            &&& succeeded(save_point(save_start(store, encode(later), between), again))
        }),
    ensures
        ({
            let between = save_point(save_start(store, encode(earlier), first), once).disk;
            let end = save_point(save_start(store, encode(later), between), again).disk;
            &&& found(between, parse) == Some(earlier)
            &&& found(end, parse) == Some(later)
            &&& usable(found(end, read)) == (if later.access_token.len() == 0 {
                None
            } else {
                Some(later.access_token)
            })
            &&& end.temp is None
        }),
{
    let between = save_point(save_start(store, encode(earlier), first), once).disk;
    lemma_save_inv(store, encode(earlier), first, once);
    lemma_save_inv(store, encode(later), between, again);
}

} // verus!
