//! The credential, and its way to a disk: one that is played here, file by file.

use std::collections::BTreeMap;

use hf_robot_account::{
    now_secs, read_access_token, Contents, Credential, Directory, Error,
    FileStore, Moment, Removed, SaveAction, SaveEvent, Saving, Stored, Temp, TokenResponse,
};
use serde_json::Value;

fn store() -> FileStore {
    FileStore::at("/etc/robot/hf-token".to_string())
}

fn token(access: &str) -> Stored {
    Stored {
        access_token: access.to_string(),
        refresh_token: Some("refresh-1".to_string()),
        expires_at: Some(now_secs() + 30 * 24 * 60 * 60),
        username: Some("PierreRouanet".to_string()),
    }
}

/// A record as it is written: one object, with the fields that are there.
fn encode(stored: &Stored) -> Vec<u8> {
    let mut object = serde_json::Map::new();
    object.insert("access_token".to_string(), Value::from(stored.access_token.as_str()));
    if let Some(refresh_token) = &stored.refresh_token {
        object.insert("refresh_token".to_string(), Value::from(refresh_token.as_str()));
    }
    if let Some(expires_at) = stored.expires_at {
        object.insert("expires_at".to_string(), Value::from(expires_at));
    }
    if let Some(username) = &stored.username {
        object.insert("username".to_string(), Value::from(username.as_str()));
    }
    serde_json::to_vec_pretty(&Value::Object(object)).unwrap()
}

fn text(value: &Value, key: &str) -> Option<String> {
    value.get(key).and_then(Value::as_str).map(str::to_string)
}

/// What a reader of the whole record makes of a file.
fn record(bytes: Option<&Vec<u8>>) -> Contents<Stored> {
    let Some(bytes) = bytes else {
        return Contents::Missing;
    };
    match serde_json::from_slice::<Value>(bytes) {
        Ok(value) => match text(&value, "access_token") {
            Some(access_token) => Contents::Record(Stored {
                access_token,
                refresh_token: text(&value, "refresh_token"),
                expires_at: value.get("expires_at").and_then(Value::as_i64),
                username: text(&value, "username"),
            }),
            None => Contents::Unparsed("missing field `access_token`".to_string()),
        },
        Err(e) => Contents::Unparsed(e.to_string()),
    }
}

/// What a reader of the one field makes of a file.
fn credential(bytes: Option<&Vec<u8>>) -> Contents<Credential> {
    let Some(bytes) = bytes else {
        return Contents::Missing;
    };
    match serde_json::from_slice::<Value>(bytes) {
        Ok(value) => match text(&value, "access_token") {
            Some(access_token) => Contents::Record(Credential { access_token }),
            None => Contents::Unparsed("missing field `access_token`".to_string()),
        },
        Err(e) => Contents::Unparsed(e.to_string()),
    }
}

struct File {
    bytes: Vec<u8>,
    mode: u32,
    group: Option<u32>,
}

/// A disk, and a system with one group that files may be given to and one that they may not.
#[derive(Default)]
struct Disk {
    files: BTreeMap<String, File>,
    /// Which kind of action to fail.
    broken: Option<&'static str>,
    /// What was done, in order.
    done: Vec<String>,
}

/// What somebody left in a temporary file.
const STALE: &[u8] = b"stale";

const OWN_GROUP: &str = "staff";
const OTHER_GROUP: &str = "root";

impl Disk {
    fn perform(&mut self, path: &str, saving: &Saving, action: &SaveAction) -> SaveEvent {
        let shown = format!("{action:?}");
        self.done.push(shown.clone());
        if self.broken.is_some_and(|kind| shown.starts_with(kind)) {
            return SaveEvent::Failed("broken".to_string());
        }
        let temp = FileStore::at(path.to_string()).temp();
        match action {
            SaveAction::RemoveTemp => {
                self.files.remove(&temp);
                SaveEvent::Done
            }
            SaveAction::Create(mode) => {
                assert!(!self.files.contains_key(&temp), "a file that is there keeps its rights");
                self.files.insert(temp, File { bytes: Vec::new(), mode: *mode, group: None });
                SaveEvent::Done
            }
            SaveAction::Write => {
                self.files.get_mut(&temp).unwrap().bytes = saving.bytes().clone();
                SaveEvent::Done
            }
            SaveAction::Rename => {
                let file = self.files.remove(&temp).unwrap();
                self.files.insert(path.to_string(), file);
                SaveEvent::Done
            }
            SaveAction::FindGroup(name) => SaveEvent::Group(match name.as_str() {
                OWN_GROUP => Some(20),
                OTHER_GROUP => Some(0),
                _ => None,
            }),
            SaveAction::GiveGroup(gid) => {
                if *gid == 0 {
                    return SaveEvent::Failed("Operation not permitted (os error 1)".to_string());
                }
                self.files.get_mut(path).unwrap().group = Some(*gid);
                SaveEvent::Done
            }
            SaveAction::SetMode(mode) => {
                self.files.get_mut(path).unwrap().mode = *mode;
                SaveEvent::Done
            }
            _ => SaveEvent::Done,
        }
    }

    fn save(&mut self, store: &FileStore, stored: &Stored) -> Result<Option<String>, Error> {
        let (mut saving, mut action) = store.save(Ok(encode(stored)));
        for _ in 0..11 {
            // At no instant may anybody but the owner and the group read the token.
            for (path, file) in self.files.iter().filter(|(_, file)| file.bytes != STALE) {
                assert_eq!(file.mode & 0o007, 0, "{path} is readable by other users");
                assert!(
                    file.mode & 0o070 == 0 || file.group == Some(20),
                    "{path} is readable by the writer's own group"
                );
            }
            if let SaveAction::Finish(done) = action {
                return done;
            }
            let event = self.perform(store.path(), &saving, &action);
            assert!(saving.accepts(&event));
            action = saving.step(event);
        }
        panic!("a save wants no more than ten things done");
    }

    fn bytes(&self, store: &FileStore) -> Option<&Vec<u8>> {
        self.files.get(store.path().as_str()).map(|file| &file.bytes)
    }

    fn load(&self, store: &FileStore) -> Option<Stored> {
        store.load(record(self.bytes(store)))
    }

    fn clear(&mut self, store: &FileStore) -> Result<Option<String>, Error> {
        let contents = record(self.bytes(store));
        let removed = match self.files.remove(store.path().as_str()) {
            Some(_) => Removed::Gone,
            None => Removed::NotFound,
        };
        store.clear(contents, removed)
    }
}

/// The store is a file, and the file survives being replaced.
#[test]
fn a_credential_round_trips() {
    let mut disk = Disk::default();
    let store = store();

    assert!(disk.load(&store).is_none(), "nothing stored yet");
    disk.save(&store, &token("first")).unwrap();
    assert_eq!(disk.load(&store).unwrap().access_token, "first");

    disk.save(&store, &token("second")).unwrap();
    assert_eq!(disk.load(&store).unwrap().access_token, "second");
    assert_eq!(
        disk.clear(&store).unwrap(),
        Some("PierreRouanet".to_string()),
        "clear reports who it forgot, so a caller can say so"
    );
    assert!(disk.load(&store).is_none());
    assert_eq!(
        disk.clear(&store).unwrap(),
        None,
        "clearing nothing is not an error — signing out twice is not a failure"
    );
}

/// **A token must never be world-readable, at any point.** `Disk::save` looks at every instant.
#[test]
fn the_token_file_is_not_world_readable() {
    let mut disk = Disk::default();
    for store in [
        store(),
        store().readable_by_group("no-such-group-exists-here".to_string()),
    ] {
        disk.save(&store, &token("secret")).unwrap();

        let mode = disk.files[store.path().as_str()].mode & 0o777;
        assert_eq!(mode & 0o007, 0, "the token file is readable by other users: {mode:o}");
        assert!(
            !disk.files.contains_key("/etc/robot/hf-token.tmp"),
            "the temp file must not be left behind holding a copy of the token"
        );
    }
}

/// A temporary file that somebody left there, open to everybody, is not what the token goes
/// through.
#[test]
fn a_stale_temporary_file_lends_nobody_its_rights() {
    for store in [
        store(),
        store().readable_by_group("no-such-group-exists-here".to_string()),
        FileStore::at("/etc/robot/token.tmp".to_string()),
    ] {
        let mut disk = Disk::default();
        disk.files.insert(
            store.temp(),
            File { bytes: STALE.to_vec(), mode: 0o644, group: None },
        );
        disk.save(&store, &token("secret")).unwrap();
        assert_eq!(disk.files[store.path().as_str()].mode & 0o077, 0);
        assert_eq!(disk.files.len(), 1, "and it is gone");
        assert_eq!(disk.load(&store).unwrap().access_token, "secret");
    }
}

/// The temporary file is never the credential, whatever the path.
#[test]
fn the_two_files_differ() {
    let temp = |path: &str| {
        let store = FileStore::at(path.to_string());
        (store.temp_kind(), store.temp())
    };
    let named = |kind: Temp, path: &str| (kind, path.to_string());
    assert_eq!(temp("/etc/robot/hf-token"), named(Temp::Extension, "/etc/robot/hf-token.tmp"));
    assert_eq!(temp("hf.json"), named(Temp::Extension, "hf.tmp"));
    assert_eq!(temp("a/token.tmp"), named(Temp::Suffix, "a/token.tmp.tmp"));
    assert_eq!(temp(".tmp"), named(Temp::Extension, ".tmp.tmp"));
}

/// A record is taken back only by who wrote it: any other is left alone.
#[test]
fn a_store_still_holds_a_record_or_another() {
    let mine = token("mine");
    let holds = |contents| store().still_holds(contents, &mine);
    assert!(holds(Contents::Record(mine.clone())));
    assert!(!holds(Contents::Record(token("theirs"))));
    assert!(!holds(Contents::Record(Stored { username: None, ..mine.clone() })));
    assert!(!holds(Contents::Record(Stored { refresh_token: None, ..mine.clone() })));
    assert!(!holds(Contents::Record(Stored { expires_at: None, ..mine.clone() })));
    assert!(!holds(Contents::Missing));
    assert!(!holds(Contents::Unparsed("x".to_string())));
    assert!(mine.same(&mine.clone()));
}

/// The group is a best effort, and a best effort must never cost the token.
#[test]
fn the_group_is_a_best_effort_and_never_costs_the_token() {
    let mut disk = Disk::default();
    let mut saved = |store: &FileStore| {
        let complaint = disk.save(store, &token("secret")).unwrap();
        let mode = disk.files[store.path().as_str()].mode & 0o777;
        (mode, disk.load(store).unwrap().access_token, complaint)
    };

    assert_eq!(
        saved(&store()),
        (0o600, "secret".to_string(), None),
        "private by default"
    );

    assert_eq!(
        saved(&store().readable_by_group("no-such-group-exists-here".to_string())),
        (
            0o600,
            "secret".to_string(),
            Some("no such group on this system".to_string())
        ),
        "a group that does not exist leaves the file private, and the token is still stored"
    );

    let (mode, stored, complaint) = saved(&store().readable_by_group(OTHER_GROUP.to_string()));
    assert_eq!(stored, "secret", "a refused chown must not lose the credential");
    assert_eq!(
        mode, 0o600,
        "a chown this process may not do leaves the file private: {mode:o}"
    );
    assert_eq!(
        complaint.as_deref(),
        Some("this process may not give a file to that group")
    );

    // And the group it *can* use gets the bit, which is the whole point of the option.
    let (mode, _, complaint) = saved(&store().readable_by_group(OWN_GROUP.to_string()));
    assert_eq!(mode, 0o640, "the process's own group can be given read");
    assert_eq!(complaint, None);
}

/// **The one key another process reads, at the level it reads it.**
#[test]
fn the_stored_shape_is_what_a_reader_reads() {
    let mut disk = Disk::default();
    let store = store();
    disk.save(&store, &token("hf_abc")).unwrap();

    let raw: Value = serde_json::from_slice(disk.bytes(&store).unwrap()).unwrap();
    assert_eq!(
        raw["access_token"], "hf_abc",
        "a reader reads exactly this key at exactly this level"
    );
    assert!(
        raw.get("refresh_token").is_some() && raw.get("expires_at").is_some(),
        "and the rest of the record is the writer's business: {raw}"
    );
    assert_eq!(
        read_access_token(credential(disk.bytes(&store))).as_deref(),
        Some("hf_abc"),
        "and the reader in this crate is held to the same contract"
    );
}

/// The reader takes one field out of whatever the writer wrote, and survives the rest.
#[test]
fn the_reader_takes_one_field_and_tolerates_the_others() {
    let read = |file: Option<&str>| {
        read_access_token(credential(file.map(|f| f.as_bytes().to_vec()).as_ref()))
    };

    assert_eq!(read(None), None, "no file is no account");

    assert_eq!(
        read(Some(
            r#"{"access_token":"hf_abc","refresh_token":"r","expires_at":1,
                "username":"x","added_later":true}"#,
        ))
        .as_deref(),
        Some("hf_abc")
    );

    assert_eq!(
        read(Some(r#"{"refresh_token":"only"}"#)),
        None,
        "a record with no token is no use"
    );

    assert_eq!(read(Some("{ not json")), None, "corrupt is signed out");
}

/// A token that is there and empty is no token.
#[test]
fn an_empty_token_is_no_token() {
    assert_eq!(
        read_access_token(Contents::Record(Credential { access_token: String::new() })),
        None
    );
    assert_eq!(
        read_access_token(Contents::Record(Credential { access_token: " ".to_string() })).as_deref(),
        Some(" ")
    );
}

/// A file somebody edited by hand reads as "signed out", not as a broken daemon.
#[test]
fn a_corrupt_credential_is_signed_out_rather_than_an_error() {
    let bytes = b"{ this is not json".to_vec();
    assert!(store().load(record(Some(&bytes))).is_none());
}

#[test]
fn a_store_is_a_path_a_group_and_a_mode() {
    let plain = store();
    assert_eq!(plain.path(), "/etc/robot/hf-token");
    assert_eq!(plain.clone(), plain);
    assert_ne!(plain, store().mode(0o400));

    let last = |store: FileStore| {
        let mut disk = Disk::default();
        disk.save(&store, &token("t")).unwrap();
        disk.done.last().unwrap().clone()
    };
    assert_eq!(last(store()), "SetMode(384)");
    assert_eq!(last(store().mode(0o400)), "SetMode(256)");
    assert_eq!(last(store().readable_by_group(OWN_GROUP.to_string())), "SetMode(416)");
    assert_eq!(
        last(store().readable_by_group(OWN_GROUP.to_string()).mode(0o600)),
        "SetMode(384)",
        "a mode set afterwards is the one that counts"
    );
}

/// The whole way to the disk, in the order that keeps it private and durable.
#[test]
fn a_save_goes_step_by_step() {
    let mut disk = Disk::default();
    disk.save(&store().readable_by_group(OWN_GROUP.to_string()), &token("t")).unwrap();
    assert_eq!(
        disk.done,
        vec![
            "RemoveTemp",
            "Create(384)",
            "Write",
            "SyncFile",
            "Rename",
            "OpenDir(Parent)",
            "SyncDir",
            "FindGroup(\"staff\")",
            "GiveGroup(20)",
            "SetMode(416)",
        ]
    );
    assert_eq!(disk.files["/etc/robot/hf-token"].group, Some(20));
}

/// A save that fails says which file it failed on, and the credential that was there stays
/// there, or the new one is there whole.
#[test]
fn a_failed_save_says_where_and_spoils_nothing() {
    let failing = |kind: &'static str, path: &str| {
        let store = FileStore::at(path.to_string());
        let mut disk = Disk::default();
        disk.save(&store, &token("old")).unwrap();
        disk.broken = Some(kind);
        let error = disk.save(&store, &token("new")).unwrap_err();
        disk.broken = None;
        (error.message(), disk.load(&store).unwrap().access_token)
    };
    let old = |path: &str| (format!("{path}: broken"), "old".to_string());
    let new = |path: &str| (format!("{path}: broken"), "new".to_string());

    assert_eq!(failing("RemoveTemp", "/etc/robot/hf-token"), old("/etc/robot/hf-token.tmp"));
    assert_eq!(failing("Create", "/etc/robot/hf.tmp"), old("/etc/robot/hf.tmp.tmp"));
    assert_eq!(failing("Write", "/etc/robot/hf-token"), old("/etc/robot/hf-token.tmp"));
    assert_eq!(failing("SyncFile", "/etc/robot/hf.json"), old("/etc/robot/hf.tmp"));
    assert_eq!(failing("Rename", "/etc/robot/hf-token"), old("/etc/robot/hf-token"));
    assert_eq!(failing("OpenDir", "/etc/robot/hf-token"), new("/etc/robot"));
    assert_eq!(failing("SyncDir", "hf-token"), new("."));
    assert_eq!(failing("SetMode", "/etc/robot/hf-token"), new("/etc/robot/hf-token"));
}

/// A bare filename is in the directory the process is in; a root has none at all.
#[test]
fn the_directory_that_is_flushed() {
    let opened = |path: &str| {
        let (mut saving, mut action) = FileStore::at(path.to_string()).save(Ok(vec![1]));
        while action != SaveAction::Rename {
            action = saving.step(SaveEvent::Done);
        }
        saving.step(SaveEvent::Done)
    };
    assert_eq!(opened("hf-token"), SaveAction::OpenDir(Directory::Working));
    assert_eq!(opened("/hf-token"), SaveAction::OpenDir(Directory::Parent));
    assert_eq!(opened("robot/hf-token"), SaveAction::OpenDir(Directory::Parent));
    assert_eq!(opened("/"), SaveAction::SetMode(0o600));
}

/// A NUL, which the system takes in no name, is a group that does not exist and a path that can
/// be given to nobody.
#[test]
fn a_nul_is_no_name() {
    let mut disk = Disk::default();
    let complaint = disk
        .save(&store().readable_by_group("ro\0bot".to_string()), &token("t"))
        .unwrap();
    assert_eq!(complaint.as_deref(), Some("no such group on this system"));
    assert_eq!(disk.files["/etc/robot/hf-token"].mode, 0o600, "and the token is private");
    assert!(!disk.done.iter().any(|action| action.starts_with("FindGroup")));

    let odd = FileStore::at("/etc/ro\0bot".to_string()).readable_by_group(OWN_GROUP.to_string());
    let mut disk = Disk::default();
    let complaint = disk.save(&odd, &token("t")).unwrap();
    assert_eq!(disk.files["/etc/ro\0bot"].mode, 0o600);
    assert_eq!(
        complaint.as_deref(),
        Some("this process may not give a file to that group")
    );
}

/// A record that cannot be encoded touches nothing.
#[test]
fn a_record_that_cannot_be_encoded() {
    let (saving, action) = store().save(Err("key must be a string".to_string()));
    assert_eq!(
        action,
        SaveAction::Finish(Err(Error::Io {
            path: "/etc/robot/hf-token".to_string(),
            source: "key must be a string".to_string(),
        }))
    );
    assert!(saving.bytes().is_empty());
    assert!(!saving.accepts(&SaveEvent::Done));
}

/// Only the event that is waited for is accepted.
#[test]
fn a_save_hears_only_what_it_waits_for() {
    let (mut saving, mut action) =
        store().readable_by_group(OWN_GROUP.to_string()).save(Ok(vec![1, 2]));
    assert!(!saving.accepts(&SaveEvent::Group(None)));
    while action != SaveAction::FindGroup(OWN_GROUP.to_string()) {
        assert!(saving.accepts(&SaveEvent::Done));
        assert!(saving.accepts(&SaveEvent::Failed(String::new())));
        action = saving.step(SaveEvent::Done);
    }
    assert!(!saving.accepts(&SaveEvent::Done));
    assert!(saving.accepts(&SaveEvent::Group(Some(20))));
}

/// A file that cannot be removed is an error, and says so.
#[test]
fn a_credential_that_cannot_be_removed() {
    let removed = Removed::Failed("Permission denied (os error 13)".to_string());
    assert_eq!(
        store().clear(Contents::Missing, removed).unwrap_err().message(),
        "/etc/robot/hf-token: Permission denied (os error 13)"
    );
    assert_eq!(
        store().clear(Contents::Unparsed("x".to_string()), Removed::Gone),
        Ok(None),
        "a corrupt credential goes too, and belonged to nobody"
    );
    assert_eq!(
        store().clear(Contents::Record(token("t")), Removed::NotFound),
        Ok(None),
        "somebody else was faster"
    );
}

#[test]
fn an_expiry_is_absolute() {
    let issued = TokenResponse {
        access_token: "a".to_string(),
        refresh_token: None,
        expires_in: Some(2_591_999),
    };
    let stored = Stored::of(issued.clone(), 1_788_000_000, Some("who".to_string()));
    assert_eq!(stored.expires_at, Some(1_790_591_999));
    assert_eq!(stored.expires_in_at(1_788_000_000), 2_591_999);
    assert_eq!(stored.expires_in_at(1_790_592_000), -1, "negative once it has expired");
    assert_eq!(stored.expires_in_at(1), 1_790_591_998);

    let silent = Stored::of(TokenResponse { expires_in: None, ..issued.clone() }, 5, None);
    assert_eq!(silent.expires_at, None);
    assert_eq!(silent.expires_in(), i64::MAX, "the server did not say");

    let good_for = |secs| {
        let issued = TokenResponse { expires_in: Some(secs), ..issued.clone() };
        Stored::of(issued, 1_800_000_000, None)
    };
    assert_eq!(good_for(u64::MAX).expires_at, Some(i64::MAX), "never cut short");
    assert!(good_for(u64::MAX).expires_in_at(1_800_000_000) > 0);
    assert_eq!(good_for(i64::MAX as u64 - 1_800_000_000).expires_at, Some(i64::MAX));
    assert_eq!(good_for(i64::MAX as u64 - 1_800_000_001).expires_at, Some(i64::MAX - 1));
    assert_eq!(good_for(0).expires_at, Some(1_800_000_000));
}

/// On a clock that has not been set everything has expired, so that the robot asks for a login.
#[test]
fn an_unset_clock_reads_as_expired() {
    let expires_at = |at| Stored { expires_at: at, ..token("t") };
    assert_eq!(Moment::at(-1, 0).unix_secs(), 0);
    assert_eq!(expires_at(Some(1_788_000_000)).expires_in_at(0), -1);
    assert_eq!(expires_at(Some(0)).expires_in_at(0), -1);
    assert_eq!(expires_at(Some(-10)).expires_in_at(0), -10);
    assert_eq!(expires_at(Some(i64::MIN)).expires_in_at(1), i64::MIN, "held to its range");
    assert_eq!(expires_at(None).expires_in_at(0), i64::MAX, "which the server did not name");
    assert_eq!(expires_at(Some(1_788_000_000)).identity_at(0).token_expires_in, -1);
}

#[test]
fn an_identity_is_what_a_caller_is_told() {
    let stored = token("t");
    let at = stored.expires_at.unwrap();
    let identity = stored.identity_at(at - 10);
    assert_eq!(identity.username, "PierreRouanet");
    assert_eq!(identity.token_expires_in, 10);
    assert!(identity.refreshable);

    let bare = Stored { username: None, refresh_token: None, ..stored.clone() };
    assert_eq!(bare.identity_at(at).username, "unknown");
    assert!(!bare.identity_at(at).refreshable);

    // Seen from what the clock shows: the record is thirty days from it.
    let now = stored.identity();
    assert!(now.token_expires_in > 29 * 24 * 60 * 60);
    assert!(now.token_expires_in <= 30 * 24 * 60 * 60);
    assert_eq!(now.clone(), now);
}
