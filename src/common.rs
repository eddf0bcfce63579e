//! The persisted record, the tracked target, and the reconciliation of a
//! candidate file's modification time against the record.
use vstd::prelude::*;

use crate::mode::ModeSelector;

verus! {

/// Key of the modification time (seconds since the Unix epoch) of the
/// freshest data already exported.
pub const LAST_MODIFIED_TIME: &'static str = "last_modified_time";

/// Key of the character identifier of the last reconciled file.
pub const LAST_CHARACTER_TYPE: &'static str = "last_character_type";

/// Key of the directory that holds the autosave files.
pub const WATCH_DIRECTORY: &'static str = "watch_directory";

/// Key of the directory that receives the text reports.
pub const EXPORT_DIRECTORY: &'static str = "export_directory";

/// Key of the number of tracking cycles before a new discovery scan.
pub const MAX_TRACKING_ITERATIONS: &'static str = "max_tracking_iterations";

/// Key of the pause between two poll cycles, in milliseconds.
pub const POLL_INTERVAL_MS: &'static str = "poll_interval_ms";

/// How a candidate file's modification time relates to the recorded one.
#[derive(Debug, Clone, Copy, PartialEq, Eq, Structural)]
pub enum ModifiedTimeStatus {
    New,
    Old,
    Equal,
}

pub open spec fn classify(file_time: u64, stored_time: u64) -> ModifiedTimeStatus {
    if file_time > stored_time {
        ModifiedTimeStatus::New
    } else if file_time < stored_time {
        ModifiedTimeStatus::Old
    } else {
        ModifiedTimeStatus::Equal
    }
}

/// One value of the persisted record. Its variant is the value's declared
/// type, which a write may not change.
#[derive(Debug, PartialEq, Eq)]
pub enum JsonField {
    Number(u64),
    Text(String),
    Flag(bool),
    /// Any other value (null, array, object, negative or fractional number):
    /// it is kept as loaded and never overwritten.
    Other,
}

pub open spec fn same_kind(a: JsonField, b: JsonField) -> bool {
    match (a, b) {
        (JsonField::Number(_), JsonField::Number(_)) => true,
        (JsonField::Text(_), JsonField::Text(_)) => true,
        (JsonField::Flag(_), JsonField::Flag(_)) => true,
        _ => false,
    }
}

pub open spec fn is_number(f: Option<JsonField>) -> bool {
    f matches Some(JsonField::Number(_))
}

pub open spec fn is_text(f: Option<JsonField>) -> bool {
    f matches Some(JsonField::Text(_))
}

/// `f` is a text value whose characters are `s`.
pub open spec fn text_is(f: Option<JsonField>, s: Seq<char>) -> bool {
    match f {
        Some(JsonField::Text(t)) => t@ == s,
        _ => false,
    }
}

/// The value stored under `key`: the last entry with that key wins.
pub open spec fn lookup(entries: Seq<(String, JsonField)>, key: Seq<char>) -> Option<JsonField>
    decreases entries.len(),
{
    if entries.len() == 0 {
        None
    } else if entries.last().0@ == key {
        Some(entries.last().1)
    } else {
        lookup(entries.drop_last(), key)
    }
}

proof fn lemma_lookup_none(entries: Seq<(String, JsonField)>, key: Seq<char>)
    requires
        forall|j: int| 0 <= j < entries.len() ==> entries[j].0@ != key,
    ensures
        lookup(entries, key) == None::<JsonField>,
    decreases entries.len(),
{
    if entries.len() > 0 {
        lemma_lookup_none(entries.drop_last(), key);
    }
}

proof fn lemma_lookup_at(entries: Seq<(String, JsonField)>, key: Seq<char>, i: int)
    requires
        0 <= i < entries.len(),
        entries[i].0@ == key,
        forall|j: int| i < j < entries.len() ==> entries[j].0@ != key,
    ensures
        lookup(entries, key) == Some(entries[i].1),
    decreases entries.len(),
{
    if i < entries.len() - 1 {
        lemma_lookup_at(entries.drop_last(), key, i);
    }
}

proof fn lemma_lookup_update_other(
    entries: Seq<(String, JsonField)>,
    i: int,
    e: (String, JsonField),
    other: Seq<char>,
)
    requires
        0 <= i < entries.len(),
        entries[i].0@ != other,
        e.0@ != other,
    ensures
        lookup(entries.update(i, e), other) == lookup(entries, other),
    decreases entries.len(),
{
    let u = entries.update(i, e);
    if i < entries.len() - 1 {
        assert(u.drop_last() =~= entries.drop_last().update(i, e));
        lemma_lookup_update_other(entries.drop_last(), i, e, other);
    } else {
        assert(u.drop_last() =~= entries.drop_last());
    }
}

proof fn lemma_lookup_push_other(entries: Seq<(String, JsonField)>, e: (String, JsonField), other: Seq<char>)
    requires
        e.0@ != other,
    ensures
        lookup(entries.push(e), other) == lookup(entries, other),
{
    assert(entries.push(e).drop_last() =~= entries);
}

/// Why a write to the persisted record was refused.
#[derive(Debug, Clone, Copy, PartialEq, Eq, Structural)]
pub enum StoreError {
    /// The record holds no value under the key.
    MissingKey,
    /// The new value's type differs from the one the key was loaded with.
    TypeMismatch,
}

fn copy_field(f: &JsonField) -> (r: JsonField)
    ensures
        r == *f,
{
    match f {
        JsonField::Number(n) => JsonField::Number(*n),
        JsonField::Text(s) => JsonField::Text(s.clone()),
        JsonField::Flag(b) => JsonField::Flag(*b),
        JsonField::Other => JsonField::Other,
    }
}

/// The persisted key-value record: settings and the last observed state.
pub struct JsonData {
    entries: Vec<(String, JsonField)>,
}

impl JsonData {
    /// The value stored under `key`, if any.
    pub closed spec fn value_of(&self, key: Seq<char>) -> Option<JsonField> {
        lookup(self.entries@, key)
    }

    /// Every key that the poller reads is present with its expected type.
    pub open spec fn valid_record(&self) -> bool {
        &&& is_number(self.value_of(LAST_MODIFIED_TIME@))
        &&& is_text(self.value_of(LAST_CHARACTER_TYPE@))
        &&& is_text(self.value_of(WATCH_DIRECTORY@))
        &&& is_text(self.value_of(EXPORT_DIRECTORY@))
        &&& is_number(self.value_of(MAX_TRACKING_ITERATIONS@))
        &&& is_number(self.value_of(POLL_INTERVAL_MS@))
    }

    /// The recorded modification time (0 where the record holds none).
    pub open spec fn stored_time(&self) -> u64 {
        match self.value_of(LAST_MODIFIED_TIME@) {
            Some(JsonField::Number(n)) => n,
            _ => 0,
        }
    }

    /// Whether every key that the poller reads is present with its expected
    /// type.
    pub fn is_valid_record(&self) -> (r: bool)
        ensures
            r == self.valid_record(),
    {
        let checks = (
            self.get_value_from_key(LAST_MODIFIED_TIME),
            self.get_value_from_key(LAST_CHARACTER_TYPE),
            self.get_value_from_key(WATCH_DIRECTORY),
            self.get_value_from_key(EXPORT_DIRECTORY),
            self.get_value_from_key(MAX_TRACKING_ITERATIONS),
            self.get_value_from_key(POLL_INTERVAL_MS),
        );
        match checks {
            (
                Some(JsonField::Number(_)),
                Some(JsonField::Text(_)),
                Some(JsonField::Text(_)),
                Some(JsonField::Text(_)),
                Some(JsonField::Number(_)),
                Some(JsonField::Number(_)),
            ) => true,
            _ => false,
        }
    }

    /// An empty record.
    pub fn new() -> (r: Self)
        ensures
            forall|k: Seq<char>| r.value_of(k) == None::<JsonField>,
    {
        JsonData { entries: Vec::new() }
    }

    /// Position of the entry that `value_of(key)` reads, if any.
    fn find_key(&self, key: &str) -> (r: Option<usize>)
        ensures
            match r {
                Some(i) => {
                    &&& i < self.entries@.len()
                    &&& self.entries@[i as int].0@ == key@
                    &&& forall|j: int|
                        i < j < self.entries@.len() ==> self.entries@[j].0@ != key@
                },
                None => forall|j: int| 0 <= j < self.entries@.len() ==> self.entries@[j].0@ != key@,
            },
    {
        let k = key.to_owned();
        let mut found: Option<usize> = None;
        let mut i: usize = 0;
        while i < self.entries.len()
            invariant
                i <= self.entries@.len(),
                k@ == key@,
                match found {
                    Some(f) => {
                        &&& f < i
                        &&& self.entries@[f as int].0@ == key@
                        &&& forall|j: int| f < j < i ==> self.entries@[j].0@ != key@
                    },
                    None => forall|j: int| 0 <= j < i ==> self.entries@[j].0@ != key@,
                },
            decreases self.entries@.len() - i,
        {
            if self.entries[i].0 == k {
                found = Some(i);
            }
            i = i + 1;
        }
        found
    }

    /// The value stored under `key`, if any.
    pub fn get_value_from_key(&self, key: &str) -> (r: Option<JsonField>)
        ensures
            r == self.value_of(key@),
    {
        match self.find_key(key) {
            Some(i) => {
                proof {
                    lemma_lookup_at(self.entries@, key@, i as int);
                }
                Some(copy_field(&self.entries[i].1))
            },
            None => {
                proof {
                    lemma_lookup_none(self.entries@, key@);
                }
                None
            },
        }
    }

    /// Stores `value` under `key` whatever was there before: this is how a
    /// record is filled when it is loaded.
    pub fn load_value(&mut self, key: &str, value: JsonField)
        ensures
            final(self).value_of(key@) == Some(value),
            forall|k: Seq<char>| k != key@ ==> final(self).value_of(k) == old(self).value_of(k),
    {
        let e = (key.to_owned(), value);
        match self.find_key(key) {
            Some(i) => {
                proof {
                    assert forall|k: Seq<char>| k != key@ implies lookup(
                        self.entries@.update(i as int, e),
                        k,
                    ) == lookup(self.entries@, k) by {
                        lemma_lookup_update_other(self.entries@, i as int, e, k);
                    }
                    lemma_lookup_at(self.entries@.update(i as int, e), key@, i as int);
                }
                self.entries.set(i, e);
            },
            None => {
                proof {
                    assert forall|k: Seq<char>| k != key@ implies lookup(self.entries@.push(e), k)
                        == lookup(self.entries@, k) by {
                        lemma_lookup_push_other(self.entries@, e, k);
                    }
                }
                self.entries.push(e);
            },
        }
    }

    /// Overwrites the value under `key`. The write is refused where the key
    /// is absent, or where `new_value` has another type than the stored
    /// value; the record is then left as it was.
    pub fn update_json_body(&mut self, key: &str, new_value: JsonField) -> (r: Result<(), StoreError>)
        ensures
            match old(self).value_of(key@) {
                None => r == Err::<(), StoreError>(StoreError::MissingKey),
                Some(f) => if same_kind(f, new_value) {
                    r == Ok::<(), StoreError>(())
                } else {
                    r == Err::<(), StoreError>(StoreError::TypeMismatch)
                },
            },
            r is Ok ==> final(self).value_of(key@) == Some(new_value),
            r is Ok ==> forall|k: Seq<char>|
                k != key@ ==> final(self).value_of(k) == old(self).value_of(k),
            r is Err ==> forall|k: Seq<char>| final(self).value_of(k) == old(self).value_of(k),
    {
        match self.find_key(key) {
            None => {
                proof {
                    lemma_lookup_none(self.entries@, key@);
                }
                Err(StoreError::MissingKey)
            },
            Some(i) => {
                proof {
                    lemma_lookup_at(self.entries@, key@, i as int);
                }
                let compatible = match (&self.entries[i].1, &new_value) {
                    (JsonField::Number(_), JsonField::Number(_)) => true,
                    (JsonField::Text(_), JsonField::Text(_)) => true,
                    (JsonField::Flag(_), JsonField::Flag(_)) => true,
                    _ => false,
                };
                if !compatible {
                    return Err(StoreError::TypeMismatch);
                }
                let e = (key.to_owned(), new_value);
                proof {
                    assert forall|k: Seq<char>| k != key@ implies lookup(
                        self.entries@.update(i as int, e),
                        k,
                    ) == lookup(self.entries@, k) by {
                        lemma_lookup_update_other(self.entries@, i as int, e, k);
                    }
                    lemma_lookup_at(self.entries@.update(i as int, e), key@, i as int);
                }
                self.entries.set(i, e);
                Ok(())
            },
        }
    }
}

/// Snapshot of the tracked autosave file, with the two directories that the
/// poller reads from and writes to.
#[derive(Debug, Clone)]
pub struct Target {
    autosave_dir_path: String,
    write_txt_dir_path: String,
    full_path: String,
    character_type: String,
    modified_time: u64,
}

impl Target {
    pub closed spec fn dir(&self) -> Seq<char> {
        self.autosave_dir_path@
    }

    pub closed spec fn out_dir(&self) -> Seq<char> {
        self.write_txt_dir_path@
    }

    pub closed spec fn path(&self) -> Seq<char> {
        self.full_path@
    }

    pub closed spec fn character(&self) -> Seq<char> {
        self.character_type@
    }

    pub closed spec fn time(&self) -> u64 {
        self.modified_time
    }

    /// No file tracked yet, no directory known.
    pub fn new() -> (r: Self)
        ensures
            r.dir() == Seq::<char>::empty(),
            r.out_dir() == Seq::<char>::empty(),
            r.path() == Seq::<char>::empty(),
            r.character() == Seq::<char>::empty(),
            r.time() == 0,
    {
        Target {
            autosave_dir_path: String::new(),
            write_txt_dir_path: String::new(),
            full_path: String::new(),
            character_type: String::new(),
            modified_time: 0,
        }
    }

    /// Takes the watch and export directories from the record. Fails, and
    /// leaves the target as it was, unless both are stored as text.
    pub fn init_dir_path(&mut self, json_data: &JsonData) -> (r: Result<(), StoreError>)
        ensures
            r is Ok <==> (is_text(json_data.value_of(WATCH_DIRECTORY@)) && is_text(
                json_data.value_of(EXPORT_DIRECTORY@),
            )),
            r is Ok ==> text_is(json_data.value_of(WATCH_DIRECTORY@), final(self).dir()),
            r is Ok ==> text_is(json_data.value_of(EXPORT_DIRECTORY@), final(self).out_dir()),
            r is Ok ==> final(self).path() == old(self).path() && final(self).character()
                == old(self).character() && final(self).time() == old(self).time(),
            r is Err ==> *final(self) == *old(self),
    {
        let watch = json_data.get_value_from_key(WATCH_DIRECTORY);
        let export = json_data.get_value_from_key(EXPORT_DIRECTORY);
        match (watch, export) {
            (Some(JsonField::Text(w)), Some(JsonField::Text(e))) => {
                self.autosave_dir_path = w;
                self.write_txt_dir_path = e;
                Ok(())
            },
            (None, _) => Err(StoreError::MissingKey),
            (_, None) => Err(StoreError::MissingKey),
            _ => Err(StoreError::TypeMismatch),
        }
    }

    pub fn full_path(&self) -> (r: String)
        ensures
            r@ == self.path(),
    {
        self.full_path.clone()
    }

    pub fn autosave_dir_path(&self) -> (r: String)
        ensures
            r@ == self.dir(),
    {
        self.autosave_dir_path.clone()
    }

    pub fn write_txt_dir_path(&self) -> (r: String)
        ensures
            r@ == self.out_dir(),
    {
        self.write_txt_dir_path.clone()
    }

    pub fn character_type(&self) -> (r: String)
        ensures
            r@ == self.character(),
    {
        self.character_type.clone()
    }

    pub fn modified_time(&self) -> (r: u64)
        ensures
            r == self.time(),
    {
        self.modified_time
    }

    /// Forgets the tracked file; the directories are kept.
    pub fn clear_params(&mut self)
        ensures
            final(self).path() == Seq::<char>::empty(),
            final(self).character() == Seq::<char>::empty(),
            final(self).time() == 0,
            final(self).dir() == old(self).dir(),
            final(self).out_dir() == old(self).out_dir(),
    {
        self.full_path = String::new();
        self.character_type = String::new();
        self.modified_time = 0;
    }

    /// Points the snapshot at another file; the directories are kept.
    pub fn update_params(&mut self, autosave_path: &str, character_type: &str, modified_time: u64)
        ensures
            final(self).path() == autosave_path@,
            final(self).character() == character_type@,
            final(self).time() == modified_time,
            final(self).dir() == old(self).dir(),
            final(self).out_dir() == old(self).out_dir(),
    {
        self.full_path = autosave_path.to_owned();
        self.character_type = character_type.to_owned();
        self.modified_time = modified_time;
    }
}

/// `t` tracks the file at `path`, of character `character`, modified at `time`.
pub open spec fn target_is(t: Target, path: Seq<char>, character: Seq<char>, time: u64) -> bool {
    t.path() == path && t.character() == character && t.time() == time
}

/// `b` holds the same values as `a` under every key but `k1` and `k2`.
pub open spec fn same_except(a: JsonData, b: JsonData, k1: Seq<char>, k2: Seq<char>) -> bool {
    forall|k: Seq<char>| k != k1 && k != k2 ==> #[trigger] b.value_of(k) == a.value_of(k)
}

impl JsonData {
    /// Classifies a file modified at `autosave_modified_time` against the
    /// recorded time.
    pub fn compare_modified_time(&self, autosave_modified_time: u64) -> (r: ModifiedTimeStatus)
        requires
            is_number(self.value_of(LAST_MODIFIED_TIME@)),
        ensures
            r == classify(autosave_modified_time, self.stored_time()),
    {
        let stored: u64 = match self.get_value_from_key(LAST_MODIFIED_TIME) {
            Some(JsonField::Number(n)) => n,
            _ => 0,
        };
        if autosave_modified_time > stored {
            ModifiedTimeStatus::New
        } else if autosave_modified_time < stored {
            ModifiedTimeStatus::Old
        } else {
            ModifiedTimeStatus::Equal
        }
    }
}

proof fn lemma_key_names_differ()
    ensures
        LAST_MODIFIED_TIME@ != LAST_CHARACTER_TYPE@,
{
    reveal_strlit("last_modified_time");
    reveal_strlit("last_character_type");
    assert(LAST_MODIFIED_TIME@[5] != LAST_CHARACTER_TYPE@[5]);
}

/// Reconciles one existing candidate file against the record.
/// A newer file becomes the target, its time and character are recorded and
/// an export is requested. A file of the recorded time becomes the target,
/// its character is recorded and no export is requested. An older file
/// changes nothing.
pub fn reconcile_candidate(
    mode_selector: &mut ModeSelector,
    target: &mut Target,
    json_data: &mut JsonData,
    autosave_path: &str,
    character_type: &str,
    modified_time: u64,
) -> (r: ModifiedTimeStatus)
    requires
        old(json_data).valid_record(),
    ensures
        r == classify(modified_time, old(json_data).stored_time()),
        final(json_data).valid_record(),
        final(json_data).stored_time() >= old(json_data).stored_time(),
        same_except(*old(json_data), *final(json_data), LAST_MODIFIED_TIME@, LAST_CHARACTER_TYPE@),
        final(target).dir() == old(target).dir(),
        final(target).out_dir() == old(target).out_dir(),
        final(mode_selector).mode() == old(mode_selector).mode(),
        final(mode_selector).repeats() == old(mode_selector).repeats(),
        r == ModifiedTimeStatus::New ==> {
            &&& target_is(*final(target), autosave_path@, character_type@, modified_time)
            &&& final(json_data).value_of(LAST_MODIFIED_TIME@) == Some(
                JsonField::Number(modified_time),
            )
            &&& text_is(final(json_data).value_of(LAST_CHARACTER_TYPE@), character_type@)
            &&& final(mode_selector).target_found()
            &&& final(mode_selector).export_pending()
        },
        r == ModifiedTimeStatus::Equal ==> {
            &&& target_is(*final(target), autosave_path@, character_type@, modified_time)
            &&& final(json_data).value_of(LAST_MODIFIED_TIME@) == old(json_data).value_of(
                LAST_MODIFIED_TIME@,
            )
            &&& text_is(final(json_data).value_of(LAST_CHARACTER_TYPE@), character_type@)
            &&& final(mode_selector).target_found()
            &&& !final(mode_selector).export_pending()
        },
        r == ModifiedTimeStatus::Old ==> {
            &&& *final(target) == *old(target)
            &&& forall|k: Seq<char>| final(json_data).value_of(k) == old(json_data).value_of(k)
            &&& final(mode_selector).target_found() == old(mode_selector).target_found()
            &&& final(mode_selector).export_pending() == old(mode_selector).export_pending()
        },
{
    proof {
        lemma_key_names_differ();
    }
    let status = json_data.compare_modified_time(modified_time);
    match status {
        ModifiedTimeStatus::New => {
            target.update_params(autosave_path, character_type, modified_time);
            let _ = json_data.update_json_body(LAST_MODIFIED_TIME, JsonField::Number(modified_time));
            let _ = json_data.update_json_body(
                LAST_CHARACTER_TYPE,
                JsonField::Text(character_type.to_owned()),
            );
            mode_selector.found_target();
            mode_selector.turn_on_do_writing();
        },
        ModifiedTimeStatus::Equal => {
            target.update_params(autosave_path, character_type, modified_time);
            let _ = json_data.update_json_body(
                LAST_CHARACTER_TYPE,
                JsonField::Text(character_type.to_owned()),
            );
            mode_selector.found_target();
            mode_selector.turn_off_do_writing();
        },
        ModifiedTimeStatus::Old => {},
    }
    status
}

/// One candidate file as observed on disk: its path, the character it
/// belongs to, and its modification time, or `None` where the file is
/// missing or its time could not be read.
#[derive(Debug)]
pub struct Candidate {
    pub full_path: String,
    pub character_type: String,
    pub modified_time: Option<u64>,
}

/// The recorded time after reconciling `cands` in order, from `stored`.
pub open spec fn scan_time(cands: Seq<Candidate>, stored: u64) -> u64
    decreases cands.len(),
{
    if cands.len() == 0 {
        stored
    } else {
        let p = scan_time(cands.drop_last(), stored);
        match cands.last().modified_time {
            Some(t) => if t >= p {
                t
            } else {
                p
            },
            None => p,
        }
    }
}

/// Index of the last candidate of `cands` that became the target, if any.
pub open spec fn scan_pick(cands: Seq<Candidate>, stored: u64) -> Option<int>
    decreases cands.len(),
{
    if cands.len() == 0 {
        None
    } else {
        let p = scan_time(cands.drop_last(), stored);
        match cands.last().modified_time {
            Some(t) => if t >= p {
                Some(cands.len() - 1)
            } else {
                scan_pick(cands.drop_last(), stored)
            },
            None => scan_pick(cands.drop_last(), stored),
        }
    }
}

/// Whether an export is pending after reconciling `cands` in order, from
/// `stored` with `pending` before the first.
pub open spec fn scan_export(cands: Seq<Candidate>, stored: u64, pending: bool) -> bool
    decreases cands.len(),
{
    if cands.len() == 0 {
        pending
    } else {
        let p = scan_time(cands.drop_last(), stored);
        match cands.last().modified_time {
            Some(t) => if t > p {
                true
            } else if t == p {
                false
            } else {
                scan_export(cands.drop_last(), stored, pending)
            },
            None => scan_export(cands.drop_last(), stored, pending),
        }
    }
}

/// The identifiers of the characters whose autosave files are candidates.
pub fn character_list() -> (r: Vec<String>)
    ensures
        r@.len() == 4,
        r@[0]@ == "IRONCLAD"@,
        r@[1]@ == "THE SILENT"@,
        r@[2]@ == "DEFECT"@,
        r@[3]@ == "WATCHER"@,
{
    let mut v: Vec<String> = Vec::new();
    v.push(String::from_str("IRONCLAD"));
    v.push(String::from_str("THE SILENT"));
    v.push(String::from_str("DEFECT"));
    v.push(String::from_str("WATCHER"));
    v
}

/// The name of a character's autosave file: `<CHARACTER>.autosave`.
pub fn autosave_file_name(character: &str) -> (r: String)
    ensures
        r@ == character@ + ".autosave"@,
{
    let mut name = character.to_owned();
    name.append(".autosave");
    name
}

/// Reconciles every observed candidate in order, skipping those that are
/// missing. The recorded time becomes the running maximum of the times seen;
/// the target and the recorded character follow the last candidate whose
/// time was not older than the record at its turn; the export flag follows
/// the last candidate that was not older.
pub fn sync_json_with_autosave(
    mode_selector: &mut ModeSelector,
    target: &mut Target,
    json_data: &mut JsonData,
    candidates: &Vec<Candidate>,
)
    requires
        old(json_data).valid_record(),
    ensures
        final(json_data).valid_record(),
        final(json_data).stored_time() == scan_time(candidates@, old(json_data).stored_time()),
        same_except(*old(json_data), *final(json_data), LAST_MODIFIED_TIME@, LAST_CHARACTER_TYPE@),
        final(mode_selector).export_pending() == scan_export(
            candidates@,
            old(json_data).stored_time(),
            old(mode_selector).export_pending(),
        ),
        final(mode_selector).mode() == old(mode_selector).mode(),
        final(mode_selector).repeats() == old(mode_selector).repeats(),
        final(target).dir() == old(target).dir(),
        final(target).out_dir() == old(target).out_dir(),
        match scan_pick(candidates@, old(json_data).stored_time()) {
            Some(i) => {
                &&& target_is(
                    *final(target),
                    candidates@[i].full_path@,
                    candidates@[i].character_type@,
                    candidates@[i].modified_time.unwrap(),
                )
                &&& text_is(
                    final(json_data).value_of(LAST_CHARACTER_TYPE@),
                    candidates@[i].character_type@,
                )
                &&& final(mode_selector).target_found()
            },
            None => {
                &&& *final(target) == *old(target)
                &&& final(json_data).value_of(LAST_CHARACTER_TYPE@) == old(json_data).value_of(
                    LAST_CHARACTER_TYPE@,
                )
                &&& final(mode_selector).target_found() == old(mode_selector).target_found()
            },
        },
{
    let ghost s0 = json_data.stored_time();
    let ghost j0 = *json_data;
    let ghost t0 = *target;
    let ghost m0 = *mode_selector;
    let mut i: usize = 0;
    while i < candidates.len()
        invariant
            i <= candidates@.len(),
            json_data.valid_record(),
            json_data.stored_time() == scan_time(candidates@.subrange(0, i as int), s0),
            same_except(j0, *json_data, LAST_MODIFIED_TIME@, LAST_CHARACTER_TYPE@),
            mode_selector.export_pending() == scan_export(
                candidates@.subrange(0, i as int),
                s0,
                m0.export_pending(),
            ),
            mode_selector.mode() == m0.mode(),
            mode_selector.repeats() == m0.repeats(),
            target.dir() == t0.dir(),
            target.out_dir() == t0.out_dir(),
            match scan_pick(candidates@.subrange(0, i as int), s0) {
                Some(k) => {
                    &&& 0 <= k < i
                    &&& target_is(
                        *target,
                        candidates@[k].full_path@,
                        candidates@[k].character_type@,
                        candidates@[k].modified_time.unwrap(),
                    )
                    &&& text_is(
                        json_data.value_of(LAST_CHARACTER_TYPE@),
                        candidates@[k].character_type@,
                    )
                    &&& mode_selector.target_found()
                },
                None => {
                    &&& *target == t0
                    &&& json_data.value_of(LAST_CHARACTER_TYPE@) == j0.value_of(
                        LAST_CHARACTER_TYPE@,
                    )
                    &&& mode_selector.target_found() == m0.target_found()
                },
            },
        decreases candidates@.len() - i,
    {
        let ghost pre = candidates@.subrange(0, i as int);
        let ghost next = candidates@.subrange(0, i as int + 1);
        proof {
            assert(next.drop_last() =~= pre);
            assert(next.last() == candidates@[i as int]);
        }
        let c = &candidates[i];
        match c.modified_time {
            Some(t) => {
                let _ = reconcile_candidate(
                    mode_selector,
                    target,
                    json_data,
                    c.full_path.as_str(),
                    c.character_type.as_str(),
                    t,
                );
            },
            None => {},
        }
        i = i + 1;
    }
    proof {
        assert(candidates@.subrange(0, candidates@.len() as int) =~= candidates@);
    }
}

/// A candidate older than the record at its turn in a scan changes neither
/// the recorded time, nor the target picked so far, nor the export flag set
/// by an earlier candidate of the same scan.
pub proof fn lemma_stale_candidate_changes_nothing(cands: Seq<Candidate>, stored: u64, pending: bool)
    requires
        cands.len() > 0,
        cands.last().modified_time matches Some(t) && t < scan_time(cands.drop_last(), stored),
    ensures
        scan_time(cands, stored) == scan_time(cands.drop_last(), stored),
        scan_pick(cands, stored) == scan_pick(cands.drop_last(), stored),
        scan_export(cands, stored, pending) == scan_export(cands.drop_last(), stored, pending),
{
}

/// Writing a new modification time into a valid record is never refused,
/// and reading it back yields the very same integer.
pub proof fn lemma_modified_time_round_trip(before: JsonData, after: JsonData, n: u64)
    requires
        before.valid_record(),
        same_except(before, after, LAST_MODIFIED_TIME@, LAST_MODIFIED_TIME@),
        after.value_of(LAST_MODIFIED_TIME@) == Some(JsonField::Number(n)),
    ensures
        same_kind(before.value_of(LAST_MODIFIED_TIME@).unwrap(), JsonField::Number(n)),
        after.valid_record(),
        after.stored_time() == n,
{
    reveal_strlit("last_modified_time");
    reveal_strlit("last_character_type");
    reveal_strlit("watch_directory");
    reveal_strlit("export_directory");
    reveal_strlit("max_tracking_iterations");
    reveal_strlit("poll_interval_ms");
    assert(LAST_MODIFIED_TIME@[0] != WATCH_DIRECTORY@[0]);
    assert(LAST_MODIFIED_TIME@[0] != EXPORT_DIRECTORY@[0]);
    assert(LAST_MODIFIED_TIME@[0] != MAX_TRACKING_ITERATIONS@[0]);
    assert(LAST_MODIFIED_TIME@[0] != POLL_INTERVAL_MS@[0]);
    assert(LAST_MODIFIED_TIME@[5] != LAST_CHARACTER_TYPE@[5]);
}

/// A scan never lowers the recorded time: the record only moves forward.
pub proof fn lemma_scan_time_never_decreases(cands: Seq<Candidate>, stored: u64)
    ensures
        scan_time(cands, stored) >= stored,
    decreases cands.len(),
{
    if cands.len() > 0 {
        lemma_scan_time_never_decreases(cands.drop_last(), stored);
    }
}

} // verus!
