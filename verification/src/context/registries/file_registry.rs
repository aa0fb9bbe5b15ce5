//! Registry of files, deduplicated by normalized path, with the kernel file-object mapping.
use std::collections::HashMap;
use vstd::prelude::*;

use crate::context::identity::{FileKey, IdCounter};
use crate::context::models::file::signature::DigitalSignature;
use crate::context::models::file::{FileAccessRecord, FileContext, FileFormatInfo};
use crate::helpers::keyed::keys_of;
use crate::helpers::text::{
    chars_of, replace_char, replace_chars, seq_starts_with, starts_with, string_from_chars,
    to_lowercase_str, trim_char, trim_end_char, trim_start_char, unicode_lowercase,
    utf16_decode_lossy, utf16_lossy,
};

verus! {

broadcast use vstd::std_specs::hash::group_hash_axioms;

/// `p` without a leading `\??\` or `\\?\` namespace prefix.
pub open spec fn strip_nt_prefix(p: Seq<char>) -> Seq<char> {
    if seq_starts_with(p, "\\??\\"@) {
        p.skip("\\??\\"@.len() as int)
    } else if seq_starts_with(p, "\\\\?\\"@) {
        p.skip("\\\\?\\"@.len() as int)
    } else {
        p
    }
}

/// `p` with its namespace prefix stripped and forward slashes turned into backslashes.
pub open spec fn cleaned_path(p: Seq<char>) -> Seq<char> {
    replace_char(strip_nt_prefix(p), '/', '\\')
}

/// `i` is the first device whose NT name begins `lower`.
pub open spec fn is_first_device(devices: Seq<(Seq<char>, Seq<char>)>, lower: Seq<char>, i: int) -> bool {
    &&& 0 <= i < devices.len()
    &&& seq_starts_with(lower, devices[i].0)
    &&& forall|j: int| 0 <= j < i ==> !seq_starts_with(lower, #[trigger] devices[j].0)
}

/// What follows the first `n` characters of `c` (nothing when `c` is shorter).
pub open spec fn tail_after(c: Seq<char>, n: nat) -> Seq<char> {
    if n <= c.len() {
        c.skip(n as int)
    } else {
        Seq::empty()
    }
}

/// The views of a device table's entries.
pub open spec fn devices_view(d: Seq<(String, String)>) -> Seq<(Seq<char>, Seq<char>)> {
    d.map_values(|e: (String, String)| (e.0@, e.1@))
}

/// The normal form of a file path, given a table of (NT device name, drive) pairs whose
/// names are in lower case: namespace prefix stripped, slashes unified, a volume device
/// replaced by its drive (or marked `\\?\GLOBALROOT` when no drive is known), and all of it
/// lower-cased.
pub open spec fn normalized_path(p: Seq<char>, devices: Seq<(Seq<char>, Seq<char>)>) -> Seq<char> {
    let c = cleaned_path(p);
    let lower = unicode_lowercase(c);
    if seq_starts_with(lower, "\\device\\harddiskvolume"@) {
        if exists|i: int| is_first_device(devices, lower, i) {
            let i = choose|i: int| is_first_device(devices, lower, i);
            unicode_lowercase(devices[i].1 + tail_after(c, devices[i].0.len()))
        } else {
            unicode_lowercase("\\\\?\\GLOBALROOT"@ + c)
        }
    } else {
        lower
    }
}

fn lit_prefix(v: &[char], lit: &str) -> (b: bool)
    ensures
        b == seq_starts_with(v@, lit@),
{
    let p = chars_of(lit);
    starts_with(v, &p)
}

fn skip_chars(v: &[char], n: usize) -> (r: Vec<char>)
    requires
        n <= v@.len(),
    ensures
        r@ == v@.skip(n as int),
{
    let mut r: Vec<char> = Vec::new();
    let len = v.len();
    let mut i: usize = n;
    while i < len
        invariant
            n <= i <= len,
            len == v@.len(),
            r@ == v@.subrange(n as int, i as int),
        decreases len - i,
    {
        r.push(v[i]);
        assert(r@ =~= v@.subrange(n as int, i + 1));
        i = i + 1;
    }
    r
}

fn concat_chars(a: &[char], b: &[char]) -> (r: Vec<char>)
    ensures
        r@ == a@ + b@,
{
    let mut r: Vec<char> = Vec::new();
    let mut i: usize = 0;
    while i < a.len()
        invariant
            i <= a@.len(),
            r@ == a@.take(i as int),
        decreases a@.len() - i,
    {
        r.push(a[i]);
        assert(r@ =~= a@.take(i + 1));
        i = i + 1;
    }
    let mut j: usize = 0;
    while j < b.len()
        invariant
            i == a@.len(),
            j <= b@.len(),
            r@ == a@ + b@.take(j as int),
        decreases b@.len() - j,
    {
        r.push(b[j]);
        assert(r@ =~= a@ + b@.take(j + 1));
        j = j + 1;
    }
    assert(a@.take(a@.len() as int) =~= a@);
    assert(b@.take(b@.len() as int) =~= b@);
    r
}

fn lowered(v: &[char]) -> (s: String)
    ensures
        s@ == unicode_lowercase(v@),
{
    let st = string_from_chars(v);
    to_lowercase_str(st.as_str())
}

/// Normalizes a file path: strips an NT namespace prefix, turns forward slashes into
/// backslashes, resolves a volume device path through the system's device table (pairs of
/// NT device name and drive, in lower case, e.g. (`\device\harddiskvolume2`, `c:`)), marks
/// an unresolved one with the `\\?\GLOBALROOT` prefix, and lowercases the result.
pub fn normalize_file_path(path: &str, devices: &[(String, String)]) -> (r: String)
    ensures
        r@ == normalized_path(path@, devices_view(devices@)),
{
    let raw = chars_of(path);
    let stripped: Vec<char> = if lit_prefix(&raw, "\\??\\") {
        let k = chars_of("\\??\\");
        skip_chars(&raw, k.len())
    } else if lit_prefix(&raw, "\\\\?\\") {
        let k = chars_of("\\\\?\\");
        skip_chars(&raw, k.len())
    } else {
        raw
    };
    let cleaned = replace_chars(&stripped, '/', '\\');
    assert(cleaned@ == cleaned_path(path@));
    let lower_s = lowered(&cleaned);
    let lower = chars_of(lower_s.as_str());
    if !lit_prefix(&lower, "\\device\\harddiskvolume") {
        return lower_s;
    }
    let ghost dv = devices_view(devices@);
    let n = devices.len();
    let mut i: usize = 0;
    while i < n
        invariant
            n == devices@.len(),
            dv == devices_view(devices@),
            i <= n,
            lower@ == unicode_lowercase(cleaned@),
            cleaned@ == cleaned_path(path@),
            seq_starts_with(lower@, "\\device\\harddiskvolume"@),
            forall|j: int| 0 <= j < i ==> !seq_starts_with(lower@, #[trigger] dv[j].0),
        decreases n - i,
    {
        let nt = chars_of(devices[i].0.as_str());
        assert(nt@ == dv[i as int].0);
        if starts_with(&lower, &nt) {
            let drive = chars_of(devices[i].1.as_str());
            assert(drive@ == dv[i as int].1);
            let rest = if nt.len() <= cleaned.len() {
                skip_chars(&cleaned, nt.len())
            } else {
                Vec::new()
            };
            let joined = concat_chars(&drive, &rest);
            proof {
                assert(is_first_device(dv, lower@, i as int));
                let c = choose|c: int| is_first_device(dv, lower@, c);
                if c < i {
                    assert(!seq_starts_with(lower@, dv[c].0));
                }
                if c > i {
                    assert(!seq_starts_with(lower@, dv[i as int].0));
                }
                assert(c == i);
                assert(rest@ == tail_after(cleaned@, nt@.len()));
                assert(joined@ == dv[c].1 + tail_after(cleaned@, dv[c].0.len()));
            }
            return lowered(&joined);
        }
        i = i + 1;
    }
    let marker = chars_of("\\\\?\\GLOBALROOT");
    let joined = concat_chars(&marker, &cleaned);
    lowered(&joined)
}

/// `i` is the first entry of `index` naming the path `p`.
pub open spec fn first_entry_for(index: Seq<(String, u64)>, p: Seq<char>, i: int) -> bool {
    &&& 0 <= i < index.len()
    &&& index[i].0@ == p
    &&& forall|j: int| 0 <= j < i ==> #[trigger] index[j].0@ != p
}

/// The key registered for the normalized path `p`: that of the first entry naming it.
pub open spec fn key_for_path(index: Seq<(String, u64)>, p: Seq<char>) -> Option<u64> {
    if exists|i: int| first_entry_for(index, p, i) {
        Some(index[choose|i: int| first_entry_for(index, p, i)].1)
    } else {
        None
    }
}

/// An entry of the device table: the NT device name the system reported for a drive (its
/// first `len` units, nulls trimmed from both ends, lowercased) and the drive, lowercased.
pub open spec fn device_entry_text(drive: Seq<char>, units: Seq<u16>, len: nat) -> (Seq<char>, Seq<char>) {
    (
        unicode_lowercase(trim_end_char(trim_start_char(utf16_lossy(units.take(len as int)), '\0'), '\0')),
        unicode_lowercase(drive),
    )
}

/// The device-table entry for `drive` (e.g. `C:`) from the system's answer: `len` units of
/// `units` naming its NT device (see [`device_entry_text`]).
pub fn device_entry(drive: &str, units: &[u16], len: u32) -> (r: (String, String))
    requires
        len <= units@.len(),
    ensures
        (r.0@, r.1@) == device_entry_text(drive@, units@, len as nat),
{
    let mut v: Vec<u16> = Vec::new();
    let mut i: usize = 0;
    while i < len as usize
        invariant
            i <= len,
            len <= units@.len(),
            v@ == units@.take(i as int),
        decreases len - i,
    {
        v.push(units[i]);
        i = i + 1;
        assert(v@ =~= units@.take(i as int));
    }
    let decoded = utf16_decode_lossy(v.as_slice());
    let chars = chars_of(decoded.as_str());
    let trimmed = trim_char(&chars, '\0');
    let device = string_from_chars(&trimmed);
    (to_lowercase_str(device.as_str()), to_lowercase_str(drive))
}

/// The path index `after` is `before` once the normalized path `p` has been registered
/// under `k`: unchanged when `p` already had the key `k`, else with `(p, k)` appended.
pub open spec fn path_registered(before: Seq<(String, u64)>, p: Seq<char>, k: u64, after: Seq<(String, u64)>) -> bool {
    match key_for_path(before, p) {
        Some(existing) => existing == k && after == before,
        None => {
            &&& after.len() == before.len() + 1
            &&& after.take(before.len() as int) == before
            &&& after.last().0@ == p
            &&& after.last().1 == k
        },
    }
}

/// Deduplication: once a normalized path has been registered under a key, every lookup of
/// that normalized path (so of every raw path normalizing to it) finds that key.
pub proof fn lemma_registered_path_found(before: Seq<(String, u64)>, p: Seq<char>, k: u64, after: Seq<(String, u64)>)
    requires
        path_registered(before, p, k, after),
    ensures
        key_for_path(after, p) == Some(k),
{
    if key_for_path(before, p) is None {
        let n = before.len() as int;
        assert(forall|j: int| 0 <= j < n ==> #[trigger] after[j] == before[j]) by {
            assert forall|j: int| 0 <= j < n implies #[trigger] after[j] == before[j] by {
                assert(after.take(n)[j] == after[j]);
            }
        }
        assert forall|j: int| 0 <= j < n implies #[trigger] after[j].0@ != p by {
            if after[j].0@ == p {
                assert(before[j].0@ == p);
                assert(exists|i: int| first_entry_for(before, p, i)) by {
                    lemma_first_entry_exists(before, p, j);
                }
            }
        }
        assert(first_entry_for(after, p, n));
        let c = choose|c: int| first_entry_for(after, p, c);
        assert(c == n) by {
            if c < n {
                assert(after[c].0@ != p);
            }
            if c > n {
                assert(after[n].0@ == p);
            }
        }
    }
}

/// Some entry of `index` names `p` at or before `j` when `index[j]` names it.
proof fn lemma_first_entry_exists(index: Seq<(String, u64)>, p: Seq<char>, j: int)
    requires
        0 <= j < index.len(),
        index[j].0@ == p,
    ensures
        exists|i: int| first_entry_for(index, p, i),
    decreases j,
{
    if forall|k: int| 0 <= k < j ==> #[trigger] index[k].0@ != p {
        assert(first_entry_for(index, p, j));
    } else {
        let k = choose|k: int| 0 <= k < j && #[trigger] index[k].0@ == p;
        lemma_first_entry_exists(index, p, k);
    }
}

/// Every tracked file sits under its own key with a bounded history.
pub open spec fn files_wf(m: Map<u64, FileContext>) -> bool {
    forall|k: u64| #[trigger] m.contains_key(k) ==> m[k].key.0 == k && m[k].wf()
}

/// The path index is consistent with the files: every entry names a tracked file whose
/// path is the entry's path, and no path is indexed twice.
pub open spec fn index_wf(index: Seq<(String, u64)>, files: Map<u64, FileContext>) -> bool {
    &&& forall|i: int|
        0 <= i < index.len() ==> files.contains_key(#[trigger] index[i].1) && files[index[i].1].path@
            == index[i].0@
    &&& forall|i: int, j: int|
        0 <= i < j < index.len() ==> (#[trigger] index[i]).0@ != (#[trigger] index[j]).0@
}

/// Consistency survives a change of the files that keeps every tracked file, and its path.
proof fn lemma_index_kept(index: Seq<(String, u64)>, before: Map<u64, FileContext>, after: Map<u64, FileContext>)
    requires
        index_wf(index, before),
        forall|k: u64| #[trigger] before.contains_key(k) ==> after.contains_key(k) && after[k].path == before[k].path,
    ensures
        index_wf(index, after),
{
    assert forall|i: int| 0 <= i < index.len() implies after.contains_key(#[trigger] index[i].1)
        && after[index[i].1].path@ == index[i].0@ by {
        assert(before.contains_key(index[i].1));
    }
}

/// Registry of files.
pub struct FileRegistry {
    path_index: Vec<(String, u64)>,
    files: HashMap<u64, FileContext>,
    file_objects: HashMap<u64, u64>,
    devices: Vec<(String, String)>,
}

impl FileRegistry {
    /// Normalized paths and the keys registered for them, in registration order.
    pub closed spec fn paths(&self) -> Seq<(String, u64)> {
        self.path_index@
    }

    /// Tracked files by raw key.
    pub closed spec fn files(&self) -> Map<u64, FileContext> {
        self.files@
    }

    /// Kernel file objects and the raw keys of the files they refer to.
    pub closed spec fn objects(&self) -> Map<u64, u64> {
        self.file_objects@
    }

    /// The (NT device name, drive) table used for normalization.
    pub closed spec fn device_table(&self) -> Seq<(Seq<char>, Seq<char>)> {
        devices_view(self.devices@)
    }

    /// The registry's invariant.
    pub open spec fn wf(&self) -> bool {
        &&& files_wf(self.files())
        &&& index_wf(self.paths(), self.files())
    }

    /// A path lookup finds the tracked file with exactly that path.
    pub proof fn lemma_path_lookup(&self, p: Seq<char>)
        requires
            self.wf(),
        ensures
            key_for_path(self.paths(), p) matches Some(k) ==> self.files().contains_key(k)
                && self.files()[k].path@ == p,
    {
        if exists|i: int| first_entry_for(self.paths(), p, i) {
            let c = choose|i: int| first_entry_for(self.paths(), p, i);
            assert(self.files().contains_key(self.paths()[c].1));
        }
    }

    /// An empty registry with no device table.
    pub fn new() -> (r: Self)
        ensures
            r.wf(),
            r.paths().len() == 0,
            r.files() == Map::<u64, FileContext>::empty(),
            r.objects() == Map::<u64, u64>::empty(),
            r.device_table() == Seq::<(Seq<char>, Seq<char>)>::empty(),
    {
        let r = FileRegistry {
            path_index: Vec::new(),
            files: HashMap::new(),
            file_objects: HashMap::new(),
            devices: Vec::new(),
        };
        assert(r.device_table() =~= Seq::<(Seq<char>, Seq<char>)>::empty());
        r
    }

    /// An empty registry normalizing against the given (NT device name, drive) table, whose
    /// entries are in lower case.
    pub fn with_device_map(devices: Vec<(String, String)>) -> (r: Self)
        ensures
            r.wf(),
            r.paths().len() == 0,
            r.files() == Map::<u64, FileContext>::empty(),
            r.objects() == Map::<u64, u64>::empty(),
            r.device_table() == devices_view(devices@),
    {
        FileRegistry {
            path_index: Vec::new(),
            files: HashMap::new(),
            file_objects: HashMap::new(),
            devices,
        }
    }

    /// Normalizes a path against this registry's device table.
    pub fn normalize(&self, path: &str) -> (r: String)
        ensures
            r@ == normalized_path(path@, self.device_table()),
    {
        normalize_file_path(path, self.devices.as_slice())
    }

    fn lookup_path(&self, normalized: &String) -> (r: Option<u64>)
        ensures
            r == key_for_path(self.paths(), normalized@),
    {
        let n = self.path_index.len();
        let mut i: usize = 0;
        while i < n
            invariant
                n == self.path_index@.len(),
                i <= n,
                forall|j: int| 0 <= j < i ==> #[trigger] self.path_index@[j].0@ != normalized@,
            decreases n - i,
        {
            if self.path_index[i].0 == *normalized {
                proof {
                    assert(first_entry_for(self.path_index@, normalized@, i as int));
                    let c = choose|c: int| first_entry_for(self.path_index@, normalized@, c);
                    if c < i {
                        assert(self.path_index@[c].0@ != normalized@);
                    }
                    if c > i {
                        assert(self.path_index@[i as int].0@ != normalized@);
                    }
                }
                return Some(self.path_index[i].1);
            }
            i = i + 1;
        }
        proof {
            if exists|c: int| first_entry_for(self.path_index@, normalized@, c) {
                let c = choose|c: int| first_entry_for(self.path_index@, normalized@, c);
                assert(self.path_index@[c].0@ != normalized@);
            }
        }
        None
    }

    /// The file at this path (normalized first), creating it when the path is new. When the
    /// file already exists its last-access time is advanced to `timestamp`. Returns its key
    /// and whether it was created.
    pub fn get_or_create(&mut self, raw_path: &str, timestamp: i64, ids: &mut IdCounter) -> (r: (FileKey, bool))
        requires
            old(self).wf(),
            !old(self).files().contains_key(old(ids).peek()),
        ensures
            final(self).wf(),
            final(self).files().contains_key(r.0.0),
            r.1 ==> final(self).files()[r.0.0].path@ == normalized_path(raw_path@, old(self).device_table())
                && final(self).files()[r.0.0].first_seen == timestamp
                && final(self).files()[r.0.0].history().len() == 0,
            !r.1 ==> final(self).files()[r.0.0] == (FileContext {
                last_accessed: final(self).files()[r.0.0].last_accessed,
                ..old(self).files()[r.0.0]
            }),
            final(self).objects() == old(self).objects(),
            final(self).device_table() == old(self).device_table(),
            path_registered(
                old(self).paths(),
                normalized_path(raw_path@, old(self).device_table()),
                r.0.0,
                final(self).paths(),
            ),
            ({
                let p = normalized_path(raw_path@, old(self).device_table());
                match key_for_path(old(self).paths(), p) {
                    Some(k) => {
                        &&& r.0.0 == k
                        &&& final(self).paths() == old(self).paths()
                        &&& final(ids).peek() == old(ids).peek()
                        &&& r.1 == !old(self).files().contains_key(k)
                        &&& old(self).files().contains_key(k) ==> final(self).files()[k].last_accessed == (
                            if timestamp > old(self).files()[k].last_accessed {
                                timestamp
                            } else {
                                old(self).files()[k].last_accessed
                            })
                    },
                    None => {
                        &&& r.0.0 == old(ids).peek()
                        &&& r.1
                        &&& final(ids).peek() == vstd::wrapping::u64_specs::wrapping_add(old(ids).peek(), 1)
                        &&& final(self).paths().len() == old(self).paths().len() + 1
                        &&& final(self).paths().take(old(self).paths().len() as int) == old(self).paths()
                        &&& final(self).paths().last().0@ == p
                        &&& final(self).paths().last().1 == r.0.0
                    },
                }
            }),
            forall|k: u64| #[trigger] old(self).files().contains_key(k) && k != r.0.0 ==> final(self).files().contains_key(k) && final(self).files()[k] == old(self).files()[k],
            final(self).files().dom() == old(self).files().dom().insert(r.0.0),
    {
        let normalized = self.normalize(raw_path);
        match self.lookup_path(&normalized) {
            Some(k) => {
                proof {
                    old(self).lemma_path_lookup(normalized@);
                }
                match self.files.remove(&k) {
                    Some(mut f) => {
                        f.touch(timestamp);
                        self.files.insert(k, f);
                        assert(self.files@.dom() =~= old(self).files@.dom().insert(k));
                        proof {
                            lemma_index_kept(self.path_index@, old(self).files@, self.files@);
                        }
                        (FileKey(k), false)
                    },
                    None => {
                        let f = FileContext::new(FileKey(k), normalized, timestamp);
                        self.files.insert(k, f);
                        assert(self.files@.dom() =~= old(self).files@.dom().insert(k));
                        (FileKey(k), true)
                    },
                }
            },
            None => {
                let key = FileKey::new(ids);
                let stored = normalized.clone();
                let f = FileContext::new(key, normalized, timestamp);
                self.files.insert(key.0, f);
                self.path_index.push((stored, key.0));
                assert(self.path_index@.take(old(self).path_index@.len() as int) =~= old(self).path_index@);
                assert(self.files@.dom() =~= old(self).files@.dom().insert(key.0));
                proof {
                    let before = old(self).path_index@;
                    let after = self.path_index@;
                    let n = before.len() as int;
                    assert forall|j: int| 0 <= j < n implies #[trigger] before[j].0@ != stored@ by {
                        if before[j].0@ == stored@ {
                            lemma_first_entry_exists(before, stored@, j);
                        }
                    }
                    assert forall|i: int| 0 <= i < after.len() implies self.files@.contains_key(
                        #[trigger] after[i].1,
                    ) && self.files@[after[i].1].path@ == after[i].0@ by {
                        if i < n {
                            assert(after[i] == before[i]);
                            assert(old(self).files@.contains_key(before[i].1));
                        }
                    }
                    assert forall|i: int, j: int| 0 <= i < j < after.len() implies (
                    #[trigger] after[i]).0@ != (#[trigger] after[j]).0@ by {
                        assert(after[i] == before[i]);
                        if j < n {
                            assert(after[j] == before[j]);
                        }
                    }
                }
                (key, true)
            },
        }
    }

    /// Maps a kernel file object to a file (ignored for the null object).
    pub fn map_file_object(&mut self, file_object: u64, file_key: FileKey)
        ensures
            final(self).objects() == (if file_object != 0 {
                old(self).objects().insert(file_object, file_key.0)
            } else {
                old(self).objects()
            }),
            final(self).files() == old(self).files(),
            final(self).paths() == old(self).paths(),
            final(self).device_table() == old(self).device_table(),
    {
        if file_object != 0 {
            self.file_objects.insert(file_object, file_key.0);
        }
    }

    /// The file a kernel file object refers to.
    pub fn resolve_file_object(&self, file_object: u64) -> (r: Option<FileKey>)
        ensures
            r == (if self.objects().contains_key(file_object) {
                Some(FileKey(self.objects()[file_object]))
            } else {
                None
            }),
    {
        match self.file_objects.get(&file_object) {
            Some(k) => Some(FileKey(*k)),
            None => None,
        }
    }

    /// The file a kernel file object refers to.
    pub fn get_key_by_file_object(&self, file_object: u64) -> (r: Option<FileKey>)
        ensures
            r == (if self.objects().contains_key(file_object) {
                Some(FileKey(self.objects()[file_object]))
            } else {
                None
            }),
    {
        self.resolve_file_object(file_object)
    }

    /// The tracked file a kernel file object refers to.
    pub fn get_by_file_object(&self, file_object: u64) -> (r: Option<&FileContext>)
        ensures
            r == (if self.objects().contains_key(file_object) && self.files().contains_key(
                self.objects()[file_object],
            ) {
                Some(&self.files()[self.objects()[file_object]])
            } else {
                None
            }),
    {
        match self.file_objects.get(&file_object) {
            Some(k) => self.files.get(k),
            None => None,
        }
    }

    /// Number of mapped kernel file objects.
    pub fn active_file_object_count(&self) -> (n: usize)
        ensures
            n == self.objects().len(),
    {
        self.file_objects.len()
    }

    /// Removes a kernel file object's mapping, returning the file it referred to.
    pub fn unmap_file_object(&mut self, file_object: u64) -> (r: Option<FileKey>)
        ensures
            final(self).objects() == old(self).objects().remove(file_object),
            r == (if old(self).objects().contains_key(file_object) {
                Some(FileKey(old(self).objects()[file_object]))
            } else {
                None
            }),
            final(self).files() == old(self).files(),
            final(self).paths() == old(self).paths(),
            final(self).device_table() == old(self).device_table(),
    {
        match self.file_objects.remove(&file_object) {
            Some(k) => Some(FileKey(k)),
            None => None,
        }
    }

    /// The tracked file at this path (normalized first).
    pub fn get_by_path(&self, path: &str) -> (r: Option<&FileContext>)
        ensures
            r == (match key_for_path(self.paths(), normalized_path(path@, self.device_table())) {
                Some(k) => if self.files().contains_key(k) {
                    Some(&self.files()[k])
                } else {
                    None
                },
                None => None,
            }),
    {
        let normalized = self.normalize(path);
        match self.lookup_path(&normalized) {
            Some(k) => self.files.get(&k),
            None => None,
        }
    }

    /// The tracked file with this key.
    pub fn get_by_key(&self, key: FileKey) -> (r: Option<&FileContext>)
        ensures
            r == (if self.files().contains_key(key.0) {
                Some(&self.files()[key.0])
            } else {
                None
            }),
    {
        self.files.get(&key.0)
    }

    /// Records an access on the tracked file with this key (nothing when untracked).
    pub fn record_access(&mut self, key: FileKey, record: FileAccessRecord)
        requires
            old(self).wf(),
        ensures
            final(self).wf(),
            final(self).files().dom() == old(self).files().dom(),
            forall|k: u64| #[trigger] final(self).files().contains_key(k) && k != key.0 ==> final(self).files()[k] == old(self).files()[k],
            old(self).files().contains_key(key.0) ==> {
                let before = old(self).files()[key.0];
                let after = final(self).files()[key.0];
                &&& after.history() == crate::context::models::file::history_after(before.history(), record)
                &&& after.is_modified == (before.is_modified || record.is_write)
                &&& after.last_accessed == record.timestamp
                &&& after == (FileContext {
                    access_history: after.access_history,
                    is_modified: after.is_modified,
                    last_accessed: after.last_accessed,
                    ..before
                })
            },
            final(self).objects() == old(self).objects(),
            final(self).paths() == old(self).paths(),
            final(self).device_table() == old(self).device_table(),
    {
        if let Some(mut f) = self.files.remove(&key.0) {
            f.record_access(record);
            self.files.insert(key.0, f);
            assert(self.files@.dom() =~= old(self).files@.dom());
            proof {
                lemma_index_kept(self.path_index@, old(self).files@, self.files@);
            }
        } else {
            assert(self.files@ =~= old(self).files@);
        }
    }

    /// Attaches format metadata to the tracked file with this key (nothing when untracked).
    pub fn set_format_info(&mut self, key: FileKey, info: FileFormatInfo)
        requires
            old(self).wf(),
        ensures
            final(self).wf(),
            final(self).files().dom() == old(self).files().dom(),
            forall|k: u64| #[trigger] final(self).files().contains_key(k) && k != key.0 ==> final(self).files()[k] == old(self).files()[k],
            old(self).files().contains_key(key.0) ==> {
                let before = old(self).files()[key.0];
                let after = final(self).files()[key.0];
                &&& after.format_info == info
                &&& after == (FileContext { format_info: after.format_info, ..before })
            },
            final(self).objects() == old(self).objects(),
            final(self).paths() == old(self).paths(),
            final(self).device_table() == old(self).device_table(),
    {
        if let Some(mut f) = self.files.remove(&key.0) {
            f.format_info = info;
            self.files.insert(key.0, f);
            assert(self.files@.dom() =~= old(self).files@.dom());
            proof {
                lemma_index_kept(self.path_index@, old(self).files@, self.files@);
            }
        } else {
            assert(self.files@ =~= old(self).files@);
        }
    }

    /// Records a signature verdict on the tracked file with this key (nothing when
    /// untracked); the file's signer name becomes the verdict's signer.
    pub fn set_signature(&mut self, key: FileKey, sig: DigitalSignature)
        requires
            old(self).wf(),
        ensures
            final(self).wf(),
            final(self).files().dom() == old(self).files().dom(),
            forall|k: u64| #[trigger] final(self).files().contains_key(k) && k != key.0 ==> final(self).files()[k] == old(self).files()[k],
            old(self).files().contains_key(key.0) ==> {
                let before = old(self).files()[key.0];
                let after = final(self).files()[key.0];
                &&& after.signature == sig
                &&& after == (FileContext { signature: after.signature, signer_name: sig.signer_name, ..before })
            },
            final(self).objects() == old(self).objects(),
            final(self).paths() == old(self).paths(),
            final(self).device_table() == old(self).device_table(),
    {
        if let Some(mut f) = self.files.remove(&key.0) {
            f.signer_name = sig.signer_name.clone();
            f.signature = sig;
            self.files.insert(key.0, f);
            assert(self.files@.dom() =~= old(self).files@.dom());
            proof {
                lemma_index_kept(self.path_index@, old(self).files@, self.files@);
            }
        } else {
            assert(self.files@ =~= old(self).files@);
        }
    }

    /// The keys of all tracked files.
    pub fn all_files(&self) -> (v: Vec<FileKey>)
        ensures
            forall|k: FileKey| v@.contains(k) <==> self.files().contains_key(k.0),
    {
        let raw = keys_of(&self.files);
        let n = raw.len();
        let mut v: Vec<FileKey> = Vec::new();
        let mut i: usize = 0;
        while i < n
            invariant
                n == raw@.len(),
                i <= n,
                v@.len() == i,
                forall|j: int| 0 <= j < i ==> #[trigger] v@[j] == FileKey(raw@[j]),
            decreases n - i,
        {
            v.push(FileKey(raw[i]));
            i = i + 1;
        }
        proof {
            assert forall|k: FileKey| v@.contains(k) <==> self.files().contains_key(k.0) by {
                if v@.contains(k) {
                    let j = choose|j: int| 0 <= j < v@.len() && v@[j] == k;
                    assert(raw@.to_set().contains(raw@[j]));
                }
                if self.files().contains_key(k.0) {
                    assert(raw@.to_set().contains(k.0));
                    let j = choose|j: int| 0 <= j < raw@.len() && raw@[j] == k.0;
                    assert(v@[j] == k);
                }
            }
        }
        v
    }

    /// Number of tracked files.
    pub fn len(&self) -> (n: usize)
        ensures
            n == self.files().len(),
    {
        self.files.len()
    }

    /// No file is tracked.
    pub fn is_empty(&self) -> (b: bool)
        ensures
            b == (self.files().len() == 0),
    {
        self.files.len() == 0
    }
}

} // verus!
