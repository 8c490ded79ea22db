//! Configuration rules: a default sensitivity plus ordered per-process
//! entries.
//!
//! A sensitivity value is carried as the 64-bit pattern of the IEEE double
//! that the platform layer parses from the configuration file and writes to
//! the driver. The logic here never computes with sensitivities; it only
//! selects them and compares two patterns for equality, so the pattern is
//! the right plain-value identity for them.
//!
//! Entries are keyed by either a bare executable name or a full path, kept
//! in insertion order with unique keys, mirroring the on-disk file. Path
//! and name are byte strings; matching tries full-path equality first and
//! falls back to equality with the path's basename.

use vstd::prelude::*;

verus! {

/// The bit pattern of the default scaling value 1.0, used when no entry
/// matches and for freshly created entries.
pub const DEFAULT_SENSITIVITY_BITS: u64 = 0x3FF0_0000_0000_0000;

/// The sensitivity used when the configuration names none.
pub fn default_sensitivity() -> (r: u64)
    ensures
        r == DEFAULT_SENSITIVITY_BITS,
{
    DEFAULT_SENSITIVITY_BITS
}

/// One per-process rule: the sensitivity to apply, optionally gated on the
/// pointer cursor being hidden.
#[derive(Debug, Copy, Clone, PartialEq, Eq, Structural)]
pub struct Entry {
    pub sensitivity: u64,
    pub only_if_cursor_hidden: bool,
}

impl Default for Entry {
    /// A fresh entry: default sensitivity, no cursor condition.
    fn default() -> (e: Entry)
        ensures
            e == (Entry { sensitivity: DEFAULT_SENSITIVITY_BITS, only_if_cursor_hidden: false }),
    {
        Entry { sensitivity: DEFAULT_SENSITIVITY_BITS, only_if_cursor_hidden: false }
    }
}

impl Entry {
    /// Whether the entry can be written in the short on-disk form, a bare
    /// sensitivity: only when every optional field has its default value.
    pub fn can_be_short(&self) -> (r: bool)
        ensures
            r == !self.only_if_cursor_hidden,
    {
        !self.only_if_cursor_hidden
    }
}

/// An entry as the on-disk file gives it: either the short form, a bare
/// sensitivity, or the long form with the explicit condition.
#[derive(Debug, Copy, Clone, PartialEq, Eq, Structural)]
pub enum ConfigEntry {
    Short(u64),
    Long(Entry),
}

impl vstd::std_specs::convert::FromSpecImpl<ConfigEntry> for Entry {
    open spec fn obeys_from_spec() -> bool {
        true
    }

    open spec fn from_spec(entry: ConfigEntry) -> Entry {
        match entry {
            ConfigEntry::Short(sensitivity) => Entry { sensitivity, only_if_cursor_hidden: false },
            ConfigEntry::Long(long) => long,
        }
    }
}

impl From<ConfigEntry> for Entry {
    /// The rule an on-disk entry denotes: the short form leaves the cursor
    /// condition off.
    fn from(entry: ConfigEntry) -> (e: Entry)
        ensures
            e == (match entry {
                ConfigEntry::Short(sensitivity) => Entry { sensitivity, only_if_cursor_hidden: false },
                ConfigEntry::Long(long) => long,
            }),
    {
        match entry {
            ConfigEntry::Long(long) => long,
            ConfigEntry::Short(sensitivity) => Entry { sensitivity, only_if_cursor_hidden: false },
        }
    }
}

/// The active configuration: the fallback sensitivity and the per-process
/// entries in file order.
#[derive(Debug)]
pub struct Config {
    pub default_sensitivity: u64,
    pub processes: Vec<(Vec<u8>, Entry)>,
}

impl Config {
    /// Entry keys are unique: each process identity is configured at most
    /// once.
    pub open spec fn wf(self) -> bool {
        forall|i: int, j: int|
            0 <= i < j < self.processes@.len() ==> self.processes@[i].0@ != self.processes@[j].0@
    }
}

impl Default for Config {
    /// The empty configuration: default sensitivity, no entries.
    fn default() -> (c: Config)
        ensures
            c.default_sensitivity == DEFAULT_SENSITIVITY_BITS,
            c.processes@.len() == 0,
            c.wf(),
    {
        Config { default_sensitivity: DEFAULT_SENSITIVITY_BITS, processes: Vec::new() }
    }
}

/// Whether a byte separates path components.
pub open spec fn is_sep(b: u8) -> bool {
    b == 0x5C || b == 0x2F
}

/// Whether the byte string contains a path separator.
pub open spec fn has_sep(p: Seq<u8>) -> bool {
    exists|i: int| 0 <= i < p.len() && is_sep(p[i])
}

/// The basename of a path: the suffix after the last path separator, or
/// the whole string when it has none.
pub open spec fn basename(p: Seq<u8>) -> Seq<u8>
    decreases p.len(),
{
    if p.len() == 0 {
        p
    } else if has_sep(p) {
        basename(p.drop_first())
    } else {
        p
    }
}

/// Exec counterpart of [`is_sep`].
fn is_sep_byte(b: u8) -> (r: bool)
    ensures
        r == is_sep(b),
{
    b == 0x5C || b == 0x2F
}

proof fn lemma_basename_suffix(p: Seq<u8>, cut: int)
    requires
        0 <= cut <= p.len(),
        forall|j: int| cut <= j < p.len() ==> !is_sep(p[j]),
        cut == 0 || is_sep(p[cut - 1]),
    ensures
        basename(p) == p.subrange(cut, p.len() as int),
    decreases cut,
{
    if cut == 0 {
        assert(!has_sep(p));
        assert(p.subrange(0, p.len() as int) =~= p);
    } else {
        assert(has_sep(p));
        let q = p.drop_first();
        assert(forall|j: int| cut - 1 <= j < q.len() ==> !is_sep(#[trigger] q[j]));
        lemma_basename_suffix(q, cut - 1);
        assert(q.subrange(cut - 1, q.len() as int) =~= p.subrange(cut, p.len() as int));
    }
}

/// Computes the basename: the bytes after the last path separator.
pub fn basename_of(path: &Vec<u8>) -> (r: Vec<u8>)
    ensures
        r@ == basename(path@),
{
    let n = path.len();
    let mut cut: usize = 0;
    let mut i: usize = 0;
    while i < n
        invariant
            i <= n,
            cut <= i,
            n == path@.len(),
            forall|j: int| cut <= j < i ==> !is_sep(path@[j]),
            cut == 0 || is_sep(path@[cut - 1]),
        decreases n - i,
    {
        if is_sep_byte(path[i]) {
            cut = i + 1;
        }
        i += 1;
    }
    proof {
        lemma_basename_suffix(path@, cut as int);
    }
    let mut out: Vec<u8> = Vec::new();
    let mut k: usize = cut;
    while k < n
        invariant
            cut <= k <= n,
            n == path@.len(),
            out@ == path@.subrange(cut as int, k as int),
        decreases n - k,
    {
        let b = path[k];
        out.push(b);
        proof {
            assert(out@ =~= path@.subrange(cut as int, k + 1 as int));
        }
        k += 1;
    }
    out
}

/// Whether two byte strings hold the same bytes.
pub fn bytes_eq(a: &Vec<u8>, b: &Vec<u8>) -> (r: bool)
    ensures
        r == (a@ == b@),
{
    if a.len() != b.len() {
        proof {
            assert(a@ != b@);
        }
        return false;
    }
    let n = a.len();
    let mut i: usize = 0;
    while i < n
        invariant
            i <= n,
            n == a@.len(),
            n == b@.len(),
            forall|j: int| 0 <= j < i ==> a@[j] == b@[j],
        decreases n - i,
    {
        if a[i] != b[i] {
            proof {
                assert(a@ != b@);
            }
            return false;
        }
        i += 1;
    }
    proof {
        assert(a@ =~= b@);
    }
    true
}

/// The first entry whose key is exactly `key`, in file order.
pub open spec fn find_key(entries: Seq<(Vec<u8>, Entry)>, key: Seq<u8>) -> Option<Entry>
    decreases entries.len(),
{
    if entries.len() == 0 {
        None
    } else if entries[0].0@ == key {
        Some(entries[0].1)
    } else {
        find_key(entries.drop_first(), key)
    }
}

/// The position of the first entry whose key is exactly `key`.
pub open spec fn find_index(entries: Seq<(Vec<u8>, Entry)>, key: Seq<u8>) -> Option<int>
    decreases entries.len(),
{
    if entries.len() == 0 {
        None
    } else if entries[0].0@ == key {
        Some(0int)
    } else {
        match find_index(entries.drop_first(), key) {
            Some(i) => Some(i + 1),
            None => None,
        }
    }
}

proof fn lemma_find_key_skip(entries: Seq<(Vec<u8>, Entry)>, key: Seq<u8>, i: int)
    requires
        0 <= i <= entries.len(),
        forall|j: int| 0 <= j < i ==> entries[j].0@ != key,
    ensures
        find_key(entries, key) == find_key(entries.skip(i), key),
    decreases i,
{
    if i > 0 {
        lemma_find_key_skip(entries.drop_first(), key, i - 1);
        assert(entries.drop_first().skip(i - 1) =~= entries.skip(i));
    } else {
        assert(entries.skip(0) =~= entries);
    }
}

proof fn lemma_find_index_at(entries: Seq<(Vec<u8>, Entry)>, key: Seq<u8>, i: int)
    requires
        0 <= i < entries.len(),
        forall|j: int| 0 <= j < i ==> entries[j].0@ != key,
        entries[i].0@ == key,
    ensures
        find_index(entries, key) == Some(i),
    decreases i,
{
    if i > 0 {
        lemma_find_index_at(entries.drop_first(), key, i - 1);
    }
}

proof fn lemma_find_index_none(entries: Seq<(Vec<u8>, Entry)>, key: Seq<u8>)
    requires
        forall|j: int| 0 <= j < entries.len() ==> entries[j].0@ != key,
    ensures
        find_index(entries, key) == None::<int>,
    decreases entries.len(),
{
    if entries.len() > 0 {
        lemma_find_index_none(entries.drop_first(), key);
    }
}

/// Finds the first entry keyed exactly `key`.
pub fn find_entry(entries: &Vec<(Vec<u8>, Entry)>, key: &Vec<u8>) -> (r: Option<Entry>)
    ensures
        r == find_key(entries@, key@),
{
    let n = entries.len();
    let mut i: usize = 0;
    while i < n
        invariant
            i <= n,
            n == entries@.len(),
            forall|j: int| 0 <= j < i ==> entries@[j].0@ != key@,
        decreases n - i,
    {
        if bytes_eq(&entries[i].0, key) {
            proof {
                lemma_find_key_skip(entries@, key@, i as int);
                assert(entries@.skip(i as int)[0] == entries@[i as int]);
            }
            return Some(entries[i].1);
        }
        i += 1;
    }
    proof {
        lemma_find_key_skip(entries@, key@, n as int);
    }
    None
}

/// The entry the configuration holds for a focused process: the entry
/// keyed by the full path if there is one, else the entry keyed by the
/// path's basename.
pub open spec fn lookup_spec(c: Config, path: Seq<u8>) -> Option<Entry> {
    match find_key(c.processes@, path) {
        Some(e) => Some(e),
        None => find_key(c.processes@, basename(path)),
    }
}

impl Config {
    /// Looks up the entry for a focused process: full-path equality first,
    /// then basename equality.
    pub fn lookup(&self, path: &Vec<u8>) -> (r: Option<Entry>)
        ensures
            r == lookup_spec(*self, path@),
    {
        match find_entry(&self.processes, path) {
            Some(e) => Some(e),
            None => {
                let base = basename_of(path);
                find_entry(&self.processes, &base)
            },
        }
    }

    /// Rewrites the sensitivity configured for `process`: an existing entry
    /// keeps its place and its cursor condition and only its sensitivity
    /// changes; a process not yet configured is appended as a fresh entry
    /// with the new sensitivity. Every other entry, and the file order,
    /// stays as it was.
    pub fn set_sens(&mut self, process: Vec<u8>, sensitivity: u64)
        ensures
            final(self).default_sensitivity == old(self).default_sensitivity,
            match find_index(old(self).processes@, process@) {
                Some(i) => {
                    &&& final(self).processes@.len() == old(self).processes@.len()
                    &&& forall|j: int|
                        0 <= j < old(self).processes@.len() && j != i ==> final(self).processes@[j]
                            == old(self).processes@[j]
                    &&& final(self).processes@[i].0 == old(self).processes@[i].0
                    &&& final(self).processes@[i].1 == (Entry {
                        sensitivity,
                        only_if_cursor_hidden: old(self).processes@[i].1.only_if_cursor_hidden,
                    })
                },
                None => final(self).processes@ == old(self).processes@.push(
                    (process, Entry { sensitivity, only_if_cursor_hidden: false }),
                ),
            },
            old(self).wf() ==> final(self).wf(),
    {
        let n = self.processes.len();
        let mut i: usize = 0;
        while i < n
            invariant
                i <= n,
                n == self.processes@.len(),
                *self == *old(self),
                forall|j: int| 0 <= j < i ==> self.processes@[j].0@ != process@,
            decreases n - i,
        {
            if bytes_eq(&self.processes[i].0, &process) {
                proof {
                    lemma_find_index_at(self.processes@, process@, i as int);
                }
                self.processes[i].1.sensitivity = sensitivity;
                return ;
            }
            i += 1;
        }
        proof {
            lemma_find_index_none(self.processes@, process@);
        }
        self.processes.push((process, Entry { sensitivity, only_if_cursor_hidden: false }));
    }
}

} // verus!
