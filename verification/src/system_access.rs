//! Access to the host system: file contents, file metadata and command output.
use vstd::prelude::*;

use crate::mode_bits::{directory_type, file_type_mask, regular_file_type, s_ifdir, s_ifmt, s_ifreg};
use crate::text::{
    chars_of, first_index, lemma_first_index_absent, lemma_first_index_found,
    lemma_first_index_props, matches_at, occurs_at,
};
use vstd::utf8::encode_utf8;

verus! {

#[verifier::external_type_specification]
#[verifier::external_body]
pub struct ExIoError(std::io::Error);

/// The subset of file metadata that checks use: owner, group and mode.
#[derive(Clone, Copy, Debug)]
pub struct FileMetadata {
    pub uid: u32,
    pub gid: u32,
    pub mode: u32,
}

impl FileMetadata {
    /// The mode describes a regular file.
    pub open spec fn spec_is_file(self) -> bool {
        self.mode & file_type_mask() == regular_file_type()
    }

    /// The mode describes a directory.
    pub open spec fn spec_is_dir(self) -> bool {
        self.mode & file_type_mask() == directory_type()
    }

    /// Whether the mode describes a regular file.
    pub fn is_file(&self) -> (r: bool)
        ensures
            r == self.spec_is_file(),
    {
        (self.mode & s_ifmt()) == s_ifreg()
    }

    /// Whether the mode describes a directory.
    pub fn is_dir(&self) -> (r: bool)
        ensures
            r == self.spec_is_dir(),
    {
        (self.mode & s_ifmt()) == s_ifdir()
    }
}

/// An entry found by walking a directory tree: its path and metadata.
#[derive(Clone, Debug)]
pub struct DirEntry {
    pub path: String,
    pub metadata: FileMetadata,
}

impl View for DirEntry {
    type V = (Seq<char>, FileMetadata);

    open spec fn view(&self) -> (Seq<char>, FileMetadata) {
        (self.path@, self.metadata)
    }
}

/// What running a command gave: whether it exited successfully, and its output.
#[derive(Clone, Debug)]
pub struct CommandOutput {
    pub success: bool,
    pub stdout: Vec<u8>,
    pub stderr: Vec<u8>,
}

impl View for CommandOutput {
    type V = (bool, Seq<u8>, Seq<u8>);

    open spec fn view(&self) -> (bool, Seq<u8>, Seq<u8>) {
        (self.success, self.stdout@, self.stderr@)
    }
}

/// What opening a file gave: its contents, or nothing when it could not be read.
pub open spec fn opened(r: Result<Vec<u8>, std::io::Error>) -> Option<Seq<u8>> {
    match r {
        Ok(b) => Some(b@),
        Err(_) => None,
    }
}

/// What asking for metadata gave.
pub open spec fn inspected(r: Result<FileMetadata, std::io::Error>) -> Option<FileMetadata> {
    match r {
        Ok(m) => Some(m),
        Err(_) => None,
    }
}

/// What running a command gave: its status and output, or nothing when it could not run.
pub open spec fn ran(r: Result<CommandOutput, std::io::Error>) -> Option<(bool, Seq<u8>, Seq<u8>)> {
    match r {
        Ok(o) => Some(o@),
        Err(_) => None,
    }
}

/// The views of the entries of a directory walk.
pub open spec fn walked(r: Seq<DirEntry>) -> Seq<(Seq<char>, FileMetadata)> {
    r.map_values(|e: DirEntry| e@)
}

/// The host system as checks see it. Implementations plug in the real system or a
/// prepared one, so that checks can be exercised in tests.
///
/// Each operation comes with a relation that says which outcomes it may have. The
/// real system may give different outcomes to two calls with the same arguments;
/// a prepared system gives exactly one. An implementation that does not define a
/// relation admits every outcome for it.
pub trait SystemAccess {
    /// `contents` is a possible outcome of opening `path`.
    open spec fn open_outcome(&self, path: Seq<char>, contents: Option<Seq<u8>>) -> bool {
        true
    }

    /// `m` is a possible outcome of asking for the metadata of `path`.
    open spec fn metadata_outcome(&self, path: Seq<char>, m: Option<FileMetadata>) -> bool {
        true
    }

    /// `present` is a possible answer to whether `path` exists.
    open spec fn presence_outcome(&self, path: Seq<char>, present: bool) -> bool {
        true
    }

    /// `o` is a possible outcome of running `cmd` with `args`.
    open spec fn command_outcome(
        &self,
        cmd: Seq<char>,
        args: Seq<Seq<char>>,
        o: Option<(bool, Seq<u8>, Seq<u8>)>,
    ) -> bool {
        true
    }

    /// `entries` is a possible outcome of walking the tree rooted at `path`.
    open spec fn walk_outcome(&self, path: Seq<char>, entries: Seq<(Seq<char>, FileMetadata)>) -> bool {
        true
    }

    /// The contents of the file at `path`.
    fn open(&self, path: &str) -> (r: Result<Vec<u8>, std::io::Error>)
        ensures
            self.open_outcome(path@, opened(r)),
    ;

    /// The owner, group and mode of the file at `path`.
    fn metadata(&self, path: &str) -> (r: Result<FileMetadata, std::io::Error>)
        ensures
            self.metadata_outcome(path@, inspected(r)),
    ;

    /// Whether `path` exists.
    fn path_exists(&self, path: &str) -> (r: bool)
        ensures
            self.presence_outcome(path@, r),
    ;

    /// The result of running `cmd` with `args`.
    fn command_output(&self, cmd: &str, args: &[&str]) -> (r: Result<CommandOutput, std::io::Error>)
        ensures
            self.command_outcome(cmd@, strs_view(args@), ran(r)),
    ;

    /// Every entry of the directory tree rooted at `path`.
    fn walk_dir(&self, path: &str) -> (r: Vec<DirEntry>)
        ensures
            self.walk_outcome(path@, walked(r@)),
    ;
}

// A table is a sequence of (key, value) entries; a key's value is the one of its
// first entry.

/// The keys of a table, in order.
pub open spec fn keys_of<K, V>(s: Seq<(K, V)>) -> Seq<K> {
    s.map_values(|e: (K, V)| e.0)
}

/// The value that a table holds for `k`.
pub open spec fn lookup<K, V>(s: Seq<(K, V)>, k: K) -> Option<V> {
    let i = first_index(keys_of(s), k);
    if 0 <= i < s.len() {
        Some(s[i].1)
    } else {
        None
    }
}

/// The table with `k` now holding `v`: its entry replaced, or a new entry at the end.
pub open spec fn upsert<K, V>(s: Seq<(K, V)>, k: K, v: V) -> Seq<(K, V)> {
    let i = first_index(keys_of(s), k);
    if 0 <= i < s.len() {
        s.update(i, (k, v))
    } else {
        s.push((k, v))
    }
}

/// Looking up a key after setting it gives the value that was set, and leaves
/// every other key as it was.
pub proof fn law_lookup_upsert<K, V>(s: Seq<(K, V)>, k: K, v: V, other: K)
    ensures
        lookup(upsert(s, k, v), k) == Some(v),
        other != k ==> lookup(upsert(s, k, v), other) == lookup(s, other),
{
    let keys = keys_of(s);
    let t = upsert(s, k, v);
    let tkeys = keys_of(t);
    lemma_first_index_props(keys, k);
    lemma_first_index_props(keys, other);
    let i = first_index(keys, k);
    if i < s.len() {
        assert(tkeys == keys.update(i, k));
        lemma_first_index_found(tkeys, k, i);
        if other != k {
            let j = first_index(keys, other);
            if j < s.len() {
                assert forall|m: int| 0 <= m < j implies tkeys[m] != other by {
                    assert(keys[m] != other);
                }
                lemma_first_index_found(tkeys, other, j);
            } else {
                assert forall|m: int| 0 <= m < tkeys.len() implies tkeys[m] != other by {
                    assert(keys[m] != other);
                }
                lemma_first_index_absent(tkeys, other);
            }
        }
    } else {
        assert(tkeys == keys.push(k));
        assert forall|m: int| 0 <= m < s.len() implies tkeys[m] != k by {
            assert(keys[m] != k);
        }
        lemma_first_index_found(tkeys, k, s.len() as int);
        if other != k {
            let j = first_index(keys, other);
            if j < s.len() {
                assert forall|m: int| 0 <= m < j implies tkeys[m] != other by {
                    assert(keys[m] != other);
                }
                lemma_first_index_found(tkeys, other, j);
            } else {
                assert forall|m: int| 0 <= m < tkeys.len() implies tkeys[m] != other by {
                    if m < s.len() {
                        assert(keys[m] != other);
                    }
                }
                lemma_first_index_absent(tkeys, other);
            }
        }
    }
}

/// Setting a key keeps a table free of duplicate keys.
pub proof fn law_upsert_keeps_keys_unique<K, V>(s: Seq<(K, V)>, k: K, v: V)
    requires
        keys_of(s).no_duplicates(),
    ensures
        keys_of(upsert(s, k, v)).no_duplicates(),
{
    let keys = keys_of(s);
    let tkeys = keys_of(upsert(s, k, v));
    lemma_first_index_props(keys, k);
    let i = first_index(keys, k);
    if i < s.len() {
        assert(tkeys =~= keys);
    } else {
        assert(tkeys =~= keys.push(k));
        assert forall|a: int, b: int| 0 <= a < tkeys.len() && 0 <= b < tkeys.len() && a != b implies tkeys[a]
            != tkeys[b] by {
            if a < s.len() && b < s.len() {
                assert(tkeys[a] == keys[a] && tkeys[b] == keys[b]);
            } else if a < s.len() {
                assert(keys[a] != k);
            } else {
                assert(keys[b] != k);
            }
        }
    }
}

/// `path` begins with `prefix` (as `str::starts_with` decides it).
pub open spec fn starts_with(path: Seq<char>, prefix: Seq<char>) -> bool {
    occurs_at(path, prefix, 0)
}

/// The entries of a metadata table whose paths begin with `prefix`, in table order.
pub open spec fn entries_under(s: Seq<(Seq<char>, FileMetadata)>, prefix: Seq<char>) -> Seq<
    (Seq<char>, FileMetadata),
>
    decreases s.len(),
{
    if s.len() == 0 {
        Seq::empty()
    } else {
        let rest = entries_under(s.drop_last(), prefix);
        if starts_with(s.last().0, prefix) {
            rest.push(s.last())
        } else {
            rest
        }
    }
}

/// An entry is listed under `prefix` exactly when the table holds it and its path
/// begins with `prefix`.
pub proof fn lemma_entries_under_members(
    s: Seq<(Seq<char>, FileMetadata)>,
    prefix: Seq<char>,
    x: (Seq<char>, FileMetadata),
)
    ensures
        entries_under(s, prefix).contains(x) <==> (s.contains(x) && starts_with(x.0, prefix)),
    decreases s.len(),
{
    if s.len() > 0 {
        let t = s.drop_last();
        let rest = entries_under(t, prefix);
        lemma_entries_under_members(t, prefix, x);
        if s.contains(x) {
            let j = choose|j: int| 0 <= j < s.len() && s[j] == x;
            if j < s.len() - 1 {
                assert(t[j] == x);
            }
        }
        if t.contains(x) {
            let j = choose|j: int| 0 <= j < t.len() && t[j] == x;
            assert(s[j] == x);
        }
        if starts_with(s.last().0, prefix) {
            let u = rest.push(s.last());
            if u.contains(x) {
                let j = choose|j: int| 0 <= j < u.len() && u[j] == x;
                if j < rest.len() {
                    assert(rest[j] == x);
                }
            }
            if rest.contains(x) {
                let j = choose|j: int| 0 <= j < rest.len() && rest[j] == x;
                assert(u[j] == x);
            }
            assert(u[rest.len() as int] == s.last());
        }
        assert(s[s.len() - 1] == s.last());
    }
}

/// Listing the entries under `prefix` keeps a table free of duplicate paths.
pub proof fn lemma_entries_under_keys_unique(s: Seq<(Seq<char>, FileMetadata)>, prefix: Seq<char>)
    requires
        keys_of(s).no_duplicates(),
    ensures
        keys_of(entries_under(s, prefix)).no_duplicates(),
    decreases s.len(),
{
    if s.len() > 0 {
        let t = s.drop_last();
        let rest = entries_under(t, prefix);
        assert(keys_of(t) =~= keys_of(s).drop_last());
        lemma_entries_under_keys_unique(t, prefix);
        if starts_with(s.last().0, prefix) {
            let u = rest.push(s.last());
            let ku = keys_of(u);
            let kr = keys_of(rest);
            assert(ku =~= kr.push(s.last().0));
            assert forall|a: int| 0 <= a < kr.len() implies kr[a] != s.last().0 by {
                lemma_entries_under_members(t, prefix, rest[a]);
                assert(rest.contains(rest[a]));
                let j = choose|j: int| 0 <= j < t.len() && t[j] == rest[a];
                assert(keys_of(s)[j] == rest[a].0);
                assert(keys_of(s)[s.len() - 1] == s.last().0);
            }
            assert forall|a: int, b: int| 0 <= a < ku.len() && 0 <= b < ku.len() && a != b implies ku[a]
                != ku[b] by {
                if a < kr.len() && b < kr.len() {
                    assert(ku[a] == kr[a] && ku[b] == kr[b]);
                }
            }
        }
    }
}

/// In a table without duplicate keys, a key's value is `v` exactly when the table
/// holds the entry `(k, v)`.
pub proof fn lemma_lookup_member<K, V>(s: Seq<(K, V)>, k: K, v: V)
    requires
        keys_of(s).no_duplicates(),
    ensures
        lookup(s, k) == Some(v) <==> s.contains((k, v)),
{
    let keys = keys_of(s);
    lemma_first_index_props(keys, k);
    let i = first_index(keys, k);
    if s.contains((k, v)) {
        let j = choose|j: int| 0 <= j < s.len() && s[j] == (k, v);
        assert(keys[j] == k);
        assert(i == j);
    }
    if lookup(s, k) == Some(v) {
        assert(s[i] == (k, v));
    }
}

/// Whether `path` begins with `prefix`.
pub fn path_starts_with(path: &str, prefix: &str) -> (r: bool)
    ensures
        r == starts_with(path@, prefix@),
{
    let p = chars_of(path);
    let q = chars_of(prefix);
    if q.len() > p.len() {
        false
    } else {
        matches_at(&p, &q, 0)
    }
}

/// The views of a sequence of string slices.
pub open spec fn strs_view(args: Seq<&str>) -> Seq<Seq<char>> {
    args.map_values(|a: &str| a@)
}

/// The views of a sequence of strings.
pub open spec fn strings_view(args: Seq<String>) -> Seq<Seq<char>> {
    args.map_values(|a: String| a@)
}

fn same_args(stored: &Vec<String>, args: &[&str]) -> (r: bool)
    ensures
        r == (strings_view(stored@) == strs_view(args@)),
{
    if stored.len() != args.len() {
        assert(strings_view(stored@).len() != strs_view(args@).len());
        return false;
    }
    let mut i: usize = 0;
    while i < stored.len()
        invariant
            stored@.len() == args@.len(),
            i <= stored@.len(),
            forall|j: int| 0 <= j < i ==> stored@[j]@ == args@[j]@,
        decreases stored.len() - i,
    {
        let a = args[i].to_owned();
        if stored[i] != a {
            assert(strings_view(stored@)[i as int] != strs_view(args@)[i as int]);
            return false;
        }
        i = i + 1;
    }
    assert(strings_view(stored@) =~= strs_view(args@));
    true
}

fn strings_of(args: &[&str]) -> (r: Vec<String>)
    ensures
        strings_view(r@) == strs_view(args@),
{
    let mut r: Vec<String> = Vec::new();
    let mut i: usize = 0;
    while i < args.len()
        invariant
            i <= args@.len(),
            strings_view(r@) == strs_view(args@).take(i as int),
        decreases args.len() - i,
    {
        let ghost before = r@;
        r.push(args[i].to_owned());
        assert(strings_view(r@) =~= strings_view(before).push(args@[i as int]@));
        assert(strs_view(args@).take(i + 1) =~= strs_view(args@).take(i as int).push(
            args@[i as int]@,
        ));
        i = i + 1;
    }
    assert(strs_view(args@).take(i as int) =~= strs_view(args@));
    r
}

/// `std::io::Error::new` with kind `NotFound` and the message "No such file or
/// directory". Nothing is stated of the error value.
#[verifier::external_body]
fn not_found_error() -> std::io::Error {
    std::io::Error::new(std::io::ErrorKind::NotFound, "No such file or directory")
}

spec fn file_entries(t: Seq<(String, String)>) -> Seq<(Seq<char>, Seq<char>)> {
    t.map_values(|e: (String, String)| (e.0@, e.1@))
}

spec fn metadata_entries(t: Seq<(String, FileMetadata)>) -> Seq<(Seq<char>, FileMetadata)> {
    t.map_values(|e: (String, FileMetadata)| (e.0@, e.1))
}

spec fn command_entries(t: Seq<((String, Vec<String>), CommandOutput)>) -> Seq<
    ((Seq<char>, Seq<Seq<char>>), (bool, Seq<u8>, Seq<u8>)),
> {
    t.map_values(
        |e: ((String, Vec<String>), CommandOutput)| ((e.0.0@, strings_view(e.0.1@)), e.1@),
    )
}

/// The paths of a table keyed by path, in order.
spec fn path_keys<V>(t: Seq<(String, V)>) -> Seq<Seq<char>> {
    t.map_values(|e: (String, V)| e.0@)
}

/// Index of the first entry of a table keyed by path whose path is `key`, or the
/// number of entries.
fn key_index<V>(table: &Vec<(String, V)>, key: &str) -> (r: usize)
    ensures
        r == first_index(path_keys(table@), key@),
{
    let owned = key.to_owned();
    let ghost keys = path_keys(table@);
    let mut i: usize = 0;
    while i < table.len()
        invariant
            keys == path_keys(table@),
            owned@ == key@,
            i <= table@.len(),
            forall|j: int| 0 <= j < i ==> keys[j] != key@,
        decreases table.len() - i,
    {
        assert(keys[i as int] == table@[i as int].0@);
        if table[i].0 == owned {
            proof {
                lemma_first_index_found(keys, key@, i as int);
            }
            return i;
        }
        i = i + 1;
    }
    proof {
        lemma_first_index_absent(keys, key@);
    }
    i
}

/// A prepared system for tests: files, metadata and command outputs registered in
/// advance. Only what was registered exists.
pub struct UnitTestSystemAccess {
    files: Vec<(String, String)>,
    metadata: Vec<(String, FileMetadata)>,
    commands: Vec<((String, Vec<String>), CommandOutput)>,
}

impl UnitTestSystemAccess {
    /// Registered files and their contents.
    pub closed spec fn files_view(&self) -> Seq<(Seq<char>, Seq<char>)> {
        file_entries(self.files@)
    }

    /// Registered metadata.
    pub closed spec fn metadata_view(&self) -> Seq<(Seq<char>, FileMetadata)> {
        metadata_entries(self.metadata@)
    }

    /// Registered commands, keyed by command and arguments, with their output.
    pub closed spec fn commands_view(&self) -> Seq<
        ((Seq<char>, Seq<Seq<char>>), (bool, Seq<u8>, Seq<u8>)),
    > {
        command_entries(self.commands@)
    }

    /// No path, and no command with its arguments, is registered twice.
    #[verifier::type_invariant]
    spec fn keys_are_unique(self) -> bool {
        &&& keys_of(self.files_view()).no_duplicates()
        &&& keys_of(self.metadata_view()).no_duplicates()
        &&& keys_of(self.commands_view()).no_duplicates()
    }

    /// A system on which nothing is registered.
    pub fn new() -> (s: Self)
        ensures
            s.files_view() == Seq::<(Seq<char>, Seq<char>)>::empty(),
            s.metadata_view() == Seq::<(Seq<char>, FileMetadata)>::empty(),
            s.commands_view() == Seq::<
                ((Seq<char>, Seq<Seq<char>>), (bool, Seq<u8>, Seq<u8>)),
            >::empty(),
    {
        let s = UnitTestSystemAccess { files: Vec::new(), metadata: Vec::new(), commands: Vec::new() };
        assert(s.files_view() =~= Seq::<(Seq<char>, Seq<char>)>::empty());
        assert(s.metadata_view() =~= Seq::<(Seq<char>, FileMetadata)>::empty());
        assert(s.commands_view() =~= Seq::<
            ((Seq<char>, Seq<Seq<char>>), (bool, Seq<u8>, Seq<u8>)),
        >::empty());
        s
    }

    fn file_index(&self, path: &str) -> (r: usize)
        ensures
            r == first_index(keys_of(self.files_view()), path@),
    {
        assert(keys_of(self.files_view()) =~= path_keys(self.files@));
        key_index(&self.files, path)
    }

    fn metadata_index(&self, path: &str) -> (r: usize)
        ensures
            r == first_index(keys_of(self.metadata_view()), path@),
    {
        assert(keys_of(self.metadata_view()) =~= path_keys(self.metadata@));
        key_index(&self.metadata, path)
    }

    fn command_index(&self, cmd: &str, args: &[&str]) -> (r: usize)
        ensures
            r == first_index(keys_of(self.commands_view()), (cmd@, strs_view(args@))),
    {
        let key = cmd.to_owned();
        let ghost k = (cmd@, strs_view(args@));
        let ghost keys = keys_of(self.commands_view());
        let mut i: usize = 0;
        while i < self.commands.len()
            invariant
                keys == keys_of(self.commands_view()),
                key@ == cmd@,
                k == (cmd@, strs_view(args@)),
                i <= self.commands@.len(),
                forall|j: int| 0 <= j < i ==> keys[j] != k,
            decreases self.commands.len() - i,
        {
            assert(keys[i as int] == (
                self.commands@[i as int].0.0@,
                strings_view(self.commands@[i as int].0.1@),
            ));
            if self.commands[i].0.0 == key && same_args(&self.commands[i].0.1, args) {
                proof {
                    lemma_first_index_found(keys, k, i as int);
                }
                return i;
            }
            i = i + 1;
        }
        proof {
            lemma_first_index_absent(keys, k);
        }
        i
    }

    /// Registers a file with the given contents, replacing any earlier registration.
    pub fn register_file(&mut self, path: &str, contents: &str)
        ensures
            final(self).files_view() == upsert(old(self).files_view(), path@, contents@),
            final(self).metadata_view() == old(self).metadata_view(),
            final(self).commands_view() == old(self).commands_view(),
    {
        let i = self.file_index(path);
        proof {
            use_type_invariant(&*self);
            lemma_first_index_props(keys_of(self.files_view()), path@);
            law_upsert_keeps_keys_unique(self.files_view(), path@, contents@);
        }
        let entry = (path.to_owned(), contents.to_owned());
        let mut table = Vec::new();
        std::mem::swap(&mut table, &mut self.files);
        if i < table.len() {
            table.set(i, entry);
        } else {
            table.push(entry);
        }
        assert(file_entries(table@) =~= upsert(old(self).files_view(), path@, contents@));
        self.files = table;
    }

    /// Registers a file together with its metadata.
    pub fn register_file_with_metadata(
        &mut self,
        path: &str,
        contents: &str,
        mode: u32,
        uid: u32,
        gid: u32,
    )
        ensures
            final(self).files_view() == upsert(old(self).files_view(), path@, contents@),
            final(self).metadata_view() == upsert(
                old(self).metadata_view(),
                path@,
                FileMetadata { uid, gid, mode },
            ),
            final(self).commands_view() == old(self).commands_view(),
    {
        self.register_file(path, contents);
        let i = self.metadata_index(path);
        proof {
            use_type_invariant(&*self);
            lemma_first_index_props(keys_of(self.metadata_view()), path@);
            law_upsert_keeps_keys_unique(self.metadata_view(), path@, FileMetadata { uid, gid, mode });
        }
        let entry = (path.to_owned(), FileMetadata { uid, gid, mode });
        let ghost before = self.metadata_view();
        let mut table = Vec::new();
        std::mem::swap(&mut table, &mut self.metadata);
        if i < table.len() {
            table.set(i, entry);
        } else {
            table.push(entry);
        }
        assert(metadata_entries(table@) =~= upsert(before, path@, FileMetadata { uid, gid, mode }));
        self.metadata = table;
    }

    /// Registers the output of running `command` with `args`.
    pub fn register_command(&mut self, command: &str, args: &[&str], output: CommandOutput)
        ensures
            final(self).commands_view() == upsert(
                old(self).commands_view(),
                (command@, strs_view(args@)),
                output@,
            ),
            final(self).files_view() == old(self).files_view(),
            final(self).metadata_view() == old(self).metadata_view(),
    {
        let i = self.command_index(command, args);
        proof {
            use_type_invariant(&*self);
            lemma_first_index_props(keys_of(self.commands_view()), (command@, strs_view(args@)));
            law_upsert_keeps_keys_unique(self.commands_view(), (command@, strs_view(args@)), output@);
        }
        let ghost out = output@;
        let entry = ((command.to_owned(), strings_of(args)), output);
        let mut table = Vec::new();
        std::mem::swap(&mut table, &mut self.commands);
        if i < table.len() {
            table.set(i, entry);
        } else {
            table.push(entry);
        }
        assert(command_entries(table@) =~= upsert(
            old(self).commands_view(),
            (command@, strs_view(args@)),
            out,
        ));
        self.commands = table;
    }
}

impl Default for UnitTestSystemAccess {
    fn default() -> (s: Self)
        ensures
            s.files_view() == Seq::<(Seq<char>, Seq<char>)>::empty(),
            s.metadata_view() == Seq::<(Seq<char>, FileMetadata)>::empty(),
            s.commands_view() == Seq::<
                ((Seq<char>, Seq<Seq<char>>), (bool, Seq<u8>, Seq<u8>)),
            >::empty(),
    {
        Self::new()
    }
}

impl SystemAccess for UnitTestSystemAccess {
    open spec fn open_outcome(&self, path: Seq<char>, contents: Option<Seq<u8>>) -> bool {
        contents == match lookup(self.files_view(), path) {
            Some(c) => Some(encode_utf8(c)),
            None => None,
        }
    }

    open spec fn metadata_outcome(&self, path: Seq<char>, m: Option<FileMetadata>) -> bool {
        m == lookup(self.metadata_view(), path)
    }

    open spec fn presence_outcome(&self, path: Seq<char>, present: bool) -> bool {
        present == lookup(self.files_view(), path) is Some
    }

    open spec fn command_outcome(
        &self,
        cmd: Seq<char>,
        args: Seq<Seq<char>>,
        o: Option<(bool, Seq<u8>, Seq<u8>)>,
    ) -> bool {
        o == lookup(self.commands_view(), (cmd, args))
    }

    open spec fn walk_outcome(&self, path: Seq<char>, entries: Seq<(Seq<char>, FileMetadata)>) -> bool {
        entries == entries_under(self.metadata_view(), path)
    }

    fn open(&self, path: &str) -> (r: Result<Vec<u8>, std::io::Error>)
        ensures
            r is Ok <==> lookup(self.files_view(), path@) is Some,
            r matches Ok(bytes) ==> bytes@ == encode_utf8(lookup(self.files_view(), path@)->0),
    {
        let i = self.file_index(path);
        proof {
            lemma_first_index_props(keys_of(self.files_view()), path@);
        }
        if i < self.files.len() {
            let contents = self.files[i].1.as_str().as_bytes();
            Ok(vstd::slice::slice_to_vec(contents))
        } else {
            Err(not_found_error())
        }
    }

    fn metadata(&self, path: &str) -> (r: Result<FileMetadata, std::io::Error>)
        ensures
            r is Ok <==> lookup(self.metadata_view(), path@) is Some,
            r matches Ok(m) ==> m == lookup(self.metadata_view(), path@)->0,
    {
        let i = self.metadata_index(path);
        proof {
            lemma_first_index_props(keys_of(self.metadata_view()), path@);
        }
        if i < self.metadata.len() {
            Ok(self.metadata[i].1)
        } else {
            Err(not_found_error())
        }
    }

    fn path_exists(&self, path: &str) -> (r: bool)
        ensures
            r == lookup(self.files_view(), path@) is Some,
    {
        let i = self.file_index(path);
        proof {
            lemma_first_index_props(keys_of(self.files_view()), path@);
        }
        i < self.files.len()
    }

    fn command_output(&self, cmd: &str, args: &[&str]) -> (r: Result<
        CommandOutput,
        std::io::Error,
    >)
        ensures
            r is Ok <==> lookup(self.commands_view(), (cmd@, strs_view(args@))) is Some,
            r matches Ok(o) ==> o@ == lookup(self.commands_view(), (cmd@, strs_view(args@)))->0,
    {
        let i = self.command_index(cmd, args);
        proof {
            lemma_first_index_props(keys_of(self.commands_view()), (cmd@, strs_view(args@)));
        }
        if i < self.commands.len() {
            let o = &self.commands[i].1;
            Ok(CommandOutput {
                success: o.success,
                stdout: vstd::slice::slice_to_vec(o.stdout.as_slice()),
                stderr: vstd::slice::slice_to_vec(o.stderr.as_slice()),
            })
        } else {
            Err(not_found_error())
        }
    }

    fn walk_dir(&self, path: &str) -> (r: Vec<DirEntry>)
        ensures
            r@.map_values(|e: DirEntry| e@) == entries_under(self.metadata_view(), path@),
            keys_of(walked(r@)).no_duplicates(),
            forall|p: Seq<char>, m: FileMetadata|
                #[trigger] walked(r@).contains((p, m)) <==> (starts_with(p, path@) && lookup(
                    self.metadata_view(),
                    p,
                ) == Some(m)),
    {
        proof {
            use_type_invariant(self);
            lemma_entries_under_keys_unique(self.metadata_view(), path@);
            assert forall|p: Seq<char>, m: FileMetadata|
                #[trigger] entries_under(self.metadata_view(), path@).contains((p, m)) <==> (
                starts_with(p, path@) && lookup(self.metadata_view(), p) == Some(m)) by {
                lemma_entries_under_members(self.metadata_view(), path@, (p, m));
                lemma_lookup_member(self.metadata_view(), p, m);
            }
        }
        let mut r: Vec<DirEntry> = Vec::new();
        let mut i: usize = 0;
        while i < self.metadata.len()
            invariant
                i <= self.metadata@.len(),
                r@.map_values(|e: DirEntry| e@) == entries_under(
                    self.metadata_view().take(i as int),
                    path@,
                ),
            decreases self.metadata.len() - i,
        {
            let ghost before = r@;
            let ghost t = self.metadata_view().take(i + 1);
            assert(t.drop_last() =~= self.metadata_view().take(i as int));
            assert(t.last() == (self.metadata@[i as int].0@, self.metadata@[i as int].1));
            if path_starts_with(self.metadata[i].0.as_str(), path) {
                r.push(
                    DirEntry { path: self.metadata[i].0.clone(), metadata: self.metadata[i].1 },
                );
                assert(r@.map_values(|e: DirEntry| e@) =~= before.map_values(|e: DirEntry| e@).push(
                    t.last(),
                ));
            }
            i = i + 1;
        }
        assert(self.metadata_view().take(i as int) =~= self.metadata_view());
        r
    }
}

} // verus!
