//! The backup engine.
//!
//! A run copies the files of a source tree into a destination tree,
//! optionally restricted by an extension filter, verifies every copy by
//! comparing content digests, counts progress, and honours a cooperative
//! stop request at file boundaries.
//!
//! The engine works on plain values: a source tree is a list of
//! [`FileEntry`] values and a destination is a [`DestTree`], whose
//! abstract state is the map from paths to contents.  [`run_in_memory`]
//! performs and verifies a whole run over such trees; [`BackupRun`] is the
//! step-by-step interface for a driver that does real file I/O and feeds
//! the engine what it read and wrote.

use vstd::prelude::*;

use crate::digest::bytes_equal;
use crate::digest::content_digest;
use crate::digest::digest_of;
use crate::filter::matches_file_type;
use crate::filter::spec_matches_file_type;

verus! {

/// Which files a backup copies.
#[derive(Clone, Copy, PartialEq, Eq, Structural, Debug)]
pub enum BackupMode {
    /// Copy every file.
    All,
    /// Copy only files whose extension is in the filter.
    Custom,
}

/// Immutable snapshot of one backup attempt's settings.
pub struct BackupConfig {
    /// Whether every file or only filtered files are copied.
    pub mode: BackupMode,
    /// Normalized extensions (each with its leading dot) for custom mode.
    pub extension_filter: Vec<Vec<u8>>,
}

impl BackupConfig {
    /// Whether every file is copied: mode `All`, or a custom backup whose
    /// filter is empty.
    pub open spec fn spec_include_all(&self) -> bool {
        self.mode is All || self.extension_filter@.len() == 0
    }

    /// Whether the file at `path` is copied by this backup.
    pub open spec fn spec_selects(&self, path: Seq<u8>) -> bool {
        self.spec_include_all() || spec_matches_file_type(path, self.extension_filter.deep_view())
    }

    /// Decides whether the file at `path` is copied by this backup.
    pub fn selects(&self, path: &Vec<u8>) -> (selected: bool)
        ensures
            selected == self.spec_selects(path@),
    {
        match self.mode {
            BackupMode::All => true,
            BackupMode::Custom => {
                if self.extension_filter.len() == 0 {
                    true
                } else {
                    matches_file_type(path, &self.extension_filter)
                }
            },
        }
    }
}

/// One file of an in-memory tree: a relative path (components separated by
/// `/`) and its content bytes.
pub struct FileEntry {
    /// Path relative to the tree root.
    pub path: Vec<u8>,
    /// Content bytes.
    pub data: Vec<u8>,
}

fn copy_bytes(src: &Vec<u8>) -> (out: Vec<u8>)
    ensures
        out@ == src@,
{
    let mut out: Vec<u8> = Vec::new();
    let mut i: usize = 0;
    while i < src.len()
        invariant
            0 <= i <= src@.len(),
            out@ =~= src@.subrange(0, i as int),
        decreases src@.len() - i,
    {
        out.push(src[i]);
        i = i + 1;
    }
    assert(out@ =~= src@);
    out
}

/// The path-to-content map a list of entries denotes, later entries
/// overriding earlier ones.
spec fn spec_map_of(files: Seq<FileEntry>) -> Map<Seq<u8>, Seq<u8>>
    decreases files.len(),
{
    if files.len() == 0 {
        Map::empty()
    } else {
        spec_map_of(files.drop_last()).insert(files.last().path@, files.last().data@)
    }
}

spec fn spec_distinct_paths(files: Seq<FileEntry>) -> bool {
    forall|i: int, j: int| 0 <= i < j < files.len() ==> files[i].path@ != files[j].path@
}

proof fn lemma_map_of_domain(files: Seq<FileEntry>)
    ensures
        spec_map_of(files).dom().finite(),
        forall|p: Seq<u8>|
            #[trigger] spec_map_of(files).dom().contains(p) <==> exists|i: int|
                0 <= i < files.len() && (#[trigger] files[i].path@) == p,
    decreases files.len(),
{
    if files.len() == 0 {
    } else {
        let t = files.drop_last();
        lemma_map_of_domain(t);
        assert forall|p: Seq<u8>| #[trigger] spec_map_of(files).dom().contains(p) implies exists|i: int|
            0 <= i < files.len() && (#[trigger] files[i].path@) == p by {
            if p == files.last().path@ {
                assert(files[files.len() - 1].path@ == p);
            } else {
                assert(spec_map_of(t).dom().contains(p));
                let i = choose|i: int| 0 <= i < t.len() && (#[trigger] t[i].path@) == p;
                assert(files[i].path@ == p);
            }
        }
        assert forall|p: Seq<u8>|
            (exists|i: int|
                0 <= i < files.len() && (#[trigger] files[i].path@) == p) implies #[trigger] spec_map_of(
            files,
        ).dom().contains(p) by {
            let i = choose|i: int| 0 <= i < files.len() && (#[trigger] files[i].path@) == p;
            if i == files.len() - 1 {
            } else {
                assert(t[i].path@ == p);
                assert(spec_map_of(t).dom().contains(p));
            }
        }
    }
}

proof fn lemma_map_of_at(files: Seq<FileEntry>, i: int)
    requires
        spec_distinct_paths(files),
        0 <= i < files.len(),
    ensures
        spec_map_of(files).dom().contains(files[i].path@),
        spec_map_of(files)[files[i].path@] == files[i].data@,
    decreases files.len(),
{
    if i == files.len() - 1 {
    } else {
        let t = files.drop_last();
        assert(spec_distinct_paths(t));
        assert(t[i].path@ == files[i].path@);
        lemma_map_of_at(t, i);
        assert(files[i].path@ != files.last().path@);
    }
}

proof fn lemma_map_of_update(files: Seq<FileEntry>, i: int, entry: FileEntry)
    requires
        spec_distinct_paths(files),
        0 <= i < files.len(),
        entry.path@ == files[i].path@,
    ensures
        spec_map_of(files.update(i, entry)) =~= spec_map_of(files).insert(entry.path@, entry.data@),
    decreases files.len(),
{
    let updated = files.update(i, entry);
    if i == files.len() - 1 {
        assert(updated.drop_last() =~= files.drop_last());
        assert(updated.last() == entry);
    } else {
        let t = files.drop_last();
        assert(spec_distinct_paths(t));
        assert(t[i].path@ == files[i].path@);
        lemma_map_of_update(t, i, entry);
        assert(updated.drop_last() =~= t.update(i, entry));
        assert(updated.last() == files.last());
        assert(files[i].path@ != files.last().path@);
        assert(spec_map_of(updated) =~= spec_map_of(t).insert(entry.path@, entry.data@).insert(
            files.last().path@,
            files.last().data@,
        ));
        assert(spec_map_of(t).insert(entry.path@, entry.data@).insert(
            files.last().path@,
            files.last().data@,
        ) =~= spec_map_of(files).insert(entry.path@, entry.data@));
    }
}

proof fn lemma_map_of_len(files: Seq<FileEntry>)
    requires
        spec_distinct_paths(files),
    ensures
        spec_map_of(files).dom().len() == files.len(),
    decreases files.len(),
{
    if files.len() == 0 {
        assert(spec_map_of(files).dom() =~= Set::<Seq<u8>>::empty());
    } else {
        let t = files.drop_last();
        assert(spec_distinct_paths(t));
        lemma_map_of_len(t);
        lemma_map_of_domain(t);
        assert(!spec_map_of(t).dom().contains(files.last().path@)) by {
            if spec_map_of(t).dom().contains(files.last().path@) {
                let i = choose|i: int|
                    0 <= i < t.len() && (#[trigger] t[i].path@) == files.last().path@;
                assert(files[i].path@ == files[files.len() - 1].path@);
            }
        }
        assert(spec_map_of(files).dom() =~= spec_map_of(t).dom().insert(files.last().path@));
    }
}

/// In-memory destination tree: a set of files keyed by relative path.
/// Its abstract state is the map from paths to content bytes.
pub struct DestTree {
    files: Vec<FileEntry>,
}

impl View for DestTree {
    type V = Map<Seq<u8>, Seq<u8>>;

    closed spec fn view(&self) -> Map<Seq<u8>, Seq<u8>> {
        spec_map_of(self.files@)
    }
}

impl DestTree {
    /// No two stored entries share a path.
    pub closed spec fn wf(&self) -> bool {
        spec_distinct_paths(self.files@)
    }

    /// Creates an empty tree.
    pub fn new() -> (tree: Self)
        ensures
            tree.wf(),
            tree@ =~= Map::<Seq<u8>, Seq<u8>>::empty(),
    {
        DestTree { files: Vec::new() }
    }

    /// Writes `data` at `path`, overwriting any file already stored there.
    pub fn write_file(&mut self, path: &Vec<u8>, data: &Vec<u8>)
        requires
            old(self).wf(),
        ensures
            final(self).wf(),
            final(self)@ == old(self)@.insert(path@, data@),
    {
        let entry = FileEntry { path: copy_bytes(path), data: copy_bytes(data) };
        let mut i: usize = 0;
        while i < self.files.len()
            invariant
                0 <= i <= self.files@.len(),
                self == old(self),
                self.wf(),
                entry.path@ == path@,
                entry.data@ == data@,
                forall|j: int| 0 <= j < i ==> self.files@[j].path@ != path@,
            decreases self.files@.len() - i,
        {
            if bytes_equal(&self.files[i].path, path) {
                proof {
                    lemma_map_of_update(self.files@, i as int, entry);
                }
                let ghost before = self.files@;
                self.files.set(i, entry);
                proof {
                    assert forall|a: int, b: int|
                        0 <= a < b < self.files@.len() implies self.files@[a].path@
                        != self.files@[b].path@ by {
                        assert(self.files@[a].path@ == before[a].path@);
                        assert(self.files@[b].path@ == before[b].path@);
                    }
                }
                return;
            }
            i = i + 1;
        }
        proof {
            lemma_map_of_domain(self.files@);
        }
        let ghost before = self.files@;
        self.files.push(entry);
        proof {
            assert(self.files@.drop_last() =~= before);
            assert(self.files@.last() == entry);
            assert forall|a: int, b: int|
                0 <= a < b < self.files@.len() implies self.files@[a].path@
                != self.files@[b].path@ by {
                if b == self.files@.len() - 1 {
                    assert(self.files@[a].path@ == before[a].path@);
                    assert(before[a].path@ != path@);
                } else {
                    assert(self.files@[a].path@ == before[a].path@);
                    assert(self.files@[b].path@ == before[b].path@);
                }
            }
        }
    }

    /// The content stored at `path`, if any.
    pub fn get(&self, path: &Vec<u8>) -> (content: Option<&Vec<u8>>)
        requires
            self.wf(),
        ensures
            match content {
                Some(data) => self@.dom().contains(path@) && self@[path@] == data@,
                None => !self@.dom().contains(path@),
            },
    {
        let mut i: usize = 0;
        while i < self.files.len()
            invariant
                0 <= i <= self.files@.len(),
                self.wf(),
                forall|j: int| 0 <= j < i ==> self.files@[j].path@ != path@,
            decreases self.files@.len() - i,
        {
            if bytes_equal(&self.files[i].path, path) {
                proof {
                    lemma_map_of_at(self.files@, i as int);
                }
                return Some(&self.files[i].data);
            }
            i = i + 1;
        }
        proof {
            lemma_map_of_domain(self.files@);
        }
        None
    }

    /// Number of files stored.
    pub fn file_count(&self) -> (count: usize)
        requires
            self.wf(),
        ensures
            count == self@.dom().len(),
    {
        proof {
            lemma_map_of_len(self.files@);
        }
        self.files.len()
    }
}

/// Abstract state of a [`BackupProgress`].
#[verifier::ext_equal]
pub struct ProgressModel {
    /// Files found under the source, whatever the filter.
    pub files_total: int,
    /// Files copied and verified so far.
    pub files_copied: int,
    /// Bytes copied and verified so far.
    pub bytes_copied: int,
    /// Path of the file copied most recently.
    pub current_file: Option<Seq<u8>>,
}

/// Live progress of one backup run: a single writer updates it after every
/// verified copy, readers poll a snapshot of it.
pub struct BackupProgress {
    /// Files found under the source, whatever the filter.
    pub files_total: u64,
    /// Files copied and verified so far.
    pub files_copied: u64,
    /// Bytes copied and verified so far.
    pub bytes_copied: u64,
    /// Path of the file copied most recently.
    pub current_file: Option<Vec<u8>>,
}

impl View for BackupProgress {
    type V = ProgressModel;

    open spec fn view(&self) -> ProgressModel {
        ProgressModel {
            files_total: self.files_total as int,
            files_copied: self.files_copied as int,
            bytes_copied: self.bytes_copied as int,
            current_file: match self.current_file {
                Some(p) => Some(p@),
                None => None,
            },
        }
    }
}

/// Why a backup configuration was unusable.
#[derive(Clone, Copy, PartialEq, Eq, Structural, Debug)]
pub enum ConfigIssue {
    /// No complete configuration was provided.
    NotConfigured,
    /// The source folder does not exist or is not a directory.
    SourceMissing,
    /// The destination folder does not exist or is not a directory.
    DestinationMissing,
}

/// A fatal failure of one backup run.
#[derive(Clone, PartialEq, Eq, Debug)]
pub enum BackupError {
    /// The configuration was unusable; nothing was copied.
    ConfigError(ConfigIssue),
    /// A filesystem operation failed; the message describes it.
    IoError(Vec<u8>),
    /// A copy did not verify; the payload names the corrupted file.
    CorruptionError(Vec<u8>),
}

/// Terminal result of one backup run.
#[derive(Clone, PartialEq, Eq, Debug)]
pub enum BackupOutcome {
    /// Every selected file was copied and verified.
    Success,
    /// A stop request was honoured at a file boundary.
    Cancelled,
    /// The run failed; already-copied files stay in place.
    Failed(BackupError),
}

/// The check the engine runs before any copying: the configuration must be
/// present and both folders must exist as directories.
pub fn validate_backup_preconditions(
    configured: bool,
    source_is_dir: bool,
    destination_is_dir: bool,
) -> (issue: Option<ConfigIssue>)
    ensures
        issue == (if !configured {
            Some(ConfigIssue::NotConfigured)
        } else if !source_is_dir {
            Some(ConfigIssue::SourceMissing)
        } else if !destination_is_dir {
            Some(ConfigIssue::DestinationMissing)
        } else {
            None::<ConfigIssue>
        }),
{
    if !configured {
        Some(ConfigIssue::NotConfigured)
    } else if !source_is_dir {
        Some(ConfigIssue::SourceMissing)
    } else if !destination_is_dir {
        Some(ConfigIssue::DestinationMissing)
    } else {
        None
    }
}

/// One backup run driven step by step: a driver walks the real source tree,
/// asks [`BackupRun::should_copy`] about each file, copies it, reads the
/// destination back and hands both to [`BackupRun::record_copy`].  The run
/// ends with exactly one of cancel, error or finish.
pub struct BackupRun {
    /// The settings of this run.
    pub config: BackupConfig,
    /// Live progress.
    pub progress: BackupProgress,
    /// Terminal outcome, once the run has ended.
    pub outcome: Option<BackupOutcome>,
}

impl BackupRun {
    /// Starts a run: `files_total` files were counted under the source
    /// before any copying.
    pub fn new(config: BackupConfig, files_total: u64) -> (run: Self)
        ensures
            run.config == config,
            run.progress@ == (ProgressModel {
                files_total: files_total as int,
                files_copied: 0,
                bytes_copied: 0,
                current_file: None,
            }),
            run.outcome is None,
    {
        BackupRun {
            config,
            progress: BackupProgress {
                files_total,
                files_copied: 0,
                bytes_copied: 0,
                current_file: None,
            },
            outcome: None,
        }
    }

    /// Whether the file at `path` is to be copied.
    pub fn should_copy(&self, path: &Vec<u8>) -> (selected: bool)
        ensures
            selected == self.config.spec_selects(path@),
    {
        self.config.selects(path)
    }

    /// A pending stop request was observed at an entry boundary: the run
    /// ends as cancelled, progress untouched.
    pub fn observe_cancel(&mut self)
        requires
            old(self).outcome is None,
        ensures
            final(self).outcome == Some(BackupOutcome::Cancelled),
            final(self).progress == old(self).progress,
            final(self).config == old(self).config,
    {
        self.outcome = Some(BackupOutcome::Cancelled);
    }

    /// A filesystem operation failed: the run ends with an I/O error
    /// carrying `message`, progress untouched.
    pub fn record_io_error(&mut self, message: Vec<u8>)
        requires
            old(self).outcome is None,
        ensures
            final(self).outcome matches Some(o) && o matches BackupOutcome::Failed(e)
                && e matches BackupError::IoError(m) && m@ == message@,
            final(self).progress == old(self).progress,
            final(self).config == old(self).config,
    {
        self.outcome = Some(BackupOutcome::Failed(BackupError::IoError(message)));
    }

    /// Records one finished copy: the source bytes and the bytes found at
    /// the destination afterwards are hashed and the digests compared.  On
    /// a match the counters advance and the file becomes the current one;
    /// on a mismatch the whole run ends with a corruption error naming the
    /// file and progress stays.
    pub fn record_copy(
        &mut self,
        path: &Vec<u8>,
        source_data: &Vec<u8>,
        destination_data: &Vec<u8>,
    ) -> (verified_ok: bool)
        requires
            old(self).outcome is None,
            old(self).progress@.files_copied < old(self).progress@.files_total,
            old(self).progress@.bytes_copied + source_data@.len() <= u64::MAX,
        ensures
            verified_ok == (digest_of(source_data@) == digest_of(destination_data@)),
            final(self).config == old(self).config,
            verified_ok ==> final(self).outcome is None,
            verified_ok ==> final(self).progress@ == (ProgressModel {
                files_copied: old(self).progress@.files_copied + 1,
                bytes_copied: old(self).progress@.bytes_copied + source_data@.len(),
                current_file: Some(path@),
                ..old(self).progress@
            }),
            !verified_ok ==> (final(self).outcome matches Some(o) && o
                matches BackupOutcome::Failed(e) && e matches BackupError::CorruptionError(p)
                && p@ == path@),
            !verified_ok ==> final(self).progress == old(self).progress,
    {
        let source_digest = content_digest(source_data);
        let destination_digest = content_digest(destination_data);
        if bytes_equal(&source_digest, &destination_digest) {
            self.progress.files_copied = self.progress.files_copied + 1;
            self.progress.bytes_copied = self.progress.bytes_copied + source_data.len() as u64;
            self.progress.current_file = Some(copy_bytes(path));
            true
        } else {
            self.outcome = Some(
                BackupOutcome::Failed(BackupError::CorruptionError(copy_bytes(path))),
            );
            false
        }
    }

    /// The walk ended with every selected file copied and verified: the
    /// run ends successfully.
    pub fn finish(&mut self)
        requires
            old(self).outcome is None,
        ensures
            final(self).outcome == Some(BackupOutcome::Success),
            final(self).progress == old(self).progress,
            final(self).config == old(self).config,
    {
        self.outcome = Some(BackupOutcome::Success);
    }
}

/// Number of files among the first `n` source entries that the
/// configuration selects.
pub open spec fn spec_selected_count(config: BackupConfig, source: Seq<FileEntry>, n: int) -> int
    decreases n,
{
    if n <= 0 {
        0
    } else {
        spec_selected_count(config, source, n - 1) + if config.spec_selects(
            source[n - 1].path@,
        ) {
            1int
        } else {
            0int
        }
    }
}

/// Total size of the selected files among the first `n` source entries.
pub open spec fn spec_selected_bytes(config: BackupConfig, source: Seq<FileEntry>, n: int) -> int
    decreases n,
{
    if n <= 0 {
        0
    } else {
        spec_selected_bytes(config, source, n - 1) + if config.spec_selects(
            source[n - 1].path@,
        ) {
            source[n - 1].data@.len() as int
        } else {
            0int
        }
    }
}

/// The destination map after the selected files among the first `n` source
/// entries were written over `init`.
pub open spec fn spec_dest_after(
    init: Map<Seq<u8>, Seq<u8>>,
    config: BackupConfig,
    source: Seq<FileEntry>,
    n: int,
) -> Map<Seq<u8>, Seq<u8>>
    decreases n,
{
    if n <= 0 {
        init
    } else {
        let prev = spec_dest_after(init, config, source, n - 1);
        if config.spec_selects(source[n - 1].path@) {
            prev.insert(source[n - 1].path@, source[n - 1].data@)
        } else {
            prev
        }
    }
}

/// Path of the most recently copied file among the first `n` entries.
pub open spec fn spec_last_copied(
    config: BackupConfig,
    source: Seq<FileEntry>,
    n: int,
) -> Option<Seq<u8>>
    decreases n,
{
    if n <= 0 {
        None
    } else if config.spec_selects(source[n - 1].path@) {
        Some(source[n - 1].path@)
    } else {
        spec_last_copied(config, source, n - 1)
    }
}

/// How many entries a run processes: all of them, or only those before the
/// entry at which a stop request is first observed.
pub open spec fn spec_processed(len: int, cancel_at: Option<usize>) -> int {
    match cancel_at {
        None => len,
        Some(j) => if (j as int) < len {
            j as int
        } else {
            len
        },
    }
}

/// Whether a stop request is observed before the walk ends.
pub open spec fn spec_cancel_observed(len: int, cancel_at: Option<usize>) -> bool {
    match cancel_at {
        Some(j) => (j as int) < len,
        None => false,
    }
}

/// Never more files are selected than looked at.
proof fn lemma_selected_count_le(config: BackupConfig, source: Seq<FileEntry>, n: int)
    requires
        0 <= n,
    ensures
        0 <= spec_selected_count(config, source, n) <= n,
    decreases n,
{
    if n > 0 {
        lemma_selected_count_le(config, source, n - 1);
    }
}

proof fn lemma_selected_bytes_nonneg(config: BackupConfig, source: Seq<FileEntry>, n: int)
    requires
        0 <= n,
    ensures
        0 <= spec_selected_bytes(config, source, n),
    decreases n,
{
    if n > 0 {
        lemma_selected_bytes_nonneg(config, source, n - 1);
    }
}

/// The selected byte total only grows along the walk.
proof fn lemma_selected_bytes_mono(config: BackupConfig, source: Seq<FileEntry>, n: int, m: int)
    requires
        0 <= n <= m,
    ensures
        0 <= spec_selected_bytes(config, source, n) <= spec_selected_bytes(config, source, m),
    decreases m,
{
    lemma_selected_bytes_nonneg(config, source, n);
    if m > n {
        lemma_selected_bytes_mono(config, source, n, m - 1);
    }
}

/// Runs one whole backup over an in-memory source tree, writing into
/// `dest`.  Every selected entry is copied, read back and verified by
/// digest comparison; a stop request first observed before entry
/// `cancel_at` ends the run as cancelled at that boundary, with no further
/// file written.  The result is the terminal outcome and the final
/// progress.
pub fn run_in_memory(
    config: &BackupConfig,
    source: &Vec<FileEntry>,
    dest: &mut DestTree,
    cancel_at: Option<usize>,
) -> (result: (BackupOutcome, BackupProgress))
    requires
        old(dest).wf(),
        spec_selected_bytes(*config, source@, source@.len() as int) <= u64::MAX,
    ensures
        final(dest).wf(),
        ({
            let n = spec_processed(source@.len() as int, cancel_at);
            &&& final(dest)@ == spec_dest_after(old(dest)@, *config, source@, n)
            &&& result.1@ == (ProgressModel {
                files_total: source@.len() as int,
                files_copied: spec_selected_count(*config, source@, n),
                bytes_copied: spec_selected_bytes(*config, source@, n),
                current_file: spec_last_copied(*config, source@, n),
            })
            &&& result.0 == (if spec_cancel_observed(source@.len() as int, cancel_at) {
                BackupOutcome::Cancelled
            } else {
                BackupOutcome::Success
            })
            &&& 0 <= result.1@.files_copied <= result.1@.files_total
        }),
{
    let ghost init = old(dest)@;
    let len = source.len();
    let stop_index: usize = match cancel_at {
        Some(j) => if j < len {
            j
        } else {
            len
        },
        None => len,
    };
    let cancelled: bool = match cancel_at {
        Some(j) => j < len,
        None => false,
    };

    let mut files_copied: u64 = 0;
    let mut bytes_copied: u64 = 0;
    let mut current_file: Option<Vec<u8>> = None;

    let mut i: usize = 0;
    while i < stop_index
        invariant
            0 <= i <= stop_index <= source@.len(),
            source@.len() == len,
            spec_selected_bytes(*config, source@, source@.len() as int) <= u64::MAX,
            dest.wf(),
            dest@ == spec_dest_after(init, *config, source@, i as int),
            files_copied == spec_selected_count(*config, source@, i as int),
            bytes_copied == spec_selected_bytes(*config, source@, i as int),
            (match current_file {
                Some(p) => Some(p@),
                None => None,
            }) == spec_last_copied(*config, source@, i as int),
        decreases stop_index - i,
    {
        let entry = &source[i];
        if config.selects(&entry.path) {
            proof {
                lemma_selected_count_le(*config, source@, i as int);
                lemma_selected_bytes_mono(*config, source@, i + 1, source@.len() as int);
            }
            let copied = copy_bytes(&entry.data);
            dest.write_file(&entry.path, &copied);
            let source_digest = content_digest(&entry.data);
            let destination_digest = content_digest(&copied);
            if !bytes_equal(&source_digest, &destination_digest) {
                // The in-memory write keeps the source bytes exactly, so the
                // digests cannot differ and this path is provably never taken.
                proof {
                    assert(digest_of(entry.data@) == digest_of(copied@));
                }
                let outcome = BackupOutcome::Failed(
                    BackupError::CorruptionError(copy_bytes(&entry.path)),
                );
                let progress = BackupProgress {
                    files_total: len as u64,
                    files_copied,
                    bytes_copied,
                    current_file,
                };
                return (outcome, progress);
            }
            files_copied = files_copied + 1;
            bytes_copied = bytes_copied + entry.data.len() as u64;
            current_file = Some(copy_bytes(&entry.path));
        }
        i = i + 1;
    }

    proof {
        lemma_selected_count_le(*config, source@, i as int);
    }
    let progress = BackupProgress {
        files_total: len as u64,
        files_copied,
        bytes_copied,
        current_file,
    };
    let outcome = if cancelled {
        BackupOutcome::Cancelled
    } else {
        BackupOutcome::Success
    };
    (outcome, progress)
}

/// Whether one of the first `n` source entries is selected and has path
/// `p` — that is, whether a run over them writes `p`.
pub open spec fn spec_selected_path_in(
    config: BackupConfig,
    source: Seq<FileEntry>,
    n: int,
    p: Seq<u8>,
) -> bool
    decreases n,
{
    if n <= 0 {
        false
    } else {
        (config.spec_selects(source[n - 1].path@) && source[n - 1].path@ == p)
            || spec_selected_path_in(config, source, n - 1, p)
    }
}

proof fn lemma_selected_path_in_witness(
    config: BackupConfig,
    source: Seq<FileEntry>,
    n: int,
    i: int,
)
    requires
        0 <= i < n,
        config.spec_selects(source[i].path@),
    ensures
        spec_selected_path_in(config, source, n, source[i].path@),
    decreases n,
{
    if i < n - 1 {
        lemma_selected_path_in_witness(config, source, n - 1, i);
    }
}

/// A run writes exactly the selected files: over a source with distinct
/// paths, the destination after the first `n` entries holds its previous
/// files overridden by every selected entry among them, each byte-identical
/// to its source, and nothing else changes.
pub proof fn lemma_dest_after_exact(
    init: Map<Seq<u8>, Seq<u8>>,
    config: BackupConfig,
    source: Seq<FileEntry>,
    n: int,
)
    requires
        0 <= n <= source.len(),
        forall|i: int, j: int| 0 <= i < j < source.len() ==> source[i].path@ != source[j].path@,
    ensures
        forall|p: Seq<u8>|
            #[trigger] spec_dest_after(init, config, source, n).dom().contains(p) <==> (
            init.dom().contains(p) || spec_selected_path_in(config, source, n, p)),
        forall|i: int|
            0 <= i < n && config.spec_selects(#[trigger] source[i].path@) ==> spec_dest_after(
                init,
                config,
                source,
                n,
            )[source[i].path@] == source[i].data@,
        forall|p: Seq<u8>|
            init.dom().contains(p) && !(#[trigger] spec_selected_path_in(config, source, n, p))
                ==> spec_dest_after(init, config, source, n)[p] == init[p],
    decreases n,
{
    if n > 0 {
        lemma_dest_after_exact(init, config, source, n - 1);
        let prev = spec_dest_after(init, config, source, n - 1);
        let cur = spec_dest_after(init, config, source, n);
        let lastp = source[n - 1].path@;
        let sel = config.spec_selects(lastp);
        assert forall|p: Seq<u8>| #[trigger] cur.dom().contains(p) implies (init.dom().contains(p)
            || spec_selected_path_in(config, source, n, p)) by {
            if sel && p == lastp {
            } else {
                assert(prev.dom().contains(p));
            }
        }
        assert forall|p: Seq<u8>|
            init.dom().contains(p) || spec_selected_path_in(config, source, n, p) implies #[trigger] cur.dom().contains(
            p,
        ) by {
            if spec_selected_path_in(config, source, n, p) && !(sel && p == lastp) {
                assert(spec_selected_path_in(config, source, n - 1, p));
            }
        }
        assert forall|i: int|
            0 <= i < n && config.spec_selects(#[trigger] source[i].path@) implies cur[source[i].path@]
            == source[i].data@ by {
            if i == n - 1 {
            } else {
                assert(prev[source[i].path@] == source[i].data@);
                if sel {
                    assert(source[i].path@ != lastp);
                }
            }
        }
        assert forall|p: Seq<u8>|
            init.dom().contains(p) && !(#[trigger] spec_selected_path_in(
                config,
                source,
                n,
                p,
            )) implies cur[p] == init[p] by {
            assert(!spec_selected_path_in(config, source, n - 1, p));
            if sel {
                assert(p != lastp);
            }
        }
    }
}

/// A destination that already holds every selected file with its source
/// bytes is left unchanged by a run over any prefix of that source.
proof fn lemma_rerun_prefix(
    d1: Map<Seq<u8>, Seq<u8>>,
    config: BackupConfig,
    source: Seq<FileEntry>,
    n: int,
)
    requires
        0 <= n <= source.len(),
        forall|i: int|
            0 <= i < source.len() && config.spec_selects(#[trigger] source[i].path@) ==> (
            d1.dom().contains(source[i].path@) && d1[source[i].path@] == source[i].data@),
    ensures
        spec_dest_after(d1, config, source, n) == d1,
    decreases n,
{
    if n > 0 {
        lemma_rerun_prefix(d1, config, source, n - 1);
        if config.spec_selects(source[n - 1].path@) {
            assert(spec_dest_after(d1, config, source, n) =~= d1);
        }
    }
}

/// Re-running the engine over an already-complete destination reproduces
/// it exactly: the second full run re-copies every selected file, writing
/// back the very bytes that are already there, so the destination map does
/// not change.
pub proof fn lemma_second_run_changes_nothing(
    init: Map<Seq<u8>, Seq<u8>>,
    config: BackupConfig,
    source: Seq<FileEntry>,
)
    requires
        forall|i: int, j: int| 0 <= i < j < source.len() ==> source[i].path@ != source[j].path@,
    ensures
        ({
            let d1 = spec_dest_after(init, config, source, source.len() as int);
            spec_dest_after(d1, config, source, source.len() as int) == d1
        }),
{
    let len = source.len() as int;
    lemma_dest_after_exact(init, config, source, len);
    let d1 = spec_dest_after(init, config, source, len);
    assert forall|i: int|
        0 <= i < len && config.spec_selects(#[trigger] source[i].path@) implies (d1.dom().contains(
        source[i].path@,
    ) && d1[source[i].path@] == source[i].data@) by {
        lemma_selected_path_in_witness(config, source, len, i);
    }
    lemma_rerun_prefix(d1, config, source, len);
}

} // verus!
