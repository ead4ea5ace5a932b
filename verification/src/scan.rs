//! The incremental folder-scanning engine: decides which enumerated
//! files need reprocessing against a caller-supplied index of previously
//! seen modification times, counts completions one by one, and shapes
//! the progress events a scan emits. Enumeration, file reading and the
//! event channel are the host's; every decision is made here.

use vstd::prelude::*;

verus! {

/// One successfully processed file, handed to the caller through the
/// progress stream.
#[derive(Clone, Debug)]
pub struct ImageScanResult {
    pub file_path: String,
    pub file_last_modified: u64,
    pub metadata_text: String,
}

/// One completed folder scan. `total_image_count` counts every file
/// found, not just the reprocessed ones.
#[derive(Clone, Debug)]
pub struct FolderScanResult {
    pub folder_path: String,
    pub scan_timestamp: u64,
    pub total_image_count: u32,
}

/// One progress event. Intermediate emissions carry neither the results
/// list nor the folder result; only the final emission carries both.
#[derive(Clone, Debug)]
pub struct ScanProgress {
    pub total_to_process: u32,
    pub processed: u32,
    pub image_scan_results: Option<Vec<ImageScanResult>>,
    pub folder_scan_result: Option<FolderScanResult>,
}

/// One enumerated file: its path and its last-modified time in epoch
/// seconds, absent where the timestamp could not be read.
pub struct FileStamp {
    pub path: String,
    pub modified: Option<u64>,
}

/// The modification time the caller's index records for `path`: the
/// value of the first entry whose key holds the same characters.
pub open spec fn index_lookup(entries: Seq<(String, u64)>, path: Seq<char>) -> Option<u64>
    decreases entries.len(),
{
    if entries.len() == 0 {
        None
    } else if entries[0].0@ == path {
        Some(entries[0].1)
    } else {
        index_lookup(entries.drop_first(), path)
    }
}

/// Looks a path up in the caller's index of previously seen files.
pub fn lookup_modified(entries: &Vec<(String, u64)>, path: &String) -> (r: Option<u64>)
    ensures
        r == index_lookup(entries@, path@),
{
    proof {
        assert(entries@.skip(0) =~= entries@);
    }
    let n = entries.len();
    for i in 0..n
        invariant
            n == entries@.len(),
            index_lookup(entries@, path@) == index_lookup(entries@.skip(i as int), path@),
    {
        proof {
            assert(entries@.skip(i as int)[0] == entries@[i as int]);
            assert(entries@.skip(i as int).drop_first() =~= entries@.skip(i as int + 1));
        }
        let e = &entries[i];
        if e.0 == *path {
            return Some(e.1);
        }
    }
    proof {
        assert(entries@.skip(n as int) =~= Seq::<(String, u64)>::empty());
    }
    None
}

/// A file is selected for reprocessing unless the index holds it with an
/// exactly equal timestamp; a file whose timestamp could not be read is
/// conservatively selected.
pub open spec fn spec_needs_processing(entries: Seq<(String, u64)>, f: FileStamp) -> bool {
    !(f.modified matches Some(t) && index_lookup(entries, f.path@) == Some(t))
}

/// Decides whether one enumerated file must be reprocessed.
pub fn needs_processing(entries: &Vec<(String, u64)>, file: &FileStamp) -> (r: bool)
    ensures
        r == spec_needs_processing(entries@, *file),
{
    match file.modified {
        None => true,
        Some(t) => match lookup_modified(entries, &file.path) {
            Some(db) => db != t,
            None => true,
        },
    }
}

/// The paths of the files that need reprocessing, in enumeration order.
pub open spec fn spec_selected_paths(entries: Seq<(String, u64)>, files: Seq<FileStamp>) -> Seq<String>
    decreases files.len(),
{
    if files.len() == 0 {
        Seq::empty()
    } else {
        let rest = spec_selected_paths(entries, files.drop_last());
        if spec_needs_processing(entries, files.last()) {
            rest.push(files.last().path)
        } else {
            rest
        }
    }
}

pub proof fn lemma_selected_len(entries: Seq<(String, u64)>, files: Seq<FileStamp>)
    ensures
        spec_selected_paths(entries, files).len() <= files.len(),
    decreases files.len(),
{
    if files.len() > 0 {
        lemma_selected_len(entries, files.drop_last());
    }
}

/// Filters the enumerated files down to those that need reprocessing.
pub fn select_files(entries: &Vec<(String, u64)>, files: &Vec<FileStamp>) -> (r: Vec<String>)
    ensures
        r@ == spec_selected_paths(entries@, files@),
{
    let mut out: Vec<String> = Vec::new();
    let n = files.len();
    for i in 0..n
        invariant
            n == files@.len(),
            out@ == spec_selected_paths(entries@, files@.take(i as int)),
    {
        proof {
            let next = files@.take(i as int + 1);
            assert(next.drop_last() =~= files@.take(i as int));
            assert(next.last() == files@[i as int]);
        }
        let f = &files[i];
        if needs_processing(entries, f) {
            out.push(f.path.clone());
        }
    }
    proof {
        assert(files@.take(n as int) =~= files@);
    }
    out
}

/// Shapes one file's scan result; a file with no text metadata reports
/// the empty string.
pub fn make_scan_result(file_path: String, file_last_modified: u64, metadata_string: Option<String>) -> (r: ImageScanResult)
    ensures
        r.file_path == file_path,
        r.file_last_modified == file_last_modified,
        match metadata_string {
            Some(s) => r.metadata_text == s,
            None => r.metadata_text@ == Seq::<char>::empty(),
        },
{
    let metadata_text = match metadata_string {
        Some(s) => s,
        None => String::new(),
    };
    ImageScanResult { file_path, file_last_modified, metadata_text }
}

/// One folder's scan in progress: what was found, what was selected,
/// how many selected files have completed, and the results gathered so
/// far. The host performs enumeration and per-file work and reports
/// each completion here; each call shapes the event to emit.
pub struct FolderScan {
    folder_path: String,
    total_found: u32,
    to_process: Vec<String>,
    processed: u32,
    results: Vec<ImageScanResult>,
    completed: Ghost<Set<Seq<char>>>,
}

impl FolderScan {
    pub closed spec fn spec_folder_path(&self) -> String {
        self.folder_path
    }

    /// Every file the enumeration found, selected or not.
    pub closed spec fn spec_total_found(&self) -> u32 {
        self.total_found
    }

    /// The selected paths, in enumeration order.
    pub closed spec fn spec_to_process(&self) -> Seq<String> {
        self.to_process@
    }

    /// How many selected files have completed, successfully or not.
    pub closed spec fn spec_processed(&self) -> u32 {
        self.processed
    }

    /// The results of the completions that succeeded, in completion
    /// order.
    pub closed spec fn spec_results(&self) -> Seq<ImageScanResult> {
        self.results@
    }

    /// The paths already reported complete, as character sequences.
    pub closed spec fn spec_completed(&self) -> Set<Seq<char>> {
        self.completed@
    }

    pub open spec fn spec_total(&self) -> nat {
        self.spec_to_process().len()
    }

    /// True when `p` holds the characters of one of the selected paths.
    pub open spec fn spec_path_selected(&self, p: Seq<char>) -> bool {
        exists|i: int| 0 <= i < self.spec_to_process().len()
            && #[trigger] self.spec_to_process()[i]@ == p
    }

    pub open spec fn wf(&self) -> bool {
        &&& self.spec_total() <= u32::MAX
        &&& self.spec_processed() <= self.spec_total()
        &&& self.spec_results().len() <= self.spec_processed()
        &&& self.spec_completed().finite()
        &&& self.spec_completed().len() == self.spec_processed()
        &&& forall|p: Seq<char>| #[trigger] self.spec_completed().contains(p)
                ==> self.spec_path_selected(p)
        &&& forall|i: int| 0 <= i < self.spec_results().len()
                ==> self.spec_completed().contains(#[trigger] self.spec_results()[i].file_path@)
        &&& forall|i: int, j: int| 0 <= i < j < self.spec_results().len()
                ==> (#[trigger] self.spec_results()[i].file_path@)
                    != (#[trigger] self.spec_results()[j].file_path@)
    }

    /// The selected paths, for the host to process.
    pub fn to_process(&self) -> (r: &Vec<String>)
        ensures
            r@ == self.spec_to_process(),
    {
        &self.to_process
    }

    /// Diffs the enumerated files against the caller's index and shapes
    /// the initial progress event, which reports how many files were
    /// selected and none processed.
    pub fn begin_scan(folder_path: String, files: &Vec<FileStamp>, existing: &Vec<(String, u64)>) -> (r: (FolderScan, ScanProgress))
        requires
            files@.len() <= u32::MAX,
        ensures
            r.0.wf(),
            r.0.spec_folder_path() == folder_path,
            r.0.spec_total_found() == files@.len() as u32,
            r.0.spec_to_process() == spec_selected_paths(existing@, files@),
            r.0.spec_processed() == 0,
            r.0.spec_results() == Seq::<ImageScanResult>::empty(),
            r.0.spec_completed() == Set::<Seq<char>>::empty(),
            r.1.total_to_process as nat == r.0.spec_total(),
            r.1.processed == 0,
            r.1.image_scan_results is None,
            r.1.folder_scan_result is None,
    {
        let to_process = select_files(existing, files);
        proof {
            lemma_selected_len(existing@, files@);
        }
        let total = to_process.len() as u32;
        let scan = FolderScan {
            folder_path,
            total_found: files.len() as u32,
            to_process,
            processed: 0,
            results: Vec::new(),
            completed: Ghost(Set::empty()),
        };
        proof {
            broadcast use vstd::set::axiom_set_empty_len;
        }
        let event = ScanProgress {
            total_to_process: total,
            processed: 0,
            image_scan_results: None,
            folder_scan_result: None,
        };
        (scan, event)
    }

    /// Records the completion of one selected file, not yet recorded,
    /// and shapes the intermediate event that reports it. A completion
    /// that failed contributes nothing to the results, yet still
    /// advances the count by exactly one, so the emitted counts are
    /// 1, 2, ... up to the total and the final event is reached whether
    /// or not any file failed. A successful completion's result carries
    /// the completed path, so each file yields at most one result per
    /// scan.
    pub fn record_file(&mut self, path: &String, outcome: Option<ImageScanResult>) -> (ev: ScanProgress)
        requires
            old(self).wf(),
            (old(self).spec_processed() as nat) < old(self).spec_total(),
            old(self).spec_path_selected(path@),
            !old(self).spec_completed().contains(path@),
            outcome matches Some(res) ==> res.file_path@ == path@,
        ensures
            final(self).wf(),
            final(self).spec_folder_path() == old(self).spec_folder_path(),
            final(self).spec_total_found() == old(self).spec_total_found(),
            final(self).spec_to_process() == old(self).spec_to_process(),
            final(self).spec_processed() == old(self).spec_processed() + 1,
            final(self).spec_completed() == old(self).spec_completed().insert(path@),
            match outcome {
                Some(res) => final(self).spec_results() == old(self).spec_results().push(res),
                None => final(self).spec_results() == old(self).spec_results(),
            },
            ev.total_to_process as nat == old(self).spec_total(),
            ev.processed == final(self).spec_processed(),
            ev.image_scan_results is None,
            ev.folder_scan_result is None,
    {
        match outcome {
            Some(res) => self.results.push(res),
            None => {},
        }
        self.processed = self.processed + 1;
        proof {
            vstd::set::axiom_set_insert_len(self.completed@, path@);
        }
        self.completed = Ghost(self.completed@.insert(path@));
        ScanProgress {
            total_to_process: self.to_process.len() as u32,
            processed: self.processed,
            image_scan_results: None,
            folder_scan_result: None,
        }
    }

    /// Shapes the one final event of a folder: the full results list and
    /// the folder result, whose `total_image_count` is the full
    /// enumerated file count even when nothing was selected. The results
    /// hold at most one entry per file, each for a selected path.
    pub fn finish(self, scan_timestamp: u64) -> (ev: ScanProgress)
        requires
            self.wf(),
            self.spec_processed() as nat == self.spec_total(),
        ensures
            ev.total_to_process as nat == self.spec_total(),
            ev.processed as nat == self.spec_total(),
            ev.image_scan_results matches Some(v) && v@ == self.spec_results(),
            forall|i: int| 0 <= i < self.spec_results().len()
                ==> self.spec_path_selected(#[trigger] self.spec_results()[i].file_path@),
            forall|i: int, j: int| 0 <= i < j < self.spec_results().len()
                ==> (#[trigger] self.spec_results()[i].file_path@)
                    != (#[trigger] self.spec_results()[j].file_path@),
            ev.folder_scan_result matches Some(f)
                && f.folder_path == self.spec_folder_path()
                && f.scan_timestamp == scan_timestamp
                && f.total_image_count == self.spec_total_found(),
    {
        let total = self.to_process.len() as u32;
        ScanProgress {
            total_to_process: total,
            processed: self.processed,
            image_scan_results: Some(self.results),
            folder_scan_result: Some(FolderScanResult {
                folder_path: self.folder_path,
                scan_timestamp,
                total_image_count: self.total_found,
            }),
        }
    }
}

/// Law: within one folder's run the intermediate events report the
/// counts 1, 2, ..., total — `begin_scan` starts the count at zero and
/// every `record_file` raises it by exactly one — so the reported counts
/// are strictly increasing and end at `total_to_process`.
pub proof fn lemma_processed_counts_strictly_increasing(counts: Seq<u32>, total: u32)
    requires
        counts.len() == total,
        forall|k: int| 0 <= k < counts.len() ==> counts[k] == k + 1,
    ensures
        forall|i: int, j: int| 0 <= i < j < counts.len() ==> counts[i] < counts[j],
        counts.len() > 0 ==> counts.last() == total,
{
}

} // verus!
