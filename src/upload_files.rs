use vstd::prelude::*;
use vstd::string::StringExecFns;

use crate::error::SnowflakeApiError;
use crate::query::strings_view;
use crate::session::opt_view;

verus! {

/// Whether a file of `size` bytes is uploaded with the small files: its size
/// is at most the threshold, so under a negative threshold no file is small.
pub open spec fn is_small(size: u64, threshold: i64) -> bool {
    size as int <= threshold as int
}

pub open spec fn files_view(files: Seq<(String, u64)>) -> Seq<(Seq<char>, u64)> {
    files.map_values(|f: (String, u64)| (f.0@, f.1))
}

/// The paths, in order, of the files that are small (or, with `small` false,
/// large) under `threshold`.
pub open spec fn paths_where(files: Seq<(Seq<char>, u64)>, threshold: i64, small: bool) -> Seq<Seq<char>>
    decreases files.len(),
{
    if files.len() == 0 {
        Seq::empty()
    } else {
        let rest = paths_where(files.drop_last(), threshold, small);
        if is_small(files.last().1, threshold) == small {
            rest.push(files.last().0)
        } else {
            rest
        }
    }
}

/// Files to upload, sorted by size against a threshold: small ones go up in
/// parallel, large ones one at a time.
#[derive(Debug)]
pub struct UploadFiles {
    pub small_files: Vec<String>,
    pub large_files: Vec<String>,
    pub threshold: i64,
}

impl UploadFiles {
    pub fn new(threshold: i64) -> (r: UploadFiles)
        ensures
            r.small_files@.len() == 0,
            r.large_files@.len() == 0,
            r.threshold == threshold,
    {
        UploadFiles { small_files: Vec::new(), large_files: Vec::new(), threshold }
    }

    /// Adds a file of `size` bytes to the list its size calls for.
    pub fn push_file(&mut self, file: String, size: u64)
        ensures
            final(self).threshold == old(self).threshold,
            is_small(size, old(self).threshold) ==> final(self).small_files@ == old(self).small_files@.push(file)
                && final(self).large_files@ == old(self).large_files@,
            !is_small(size, old(self).threshold) ==> final(self).large_files@ == old(self).large_files@.push(file)
                && final(self).small_files@ == old(self).small_files@,
    {
        if self.threshold >= 0 && size <= self.threshold as u64 {
            self.small_files.push(file);
        } else {
            self.large_files.push(file);
        }
    }
}

/// Sorts files, given with their sizes in bytes, by the threshold; each list
/// keeps the order of `files`.
pub fn partition_files(files: Vec<(String, u64)>, threshold: i64) -> (r: UploadFiles)
    ensures
        r.threshold == threshold,
        strings_view(r.small_files@) == paths_where(files_view(files@), threshold, true),
        strings_view(r.large_files@) == paths_where(files_view(files@), threshold, false),
{
    let mut out = UploadFiles::new(threshold);
    let mut rest = files;
    let ghost all = files_view(rest@);
    let ghost mut done: nat = 0;
    assert(strings_view(out.small_files@) =~= paths_where(all.subrange(0, 0), threshold, true));
    assert(strings_view(out.large_files@) =~= paths_where(all.subrange(0, 0), threshold, false));
    while rest.len() > 0
        invariant
            out.threshold == threshold,
            done <= all.len(),
            files_view(rest@) == all.subrange(done as int, all.len() as int),
            strings_view(out.small_files@) == paths_where(all.subrange(0, done as int), threshold, true),
            strings_view(out.large_files@) == paths_where(all.subrange(0, done as int), threshold, false),
        decreases rest@.len(),
    {
        let ghost before = rest@;
        let ghost small_before = out.small_files@;
        let ghost large_before = out.large_files@;
        let (path, size) = rest.remove(0);
        proof {
            assert(files_view(before).len() == before.len());
            assert(files_view(before)[0] == (path@, size));
            assert(all.subrange(done as int, all.len() as int)[0] == all[done as int]);
            assert(files_view(rest@) =~= files_view(before).drop_first());
        }
        let ghost pv = path@;
        out.push_file(path, size);
        proof {
            let prefix = all.subrange(0, done as int + 1);
            assert(prefix.drop_last() =~= all.subrange(0, done as int));
            assert(prefix.last() == (pv, size));
            if is_small(size, threshold) {
                assert(strings_view(out.small_files@) =~= strings_view(small_before).push(pv));
                assert(strings_view(out.large_files@) =~= strings_view(large_before));
            } else {
                assert(strings_view(out.large_files@) =~= strings_view(large_before).push(pv));
                assert(strings_view(out.small_files@) =~= strings_view(small_before));
            }
            done = done + 1;
        }
    }
    assert(all.subrange(0, done as int) =~= all);
    out
}

/// Every file lands in exactly one list, and under a negative threshold every
/// file is large.
pub proof fn lemma_bucketing(files: Seq<(Seq<char>, u64)>, threshold: i64)
    ensures
        paths_where(files, threshold, true).len() + paths_where(files, threshold, false).len() == files.len(),
        threshold < 0 ==> paths_where(files, threshold, true).len() == 0,
        threshold < 0 ==> paths_where(files, threshold, false) == files.map_values(|f: (Seq<char>, u64)| f.0),
    decreases files.len(),
{
    if files.len() > 0 {
        lemma_bucketing(files.drop_last(), threshold);
        if threshold < 0 {
            assert(files.map_values(|f: (Seq<char>, u64)| f.0) =~= files.drop_last().map_values(
                |f: (Seq<char>, u64)| f.0,
            ).push(files.last().0));
        }
    }
}

/// The last component of a path, as `std::path::Path::file_name` reads it;
/// `None` when there is none.
pub uninterp spec fn file_name_of(path: Seq<char>) -> Option<Seq<char>>;

/// Relies on `std::path::Path::file_name`: the final component of the path,
/// `None` when there is none (a root, or a path ending in `..`).
#[verifier::external_body]
fn path_file_name(path: &str) -> (r: Option<String>)
    ensures
        opt_view(r) == file_name_of(path@),
{
    std::path::Path::new(path).file_name().and_then(|f| f.to_str()).map(|f| f.to_string())
}

/// The object key of a local file: the stage prefix and the file's name,
/// joined without a separator.
pub fn upload_key(src_path: &str, bucket_path: &str) -> (r: Result<String, SnowflakeApiError>)
    ensures
        match file_name_of(src_path@) {
            Some(n) => r matches Ok(k) && k@ == bucket_path@ + n,
            None => r matches Err(SnowflakeApiError::InvalidLocalPath(p)) && p@ == src_path@,
        },
{
    match path_file_name(src_path) {
        Some(name) => {
            let mut key = String::from_str(bucket_path);
            key.append(name.as_str());
            Ok(key)
        },
        None => Err(SnowflakeApiError::InvalidLocalPath(String::from_str(src_path))),
    }
}

/// Source key and local destination of one file of a GET.
pub fn download_paths(bucket_path: &str, local_location: &str, name: &str) -> (r: (String, String))
    ensures
        r.0@ == bucket_path@ + name@,
        r.1@ == local_location@ + name@,
{
    let mut src = String::from_str(bucket_path);
    src.append(name);
    let mut dest = String::from_str(local_location);
    dest.append(name);
    (src, dest)
}

} // verus!
