use vstd::prelude::*;
use vstd::string::StringExecFns;

use crate::error::PipelineError;
use crate::exclude::{
    gitignore_excludes, gitignore_line_malformed, gitignore_rules_compile, ExcludeMatcher,
};
use crate::paths::{spec_is_hidden, spec_under};
use crate::strutil::{lemma_str_views_index, spec_str_views, str_eq_str};

verus! {

/// What the walk reports of one directory entry: its path as text, and
/// whether the filesystem calls it a directory or a regular file.
pub struct EntryInfo {
    pub path: String,
    pub is_dir: bool,
    pub is_file: bool,
}

/// Whether the filter stops an entry where it stands: the rules exclude
/// it, or it is hidden while hidden entries are being skipped.
pub open spec fn spec_pruned_here(
    m: &ExcludeMatcher,
    skip_hidden: bool,
    path: Seq<char>,
    is_dir: bool,
) -> bool {
    m.spec_excludes(path, is_dir) || (skip_hidden && spec_is_hidden(path))
}

/// Decides whether one entry is pruned where it stands.
pub fn entry_pruned(m: &ExcludeMatcher, path: &str, is_dir: bool, skip_hidden: bool) -> (r: bool)
    ensures
        r == spec_pruned_here(m, skip_hidden, path@, is_dir),
{
    if m.is_excluded(path, is_dir) {
        true
    } else if skip_hidden {
        crate::paths::is_hidden(path)
    } else {
        false
    }
}

/// Whether `p` lies under any of the directories in `dirs`.
pub open spec fn spec_under_any(dirs: Seq<Seq<char>>, p: Seq<char>) -> bool {
    exists|j: int| 0 <= j < dirs.len() && spec_under(p, #[trigger] dirs[j])
}

fn under_any(dirs: &Vec<String>, path: &str) -> (r: bool)
    ensures
        r == spec_under_any(spec_str_views(dirs@), path@),
{
    proof {
        lemma_str_views_index(dirs@);
    }
    let mut j: usize = 0;
    while j < dirs.len()
        invariant
            j <= dirs@.len(),
            spec_str_views(dirs@).len() == dirs@.len(),
            forall|k: int| 0 <= k < dirs@.len() ==> spec_str_views(dirs@)[k] == dirs@[k]@,
            forall|k: int| 0 <= k < j ==> !spec_under(path@, #[trigger] spec_str_views(dirs@)[k]),
        decreases dirs@.len() - j,
    {
        if crate::paths::is_under(path, dirs[j].as_str()) {
            proof {
                assert(spec_under(path@, spec_str_views(dirs@)[j as int]));
            }
            return true;
        }
        j = j + 1;
    }
    false
}

/// The directories that the walk prunes, in visiting order: an entry is
/// pruned as a directory when the filter stops it where it stands, or when
/// it lies under a directory pruned before it (and so is never visited).
pub open spec fn spec_pruned_dirs(
    m: &ExcludeMatcher,
    skip_hidden: bool,
    entries: Seq<EntryInfo>,
) -> Seq<Seq<char>>
    decreases entries.len(),
{
    if entries.len() == 0 {
        Seq::empty()
    } else {
        let prefix = spec_pruned_dirs(m, skip_hidden, entries.drop_last());
        let e = entries.last();
        if e.is_dir && (spec_under_any(prefix, e.path@) || spec_pruned_here(
            m,
            skip_hidden,
            e.path@,
            true,
        )) {
            prefix.push(e.path@)
        } else {
            prefix
        }
    }
}

/// Whether entry `i` of the walk survives: it is a regular file that no
/// pruned directory covers, that the filter does not stop, and that is not
/// the run's own output destination.
pub open spec fn spec_keeps(
    m: &ExcludeMatcher,
    skip_hidden: bool,
    output: Seq<char>,
    entries: Seq<EntryInfo>,
    i: int,
) -> bool {
    let e = entries[i];
    &&& !spec_under_any(spec_pruned_dirs(m, skip_hidden, entries.take(i)), e.path@)
    &&& !spec_pruned_here(m, skip_hidden, e.path@, e.is_dir)
    &&& e.path@ != output
    &&& e.is_file
    &&& !e.is_dir
}

/// The paths collected from a sequence of walk entries, in order: exactly
/// the entries that `spec_keeps` admits.
pub open spec fn spec_collected(
    m: &ExcludeMatcher,
    skip_hidden: bool,
    output: Seq<char>,
    entries: Seq<EntryInfo>,
) -> Seq<Seq<char>>
    decreases entries.len(),
{
    if entries.len() == 0 {
        Seq::empty()
    } else {
        let prefix = spec_collected(m, skip_hidden, output, entries.drop_last());
        if spec_keeps(m, skip_hidden, output, entries, entries.len() - 1) {
            prefix.push(entries.last().path@)
        } else {
            prefix
        }
    }
}

/// Replays the walk's pruning and filtering over an entry sequence handed
/// in as plain values: directories stopped by the filter prune everything
/// under them, and the surviving regular files are returned in order.
pub fn collect_from_entries(
    m: &ExcludeMatcher,
    skip_hidden: bool,
    output: &str,
    entries: &Vec<EntryInfo>,
) -> (r: Vec<String>)
    ensures
        spec_str_views(r@) == spec_collected(m, skip_hidden, output@, entries@),
{
    let mut pruned: Vec<String> = Vec::new();
    let mut files: Vec<String> = Vec::new();
    let mut i: usize = 0;
    proof {
        assert(entries@.take(0) =~= Seq::<EntryInfo>::empty());
    }
    while i < entries.len()
        invariant
            i <= entries@.len(),
            spec_str_views(pruned@) == spec_pruned_dirs(m, skip_hidden, entries@.take(i as int)),
            spec_str_views(files@) == spec_collected(
                m,
                skip_hidden,
                output@,
                entries@.take(i as int),
            ),
        decreases entries@.len() - i,
    {
        proof {
            assert(entries@.take(i as int + 1).drop_last() =~= entries@.take(i as int));
            assert(entries@.take(i as int + 1).last() == entries@[i as int]);
            assert(entries@.take(i as int + 1).take(i as int) =~= entries@.take(i as int));
        }
        let e = &entries[i];
        let under = under_any(&pruned, e.path.as_str());
        let ph = entry_pruned(m, e.path.as_str(), e.is_dir, skip_hidden);
        let ghost prev_pruned = pruned@;
        let ghost prev_files = files@;
        if under || ph {
            if e.is_dir {
                pruned.push(e.path.clone());
                proof {
                    assert(pruned@.drop_last() =~= prev_pruned);
                    assert(pruned@.last()@ == entries@[i as int].path@);
                }
            }
        } else {
            if !e.is_dir && e.is_file && !str_eq_str(e.path.as_str(), output) {
                files.push(e.path.clone());
                proof {
                    assert(spec_keeps(
                        m,
                        skip_hidden,
                        output@,
                        entries@.take(i as int + 1),
                        i as int,
                    ));
                    assert(files@.drop_last() =~= prev_files);
                    assert(files@.last()@ == entries@[i as int].path@);
                }
            } else {
                proof {
                    assert(!spec_keeps(
                        m,
                        skip_hidden,
                        output@,
                        entries@.take(i as int + 1),
                        i as int,
                    ));
                }
            }
        }
        proof {
            assert(spec_str_views(pruned@) =~= spec_pruned_dirs(
                m,
                skip_hidden,
                entries@.take(i as int + 1),
            ));
            assert(spec_str_views(files@) =~= spec_collected(
                m,
                skip_hidden,
                output@,
                entries@.take(i as int + 1),
            ));
        }
        i = i + 1;
    }
    proof {
        assert(entries@.take(entries@.len() as int) =~= entries@);
    }
    files
}


/// walkdir's walk iterator, declared so that the walk's state can stand
/// in signatures; nothing is assumed of what it yields.
#[verifier::external_type_specification]
#[verifier::external_body]
pub struct ExWalkDirIter(walkdir::IntoIter);

/// walkdir's entry and error types, declared only because the iterator's
/// interface mentions them; the wrappers below convert every entry to
/// plain values before the library looks at it.
#[verifier::external_type_specification]
#[verifier::external_body]
pub struct ExWalkDirEntry(walkdir::DirEntry);

#[verifier::external_type_specification]
#[verifier::external_body]
pub struct ExWalkDirError(walkdir::Error);

/// Relies on walkdir's WalkDir: begins a depth-first walk of the tree
/// rooted at `path`, yielding the root first and each entry once. What the
/// iterator will yield depends on the state of the disk.
#[verifier::external_body]
fn walk_begin(path: &str) -> walkdir::IntoIter {
    walkdir::WalkDir::new(path).into_iter()
}

/// Relies on walkdir's IntoIter::next: the walk's next entry, converted to
/// its path text and kind flags. `None` ends the walk; `Some(None)` is an
/// entry that could not be read, which the walk skips and goes on.
#[verifier::external_body]
fn walk_next(it: &mut walkdir::IntoIter) -> Option<Option<EntryInfo>> {
    match it.next() {
        None => None,
        Some(Err(_)) => Some(None),
        Some(Ok(e)) => Some(
            Some(
                EntryInfo {
                    path: e.path().to_string_lossy().into_owned(),
                    is_dir: e.file_type().is_dir(),
                    is_file: e.file_type().is_file(),
                },
            ),
        ),
    }
}

/// Relies on walkdir's IntoIter::skip_current_dir: keeps the walk from
/// descending into the most recently yielded directory, so a pruned
/// directory's subtree is never visited.
#[verifier::external_body]
fn walk_skip_current_dir(it: &mut walkdir::IntoIter) {
    it.skip_current_dir();
}

/// Walker holds the configuration of one run: the root that headers are
/// made relative to, the input subtree that is walked, the output
/// destination, and the caller-supplied exclusion patterns.
pub struct Walker {
    pub root: String,
    pub input: String,
    pub output: String,
    pub exclude_patterns: Vec<String>,
}

impl Walker {
    /// The rule lines the run's matcher is compiled from: the ignore
    /// file's lines, then the caller-supplied patterns.
    pub open spec fn spec_rules(&self, ignore_lines: Seq<String>) -> Seq<Seq<char>> {
        spec_str_views(ignore_lines) + spec_str_views(self.exclude_patterns@)
    }

    /// Creates a new Walker instance with the specified configuration.
    pub fn new(root: &str, input: &str, output: &str, exclude_patterns: &Vec<String>) -> (w:
        Walker)
        ensures
            w.root@ == root@,
            w.input@ == input@,
            w.output@ == output@,
            w.exclude_patterns@ == exclude_patterns@,
    {
        Walker {
            root: String::from_str(root),
            input: String::from_str(input),
            output: String::from_str(output),
            exclude_patterns: exclude_patterns.clone(),
        }
    }

    /// Walks the input subtree and returns the surviving files' paths, in
    /// the walk's order. A pruned directory is never descended into. Every
    /// returned path passed the compiled rules as a file, was not hidden
    /// while hidden entries were skipped, and is not the output itself.
    ///
    /// `ignore_lines` are the lines of the ignore file found at the root,
    /// or empty when there was none; a pattern line from either source
    /// that does not parse is a `PatternSyntaxError`, and nothing else
    /// fails the walk. The output is compared with entry paths as text,
    /// so the caller hands `output` in the spelling the walk gives its
    /// entries: with a canonical `input`, the canonical output path.
    pub fn collect_files(&self, ignore_lines: &Vec<String>, skip_hidden: bool) -> (r: Result<
        Vec<String>,
        PipelineError,
    >)
        ensures
            r is Ok <==> ({
                &&& forall|i: int|
                    0 <= i < ignore_lines@.len() ==> !gitignore_line_malformed(
                        (#[trigger] ignore_lines@[i])@,
                    )
                &&& forall|i: int|
                    0 <= i < self.exclude_patterns@.len() ==> !gitignore_line_malformed(
                        (#[trigger] self.exclude_patterns@[i])@,
                    )
                &&& gitignore_rules_compile(self.spec_rules(ignore_lines@))
            }),
            r matches Ok(files) ==> forall|i: int|
                0 <= i < files@.len() ==> !gitignore_excludes(
                    self.root@,
                    self.spec_rules(ignore_lines@),
                    (#[trigger] files@[i])@,
                    false,
                ) && !(skip_hidden && spec_is_hidden(files@[i]@)) && files@[i]@ != self.output@,
            r matches Err(e) ==> e == PipelineError::PatternSyntaxError,
    {
        let m = match ExcludeMatcher::new(self.root.as_str(), ignore_lines, &self.exclude_patterns) {
            Ok(m) => m,
            Err(e) => {
                return Err(e);
            },
        };
        let mut it = walk_begin(self.input.as_str());
        let mut files: Vec<String> = Vec::new();
        // The walk ends when the iterator does; the budget only gives the
        // loop a measure, and no real tree comes near exhausting it.
        let mut budget: u64 = u64::MAX;
        while budget > 0
            invariant
                m.root() == self.root@,
                m.lines() == self.spec_rules(ignore_lines@),
                forall|i: int|
                    0 <= i < ignore_lines@.len() ==> !gitignore_line_malformed(
                        (#[trigger] ignore_lines@[i])@,
                    ),
                forall|i: int|
                    0 <= i < self.exclude_patterns@.len() ==> !gitignore_line_malformed(
                        (#[trigger] self.exclude_patterns@[i])@,
                    ),
                gitignore_rules_compile(self.spec_rules(ignore_lines@)),
                forall|i: int|
                    0 <= i < files@.len() ==> !gitignore_excludes(
                        self.root@,
                        self.spec_rules(ignore_lines@),
                        (#[trigger] files@[i])@,
                        false,
                    ) && !(skip_hidden && spec_is_hidden(files@[i]@)) && files@[i]@
                        != self.output@,
            decreases budget,
        {
            budget = budget - 1;
            match walk_next(&mut it) {
                None => {
                    break ;
                },
                Some(None) => {},
                Some(Some(e)) => {
                    let prune = entry_pruned(&m, e.path.as_str(), e.is_dir, skip_hidden);
                    if prune {
                        if e.is_dir {
                            walk_skip_current_dir(&mut it);
                        }
                    } else if e.is_file && !e.is_dir && !str_eq_str(
                        e.path.as_str(),
                        self.output.as_str(),
                    ) {
                        files.push(e.path);
                    }
                },
            }
        }
        Ok(files)
    }
}

/// Resolves the caller's configuration to the run's concrete paths: "."
/// as the input or the root means the current directory, and "." as the
/// output means the default destination file beside it.
pub fn resolve_config(input: &str, output: &str, root: Option<&str>, cwd: &str) -> (r: (
    String,
    String,
    String,
))
    ensures
        r.0@ == if input@ == "."@ {
            cwd@
        } else {
            input@
        },
        r.1@ == if output@ == "."@ {
            "./treeclip_temp.txt"@
        } else {
            output@
        },
        r.2@ == match root {
            Some(p) => if p@ != "."@ {
                p@
            } else {
                cwd@
            },
            None => cwd@,
        },
{
    let resolved_input = if str_eq_str(input, ".") {
        String::from_str(cwd)
    } else {
        String::from_str(input)
    };
    let resolved_output = if str_eq_str(output, ".") {
        String::from_str("./treeclip_temp.txt")
    } else {
        String::from_str(output)
    };
    let resolved_root = match root {
        Some(p) => if !str_eq_str(p, ".") {
            String::from_str(p)
        } else {
            String::from_str(cwd)
        },
        None => String::from_str(cwd),
    };
    (resolved_input, resolved_output, resolved_root)
}

/// A longer walk only adds pruned directories: everything pruned after the
/// first `k1` entries is still pruned after the first `k2`.
pub proof fn lemma_pruned_dirs_monotone(
    m: &ExcludeMatcher,
    skip_hidden: bool,
    entries: Seq<EntryInfo>,
    k1: int,
    k2: int,
)
    requires
        0 <= k1 <= k2 <= entries.len(),
    ensures
        forall|d: Seq<char>|
            spec_pruned_dirs(m, skip_hidden, entries.take(k1)).contains(d)
                ==> spec_pruned_dirs(m, skip_hidden, entries.take(k2)).contains(d),
    decreases k2 - k1,
{
    if k1 < k2 {
        lemma_pruned_dirs_monotone(m, skip_hidden, entries, k1, k2 - 1);
        assert(entries.take(k2).drop_last() =~= entries.take(k2 - 1));
        let p1 = spec_pruned_dirs(m, skip_hidden, entries.take(k2 - 1));
        let p2 = spec_pruned_dirs(m, skip_hidden, entries.take(k2));
        assert forall|d: Seq<char>| p1.contains(d) implies p2.contains(d) by {
            let t = choose|t: int| 0 <= t < p1.len() && p1[t] == d;
            if p2 != p1 {
                assert(p2[t] == d);
            }
        }
    }
}

/// A law of the walk: a directory that the filter stops prunes its whole
/// subtree, so no entry under it is ever kept.
pub proof fn lemma_excluded_dir_prunes_subtree(
    m: &ExcludeMatcher,
    skip_hidden: bool,
    output: Seq<char>,
    entries: Seq<EntryInfo>,
    j: int,
    i: int,
)
    requires
        0 <= j < i < entries.len(),
        entries[j].is_dir,
        spec_pruned_here(m, skip_hidden, entries[j].path@, true),
        spec_under(entries[i].path@, entries[j].path@),
    ensures
        !spec_keeps(m, skip_hidden, output, entries, i),
{
    assert(entries.take(j + 1).drop_last() =~= entries.take(j));
    assert(entries.take(j + 1).last() == entries[j]);
    let pj = spec_pruned_dirs(m, skip_hidden, entries.take(j + 1));
    assert(pj.last() == entries[j].path@);
    assert(pj.contains(entries[j].path@));
    lemma_pruned_dirs_monotone(m, skip_hidden, entries, j + 1, i);
    let pi = spec_pruned_dirs(m, skip_hidden, entries.take(i));
    assert(pi.contains(entries[j].path@));
    let t = choose|t: int| 0 <= t < pi.len() && pi[t] == entries[j].path@;
    assert(spec_under(entries[i].path@, pi[t]));
    assert(spec_under_any(pi, entries[i].path@));
}

/// A law of the collection: what `spec_collected` returns is exactly the
/// paths of the kept entries. A kept entry's path is in the result, and
/// everything in the result is some kept entry's path; with the pruning
/// law above, no file under an excluded directory ever appears, and no
/// kept file is missing.
pub proof fn lemma_collected_characterizes(
    m: &ExcludeMatcher,
    skip_hidden: bool,
    output: Seq<char>,
    entries: Seq<EntryInfo>,
)
    ensures
        forall|i: int|
            0 <= i < entries.len() && spec_keeps(m, skip_hidden, output, entries, i)
                ==> spec_collected(m, skip_hidden, output, entries).contains(
                (#[trigger] entries[i]).path@,
            ),
        forall|p: Seq<char>|
            #[trigger] spec_collected(m, skip_hidden, output, entries).contains(p) ==> exists|i: int|
                0 <= i < entries.len() && spec_keeps(m, skip_hidden, output, entries, i)
                    && entries[i].path@ == p,
    decreases entries.len(),
{
    if entries.len() > 0 {
        let pre = entries.drop_last();
        let n = entries.len() as int;
        lemma_collected_characterizes(m, skip_hidden, output, pre);
        assert forall|i: int| 0 <= i < n - 1 implies spec_keeps(m, skip_hidden, output, pre, i)
            == spec_keeps(m, skip_hidden, output, entries, i) by {
            assert(pre.take(i) =~= entries.take(i));
            assert(pre[i] == entries[i]);
        }
        let cpre = spec_collected(m, skip_hidden, output, pre);
        let call = spec_collected(m, skip_hidden, output, entries);
        assert forall|d: Seq<char>| cpre.contains(d) implies call.contains(d) by {
            let t = choose|t: int| 0 <= t < cpre.len() && cpre[t] == d;
            if call != cpre {
                assert(call[t] == d);
            }
        }
        assert forall|i: int|
            0 <= i < n && spec_keeps(m, skip_hidden, output, entries, i) implies call.contains(
            entries[i].path@,
        ) by {
            if i < n - 1 {
                assert(cpre.contains(entries[i].path@));
            } else {
                assert(call.last() == entries[i].path@);
            }
        }
        assert forall|p: Seq<char>| call.contains(p) implies exists|i: int|
            0 <= i < n && spec_keeps(m, skip_hidden, output, entries, i) && entries[i].path@
                == p by {
            let t = choose|t: int| 0 <= t < call.len() && call[t] == p;
            if t < cpre.len() {
                assert(cpre[t] == p);
                assert(cpre.contains(p));
                let w = choose|w: int|
                    0 <= w < pre.len() && spec_keeps(m, skip_hidden, output, pre, w)
                        && pre[w].path@ == p;
                assert(spec_keeps(m, skip_hidden, output, entries, w) && entries[w].path@ == p);
            } else {
                assert(spec_keeps(m, skip_hidden, output, entries, n - 1) && entries[n - 1].path@
                    == p);
            }
        }
    }
}

/// A law of the walk: the run's own output destination is never collected
/// as an input, wherever in the tree it stands.
pub proof fn lemma_output_never_collected(
    m: &ExcludeMatcher,
    skip_hidden: bool,
    output: Seq<char>,
    entries: Seq<EntryInfo>,
)
    ensures
        !spec_collected(m, skip_hidden, output, entries).contains(output),
{
    lemma_collected_characterizes(m, skip_hidden, output, entries);
    if spec_collected(m, skip_hidden, output, entries).contains(output) {
        let i = choose|i: int|
            0 <= i < entries.len() && spec_keeps(m, skip_hidden, output, entries, i)
                && entries[i].path@ == output;
        assert(false);
    }
}

} // verus!
