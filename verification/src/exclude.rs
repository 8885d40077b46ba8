use vstd::prelude::*;

use crate::error::PipelineError;

verus! {

/// The ignore crate's pattern builder, declared so that it can stand in
/// signatures; its value is reasoned about only through the names below.
#[verifier::external_type_specification]
#[verifier::external_body]
pub struct ExGitignoreBuilder(ignore::gitignore::GitignoreBuilder);

/// The ignore crate's compiled gitignore matcher, declared likewise.
#[verifier::external_type_specification]
#[verifier::external_body]
pub struct ExGitignore(ignore::gitignore::Gitignore);

/// The ignore crate's error type; it is only carried out of the wrappers
/// and mapped to the pipeline's own error kinds.
#[verifier::external_type_specification]
#[verifier::external_body]
pub struct ExIgnoreError(ignore::Error);

/// The root a pattern builder was created for: the directory its globs are
/// matched relative to.
pub uninterp spec fn builder_root(b: ignore::gitignore::GitignoreBuilder) -> Seq<char>;

/// The pattern lines a builder holds, in the order they were added.
pub uninterp spec fn builder_lines(b: ignore::gitignore::GitignoreBuilder) -> Seq<Seq<char>>;

/// The root a compiled matcher was built for.
pub uninterp spec fn gitignore_root(g: ignore::gitignore::Gitignore) -> Seq<char>;

/// The pattern lines a compiled matcher was built from, in order.
pub uninterp spec fn gitignore_lines(g: ignore::gitignore::Gitignore) -> Seq<Seq<char>>;

/// The gitignore answer for a path: whether, under the rules compiled
/// from `lines` relative to `root`, the last rule matching `path` (a
/// directory when `is_dir`) excludes it. Later lines take precedence and
/// a negated rule re-includes, so the answer is not monotone in `lines`.
pub uninterp spec fn gitignore_excludes(
    root: Seq<char>,
    lines: Seq<Seq<char>>,
    path: Seq<char>,
    is_dir: bool,
) -> bool;

/// Whether a pattern line cannot be parsed as a gitignore glob.
pub uninterp spec fn gitignore_line_malformed(line: Seq<char>) -> bool;

/// Whether the glob-set compiler accepts the rules parsed from these
/// lines: what `GitignoreBuilder::build` decides, a function of the added
/// lines alone under the configuration every builder here keeps.
pub uninterp spec fn gitignore_rules_compile(lines: Seq<Seq<char>>) -> bool;

/// Relies on GitignoreBuilder::new: a fresh builder whose globs will be
/// matched relative to `root`, holding no pattern lines yet.
#[verifier::external_body]
fn builder_new(root: &str) -> (b: ignore::gitignore::GitignoreBuilder)
    ensures
        builder_root(b) == root@,
        builder_lines(b) == Seq::<Seq<char>>::empty(),
{
    ignore::gitignore::GitignoreBuilder::new(root)
}

/// Relies on GitignoreBuilder::add_line: parses one gitignore pattern line
/// and appends it to the builder's rules. Every builder here keeps the
/// configuration `GitignoreBuilder::new` sets up, so whether the line
/// parses depends on its text alone; a line that does not parse leaves
/// the builder unchanged.
#[verifier::external_body]
fn builder_add_line(b: &mut ignore::gitignore::GitignoreBuilder, line: &str) -> (r: Result<
    (),
    ignore::Error,
>)
    ensures
        r is Ok <==> !gitignore_line_malformed(line@),
        r is Ok ==> builder_lines(*final(b)) == builder_lines(*old(b)).push(line@),
        r is Err ==> builder_lines(*final(b)) == builder_lines(*old(b)),
        builder_root(*final(b)) == builder_root(*old(b)),
{
    match b.add_line(None, line) {
        Ok(_) => Ok(()),
        Err(e) => Err(e),
    }
}

/// Relies on GitignoreBuilder::build: compiles the added pattern lines
/// into a matcher for the same root and the same rules; whether the
/// compilation succeeds depends on the added lines alone.
#[verifier::external_body]
fn builder_build(b: &ignore::gitignore::GitignoreBuilder) -> (r: Result<
    ignore::gitignore::Gitignore,
    ignore::Error,
>)
    ensures
        r is Ok <==> gitignore_rules_compile(builder_lines(*b)),
        r matches Ok(g) ==> gitignore_root(g) == builder_root(*b) && gitignore_lines(g)
            == builder_lines(*b),
{
    b.build()
}

/// Relies on Gitignore::matched: what it answers for a path is a function
/// of the compiled rules, the root, the path and the directory flag alone,
/// and a matcher holding no rules never matches any path.
#[verifier::external_body]
fn gitignore_is_ignored(g: &ignore::gitignore::Gitignore, path: &str, is_dir: bool) -> (r: bool)
    ensures
        r == gitignore_excludes(gitignore_root(*g), gitignore_lines(*g), path@, is_dir),
        gitignore_lines(*g).len() == 0 ==> r == false,
{
    g.matched(path, is_dir).is_ignore()
}

/// Adds each pattern line to the builder in order; the first line that
/// does not parse aborts the build with `PatternSyntaxError`, leaving no
/// rule of a malformed set half-applied.
fn add_pattern_lines(b: &mut ignore::gitignore::GitignoreBuilder, lines: &Vec<String>) -> (r:
    Result<(), PipelineError>)
    ensures
        r is Ok <==> forall|i: int|
            0 <= i < lines@.len() ==> !gitignore_line_malformed((#[trigger] lines@[i])@),
        r is Ok ==> builder_lines(*final(b)) == builder_lines(*old(b))
            + crate::strutil::spec_str_views(lines@) && builder_root(*final(b)) == builder_root(
            *old(b),
        ),
        r matches Err(e) ==> e == PipelineError::PatternSyntaxError,
{
    let ghost base = builder_lines(*b);
    let ghost base_root = builder_root(*b);
    let mut k: usize = 0;
    proof {
        assert(lines@.take(0) =~= Seq::<String>::empty());
        assert(base + crate::strutil::spec_str_views(lines@.take(0)) =~= base);
    }
    while k < lines.len()
        invariant
            k <= lines@.len(),
            base == builder_lines(*old(b)),
            base_root == builder_root(*old(b)),
            builder_root(*b) == base_root,
            builder_lines(*b) == base + crate::strutil::spec_str_views(lines@.take(k as int)),
            forall|i: int| 0 <= i < k ==> !gitignore_line_malformed((#[trigger] lines@[i])@),
        decreases lines@.len() - k,
    {
        proof {
            assert(lines@.take(k as int + 1).drop_last() =~= lines@.take(k as int));
            assert(lines@.take(k as int + 1).last() == lines@[k as int]);
        }
        match builder_add_line(b, lines[k].as_str()) {
            Ok(_) => {
                proof {
                    assert(builder_lines(*b) =~= base + crate::strutil::spec_str_views(
                        lines@.take(k as int + 1),
                    ));
                }
            },
            Err(_) => {
                return Err(PipelineError::PatternSyntaxError);
            },
        }
        k = k + 1;
    }
    proof {
        assert(lines@.take(lines@.len() as int) =~= lines@);
    }
    Ok(())
}

/// ExcludeMatcher decides whether paths should be excluded from traversal.
///
/// It is built once per run from the lines of the project's ignore file (if
/// one was found at the root) followed by the caller-supplied patterns, and
/// answers queries with gitignore precedence: the last matching rule wins.
pub struct ExcludeMatcher {
    inner: ignore::gitignore::Gitignore,
}

impl ExcludeMatcher {
    /// The root the matcher's rules are relative to.
    pub closed spec fn root(&self) -> Seq<char> {
        gitignore_root(self.inner)
    }

    /// The pattern lines the matcher was compiled from, in order.
    pub closed spec fn lines(&self) -> Seq<Seq<char>> {
        gitignore_lines(self.inner)
    }

    /// What the matcher answers for a path.
    pub open spec fn spec_excludes(&self, path: Seq<char>, is_dir: bool) -> bool {
        gitignore_excludes(self.root(), self.lines(), path, is_dir)
    }

    /// Creates a matcher from the ignore file's lines and the
    /// caller-supplied patterns, in that order, so that caller patterns
    /// take gitignore precedence over file patterns.
    ///
    /// Building succeeds exactly when every pattern line, from either
    /// source, parses and the rule set compiles; any malformed line is a
    /// `PatternSyntaxError`. A missing ignore file is no error: its lines
    /// are simply absent.
    pub fn new(root: &str, ignore_lines: &Vec<String>, cli_patterns: &Vec<String>) -> (r: Result<
        ExcludeMatcher,
        PipelineError,
    >)
        ensures
            r is Ok <==> ({
                &&& forall|i: int|
                    0 <= i < ignore_lines@.len() ==> !gitignore_line_malformed(
                        (#[trigger] ignore_lines@[i])@,
                    )
                &&& forall|i: int|
                    0 <= i < cli_patterns@.len() ==> !gitignore_line_malformed(
                        (#[trigger] cli_patterns@[i])@,
                    )
                &&& gitignore_rules_compile(
                    crate::strutil::spec_str_views(ignore_lines@)
                        + crate::strutil::spec_str_views(cli_patterns@),
                )
            }),
            r matches Ok(m) ==> m.root() == root@ && m.lines() == crate::strutil::spec_str_views(
                ignore_lines@,
            ) + crate::strutil::spec_str_views(cli_patterns@),
            r matches Err(e) ==> e == PipelineError::PatternSyntaxError,
    {
        let mut b = builder_new(root);
        match add_pattern_lines(&mut b, ignore_lines) {
            Ok(_) => {},
            Err(e) => {
                return Err(e);
            },
        }
        match add_pattern_lines(&mut b, cli_patterns) {
            Ok(_) => {},
            Err(e) => {
                return Err(e);
            },
        }
        proof {
            assert(builder_lines(b) =~= crate::strutil::spec_str_views(ignore_lines@)
                + crate::strutil::spec_str_views(cli_patterns@));
        }
        match builder_build(&b) {
            Ok(g) => Ok(ExcludeMatcher { inner: g }),
            Err(_) => Err(PipelineError::PatternSyntaxError),
        }
    }

    /// Answers whether `path` is excluded under the compiled rules, given
    /// whether it is a directory (directory-only rules match only then).
    /// A matcher built from no rules excludes nothing.
    pub fn is_excluded(&self, path: &str, is_dir: bool) -> (r: bool)
        ensures
            r == self.spec_excludes(path@, is_dir),
            self.lines().len() == 0 ==> r == false,
    {
        gitignore_is_ignored(&self.inner, path, is_dir)
    }
}

/// The reserved file name of the project-level ignore file looked for at
/// the root of a run.
pub fn ignore_file_name() -> (r: &'static str)
    ensures
        r@ == ".treeclipignore"@,
{
    ".treeclipignore"
}

/// The full path of the project-level ignore file under `root`.
pub fn ignore_file_path(root: &str) -> (r: String)
    ensures
        r@ == crate::paths::spec_path_join(root@, ".treeclipignore"@),
{
    crate::paths::path_join(root, ignore_file_name())
}

} // verus!
