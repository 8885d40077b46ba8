use vstd::prelude::*;
use vstd::string::StringExecFns;

use crate::paths::{relative_to, spec_relative_to, spec_trim_end, trim_end};

verus! {

/// One qualifying input file handed to the aggregator: its path and its
/// textual content.
pub struct FileRecord {
    pub path: String,
    pub content: String,
}

/// The marker that opens every record's header line.
pub open spec fn spec_marker() -> Seq<char> {
    seq!['=', '=', '>', ' ']
}

/// A single newline.
pub open spec fn spec_nl() -> Seq<char> {
    seq!['\n']
}

/// One record of the output: the header `==> <relative path>` on its own
/// line, then the content trimmed of trailing white space, then exactly
/// one newline.
pub open spec fn spec_record(root: Seq<char>, path: Seq<char>, content: Seq<char>) -> Seq<char> {
    spec_marker() + spec_relative_to(root, path) + spec_nl() + spec_trim_end(content) + spec_nl()
}

/// The whole aggregated output for a sequence of files: their records in
/// order, with exactly one blank line (one extra newline) between
/// consecutive records, none before the first and none after the last.
pub open spec fn spec_aggregate(root: Seq<char>, files: Seq<FileRecord>) -> Seq<char>
    decreases files.len(),
{
    if files.len() == 0 {
        Seq::empty()
    } else {
        spec_aggregate(root, files.drop_last()) + (if files.len() > 1 {
            spec_nl()
        } else {
            Seq::<char>::empty()
        }) + spec_record(root, files.last().path@, files.last().content@)
    }
}

/// Renders one record, preceded by the blank-line separator unless it is
/// the first record of the output.
pub fn render_record(root: &str, path: &str, content: &str, first: bool) -> (r: String)
    ensures
        r@ == (if first {
            Seq::<char>::empty()
        } else {
            spec_nl()
        }) + spec_record(root@, path@, content@),
{
    proof {
        reveal_strlit("==> ");
    }
    let mut out = String::new();
    if !first {
        crate::strutil::push_char(&mut out, '\n');
        proof {
            assert(out@ =~= spec_nl());
        }
    }
    out.append("==> ");
    let rel = relative_to(root, path);
    out.append(rel.as_str());
    crate::strutil::push_char(&mut out, '\n');
    let trimmed = trim_end(content);
    out.append(trimmed.as_str());
    crate::strutil::push_char(&mut out, '\n');
    proof {
        assert("==> "@ =~= spec_marker());
        assert(out@ =~= (if first {
            Seq::<char>::empty()
        } else {
            spec_nl()
        }) + spec_record(root@, path@, content@));
    }
    out
}

/// Serializes the files into the single aggregated output stream, in the
/// order given, and reports how many records were written.
pub fn aggregate(root: &str, files: &Vec<FileRecord>) -> (r: (String, usize))
    ensures
        r.0@ == spec_aggregate(root@, files@),
        r.1 == files@.len(),
{
    let mut out = String::new();
    let mut i: usize = 0;
    proof {
        assert(files@.take(0) =~= Seq::<FileRecord>::empty());
    }
    while i < files.len()
        invariant
            i <= files@.len(),
            out@ == spec_aggregate(root@, files@.take(i as int)),
        decreases files@.len() - i,
    {
        proof {
            assert(files@.take(i as int + 1).drop_last() =~= files@.take(i as int));
            assert(files@.take(i as int + 1).last() == files@[i as int]);
        }
        let rec = render_record(
            root,
            files[i].path.as_str(),
            files[i].content.as_str(),
            i == 0,
        );
        out.append(rec.as_str());
        proof {
            assert(out@ =~= spec_aggregate(root@, files@.take(i as int + 1)));
        }
        i = i + 1;
    }
    proof {
        assert(files@.take(files@.len() as int) =~= files@);
    }
    (out, files.len())
}

/// A law of the headers: a file at `<root>/<rel>` is announced under
/// `<rel>` alone; the root prefix never reaches the output.
pub proof fn lemma_relative_strips_root(root: Seq<char>, rel: Seq<char>)
    requires
        root.len() > 0,
        root.last() != '/',
    ensures
        spec_relative_to(root, root + seq!['/'] + rel) == rel,
{
    let path = root + seq!['/'] + rel;
    assert(path.take(root.len() as int) =~= root);
    assert(path[root.len() as int] == '/');
    assert(path.skip(root.len() as int + 1) =~= rel);
}

/// A law of the aggregation: the output is a function of the root and of
/// the records' paths and contents alone, so two runs over the same
/// surviving files produce byte-identical output.
pub proof fn lemma_aggregate_deterministic(
    root: Seq<char>,
    files1: Seq<FileRecord>,
    files2: Seq<FileRecord>,
)
    requires
        files1.len() == files2.len(),
        forall|i: int|
            0 <= i < files1.len() ==> (#[trigger] files1[i]).path@ == files2[i].path@
                && files1[i].content@ == files2[i].content@,
    ensures
        spec_aggregate(root, files1) == spec_aggregate(root, files2),
    decreases files1.len(),
{
    if files1.len() > 0 {
        lemma_aggregate_deterministic(root, files1.drop_last(), files2.drop_last());
        assert(files1.last() == files1[files1.len() - 1]);
        assert(files2.last() == files2[files2.len() - 1]);
    }
}


/// Two consecutive newlines: the shape of a blank-line separator.
pub open spec fn spec_nlnl() -> Seq<char> {
    seq!['\n', '\n']
}

/// Whether `pat` stands at the very start of `s`.
pub open spec fn spec_starts_with(s: Seq<char>, pat: Seq<char>) -> bool {
    s.len() >= pat.len() && s.take(pat.len() as int) == pat
}

/// At how many positions of `s` an occurrence of `pat` starts
/// (occurrences may overlap).
pub open spec fn spec_count_occurrences(s: Seq<char>, pat: Seq<char>) -> nat
    decreases s.len(),
{
    if pat.len() == 0 || s.len() < pat.len() {
        0
    } else {
        (if spec_starts_with(s, pat) {
            1nat
        } else {
            0nat
        }) + spec_count_occurrences(s.skip(1), pat)
    }
}

/// One unfolding step of the count, valid for every non-empty `s`.
proof fn lemma_count_step(s: Seq<char>, pat: Seq<char>)
    requires
        pat.len() > 0,
        s.len() >= 1,
    ensures
        spec_count_occurrences(s, pat) == (if spec_starts_with(s, pat) {
            1nat
        } else {
            0nat
        }) + spec_count_occurrences(s.skip(1), pat),
{
    if s.len() < pat.len() {
        assert(!spec_starts_with(s, pat));
        assert(s.skip(1).len() < pat.len());
    }
}

/// A string none of whose characters can open the pattern holds no
/// occurrence of it.
proof fn lemma_count_zero_without_first(s: Seq<char>, pat: Seq<char>)
    requires
        pat.len() > 0,
        forall|i: int| 0 <= i < s.len() ==> s[i] != pat[0],
    ensures
        spec_count_occurrences(s, pat) == 0,
    decreases s.len(),
{
    if s.len() >= pat.len() {
        if spec_starts_with(s, pat) {
            assert(s.take(pat.len() as int)[0] == pat[0]);
            assert(false);
        }
        assert(forall|i: int| 0 <= i < s.skip(1).len() ==> s.skip(1)[i] != pat[0]);
        lemma_count_zero_without_first(s.skip(1), pat);
    }
}

/// Counting across a concatenation, for a two-character pattern: the two
/// sides' counts, plus one more when the pattern straddles the seam.
proof fn lemma_count_concat_pair(a: Seq<char>, b: Seq<char>, pat: Seq<char>)
    requires
        pat.len() == 2,
    ensures
        spec_count_occurrences(a + b, pat) == spec_count_occurrences(a, pat)
            + spec_count_occurrences(b, pat) + (if a.len() >= 1 && b.len() >= 1 && a.last()
            == pat[0] && b.first() == pat[1] {
            1nat
        } else {
            0nat
        }),
    decreases a.len(),
{
    let s = a + b;
    if a.len() == 0 {
        assert(s =~= b);
    } else if a.len() == 1 {
        assert(s.skip(1) =~= b);
        lemma_count_step(s, pat);
        if b.len() >= 1 {
            if a.last() == pat[0] && b.first() == pat[1] {
                assert(s.take(2) =~= pat);
                assert(spec_starts_with(s, pat));
            } else {
                if spec_starts_with(s, pat) {
                    assert(s.take(2)[0] == pat[0] && s.take(2)[1] == pat[1]);
                    assert(s[0] == a.last() && s[1] == b.first());
                    assert(false);
                }
            }
        } else {
            assert(s.len() == 1);
        }
    } else {
        assert(s.skip(1) =~= a.skip(1) + b);
        lemma_count_concat_pair(a.skip(1), b, pat);
        lemma_count_step(s, pat);
        lemma_count_step(a, pat);
        assert(s.take(2) =~= a.take(2));
        assert(spec_starts_with(s, pat) == spec_starts_with(a, pat));
        assert(a.skip(1).len() >= 1 && a.skip(1).last() == a.last());
    }
}

/// Counting across a concatenation whose right side opens with a newline,
/// for a pattern free of newlines: nothing can straddle the seam.
proof fn lemma_count_concat_before_nl(a: Seq<char>, b: Seq<char>, pat: Seq<char>)
    requires
        pat.len() >= 1,
        b.len() >= 1,
        b.first() == '\n',
        forall|t: int| 0 <= t < pat.len() ==> pat[t] != '\n',
    ensures
        spec_count_occurrences(a + b, pat) == spec_count_occurrences(a, pat)
            + spec_count_occurrences(b, pat),
    decreases a.len(),
{
    let s = a + b;
    if a.len() == 0 {
        assert(s =~= b);
    } else {
        assert(s.skip(1) =~= a.skip(1) + b);
        lemma_count_concat_before_nl(a.skip(1), b, pat);
        lemma_count_step(s, pat);
        if a.len() >= pat.len() {
            lemma_count_step(a, pat);
            assert(s.take(pat.len() as int) =~= a.take(pat.len() as int));
            assert(spec_starts_with(s, pat) == spec_starts_with(a, pat));
        } else {
            if spec_starts_with(s, pat) {
                assert(s.take(pat.len() as int)[a.len() as int] == pat[a.len() as int]);
                assert(s[a.len() as int] == b.first());
                assert(false);
            }
            assert(spec_count_occurrences(a, pat) == 0);
            assert(a.skip(1).len() < pat.len());
            assert(spec_count_occurrences(a.skip(1), pat) == 0);
        }
    }
}

/// The count of header markers in a string that begins with one: the
/// marker's own shape admits no further occurrence inside its first four
/// positions.
proof fn lemma_count_marker_prefix(rest: Seq<char>)
    ensures
        spec_count_occurrences(spec_marker() + rest, spec_marker()) == 1
            + spec_count_occurrences(rest, spec_marker()),
{
    let pat = spec_marker();
    let s0 = pat + rest;
    let s1 = s0.skip(1);
    let s2 = s1.skip(1);
    let s3 = s2.skip(1);
    assert(s1 =~= seq!['=', '>', ' '] + rest);
    assert(s2 =~= seq!['>', ' '] + rest);
    assert(s3 =~= seq![' '] + rest);
    assert(s3.skip(1) =~= rest);
    assert(s0.take(4) =~= pat);
    assert(spec_starts_with(s0, pat));
    lemma_count_step(s0, pat);
    if spec_starts_with(s1, pat) {
        assert(s1.take(4)[1] == pat[1]);
        assert(s1[1] == '>');
        assert(false);
    }
    lemma_count_step(s1, pat);
    if spec_starts_with(s2, pat) {
        assert(s2.take(4)[0] == pat[0]);
        assert(false);
    }
    lemma_count_step(s2, pat);
    if spec_starts_with(s3, pat) {
        assert(s3.take(4)[0] == pat[0]);
        assert(false);
    }
    lemma_count_step(s3, pat);
}

/// A record whose header path and trimmed content can be counted cleanly:
/// neither holds a header marker, the path holds no newline, and the
/// content is non-empty, does not open with a newline, and holds no blank
/// line of its own.
pub open spec fn spec_countable_record(root: Seq<char>, f: FileRecord) -> bool {
    let rel = spec_relative_to(root, f.path@);
    let tc = spec_trim_end(f.content@);
    &&& spec_count_occurrences(rel, spec_marker()) == 0
    &&& forall|i: int| 0 <= i < rel.len() ==> rel[i] != '\n'
    &&& spec_count_occurrences(tc, spec_marker()) == 0
    &&& spec_count_occurrences(tc, spec_nlnl()) == 0
    &&& tc.len() > 0
    &&& tc.first() != '\n'
}

/// One clean record holds exactly one header marker and no blank line.
proof fn lemma_record_counts(root: Seq<char>, f: FileRecord)
    requires
        spec_countable_record(root, f),
    ensures
        spec_count_occurrences(spec_record(root, f.path@, f.content@), spec_marker()) == 1,
        spec_count_occurrences(spec_record(root, f.path@, f.content@), spec_nlnl()) == 0,
        spec_record(root, f.path@, f.content@).first() == '=',
        spec_record(root, f.path@, f.content@).last() == '\n',
{
    let pat = spec_marker();
    let nlnl = spec_nlnl();
    let rel = spec_relative_to(root, f.path@);
    let tc = spec_trim_end(f.content@);
    let rec = spec_record(root, f.path@, f.content@);
    let inner1 = tc + spec_nl();
    let inner2 = spec_nl() + inner1;
    let inner3 = rel + inner2;
    assert(rec =~= spec_marker() + inner3);

    // header markers
    lemma_count_concat_before_nl(tc, spec_nl(), pat);
    assert(spec_count_occurrences(spec_nl(), pat) == 0);
    lemma_count_step(inner2, pat);
    assert(inner2.skip(1) =~= inner1);
    if spec_starts_with(inner2, pat) {
        assert(inner2.take(4)[0] == pat[0]);
        assert(false);
    }
    lemma_count_concat_before_nl(rel, inner2, pat);
    lemma_count_marker_prefix(inner3);
    assert(spec_count_occurrences(rec, pat) == 1);

    // blank lines
    crate::paths::lemma_trim_end_no_trailing_ws(f.content@);
    assert(tc.last() != '\n');
    lemma_count_concat_pair(tc, spec_nl(), nlnl);
    assert(spec_count_occurrences(spec_nl(), nlnl) == 0);
    assert(spec_count_occurrences(inner1, nlnl) == 0);
    lemma_count_concat_pair(spec_nl(), inner1, nlnl);
    assert(inner1.first() == tc.first());
    assert(spec_count_occurrences(inner2, nlnl) == 0);
    lemma_count_concat_pair(rel, inner2, nlnl);
    lemma_count_zero_without_first(rel, nlnl);
    assert(spec_count_occurrences(inner3, nlnl) == 0);
    lemma_count_concat_pair(spec_marker(), inner3, nlnl);
    lemma_count_zero_without_first(spec_marker(), nlnl);
    assert(inner3.first() == if rel.len() > 0 { rel.first() } else { '\n' });
    assert(spec_count_occurrences(rec, nlnl) == 0);

    // shape
    assert(rec.first() == '=');
    assert(rec.last() == '\n');
}

/// A law of the output format: for N aggregated clean records the output
/// holds exactly N header markers and exactly N-1 blank-line separators.
pub proof fn lemma_record_separators(root: Seq<char>, files: Seq<FileRecord>)
    requires
        forall|i: int| 0 <= i < files.len() ==> spec_countable_record(root, #[trigger] files[i]),
    ensures
        spec_count_occurrences(spec_aggregate(root, files), spec_marker()) == files.len(),
        files.len() >= 1 ==> spec_count_occurrences(spec_aggregate(root, files), spec_nlnl())
            == files.len() - 1,
        files.len() >= 1 ==> spec_aggregate(root, files).first() == '='
            && spec_aggregate(root, files).last() == '\n' && spec_aggregate(root, files).len()
            >= 1,
    decreases files.len(),
{
    if files.len() == 0 {
    } else if files.len() == 1 {
        let rec = spec_record(root, files[0].path@, files[0].content@);
        assert(files.drop_last() =~= Seq::<FileRecord>::empty());
        assert(spec_aggregate(root, Seq::<FileRecord>::empty()) == Seq::<char>::empty());
        assert(files.last() == files[0]);
        assert(spec_aggregate(root, files) =~= rec);
        lemma_record_counts(root, files[0]);
    } else {
        let pre = files.drop_last();
        let f = files.last();
        lemma_record_separators(root, pre);
        lemma_record_counts(root, f);
        let p = spec_aggregate(root, pre);
        let rec = spec_record(root, f.path@, f.content@);
        let tailpart = spec_nl() + rec;
        assert(spec_aggregate(root, files) =~= p + tailpart);

        // markers
        lemma_count_concat_before_nl(p, tailpart, spec_marker());
        lemma_count_step(tailpart, spec_marker());
        assert(tailpart.skip(1) =~= rec);
        if spec_starts_with(tailpart, spec_marker()) {
            assert(tailpart.take(4)[0] == '=');
            assert(false);
        }
        assert(spec_count_occurrences(spec_aggregate(root, files), spec_marker())
            == files.len());

        // blank lines
        lemma_count_concat_pair(p, tailpart, spec_nlnl());
        lemma_count_concat_pair(spec_nl(), rec, spec_nlnl());
        assert(spec_count_occurrences(spec_nl(), spec_nlnl()) == 0);
        assert(tailpart.first() == '\n');
        assert(spec_count_occurrences(tailpart, spec_nlnl()) == 0);
        assert(spec_count_occurrences(spec_aggregate(root, files), spec_nlnl()) == files.len()
            - 1);

        // shape
        assert(spec_aggregate(root, files).first() == p.first());
        assert(spec_aggregate(root, files).last() == rec.last());
    }
}

} // verus!
