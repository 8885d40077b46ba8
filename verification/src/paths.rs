use vstd::prelude::*;
use vstd::string::StringExecFns;

verus! {

/// The index where the final path component begins: the position right
/// after the last '/' in `p`, or 0 when `p` holds no '/'.
pub open spec fn spec_comp_start(p: Seq<char>) -> int
    decreases p.len(),
{
    if p.len() == 0 {
        0
    } else if p.last() == '/' {
        p.len() as int
    } else {
        spec_comp_start(p.drop_last())
    }
}

/// Whether the final component of the path begins with a dot.
pub open spec fn spec_is_hidden(p: Seq<char>) -> bool {
    spec_comp_start(p) < p.len() && p[spec_comp_start(p)] == '.'
}

/// `spec_comp_start` of a longer prefix is determined by the next character:
/// a '/' restarts the component, anything else leaves its start in place.
proof fn lemma_comp_start_step(p: Seq<char>, i: int)
    requires
        0 <= i < p.len(),
    ensures
        spec_comp_start(p.take(i + 1)) == if p[i] == '/' {
            i + 1
        } else {
            spec_comp_start(p.take(i))
        },
{
    let q = p.take(i + 1);
    assert(q.last() == p[i]);
    if p[i] != '/' {
        assert(q.drop_last() =~= p.take(i));
    }
}

/// Whether a directory entry is hidden: its name (the path's final
/// component) starts with a dot.
pub fn is_hidden(path: &str) -> (r: bool)
    ensures
        r == spec_is_hidden(path@),
{
    let len = path.unicode_len();
    let mut cs: usize = 0;
    let mut i: usize = 0;
    proof {
        assert(path@.take(0) =~= Seq::<char>::empty());
    }
    while i < len
        invariant
            i <= len,
            len == path@.len(),
            cs as int == spec_comp_start(path@.take(i as int)),
            cs <= i,
        decreases len - i,
    {
        proof {
            lemma_comp_start_step(path@, i as int);
        }
        if path.get_char(i) == '/' {
            cs = i + 1;
        }
        i = i + 1;
    }
    proof {
        assert(path@.take(len as int) =~= path@);
    }
    if cs < len {
        path.get_char(cs) == '.'
    } else {
        false
    }
}

/// `base` and `name` joined with a single '/' separator; a '/' already at
/// the end of `base` is reused rather than doubled.
pub open spec fn spec_path_join(base: Seq<char>, name: Seq<char>) -> Seq<char> {
    if base.len() > 0 && base.last() == '/' {
        base + name
    } else {
        base + seq!['/'] + name
    }
}

/// Joins a directory path and an entry name with a '/' separator.
pub fn path_join(base: &str, name: &str) -> (r: String)
    ensures
        r@ == spec_path_join(base@, name@),
{
    let len = base.unicode_len();
    let mut out = String::from_str(base);
    if len == 0 || base.get_char(len - 1) != '/' {
        crate::strutil::push_char(&mut out, '/');
        proof {
            assert(out@ =~= base@ + seq!['/']);
        }
    }
    out.append(name);
    out
}

/// The path under which a file appears in an output header: the remainder
/// after stripping the `root` prefix (with its separator), or the path
/// unchanged when it does not lie under `root`.
pub open spec fn spec_relative_to(root: Seq<char>, path: Seq<char>) -> Seq<char> {
    if root.len() > 0 && path.len() >= root.len() && path.take(root.len() as int) == root {
        if root.last() == '/' {
            path.skip(root.len() as int)
        } else if path.len() == root.len() {
            Seq::empty()
        } else if path[root.len() as int] == '/' {
            path.skip(root.len() as int + 1)
        } else {
            path
        }
    } else {
        path
    }
}

/// Computes the path relative to `root` for a header, falling back to the
/// path itself when it is not a descendant of `root`.
pub fn relative_to(root: &str, path: &str) -> (r: String)
    ensures
        r@ == spec_relative_to(root@, path@),
{
    let rl = root.unicode_len();
    let pl = path.unicode_len();
    if rl == 0 || pl < rl {
        return String::from_str(path);
    }
    let head = path.substring_char(0, rl);
    if !crate::strutil::str_eq_str(head, root) {
        return String::from_str(path);
    }
    if root.get_char(rl - 1) == '/' {
        proof {
            assert(root@.last() == '/');
        }
        return String::from_str(path.substring_char(rl, pl));
    }
    if pl == rl {
        return String::new();
    }
    if path.get_char(rl) == '/' {
        return String::from_str(path.substring_char(rl + 1, pl));
    }
    String::from_str(path)
}

/// Whether `p` names an entry strictly below the directory `dir`: it
/// continues `dir` past a '/' separator.
pub open spec fn spec_under(p: Seq<char>, dir: Seq<char>) -> bool {
    dir.len() > 0 && p.len() > dir.len() && p.take(dir.len() as int) == dir && (dir.last() == '/'
        || p[dir.len() as int] == '/')
}

/// Whether `path` lies strictly below the directory `dir`.
pub fn is_under(path: &str, dir: &str) -> (r: bool)
    ensures
        r == spec_under(path@, dir@),
{
    let dl = dir.unicode_len();
    let pl = path.unicode_len();
    if dl == 0 || pl <= dl {
        return false;
    }
    let head = path.substring_char(0, dl);
    if !crate::strutil::str_eq_str(head, dir) {
        return false;
    }
    if dir.get_char(dl - 1) == '/' {
        proof {
            assert(dir@.last() == '/');
        }
        true
    } else {
        path.get_char(dl) == '/'
    }
}

/// The standard white-space characters, the ones `trim_end` removes.
pub open spec fn spec_is_whitespace(c: char) -> bool {
    let u = c as u32;
    (9 <= u && u <= 13) || u == 32 || u == 0x85 || u == 0xA0 || u == 0x1680 || (0x2000 <= u && u
        <= 0x200A) || u == 0x2028 || u == 0x2029 || u == 0x202F || u == 0x205F || u == 0x3000
}

/// How many leading characters survive trimming trailing white space.
pub open spec fn spec_trim_len(s: Seq<char>) -> int
    decreases s.len(),
{
    if s.len() > 0 && spec_is_whitespace(s.last()) {
        spec_trim_len(s.drop_last())
    } else {
        s.len() as int
    }
}

/// `s` with its trailing white space removed.
pub open spec fn spec_trim_end(s: Seq<char>) -> Seq<char> {
    s.take(spec_trim_len(s))
}

proof fn lemma_trim_len_bounds(s: Seq<char>)
    ensures
        0 <= spec_trim_len(s) <= s.len(),
    decreases s.len(),
{
    if s.len() > 0 && spec_is_whitespace(s.last()) {
        lemma_trim_len_bounds(s.drop_last());
    }
}

/// Trimming only looks at the trailing run of white space: a prefix that
/// ends in a non-white-space character, or the whole string, decides it.
proof fn lemma_trim_len_prefix(s: Seq<char>, i: int)
    requires
        0 <= i <= s.len(),
        forall|j: int| i <= j < s.len() ==> spec_is_whitespace(s[j]),
    ensures
        spec_trim_len(s) == spec_trim_len(s.take(i)),
    decreases s.len() - i,
{
    if i < s.len() {
        assert(spec_is_whitespace(s.last()));
        assert(s.drop_last() =~= s.take(s.len() - 1));
        lemma_trim_len_prefix(s.take(s.len() - 1), i);
        assert(s.take(s.len() - 1).take(i) =~= s.take(i));
    } else {
        assert(s.take(i) =~= s);
    }
}

/// What trimming promises of its result: a non-empty trimmed string never
/// ends in white space.
pub proof fn lemma_trim_end_no_trailing_ws(s: Seq<char>)
    ensures
        spec_trim_end(s).len() > 0 ==> !spec_is_whitespace(spec_trim_end(s).last()),
    decreases s.len(),
{
    lemma_trim_len_bounds(s);
    if s.len() > 0 && spec_is_whitespace(s.last()) {
        lemma_trim_end_no_trailing_ws(s.drop_last());
        lemma_trim_len_bounds(s.drop_last());
        assert(spec_trim_end(s) =~= spec_trim_end(s.drop_last()));
    }
}

fn is_whitespace_char(c: char) -> (r: bool)
    ensures
        r == spec_is_whitespace(c),
{
    let u = c as u32;
    (9 <= u && u <= 13) || u == 32 || u == 0x85 || u == 0xA0 || u == 0x1680 || (0x2000 <= u && u
        <= 0x200A) || u == 0x2028 || u == 0x2029 || u == 0x202F || u == 0x205F || u == 0x3000
}

/// Returns `s` with its trailing white space removed, the normalization
/// applied to every file's content before it is written to the output.
pub fn trim_end(s: &str) -> (r: String)
    ensures
        r@ == spec_trim_end(s@),
{
    let len = s.unicode_len();
    let mut i: usize = len;
    while i > 0 && is_whitespace_char(s.get_char(i - 1))
        invariant
            i <= len,
            len == s@.len(),
            forall|j: int| i <= j < s@.len() ==> spec_is_whitespace(s@[j]),
        decreases i,
    {
        i = i - 1;
    }
    proof {
        lemma_trim_len_prefix(s@, i as int);
        if i > 0 {
            assert(s@.take(i as int).last() == s@[i as int - 1]);
            assert(!spec_is_whitespace(s@.take(i as int).last()));
        }
        lemma_trim_len_bounds(s@.take(i as int));
        assert(spec_trim_len(s@.take(i as int)) == i as int);
        assert(s@.take(i as int) =~= spec_trim_end(s@));
    }
    String::from_str(s.substring_char(0, i))
}

} // verus!
