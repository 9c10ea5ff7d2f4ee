use vstd::prelude::*;

verus! {

/// Index of the last `/` in `s`, or -1 when there is none.
pub open spec fn last_sep(s: Seq<char>) -> int
    decreases s.len(),
{
    if s.len() == 0 {
        -1
    } else if s.last() == '/' {
        s.len() - 1
    } else {
        last_sep(s.drop_last())
    }
}

/// `rel` placed under the directory `root`: a `/` goes between them unless
/// `root` is empty or already ends with one.
pub open spec fn join(root: Seq<char>, rel: Seq<char>) -> Seq<char> {
    if root.len() == 0 {
        rel
    } else if root.last() == '/' {
        root + rel
    } else {
        root + seq!['/'] + rel
    }
}

/// The directory that must exist before the entry `name` is written under
/// `root`: the part of `name` before its last `/`, under `root`. None when
/// the entry sits directly in `root`.
pub open spec fn parent_dir_of(root: Seq<char>, name: Seq<char>) -> Option<Seq<char>> {
    if last_sep(name) > 0 {
        Some(join(root, name.subrange(0, last_sep(name))))
    } else {
        None
    }
}

/// Where an entry goes on disk: the file to write and, if any, the directory
/// to create (with its missing ancestors) first.
pub struct Destination {
    pub dir: Option<String>,
    pub file: String,
}

pub open spec fn opt_view(o: Option<String>) -> Option<Seq<char>> {
    match o {
        Some(s) => Some(s@),
        None => None,
    }
}

proof fn lemma_last_sep_bounds(s: Seq<char>)
    ensures
        -1 <= last_sep(s) < s.len(),
        last_sep(s) >= 0 ==> s[last_sep(s)] == '/',
    decreases s.len(),
{
    if s.len() > 0 && s.last() != '/' {
        lemma_last_sep_bounds(s.drop_last());
    }
}

/// Index of the last `/` in `s`.
fn find_last_sep(s: &str) -> (r: Option<usize>)
    ensures
        match r {
            Some(i) => i as int == last_sep(s@),
            None => last_sep(s@) == -1,
        },
{
    let n = s.unicode_len();
    let mut i: usize = n;
    assert(s@.subrange(0, n as int) =~= s@);
    while i > 0
        invariant
            i <= n == s@.len(),
            last_sep(s@) == last_sep(s@.subrange(0, i as int)),
        decreases i,
    {
        let c = s.get_char(i - 1);
        let ghost pre = s@.subrange(0, i as int);
        assert(pre.drop_last() =~= s@.subrange(0, i - 1));
        if c == '/' {
            return Some(i - 1);
        }
        i = i - 1;
    }
    assert(s@.subrange(0, 0) =~= Seq::<char>::empty());
    None
}

fn join_paths(root: &str, rel: &str) -> (r: String)
    ensures
        r@ == join(root@, rel@),
{
    let n = root.unicode_len();
    let mut out = String::from_str(root);
    if n == 0 {
        return String::from_str(rel);
    }
    if root.get_char(n - 1) != '/' {
        out.append("/");
        proof {
            reveal_strlit("/");
        }
        assert(seq!['/'] =~= "/"@);
    }
    out.append(rel);
    out
}

/// Resolves the destination of the entry `name` under the output root.
/// The result depends on the two texts alone.
pub fn resolve_destination(root: &str, name: &str) -> (r: Destination)
    ensures
        r.file@ == join(root@, name@),
        opt_view(r.dir) == parent_dir_of(root@, name@),
{
    let file = join_paths(root, name);
    let dir = match find_last_sep(name) {
        Some(k) => {
            if k > 0 {
                proof {
                    lemma_last_sep_bounds(name@);
                }
                let prefix = name.substring_char(0, k);
                Some(join_paths(root, prefix))
            } else {
                None
            }
        },
        None => None,
    };
    Destination { dir, file }
}

/// Resolving the same name twice under the same root gives the same file and
/// the same directory; the directory, when there is one, lies under the root
/// and is a prefix of the file's path.
pub proof fn resolution_is_stable(root: Seq<char>, name: Seq<char>, a: Destination, b: Destination)
    requires
        a.file@ == join(root, name),
        opt_view(a.dir) == parent_dir_of(root, name),
        b.file@ == join(root, name),
        opt_view(b.dir) == parent_dir_of(root, name),
    ensures
        a.file@ == b.file@,
        opt_view(a.dir) == opt_view(b.dir),
        a.dir matches Some(d) ==> d@.len() < a.file@.len() && d@ == a.file@.subrange(0, d@.len() as int),
{
    lemma_last_sep_bounds(name);
    if let Some(d) = a.dir {
        assert(d@ =~= a.file@.subrange(0, d@.len() as int));
    }
}

} // verus!
