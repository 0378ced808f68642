//! The name and the parent directory of a path, read from its text: the part
//! after the last `/`, and the part before it.

use vstd::prelude::*;

verus! {

/// Position of the last `/` in `p`, or -1 when there is none.
pub open spec fn last_slash(p: Seq<char>) -> int
    decreases p.len(),
{
    if p.len() == 0 {
        -1
    } else if p.last() == '/' {
        p.len() - 1
    } else {
        last_slash(p.drop_last())
    }
}

/// The last component of a path.
pub open spec fn name_spec(p: Seq<char>) -> Seq<char> {
    p.subrange(last_slash(p) + 1, p.len() as int)
}

/// The directory that holds a path: empty for a bare name, `/` for an entry of
/// the filesystem root.
pub open spec fn parent_spec(p: Seq<char>) -> Seq<char> {
    let i = last_slash(p);
    if i < 0 {
        Seq::empty()
    } else if i == 0 {
        seq!['/']
    } else {
        p.subrange(0, i)
    }
}

proof fn lemma_last_slash_bounds(p: Seq<char>)
    ensures
        -1 <= last_slash(p) < p.len(),
        last_slash(p) >= 0 ==> p[last_slash(p)] == '/',
        forall|j: int| last_slash(p) < j < p.len() ==> p[j] != '/',
    decreases p.len(),
{
    if p.len() > 0 && p.last() != '/' {
        lemma_last_slash_bounds(p.drop_last());
        assert forall|j: int| last_slash(p) < j < p.len() implies p[j] != '/' by {
            if j < p.len() - 1 {
                assert(p[j] == p.drop_last()[j]);
            }
        }
    }
}

/// Finds the last `/` of `p` by scanning from the end.
fn find_last_slash(p: &str) -> (r: Option<usize>)
    ensures
        r matches Some(i) ==> i as int == last_slash(p@),
        r is None ==> last_slash(p@) == -1,
{
    let n = p.unicode_len();
    let mut i: usize = n;
    proof {
        assert(p@.subrange(0, n as int) =~= p@);
        lemma_last_slash_bounds(p@);
    }
    while i > 0
        invariant
            i <= n,
            n == p@.len(),
            last_slash(p@) < i as int,
            last_slash(p@) == last_slash(p@.subrange(0, i as int)),
        decreases i,
    {
        let c = p.get_char(i - 1);
        let ghost q = p@.subrange(0, i as int);
        assert(q.drop_last() =~= p@.subrange(0, i - 1));
        if c == '/' {
            return Some(i - 1);
        }
        proof {
            lemma_last_slash_bounds(q.drop_last());
        }
        i = i - 1;
    }
    assert(p@.subrange(0, 0).len() == 0);
    None
}

/// The last component of `path`.
pub fn name_of(path: &String) -> (r: String)
    ensures
        r@ == name_spec(path@),
{
    proof {
        lemma_last_slash_bounds(path@);
    }
    let p = path.as_str();
    let n = p.unicode_len();
    match find_last_slash(p) {
        Some(i) => p.substring_char(i + 1, n).to_owned(),
        None => p.substring_char(0, n).to_owned(),
    }
}

/// The directory that holds `path`.
pub fn parent_of(path: &String) -> (r: String)
    ensures
        r@ == parent_spec(path@),
{
    proof {
        lemma_last_slash_bounds(path@);
        reveal_strlit("/");
    }
    let p = path.as_str();
    match find_last_slash(p) {
        Some(i) => {
            if i == 0 {
                "/".to_owned()
            } else {
                p.substring_char(0, i).to_owned()
            }
        },
        None => String::new(),
    }
}

} // verus!
