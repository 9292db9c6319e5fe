use vstd::prelude::*;
use vstd::string::StrSliceExecFns;
use vstd::string::StringExecFns;

verus! {

/// A directory and a name below it, joined with a single separator.
pub open spec fn spec_join(dir: Seq<char>, name: Seq<char>) -> Seq<char> {
    dir + "/"@ + name
}

/// Joins a directory and a name below it.
pub fn join_path(dir: &str, name: &str) -> (r: String)
    ensures
        r@ == spec_join(dir@, name@),
{
    String::from_str(dir).concat("/").concat(name)
}

/// What follows the last separator of a path: the path's file name, or the
/// whole path when it has no separator, or nothing when it ends in one.
pub open spec fn spec_last_segment(s: Seq<char>) -> Seq<char>
    decreases s.len(),
{
    if s.len() == 0 {
        s
    } else if s.last() == '/' {
        Seq::<char>::empty()
    } else {
        spec_last_segment(s.drop_last()).push(s.last())
    }
}

/// Returns what follows the last separator of a path.
pub fn last_path_segment(path: &str) -> (r: String)
    ensures
        r@ == spec_last_segment(path@),
{
    let n = path.unicode_len();
    let mut cut: usize = 0;
    let mut i: usize = 0;
    while i < n
        invariant
            n == path@.len(),
            0 <= cut <= i <= n,
            spec_last_segment(path@.take(i as int)) == path@.subrange(cut as int, i as int),
        decreases n - i,
    {
        let c = path.get_char(i);
        proof {
            assert(path@.take(i as int + 1).drop_last() =~= path@.take(i as int));
            assert(path@.take(i as int + 1).last() == path@[i as int]);
        }
        if c == '/' {
            cut = i + 1;
            proof {
                assert(path@.subrange(i as int + 1, i as int + 1) =~= Seq::<char>::empty());
            }
        } else {
            proof {
                assert(path@.subrange(cut as int, i as int).push(path@[i as int]) =~= path@
                    .subrange(cut as int, i as int + 1));
            }
        }
        i = i + 1;
    }
    proof {
        assert(path@.take(n as int) =~= path@);
    }
    path.substring_char(cut, n).to_owned()
}

} // verus!
