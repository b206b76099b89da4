//! File-name arithmetic: stems and extensions, as `std::path::Path` splits a
//! single file name at its last dot.
use vstd::prelude::*;
use crate::text::{chars_of, string_of};

verus! {

/// The position of the last `.` in `s`, or -1.
pub open spec fn last_dot(s: Seq<char>) -> int
    decreases s.len(),
{
    if s.len() == 0 {
        -1
    } else if s.last() == '.' {
        s.len() - 1
    } else {
        last_dot(s.drop_last())
    }
}

/// Whether the name splits into a stem and an extension: it has a dot that
/// is not its first character, and it is not `..`.
pub open spec fn has_extension(name: Seq<char>) -> bool {
    name != ".."@ && last_dot(name) > 0
}

/// The stem of a file name (`Path::file_stem`): the part before the last
/// dot, or the whole name when it has no extension.
pub open spec fn file_stem(name: Seq<char>) -> Seq<char> {
    if has_extension(name) {
        name.subrange(0, last_dot(name))
    } else {
        name
    }
}

/// The extension of a file name (`Path::extension`): the part after the last
/// dot, when the name has one.
pub open spec fn file_extension(name: Seq<char>) -> Option<Seq<char>> {
    if has_extension(name) {
        Some(name.subrange(last_dot(name) + 1, name.len() as int))
    } else {
        None
    }
}

proof fn lemma_last_dot_bounds(s: Seq<char>)
    ensures
        -1 <= last_dot(s) < s.len(),
        last_dot(s) >= 0 ==> s[last_dot(s)] == '.',
        forall|j: int| last_dot(s) < j < s.len() ==> s[j] != '.',
    decreases s.len(),
{
    if s.len() > 0 && s.last() != '.' {
        lemma_last_dot_bounds(s.drop_last());
        assert forall|j: int| last_dot(s) < j < s.len() implies s[j] != '.' by {
            if j < s.len() - 1 {
                assert(s.drop_last()[j] == s[j]);
            }
        }
    }
}

proof fn lemma_last_dot_take(s: Seq<char>, i: int)
    requires
        0 <= i <= s.len(),
        forall|j: int| i <= j < s.len() ==> s[j] != '.',
    ensures
        last_dot(s) == last_dot(s.take(i)),
    decreases s.len() - i,
{
    if i < s.len() {
        assert(s.drop_last().take(i) =~= s.take(i));
        lemma_last_dot_take(s.drop_last(), i);
    } else {
        assert(s.take(i) =~= s);
    }
}

fn last_dot_exec(cs: &Vec<char>) -> (r: Option<usize>)
    ensures
        match r {
            Some(i) => i as int == last_dot(cs@) && i < cs@.len(),
            None => last_dot(cs@) == -1,
        },
{
    proof {
        lemma_last_dot_bounds(cs@);
    }
    let mut i: usize = cs.len();
    while i > 0
        invariant
            i <= cs.len(),
            forall|j: int| i <= j < cs.len() ==> cs@[j] != '.',
        decreases i,
    {
        if cs[i - 1] == '.' {
            proof {
                lemma_last_dot_take(cs@, i as int);
                assert(cs@.take(i as int).last() == '.');
            }
            return Some(i - 1);
        }
        i = i - 1;
    }
    proof {
        lemma_last_dot_take(cs@, 0);
    }
    None
}

fn is_dot_dot(cs: &Vec<char>) -> (r: bool)
    ensures
        r == (cs@ == ".."@),
{
    let r = cs.len() == 2 && cs[0] == '.' && cs[1] == '.';
    proof {
        reveal_strlit("..");
        if r {
            assert(cs@ =~= ".."@);
        }
    }
    r
}

/// The stem of `name`.
pub fn stem_of(name: &str) -> (r: String)
    ensures
        r@ == file_stem(name@),
{
    let cs = chars_of(name);
    if is_dot_dot(&cs) {
        return string_of(&cs);
    }
    match last_dot_exec(&cs) {
        Some(i) => {
            if i > 0 {
                let mut stem: Vec<char> = Vec::new();
                let mut k: usize = 0;
                while k < i
                    invariant
                        k <= i,
                        i < cs.len(),
                        stem@ == cs@.take(k as int),
                    decreases i - k,
                {
                    stem.push(cs[k]);
                    k = k + 1;
                    assert(stem@ =~= cs@.take(k as int));
                }
                string_of(&stem)
            } else {
                string_of(&cs)
            }
        },
        None => string_of(&cs),
    }
}

/// The extension of `name`, if it has one.
pub fn extension_of(name: &str) -> (r: Option<String>)
    ensures
        r.deep_view() == file_extension(name@),
{
    let cs = chars_of(name);
    if is_dot_dot(&cs) {
        return None;
    }
    match last_dot_exec(&cs) {
        Some(i) => {
            if i > 0 {
                let mut ext: Vec<char> = Vec::new();
                assert(i < cs.len());
                let mut k: usize = i + 1;
                while k < cs.len()
                    invariant
                        i < k <= cs.len(),
                        ext@ == cs@.subrange(i + 1, k as int),
                    decreases cs.len() - k,
                {
                    ext.push(cs[k]);
                    k = k + 1;
                    assert(ext@ =~= cs@.subrange(i + 1, k as int));
                }
                Some(string_of(&ext))
            } else {
                None
            }
        },
        None => None,
    }
}

} // verus!
