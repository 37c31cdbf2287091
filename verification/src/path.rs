//! Paths as text, with `/` between components.
//!
//! The library never touches the filesystem; it only composes the paths that
//! its caller is to work on. A path here is a string, and the few operations
//! on it are defined on its characters.

use vstd::prelude::*;
use vstd::string::*;

verus! {

/// What `base` and `name` give when `name` is adjoined to `base`: `name`
/// alone if it is absolute or `base` is empty, else `base` and `name` with
/// exactly one separator between them where `base` does not end in one.
pub open spec fn join_spec(base: Seq<char>, name: Seq<char>) -> Seq<char> {
    if name.len() > 0 && name[0] == '/' {
        name
    } else if base.len() == 0 {
        name
    } else if base.last() == '/' {
        base + name
    } else {
        base + seq!['/'] + name
    }
}

/// Whether `name` holds no separator, so that it names an entry directly
/// inside whatever directory it is adjoined to.
pub open spec fn is_bare_name_spec(name: Seq<char>) -> bool {
    forall|i: int| 0 <= i < name.len() ==> name[i] != '/'
}

/// The position of the last separator in `path`, or -1 if there is none.
pub open spec fn last_separator(path: Seq<char>) -> int
    decreases path.len(),
{
    if path.len() == 0 {
        -1
    } else if path.last() == '/' {
        path.len() - 1
    } else {
        last_separator(path.drop_last())
    }
}

/// The text of `path` behind its last separator; all of it if there is none.
pub open spec fn last_component(path: Seq<char>) -> Seq<char> {
    path.subrange(last_separator(path) + 1, path.len() as int)
}

/// The name of the entry that an absolute, normalised `path` ends in: its
/// last component, unless that is empty, `.` or `..`.
pub open spec fn file_name_spec(path: Seq<char>) -> Option<Seq<char>> {
    let name = last_component(path);
    if name.len() == 0 || name == seq!['.'] || name == seq!['.', '.'] {
        None
    } else {
        Some(name)
    }
}

/// The name of a participant's directory: `sub-` and the identifier.
pub open spec fn participant_dir_spec(participant: Seq<char>) -> Seq<char> {
    seq!['s', 'u', 'b', '-'] + participant
}

/// `last_separator` is -1 or the position of a separator, and no separator
/// stands behind it.
pub proof fn lemma_last_separator(path: Seq<char>)
    ensures
        -1 <= last_separator(path) < path.len(),
        last_separator(path) >= 0 ==> path[last_separator(path)] == '/',
        forall|i: int| last_separator(path) < i < path.len() ==> path[i] != '/',
    decreases path.len(),
{
    if path.len() > 0 && path.last() != '/' {
        lemma_last_separator(path.drop_last());
        assert forall|i: int| last_separator(path) < i < path.len() implies path[i] != '/' by {
            if i < path.len() - 1 {
                assert(path.drop_last()[i] == path[i]);
            }
        }
    }
}

/// Adjoins `name` to `base`.
pub fn join(base: &str, name: &str) -> (joined: String)
    ensures
        joined@ == join_spec(base@, name@),
{
    let name_len = name.unicode_len();
    let base_len = base.unicode_len();
    if name_len > 0 && name.get_char(0) == '/' {
        String::from_str(name)
    } else if base_len == 0 {
        String::from_str(name)
    } else {
        let mut joined = String::from_str(base);
        if base.get_char(base_len - 1) != '/' {
            proof {
                reveal_strlit("/");
            }
            joined.append("/");
        }
        joined.append(name);
        joined
    }
}

/// Whether `name` holds no separator.
pub fn is_bare_name(name: &str) -> (bare: bool)
    ensures
        bare == is_bare_name_spec(name@),
{
    let len = name.unicode_len();
    let mut i: usize = 0;
    while i < len
        invariant
            i <= len,
            len == name@.len(),
            forall|j: int| 0 <= j < i ==> name@[j] != '/',
        decreases len - i,
    {
        if name.get_char(i) == '/' {
            return false;
        }
        i += 1;
    }
    true
}

/// The name of the entry that an absolute, normalised `path` ends in.
pub fn file_name(path: &str) -> (name: Option<String>)
    ensures
        match name {
            Some(name) => file_name_spec(path@) == Some(name@),
            None => file_name_spec(path@) is None,
        },
{
    let len = path.unicode_len();
    let mut start: usize = len;
    proof {
        lemma_last_separator(path@);
    }
    while start > 0 && path.get_char(start - 1) != '/'
        invariant
            start <= len,
            len == path@.len(),
            forall|j: int| start <= j < len ==> path@[j] != '/',
        decreases start,
    {
        start -= 1;
    }
    assert(start == last_separator(path@) + 1);
    let name = path.substring_char(start, len);
    let name_len = len - start;
    if name_len == 0 {
        None
    } else if name_len == 1 && name.get_char(0) == '.' {
        assert(name@ =~= seq!['.']);
        None
    } else if name_len == 2 && name.get_char(0) == '.' && name.get_char(1) == '.' {
        assert(name@ =~= seq!['.', '.']);
        None
    } else {
        Some(String::from_str(name))
    }
}

/// The name of a participant's directory: `sub-` and the identifier.
pub fn participant_dir(participant: &str) -> (name: String)
    ensures
        name@ == participant_dir_spec(participant@),
{
    proof {
        reveal_strlit("sub-");
    }
    let mut name = String::from_str("sub-");
    name.append(participant);
    name
}

} // verus!
