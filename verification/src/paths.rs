//! The parts of a file path whose components are divided by slashes.

use vstd::prelude::*;
use vstd::string::*;

use crate::text;

verus! {

/// A path without the slashes and the `.` components at its end.
pub open spec fn path_body(s: Seq<char>) -> Seq<char>
    decreases s.len(),
{
    if s.len() > 0 && s.last() == '/' {
        path_body(s.drop_last())
    } else if s.len() >= 2 && s.last() == '.' && s[s.len() - 2] == '/' {
        path_body(s.take(s.len() - 2))
    } else {
        s
    }
}

/// Where the last component of a path begins: behind its last slash.
pub open spec fn name_start(s: Seq<char>) -> nat
    decreases s.len(),
{
    if s.len() == 0 || s.last() == '/' {
        s.len()
    } else {
        name_start(s.drop_last())
    }
}

/// The last component of a path, if it names a file.
pub open spec fn file_name(s: Seq<char>) -> Option<Seq<char>> {
    let body = path_body(s);
    let name = body.skip(name_start(body) as int);
    if name == ""@ || name == "."@ || name == ".."@ {
        None
    } else {
        Some(name)
    }
}

/// Where the last dot of a name stands.
pub open spec fn last_dot(name: Seq<char>) -> Option<nat>
    decreases name.len(),
{
    if name.len() == 0 {
        None
    } else if name.last() == '.' {
        Some((name.len() - 1) as nat)
    } else {
        last_dot(name.drop_last())
    }
}

/// The name of a file up to its last dot; a dot in front divides nothing.
pub open spec fn file_stem(s: Seq<char>) -> Option<Seq<char>> {
    match file_name(s) {
        None => None,
        Some(name) => match last_dot(name) {
            Some(at) if at > 0 => Some(name.take(at as int)),
            _ => Some(name),
        },
    }
}

/// The name of a file behind its last dot; a dot in front divides nothing.
pub open spec fn extension(s: Seq<char>) -> Option<Seq<char>> {
    match file_name(s) {
        None => None,
        Some(name) => match last_dot(name) {
            Some(at) if at > 0 => Some(name.skip(at as int + 1)),
            _ => None,
        },
    }
}

/// The path without its last component, where it has one.
pub open spec fn parent(s: Seq<char>) -> Option<Seq<char>> {
    let body = path_body(s);
    if body.len() == 0 {
        None
    } else if name_start(body) == 0 {
        Some(""@)
    } else {
        let rest = path_body(body.take(name_start(body) as int));
        if rest.len() == 0 {
            Some("/"@)
        } else {
            Some(rest)
        }
    }
}

/// How many of the first `len` characters are left of a path without the slashes
/// and the `.` components at its end.
fn body_length(chars: &Vec<char>, len: usize) -> (res: usize)
    requires
        len <= chars@.len(),
    ensures
        res <= len,
        path_body(chars@.take(len as int)) == chars@.take(res as int),
{
    let mut n: usize = len;
    while (n > 0 && chars[n - 1] == '/') || (n >= 2 && chars[n - 1] == '.' && chars[n - 2] == '/')
        invariant
            n <= len <= chars@.len(),
            path_body(chars@.take(len as int)) == path_body(chars@.take(n as int)),
        decreases n,
    {
        if chars[n - 1] == '/' {
            assert(chars@.take(n as int).drop_last() =~= chars@.take(n - 1));
            n = n - 1;
        } else {
            assert(chars@.take(n as int).take(n - 2) =~= chars@.take(n - 2));
            n = n - 2;
        }
    }
    n
}

/// Where the last component of the first `len` characters begins.
fn start_of_name(chars: &Vec<char>, len: usize) -> (res: usize)
    requires
        len <= chars@.len(),
    ensures
        res <= len,
        res == name_start(chars@.take(len as int)),
{
    let mut n: usize = len;
    while n > 0 && chars[n - 1] != '/'
        invariant
            n <= len <= chars@.len(),
            name_start(chars@.take(len as int)) == name_start(chars@.take(n as int)),
        decreases n,
    {
        assert(chars@.take(n as int).drop_last() =~= chars@.take(n - 1));
        n = n - 1;
    }
    n
}

fn name_of(path: &str) -> (res: Option<String>)
    ensures
        res.deep_view() == file_name(path@),
{
    let chars = text::chars_of(path);
    assert(chars@.take(chars@.len() as int) =~= chars@);
    let body: usize = body_length(&chars, chars.len());
    let start: usize = start_of_name(&chars, body);
    let name = text::text_of(&chars, start, body);
    assert(name@ =~= path_body(path@).skip(start as int));
    if text::same_text(name.as_str(), "") || text::same_text(name.as_str(), ".")
        || text::same_text(name.as_str(), "..") {
        None
    } else {
        Some(name)
    }
}

/// Where the last dot of a name stands.
fn dot_in(chars: &Vec<char>) -> (res: Option<usize>)
    ensures
        match res {
            Some(at) => last_dot(chars@) == Some(at as nat) && at < chars.len(),
            None => last_dot(chars@) is None,
        },
{
    let mut n: usize = chars.len();
    assert(chars@.take(n as int) =~= chars@);
    while n > 0
        invariant
            n <= chars@.len(),
            last_dot(chars@) == last_dot(chars@.take(n as int)),
        decreases n,
    {
        if chars[n - 1] == '.' {
            return Some(n - 1);
        }
        assert(chars@.take(n as int).drop_last() =~= chars@.take(n - 1));
        n = n - 1;
    }
    None
}

/// The name of the file up to its last dot.
pub fn path_stem(path: &str) -> (res: Option<String>)
    ensures
        res.deep_view() == file_stem(path@),
{
    match name_of(path) {
        None => None,
        Some(name) => {
            let chars = text::chars_of(name.as_str());
            match dot_in(&chars) {
                Some(at) if at > 0 => {
                    let stem = text::text_of(&chars, 0, at);
                    assert(stem@ =~= name@.take(at as int));
                    Some(stem)
                },
                _ => Some(name),
            }
        },
    }
}

/// The name of the file behind its last dot.
pub fn path_extension(path: &str) -> (res: Option<String>)
    ensures
        res.deep_view() == extension(path@),
{
    match name_of(path) {
        None => None,
        Some(name) => {
            let chars = text::chars_of(name.as_str());
            match dot_in(&chars) {
                Some(at) if at > 0 => {
                    let rest = text::text_of(&chars, at + 1, chars.len());
                    assert(rest@ =~= name@.skip(at + 1));
                    Some(rest)
                },
                _ => None,
            }
        },
    }
}

/// The path without its last component.
pub fn path_parent(path: &str) -> (res: Option<String>)
    ensures
        res.deep_view() == parent(path@),
{
    let chars = text::chars_of(path);
    assert(chars@.take(chars@.len() as int) =~= chars@);
    let body: usize = body_length(&chars, chars.len());
    if body == 0 {
        return None;
    }
    let start: usize = start_of_name(&chars, body);
    if start == 0 {
        return Some("".to_owned());
    }
    assert(path_body(path@).take(start as int) =~= chars@.take(start as int));
    let rest: usize = body_length(&chars, start);
    if rest == 0 {
        Some("/".to_owned())
    } else {
        let dir = text::text_of(&chars, 0, rest);
        assert(dir@ =~= chars@.take(rest as int));
        Some(dir)
    }
}

// ---------------------------------------------------------------------------
// Laws
// ---------------------------------------------------------------------------

/// The components of a path, without the slashes between them. Empty components and `.`
/// count for nothing, but for a `.` in front.
pub open spec fn components(s: Seq<char>) -> Seq<Seq<char>>
    decreases s.len(),
{
    let start = name_start(s) as int;
    let name = s.skip(start);
    if s.len() == 0 {
        Seq::empty()
    } else if start <= 0 || start > s.len() {
        seq![name]
    } else {
        let front = components(s.take(start - 1));
        if name.len() == 0 || name == "."@ {
            front
        } else {
            front.push(name)
        }
    }
}

/// Whether a path begins at the root.
pub open spec fn has_root(s: Seq<char>) -> bool {
    s.len() > 0 && s[0] == '/'
}

/// Whether two texts are the same path: both or neither begin at the root, and their
/// components are the same.
pub open spec fn is_same_path(a: Seq<char>, b: Seq<char>) -> bool {
    has_root(a) == has_root(b) && components(a) == components(b)
}

/// Joining a directory and a plain name and taking the parent gives the directory back,
/// letter for letter where the directory has nothing to strip. The last component is the
/// name.
pub proof fn law_parent_of_joined(dir: Seq<char>, name: Seq<char>)
    requires
        name.len() > 0,
        name != "."@,
        forall|i: int| 0 <= i < name.len() ==> name[i] != '/',
    ensures
        parent(text::joined_path(dir, name)) matches Some(found) && is_same_path(found, dir) && (
        path_body(dir) == dir ==> found == dir),
        name != ".."@ ==> file_name(text::joined_path(dir, name)) == Some(name),
{
    reveal_strlit("");
    reveal_strlit("/");
    reveal_strlit(".");
    let joined = text::joined_path(dir, name);
    let front = if dir.len() == 0 || dir.last() == '/' {
        dir
    } else {
        dir.push('/')
    };
    assert(joined =~= front + name);
    assert(joined.last() == name.last());
    if name.len() == 1 {
        assert(name[0] != '.') by {
            if name[0] == '.' {
                assert(name =~= "."@);
            }
        }
    }
    assert(path_body(joined) == joined) by {
        if name.len() >= 2 {
            assert(joined[joined.len() - 2] == name[name.len() - 2]);
        }
    }
    lemma_name_start(front, name);
    assert(joined.take(front.len() as int) =~= front);
    assert(joined.skip(front.len() as int) =~= name);
    if dir.len() == 0 {
        assert(Seq::<char>::empty() =~= ""@);
        assert(dir =~= ""@);
    } else {
        if dir.last() != '/' {
            assert(dir.push('/').drop_last() =~= dir);
        }
        assert(path_body(front) == path_body(dir));
        lemma_body_is_same_path(dir);
        if path_body(dir).len() == 0 {
            assert(name_start("/"@) == 1);
            assert("/"@.take(0) =~= path_body(dir));
            assert("/"@.skip(1).len() == 0);
            assert(components("/"@) == components(path_body(dir)));
        }
    }
}

proof fn lemma_body_is_same_path(s: Seq<char>)
    ensures
        components(path_body(s)) == components(s),
        path_body(s).len() > 0 ==> has_root(path_body(s)) == has_root(s),
        path_body(s).len() == 0 && s.len() > 0 ==> has_root(s),
    decreases s.len(),
{
    reveal_strlit(".");
    if s.len() > 0 && s.last() == '/' {
        let shorter = s.drop_last();
        assert(name_start(s) == s.len());
        assert(s.take(s.len() - 1) =~= shorter);
        assert(s.skip(s.len() as int).len() == 0);
        lemma_body_is_same_path(shorter);
    } else if s.len() >= 2 && s.last() == '.' && s[s.len() - 2] == '/' {
        let shorter = s.take(s.len() - 2);
        assert(s.drop_last().last() == '/');
        assert(name_start(s.drop_last()) == s.len() - 1);
        assert(s.skip(s.len() - 1) =~= "."@);
        lemma_body_is_same_path(shorter);
    }
}

proof fn lemma_name_start(front: Seq<char>, name: Seq<char>)
    requires
        front.len() == 0 || front.last() == '/',
        forall|i: int| 0 <= i < name.len() ==> name[i] != '/',
    ensures
        name_start(front + name) == front.len(),
    decreases name.len(),
{
    let s = front + name;
    if name.len() == 0 {
        assert(s =~= front);
    } else {
        assert(s.last() == name.last());
        assert(s.drop_last() =~= front + name.drop_last());
        lemma_name_start(front, name.drop_last());
    }
}

} // verus!
