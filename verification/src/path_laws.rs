//! What the parts of a path are, said of its characters.

use vstd::prelude::*;
use vstd::string::*;

use crate::paths;

verus! {

/// Whether a text is made of slashes and of `.` components behind slashes, so that a path
/// means the same without it.
pub open spec fn is_idle_tail(tail: Seq<char>) -> bool {
    &&& tail.len() > 0 ==> tail[0] == '/'
    &&& forall|i: int| 0 <= i < tail.len() ==> #[trigger] tail[i] == '/' || tail[i] == '.'
    &&& forall|i: int, j: int|
        #![trigger tail[i], tail[j]]
        0 <= i && j == i + 1 && j < tail.len() ==> tail[i] == '/' || tail[j] == '/'
}

proof fn lemma_body(s: Seq<char>) -> (end: int)
    ensures
        0 <= end <= s.len(),
        paths::path_body(s) == s.subrange(0, end),
        is_idle_tail(s.subrange(end, s.len() as int)),
        end > 0 ==> s[end - 1] != '/',
        end >= 2 ==> !(s[end - 1] == '.' && s[end - 2] == '/'),
    decreases s.len(),
{
    if s.len() > 0 && s.last() == '/' {
        let shorter = s.drop_last();
        let end = lemma_body(shorter);
        let tail = shorter.subrange(end, shorter.len() as int);
        let longer = s.subrange(end, s.len() as int);
        assert(s.subrange(0, end) =~= shorter.subrange(0, end));
        assert(longer =~= tail.push('/'));
        assert forall|i: int| 0 <= i < longer.len() implies #[trigger] longer[i] == '/'
            || longer[i] == '.' by {
            if i < tail.len() {
                assert(longer[i] == tail[i]);
            }
        }
        assert forall|i: int, j: int|
            #![trigger longer[i], longer[j]]
            0 <= i && j == i + 1 && j < longer.len() implies longer[i] == '/' || longer[j]
            == '/' by {
            if j < tail.len() {
                assert(longer[i] == tail[i] && longer[j] == tail[j]);
            }
        }
        end
    } else if s.len() >= 2 && s.last() == '.' && s[s.len() - 2] == '/' {
        let shorter = s.take(s.len() - 2);
        let end = lemma_body(shorter);
        let tail = shorter.subrange(end, shorter.len() as int);
        let longer = s.subrange(end, s.len() as int);
        assert(s.subrange(0, end) =~= shorter.subrange(0, end));
        assert(longer =~= tail.push('/').push('.'));
        assert forall|i: int| 0 <= i < longer.len() implies #[trigger] longer[i] == '/'
            || longer[i] == '.' by {
            if i < tail.len() {
                assert(longer[i] == tail[i]);
            }
        }
        assert forall|i: int, j: int|
            #![trigger longer[i], longer[j]]
            0 <= i && j == i + 1 && j < longer.len() implies longer[i] == '/' || longer[j]
            == '/' by {
            if j < tail.len() {
                assert(longer[i] == tail[i] && longer[j] == tail[j]);
            }
        }
        end
    } else {
        let end = s.len() as int;
        assert(s.subrange(0, end) =~= s);
        end
    }
}

proof fn lemma_start(s: Seq<char>)
    ensures
        paths::name_start(s) <= s.len(),
        paths::name_start(s) > 0 ==> s[paths::name_start(s) - 1] == '/',
        forall|i: int| paths::name_start(s) <= i < s.len() ==> #[trigger] s[i] != '/',
    decreases s.len(),
{
    if s.len() > 0 && s.last() != '/' {
        let shorter = s.drop_last();
        lemma_start(shorter);
        let n = paths::name_start(s);
        if n > 0 {
            assert(shorter[n - 1] == s[n - 1]);
        }
        assert forall|i: int| n <= i < s.len() implies #[trigger] s[i] != '/' by {
            if i < shorter.len() {
                assert(shorter[i] == s[i]);
            }
        }
    }
}

/// The last component of a path stands between its last slash and what means nothing at
/// its end: slashes and `.` components. It is the name of a file unless it is empty, `.`
/// or `..`.
pub proof fn law_the_last_component(s: Seq<char>) -> (place: (int, int))
    ensures
        ({
            let (start, end) = place;
            let name = s.subrange(start, end);
            &&& 0 <= start <= end <= s.len()
            &&& is_idle_tail(s.subrange(end, s.len() as int))
            &&& end > 0 ==> s[end - 1] != '/'
            &&& end >= 2 ==> !(s[end - 1] == '.' && s[end - 2] == '/')
            &&& forall|i: int| start <= i < end ==> #[trigger] s[i] != '/'
            &&& start > 0 ==> s[start - 1] == '/'
            &&& paths::file_name(s) == if name.len() == 0 || name == seq!['.'] || name
                == seq!['.', '.'] {
                None
            } else {
                Some(name)
            }
            &&& paths::parent(s) is None <==> end == 0
            &&& end > 0 && start == 0 ==> paths::parent(s) == Some(Seq::<char>::empty())
        }),
{
    reveal_strlit("");
    reveal_strlit(".");
    reveal_strlit("..");
    assert(""@ =~= Seq::<char>::empty());
    assert("."@ =~= seq!['.']);
    assert(".."@ =~= seq!['.', '.']);
    let end = lemma_body(s);
    let body = s.subrange(0, end);
    lemma_start(body);
    let start = paths::name_start(body) as int;
    assert(body.skip(start) =~= s.subrange(start, end));
    if start > 0 {
        assert(body[start - 1] == s[start - 1]);
    }
    assert forall|i: int| start <= i < end implies #[trigger] s[i] != '/' by {
        assert(body[i] == s[i]);
    }
    if start == end {
        assert(s.subrange(start, end) =~= ""@);
    }
    (start, end)
}

/// What stands before the last component is the path of its directory, without what means
/// nothing at its end; the root is a slash.
pub proof fn law_the_directory_of_a_path(s: Seq<char>, start: int, end: int) -> (place: int)
    requires
        0 < start <= end <= s.len(),
        s[start - 1] == '/',
        start < end,
        forall|i: int| start <= i < end ==> #[trigger] s[i] != '/',
        s.subrange(start, end) != seq!['.'],
        is_idle_tail(s.subrange(end, s.len() as int)),
    ensures
        0 <= place < start,
        is_idle_tail(s.subrange(place, start)),
        place > 0 ==> s[place - 1] != '/',
        place >= 2 ==> !(s[place - 1] == '.' && s[place - 2] == '/'),
        place > 0 ==> paths::parent(s) == Some(s.subrange(0, place)),
        place == 0 ==> paths::parent(s) == Some(seq!['/']),
{
    reveal_strlit("");
    reveal_strlit("/");
    assert("/"@ =~= seq!['/']);
    let (other_start, other_end) = law_the_last_component(s);
    lemma_same_component(s, start, end, other_start, other_end);
    let body_end = lemma_body(s);
    let body = s.subrange(0, body_end);
    lemma_start(body);
    let first = paths::name_start(body) as int;
    if first > 0 {
        assert(body[first - 1] == s[first - 1]);
    }
    assert forall|i: int| first <= i < body_end implies #[trigger] s[i] != '/' by {
        assert(body[i] == s[i]);
    }
    lemma_same_component(s, start, end, first, body_end);
    let front = s.subrange(0, start);
    assert(body.take(start) =~= front);
    let place = lemma_body(front);
    assert(front.subrange(place, start) =~= s.subrange(place, start));
    assert(front.subrange(0, place) =~= s.subrange(0, place));
    if place > 0 {
        assert(front[place - 1] == s[place - 1]);
        if place == start {
            assert(front[start - 1] == '/');
        }
    }
    place
}

proof fn lemma_same_component(s: Seq<char>, start: int, end: int, first: int, last: int)
    requires
        0 < start < end <= s.len(),
        s[start - 1] == '/',
        forall|i: int| start <= i < end ==> #[trigger] s[i] != '/',
        s.subrange(start, end) != seq!['.'],
        is_idle_tail(s.subrange(end, s.len() as int)),
        0 <= first <= last <= s.len(),
        is_idle_tail(s.subrange(last, s.len() as int)),
        last > 0 ==> s[last - 1] != '/',
        last >= 2 ==> !(s[last - 1] == '.' && s[last - 2] == '/'),
        forall|i: int| first <= i < last ==> #[trigger] s[i] != '/',
        first > 0 ==> s[first - 1] == '/',
    ensures
        start == first,
        end == last,
{
    let tail = s.subrange(end, s.len() as int);
    let other = s.subrange(last, s.len() as int);
    if last < end {
        // the other tail begins inside the component or before it
        assert(other[0] == '/');
        assert(s[last] == '/');
        assert(last < start);
        let at = start - last;
        assert(other[at] == s[start]);
        assert(s[start] != '/');
        assert(other[at] == '.');
        if end > start + 1 {
            let next = at + 1;
            assert(other[next] == s[start + 1]);
            assert(s[start + 1] != '/');
            assert(other[at] == '/' || other[next] == '/');
        } else {
            assert(s.subrange(start, end) =~= seq!['.']);
        }
    } else if end < last {
        assert(tail[0] == '/');
        assert(s[end] == '/');
        let at = last - 1 - end;
        assert(tail[at] == s[last - 1]);
        assert(tail[at] == '.');
        if at > 0 {
            let before = at - 1;
            assert(tail[before] == s[last - 2]);
            assert(tail[before] == '/' || tail[at] == '/');
        }
    }
    if first < start {
        assert(s[start - 1] == '/');
        assert(s[start - 1] != '/');
    } else if start < first {
        assert(s[first - 1] == '/');
        if first <= end {
            assert(s[first - 1] != '/');
        }
    }
}

/// The name of a file is its stem, or its stem, a dot and its extension: the extension
/// holds no dot and the stem is not empty. A name without a dot, or with none but in
/// front, has no extension.
pub proof fn law_stem_and_extension(s: Seq<char>)
    ensures
        paths::file_name(s) is None ==> paths::file_stem(s) is None && paths::extension(s) is None,
        paths::file_name(s) matches Some(name) ==> {
            &&& paths::file_stem(s) matches Some(stem)
            &&& stem.len() > 0
            &&& match paths::extension(s) {
                Some(ending) => {
                    &&& name == stem + seq!['.'] + ending
                    &&& forall|i: int| 0 <= i < ending.len() ==> #[trigger] ending[i] != '.'
                },
                None => {
                    &&& name == stem
                    &&& forall|i: int| 0 < i < name.len() ==> #[trigger] name[i] != '.'
                },
            }
        },
{
    reveal_strlit("");
    if let Some(name) = paths::file_name(s) {
        assert(name.len() > 0) by {
            if name.len() == 0 {
                assert(name =~= ""@);
            }
        }
        lemma_last_dot(name);
        if let Some(at) = paths::last_dot(name) {
            if at > 0 {
                let at = at as int;
                let ending = name.skip(at + 1);
                assert(name =~= name.take(at) + seq!['.'] + ending);
                assert forall|i: int| 0 <= i < ending.len() implies #[trigger] ending[i] != '.' by {
                    assert(ending[i] == name[at + 1 + i]);
                }
            }
        }
    }
}

proof fn lemma_last_dot(name: Seq<char>)
    ensures
        match paths::last_dot(name) {
            Some(at) => {
                &&& at < name.len()
                &&& name[at as int] == '.'
                &&& forall|i: int| at < i < name.len() ==> #[trigger] name[i] != '.'
            },
            None => forall|i: int| 0 <= i < name.len() ==> #[trigger] name[i] != '.',
        },
    decreases name.len(),
{
    if name.len() > 0 && name.last() != '.' {
        let shorter = name.drop_last();
        lemma_last_dot(shorter);
        match paths::last_dot(shorter) {
            Some(at) => {
                assert(shorter[at as int] == name[at as int]);
                assert forall|i: int| at < i < name.len() implies #[trigger] name[i] != '.' by {
                    if i < shorter.len() {
                        assert(shorter[i] == name[i]);
                    }
                }
            },
            None => {
                assert forall|i: int| 0 <= i < name.len() implies #[trigger] name[i] != '.' by {
                    if i < shorter.len() {
                        assert(shorter[i] == name[i]);
                    }
                }
            },
        }
    }
}

} // verus!
