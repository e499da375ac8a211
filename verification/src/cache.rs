//! Values that are kept under a text, such as a file's path or a preset's id.

use vstd::prelude::*;
use vstd::string::*;

use crate::text;

verus! {

/// Values that are kept under texts.
#[derive(Debug)]
pub struct TextCache<T> {
    pub entries: Vec<(String, T)>,
}

/// What a list of entries keeps: of two under the same text the later one.
pub open spec fn kept_values<T>(entries: Seq<(String, T)>) -> Map<Seq<char>, T>
    decreases entries.len(),
{
    if entries.len() == 0 {
        Map::empty()
    } else {
        kept_values(entries.drop_last()).insert(entries.last().0@, entries.last().1)
    }
}

impl<T> View for TextCache<T> {
    type V = Map<Seq<char>, T>;

    open spec fn view(&self) -> Map<Seq<char>, T> {
        kept_values(self.entries@)
    }
}

pub proof fn lemma_found<T>(entries: Seq<(String, T)>, at: int)
    requires
        0 <= at < entries.len(),
        forall|i: int| at < i < entries.len() ==> (#[trigger] entries[i]).0@ != entries[at].0@,
    ensures
        kept_values(entries).contains_key(entries[at].0@),
        kept_values(entries)[entries[at].0@] == entries[at].1,
    decreases entries.len(),
{
    if at < entries.len() - 1 {
        let front = entries.drop_last();
        assert forall|i: int| at < i < front.len() implies (#[trigger] front[i]).0@
            != front[at].0@ by {
            assert(front[i] == entries[i]);
        }
        lemma_found(front, at);
        assert(entries[entries.len() - 1].0@ != entries[at].0@);
    }
}

pub proof fn lemma_not_found<T>(entries: Seq<(String, T)>, key: Seq<char>)
    requires
        forall|i: int| 0 <= i < entries.len() ==> (#[trigger] entries[i]).0@ != key,
    ensures
        !kept_values(entries).contains_key(key),
    decreases entries.len(),
{
    if entries.len() > 0 {
        let front = entries.drop_last();
        assert forall|i: int| 0 <= i < front.len() implies (#[trigger] front[i]).0@ != key by {
            assert(front[i] == entries[i]);
        }
        lemma_not_found(front, key);
        assert(entries[entries.len() - 1].0@ != key);
    }
}

proof fn lemma_replaced<T>(entries: Seq<(String, T)>, at: int, entry: (String, T))
    requires
        0 <= at < entries.len(),
        entries[at].0@ == entry.0@,
        forall|i: int| at < i < entries.len() ==> (#[trigger] entries[i]).0@ != entry.0@,
    ensures
        kept_values(entries.update(at, entry)) == kept_values(entries).insert(entry.0@, entry.1),
    decreases entries.len(),
{
    let front = entries.drop_last();
    if at == entries.len() - 1 {
        assert(entries.update(at, entry).drop_last() =~= front);
        assert(kept_values(entries.update(at, entry)) =~= kept_values(entries).insert(
            entry.0@,
            entry.1,
        ));
    } else {
        assert forall|i: int| at < i < front.len() implies (#[trigger] front[i]).0@
            != entry.0@ by {
            assert(front[i] == entries[i]);
        }
        assert(front[at] == entries[at]);
        lemma_replaced(front, at, entry);
        assert(entries.update(at, entry).drop_last() =~= front.update(at, entry));
        assert(entries[entries.len() - 1].0@ != entry.0@);
        assert(kept_values(entries.update(at, entry)) =~= kept_values(entries).insert(
            entry.0@,
            entry.1,
        ));
    }
}

impl<T> TextCache<T> {
    /// A cache that keeps nothing.
    pub fn new() -> (res: TextCache<T>)
        ensures
            res@ == Map::<Seq<char>, T>::empty(),
    {
        TextCache { entries: Vec::new() }
    }

    fn find(&self, key: &str) -> (res: Option<usize>)
        ensures
            match res {
                Some(at) => {
                    &&& at < self.entries@.len()
                    &&& self.entries@[at as int].0@ == key@
                    &&& forall|i: int|
                        at < i < self.entries@.len() ==> (#[trigger] self.entries@[i]).0@ != key@
                },
                None => forall|i: int|
                    0 <= i < self.entries@.len() ==> (#[trigger] self.entries@[i]).0@ != key@,
            },
    {
        let mut n: usize = self.entries.len();
        while n > 0
            invariant
                n <= self.entries@.len(),
                forall|i: int|
                    n <= i < self.entries@.len() ==> (#[trigger] self.entries@[i]).0@ != key@,
            decreases n,
        {
            if text::same_text(self.entries[n - 1].0.as_str(), key) {
                return Some(n - 1);
            }
            n = n - 1;
        }
        None
    }

    /// The value that is kept under a text.
    pub fn get(&self, key: &str) -> (res: Option<&T>)
        ensures
            match res {
                Some(value) => self@.contains_key(key@) && *value == self@[key@],
                None => !self@.contains_key(key@),
            },
    {
        match self.find(key) {
            Some(at) => {
                proof {
                    lemma_found(self.entries@, at as int);
                }
                Some(&self.entries[at].1)
            },
            None => {
                proof {
                    lemma_not_found(self.entries@, key@);
                }
                None
            },
        }
    }

    /// Keeps a value under a text, in place of what was kept there.
    pub fn insert(&mut self, key: String, value: T)
        ensures
            final(self)@ == old(self)@.insert(key@, value),
    {
        match self.find(key.as_str()) {
            Some(at) => {
                proof {
                    lemma_replaced(self.entries@, at as int, (key, value));
                }
                self.entries.set(at, (key, value));
            },
            None => {
                self.entries.push((key, value));
                assert(self.entries@.drop_last() =~= old(self).entries@);
            },
        }
    }
}

/// Reference audio, and when the file that it came from was last changed.
#[derive(Debug)]
pub struct CachedReferenceAudio<T> {
    /// In nanoseconds since a fixed time, where the file system tells.
    pub modified_at: Option<i128>,
    pub audio: T,
}

/// Reference audio that is kept under the path of its file.
#[derive(Debug)]
pub struct ReferenceAudioCache<T> {
    pub files: TextCache<CachedReferenceAudio<T>>,
}

impl<T> View for ReferenceAudioCache<T> {
    type V = Map<Seq<char>, CachedReferenceAudio<T>>;

    open spec fn view(&self) -> Map<Seq<char>, CachedReferenceAudio<T>> {
        self.files@
    }
}

impl<T> ReferenceAudioCache<T> {
    /// A cache that keeps nothing.
    pub fn new() -> (res: ReferenceAudioCache<T>)
        ensures
            res@ == Map::<Seq<char>, CachedReferenceAudio<T>>::empty(),
    {
        ReferenceAudioCache { files: TextCache::new() }
    }

    /// The audio of a file, if it is kept and the file has not been changed since.
    pub fn reusable(&self, path: &str, modified_at: Option<i128>) -> (res: Option<&T>)
        ensures
            match res {
                Some(audio) => {
                    &&& self@.contains_key(path@)
                    &&& self@[path@].modified_at == modified_at
                    &&& *audio == self@[path@].audio
                },
                None => !self@.contains_key(path@) || self@[path@].modified_at != modified_at,
            },
    {
        match self.files.get(path) {
            Some(kept) => {
                if kept.modified_at == modified_at {
                    Some(&kept.audio)
                } else {
                    None
                }
            },
            None => None,
        }
    }

    /// Keeps the audio of a file.
    pub fn keep(&mut self, path: String, modified_at: Option<i128>, audio: T)
        ensures
            final(self)@ == old(self)@.insert(
                path@,
                (CachedReferenceAudio { modified_at, audio }),
            ),
    {
        self.files.insert(path, CachedReferenceAudio { modified_at, audio });
    }
}

} // verus!
