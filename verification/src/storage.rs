//! A verified model of the file store the bridge writes to and reads from.
//!
//! The bridge treats the filesystem as a map from paths to text: writing
//! stores the content under the path (creating or overwriting), and reading
//! returns the content stored under the path, or nothing when the path holds
//! none. [`Storage`] realises exactly that map, and the laws the bridge
//! relies on are proved of it: a write followed by a read of the same path
//! returns exactly what was written, and a write leaves every other path
//! untouched, so commands against distinct paths cannot disturb each other.
//!
//! The store keeps the writes as a log; a read returns the latest write to
//! the path. The map each log denotes is [`map_of`], and every contract is
//! stated over that map.

use vstd::prelude::*;

verus! {

/// The map a log of writes denotes: each path holds the content of the
/// latest write to it.
pub open spec fn map_of(log: Seq<(String, String)>) -> Map<Seq<char>, Seq<char>>
    decreases log.len(),
{
    if log.len() == 0 {
        Map::empty()
    } else {
        map_of(log.drop_last()).insert(log.last().0@, log.last().1@)
    }
}

/// A file store: paths to text contents.
pub struct Storage {
    log: Vec<(String, String)>,
}

impl Storage {
    /// The paths the store holds and their contents.
    pub closed spec fn contents(self) -> Map<Seq<char>, Seq<char>> {
        map_of(self.log@)
    }

    /// An empty store: no path holds anything.
    pub fn new() -> (s: Self)
        ensures
            s.contents() == Map::<Seq<char>, Seq<char>>::empty(),
    {
        Storage { log: Vec::new() }
    }

    /// Store `content` under `path`, creating the entry or overwriting what
    /// the path held before. No other path is affected.
    pub fn write(&mut self, path: String, content: String)
        ensures
            final(self).contents() == old(self).contents().insert(path@, content@),
    {
        let ghost before = self.log@;
        self.log.push((path, content));
        proof {
            assert(self.log@.drop_last() =~= before);
        }
    }

    /// The content stored under `path`: the latest write to it, or nothing
    /// when the path was never written.
    pub fn read(&self, path: &String) -> (r: Option<String>)
        ensures
            self.contents().contains_key(path@) ==> (r matches Some(content)
                && content@ == self.contents()[path@]),
            !self.contents().contains_key(path@) ==> r is None,
    {
        let mut i: usize = self.log.len();
        while i > 0
            invariant
                i <= self.log@.len(),
                forall|j: int| i <= j < self.log@.len() ==> (#[trigger] self.log@[j]).0@ != path@,
            decreases i,
        {
            i = i - 1;
            if self.log[i].0.eq(path) {
                proof {
                    lemma_map_of_found(self.log@, i as int);
                }
                return Some(self.log[i].1.clone());
            }
        }
        proof {
            lemma_map_of_unmentioned(self.log@, path@, 0);
            assert(self.log@.take(0) =~= Seq::<(String, String)>::empty());
        }
        None
    }
}

/// A log whose entries at and beyond `i` never mention `k` denotes, at `k`,
/// the same as its first `i` entries alone.
proof fn lemma_map_of_unmentioned(log: Seq<(String, String)>, k: Seq<char>, i: int)
    requires
        0 <= i <= log.len(),
        forall|j: int| i <= j < log.len() ==> (#[trigger] log[j]).0@ != k,
    ensures
        map_of(log).contains_key(k) == map_of(log.take(i)).contains_key(k),
        map_of(log).contains_key(k) ==> map_of(log)[k] == map_of(log.take(i))[k],
    decreases log.len(),
{
    if log.len() == i {
        assert(log.take(i) =~= log);
    } else {
        let front = log.drop_last();
        assert(front =~= log.take(log.len() - 1));
        assert(forall|j: int| i <= j < front.len() ==> (#[trigger] front[j]).0@ != k);
        lemma_map_of_unmentioned(front, k, i);
        assert(log.take(i) =~= front.take(i));
        assert(log.last().0@ != k);
    }
}

/// The log's entry at `i`, when no later entry writes the same path, is what
/// the whole log denotes at that path.
proof fn lemma_map_of_found(log: Seq<(String, String)>, i: int)
    requires
        0 <= i < log.len(),
        forall|j: int| i < j < log.len() ==> (#[trigger] log[j]).0@ != log[i].0@,
    ensures
        map_of(log).contains_key(log[i].0@),
        map_of(log)[log[i].0@] == log[i].1@,
{
    let prefix = log.take(i + 1);
    assert(prefix.drop_last() =~= log.take(i));
    assert(prefix.last() == log[i]);
    assert(map_of(prefix) == map_of(log.take(i)).insert(log[i].0@, log[i].1@));
    lemma_map_of_unmentioned(log, log[i].0@, i + 1);
}

/// Round trip: after writing `content` under `path`, a read of `path`
/// returns exactly `content` — whatever the content, the empty text and
/// multi-line text included, and whatever the store held before.
pub proof fn lemma_write_read_round_trip(
    before: Map<Seq<char>, Seq<char>>,
    path: Seq<char>,
    content: Seq<char>,
)
    ensures
        before.insert(path, content).contains_key(path),
        before.insert(path, content)[path] == content,
{
}

/// Independence: a write to one path leaves every other path exactly as it
/// was, so a read of `other` is unaffected by a concurrent write to `path`.
pub proof fn lemma_distinct_paths_independent(
    before: Map<Seq<char>, Seq<char>>,
    path: Seq<char>,
    content: Seq<char>,
    other: Seq<char>,
)
    requires
        other != path,
    ensures
        before.insert(path, content).contains_key(other) == before.contains_key(other),
        before.contains_key(other) ==> before.insert(path, content)[other] == before[other],
{
}

/// A path never written holds nothing: reading it yields "no content", which
/// the read command surfaces as an error, not a crash.
pub proof fn lemma_never_written_is_absent(path: Seq<char>)
    ensures
        !Map::<Seq<char>, Seq<char>>::empty().contains_key(path),
{
}

} // verus!
