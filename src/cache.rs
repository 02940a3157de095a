use vstd::prelude::*;
use vstd::string::StringExecFns;

use crate::error::BridgeError;
use crate::text::same_text;

verus! {

/// One cached socket and the service it was built for.
struct CacheEntry<T> {
    uuid: String,
    secure: bool,
    socket: T,
}

/// A device's sockets, one per service uuid and security mode. A socket is
/// built on the first request for its key and kept from then on; a failed
/// build leaves the cache as it was.
pub struct SocketCache<T> {
    entries: Vec<CacheEntry<T>>,
}

impl<T> View for SocketCache<T> {
    type V = Seq<(Seq<char>, bool, T)>;

    closed spec fn view(&self) -> Seq<(Seq<char>, bool, T)> {
        Seq::new(
            self.entries@.len(),
            |i: int| (self.entries@[i].uuid@, self.entries@[i].secure, self.entries@[i].socket),
        )
    }
}

/// The key of an entry: its service uuid and security mode.
pub open spec fn key_of<T>(e: (Seq<char>, bool, T)) -> (Seq<char>, bool) {
    (e.0, e.1)
}

/// Whether some entry of `s` has the key `(uuid, secure)`.
pub open spec fn has_key<T>(s: Seq<(Seq<char>, bool, T)>, uuid: Seq<char>, secure: bool) -> bool {
    exists|i: int| 0 <= i < s.len() && key_of(s[i]) == (uuid, secure)
}

impl<T> SocketCache<T> {
    /// Whether no two entries share a key.
    pub open spec fn wf(&self) -> bool {
        forall|i: int, j: int|
            0 <= i < j < self@.len() ==> key_of(#[trigger] self@[i]) != key_of(#[trigger] self@[j])
    }

    /// An empty cache.
    pub fn new() -> (c: SocketCache<T>)
        ensures
            c.wf(),
            c@.len() == 0,
    {
        SocketCache { entries: Vec::new() }
    }

    /// The number of cached sockets.
    pub fn len(&self) -> (n: usize)
        ensures
            n == self@.len(),
    {
        self.entries.len()
    }

    /// The position of the socket cached for `(uuid, secure)`, if any.
    pub fn find(&self, uuid: &str, secure: bool) -> (r: Option<usize>)
        ensures
            match r {
                Some(i) => i < self@.len() && key_of(self@[i as int]) == (uuid@, secure),
                None => !has_key(self@, uuid@, secure),
            },
    {
        let n = self.entries.len();
        let mut i: usize = 0;
        while i < n
            invariant
                n == self@.len(),
                i <= n,
                forall|k: int| 0 <= k < i ==> key_of(#[trigger] self@[k]) != (uuid@, secure),
            decreases n - i,
        {
            let e = &self.entries[i];
            if e.secure == secure && same_text(e.uuid.as_str(), uuid) {
                return Some(i);
            }
            i = i + 1;
        }
        None
    }

    /// Caches the outcome of building the socket for `(uuid, secure)`, which
    /// the cache did not hold: a built socket is appended and its position
    /// returned; a failed build is returned as it came, the cache unchanged.
    pub fn insert_built(&mut self, uuid: &str, secure: bool, built: Result<T, BridgeError>) -> (r:
        Result<usize, BridgeError>)
        requires
            old(self).wf(),
            !has_key(old(self)@, uuid@, secure),
        ensures
            final(self).wf(),
            match built {
                Ok(s) => r == Ok::<usize, BridgeError>(old(self)@.len() as usize) && final(self)@
                    == old(self)@.push((uuid@, secure, s)),
                Err(e) => r matches Err(f) && f@ == e@ && final(self)@ == old(self)@,
            },
    {
        match built {
            Ok(socket) => {
                let i = self.entries.len();
                self.entries.push(CacheEntry { uuid: String::from_str(uuid), secure, socket });
                proof {
                    assert(self@ =~= old(self)@.push((uuid@, secure, socket)));
                    assert forall|a: int, b: int|
                        0 <= a < b < self@.len() implies key_of(#[trigger] self@[a]) != key_of(
                        #[trigger] self@[b],
                    ) by {
                        if b == i as int {
                            assert(!(0 <= a < old(self)@.len() && key_of(old(self)@[a]) == (
                            uuid@, secure)));
                        } else {
                            assert(old(self)@[a] == self@[a] && old(self)@[b] == self@[b]);
                        }
                    }
                }
                Ok(i)
            },
            Err(e) => Err(e),
        }
    }

    /// The socket at position `i`, to use in place.
    pub fn get_mut(&mut self, i: usize) -> (s: &mut T)
        requires
            i < old(self)@.len(),
        ensures
            *s == old(self)@[i as int].2,
            final(self)@ == old(self)@.update(i as int, (old(self)@[i as int].0, old(self)@[i as int].1, *final(s))),
    {
        &mut self.entries[i].socket
    }
}

} // verus!
