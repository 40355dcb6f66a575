use vstd::prelude::*;

verus! {

/// The per-user log writers of a process, keyed by user name. It is created
/// empty, only grows, and never replaces a writer once one is stored, so a
/// user keeps the same writer for the life of the registry.
pub struct WriterRegistry<H> {
    names: Vec<String>,
    handles: Vec<H>,
    contents: Ghost<Map<Seq<char>, H>>,
}

impl<H> View for WriterRegistry<H> {
    type V = Map<Seq<char>, H>;

    closed spec fn view(&self) -> Map<Seq<char>, H> {
        self.contents@
    }
}

impl<H> WriterRegistry<H> {
    pub closed spec fn wf(&self) -> bool {
        &&& self.names.len() == self.handles.len()
        &&& forall|i: int|
            0 <= i < self.names.len() ==> {
                &&& #[trigger] self.contents@.contains_key(self.names[i]@)
                &&& self.contents@[self.names[i]@] == self.handles[i]
            }
        &&& forall|k: Seq<char>|
            #[trigger] self.contents@.contains_key(k) ==> exists|i: int|
                0 <= i < self.names.len() && self.names[i]@ == k
    }

    pub fn new() -> (r: WriterRegistry<H>)
        ensures
            r.wf(),
            r@ == Map::<Seq<char>, H>::empty(),
    {
        WriterRegistry { names: Vec::new(), handles: Vec::new(), contents: Ghost(Map::empty()) }
    }

    /// The writer of a user, if the user has one.
    pub fn get(&self, username: &String) -> (r: Option<&H>)
        requires
            self.wf(),
        ensures
            match r {
                Some(h) => self@.contains_key(username@) && *h == self@[username@],
                None => !self@.contains_key(username@),
            },
    {
        let mut i: usize = 0;
        while i < self.names.len()
            invariant
                self.wf(),
                0 <= i <= self.names.len(),
                forall|j: int| 0 <= j < i ==> self.names[j]@ != username@,
            decreases self.names.len() - i,
        {
            if self.names[i] == *username {
                assert(self.contents@.contains_key(self.names[i as int]@));
                return Some(&self.handles[i]);
            }
            i = i + 1;
        }
        None
    }

    /// Stores `handle` as the writer of a user that has none, and reports
    /// whether it did; a user that already has a writer keeps it.
    pub fn insert(&mut self, username: String, handle: H) -> (r: bool)
        requires
            old(self).wf(),
        ensures
            final(self).wf(),
            r == !old(self)@.contains_key(username@),
            r ==> final(self)@ == old(self)@.insert(username@, handle),
            !r ==> final(self)@ == old(self)@,
    {
        if self.get(&username).is_some() {
            return false;
        }
        let ghost u = username@;
        let ghost h = handle;
        self.names.push(username);
        self.handles.push(handle);
        self.contents = Ghost(self.contents@.insert(u, h));
        assert forall|i: int| 0 <= i < self.names.len() implies {
            &&& #[trigger] self.contents@.contains_key(self.names[i]@)
            &&& self.contents@[self.names[i]@] == self.handles[i]
        } by {
            if i < self.names.len() - 1 {
                assert(old(self).contents@.contains_key(old(self).names[i]@));
            }
        }
        assert forall|k: Seq<char>| #[trigger] self.contents@.contains_key(k) implies exists|i: int|
            0 <= i < self.names.len() && self.names[i]@ == k by {
            if k == u {
                assert(self.names[self.names.len() - 1]@ == k);
            } else {
                assert(old(self).contents@.contains_key(k));
                let i = choose|i: int| 0 <= i < old(self).names.len() && old(self).names[i]@ == k;
                assert(self.names[i]@ == k);
            }
        }
        true
    }
}

} // verus!
