//! The registration table: the shared object registry through which every
//! register and unregister operation serializes.
//!
//! The table maps object paths to registered objects. Paths are unique;
//! structural mutation happens only through [`RegistrationTable::insert`]
//! and [`RegistrationTable::remove`], and a call dispatched to a path that
//! is not registered fails with a not-found error.

use vstd::prelude::*;

verus! {

/// An object registered under a path.
#[derive(Clone, Copy, Debug, PartialEq, Eq, Structural, Hash)]
pub enum RegisteredObject {
    /// The root container, carrying the object-manager capability.
    Root,
    /// The provisioning agent object.
    Agent,
    /// The application object, tagged with the application capability and,
    /// when a provisioner was supplied, the provisioner capability.
    Application {
        /// Whether the object also carries the provisioner capability.
        provisioner: bool,
    },
    /// An element object, tagged with its zero-based index.
    Element {
        /// The element's zero-based index within its application.
        index: u8,
    },
}

/// Failure to register an object tree.
#[derive(Clone, Copy, Debug, PartialEq, Eq, Structural, Hash)]
pub enum RegisterError {
    /// Some path of the tree is already registered, or the tree uses one
    /// path twice. Nothing was inserted.
    PathInUse,
}

/// Failure to dispatch a call to a registered object.
#[derive(Clone, Copy, Debug, PartialEq, Eq, Structural, Hash)]
pub enum DispatchError {
    /// No object is registered under the path.
    NotFound,
}

/// Index of the first entry whose path reads `q`, if any.
pub open spec fn find_index(entries: Seq<(String, RegisteredObject)>, q: Seq<char>) -> Option<
    int,
>
    decreases entries.len(),
{
    if entries.len() == 0 {
        None
    } else if entries[0].0@ == q {
        Some(0int)
    } else {
        match find_index(entries.skip(1), q) {
            Option::None => None,
            Option::Some(i) => Some(i + 1),
        }
    }
}

/// The object registered under path `q`, if any.
pub open spec fn lookup(entries: Seq<(String, RegisteredObject)>, q: Seq<char>) -> Option<
    RegisteredObject,
> {
    match find_index(entries, q) {
        Option::None => None,
        Option::Some(i) => Some(entries[i].1),
    }
}

/// `find_index` returns exactly the position of the first matching entry:
/// `None` means no entry matches; `Some(i)` means entry `i` matches and no
/// earlier entry does.
pub proof fn lemma_find_characterization(entries: Seq<(String, RegisteredObject)>, q: Seq<char>)
    ensures
        match find_index(entries, q) {
            Option::None => forall|j: int| 0 <= j < entries.len() ==> entries[j].0@ != q,
            Option::Some(i) => 0 <= i < entries.len() && entries[i].0@ == q && forall|j: int|
                0 <= j < i ==> entries[j].0@ != q,
        },
    decreases entries.len(),
{
    if entries.len() > 0 && entries[0].0@ != q {
        lemma_find_characterization(entries.skip(1), q);
        let rest = entries.skip(1);
        match find_index(rest, q) {
            Option::None => {
                assert forall|j: int| 0 <= j < entries.len() implies entries[j].0@ != q by {
                    if j > 0 {
                        assert(entries[j] == rest[j - 1]);
                    }
                }
            }
            Option::Some(i) => {
                assert(entries[i + 1] == rest[i]);
                assert forall|j: int| 0 <= j < i + 1 implies entries[j].0@ != q by {
                    if j > 0 {
                        assert(entries[j] == rest[j - 1]);
                    }
                }
            }
        }
    }
}

/// Converse: if entry `i` matches `q` and no earlier entry does, then
/// `find_index` returns exactly `i`.
pub proof fn lemma_find_of_first_match(entries: Seq<(String, RegisteredObject)>, q: Seq<char>, i: int)
    requires
        0 <= i < entries.len(),
        entries[i].0@ == q,
        forall|j: int| 0 <= j < i ==> entries[j].0@ != q,
    ensures
        find_index(entries, q) == Some(i),
{
    lemma_find_characterization(entries, q);
    match find_index(entries, q) {
        Option::None => {
            assert(entries[i].0@ != q);
        }
        Option::Some(k) => {
            if k < i {
                assert(entries[k].0@ != q);
            } else if i < k {
                assert(entries[i].0@ != q);
            }
        }
    }
}

/// If no entry matches `q`, `find_index` returns `None`.
pub proof fn lemma_find_of_no_match(entries: Seq<(String, RegisteredObject)>, q: Seq<char>)
    requires
        forall|j: int| 0 <= j < entries.len() ==> entries[j].0@ != q,
    ensures
        find_index(entries, q) is None,
{
    lemma_find_characterization(entries, q);
    if let Option::Some(i) = find_index(entries, q) {
        assert(entries[i].0@ != q);
    }
}

/// The registration table. One exclusive-access lock in the runner guards
/// the real shared instance; all register and unregister operations
/// serialize through it.
#[derive(Clone, Debug)]
pub struct RegistrationTable {
    /// The registered objects, keyed by path.
    pub entries: Vec<(String, RegisteredObject)>,
}

impl RegistrationTable {
    /// Well-formedness: paths are unique.
    pub open spec fn wf(self) -> bool {
        forall|i: int, j: int|
            0 <= i < j < self.entries@.len() ==> self.entries@[i].0@ != self.entries@[j].0@
    }

    /// The object registered under path `q`, if any.
    pub open spec fn lookup_spec(self, q: Seq<char>) -> Option<RegisteredObject> {
        lookup(self.entries@, q)
    }

    /// Creates an empty table.
    pub fn new() -> (r: Self)
        ensures
            r.entries@.len() == 0,
            r.wf(),
            forall|q: Seq<char>| r.lookup_spec(q) is None,
    {
        let r = RegistrationTable { entries: Vec::new() };
        proof {
            assert forall|q: Seq<char>| r.lookup_spec(q) is None by {
                lemma_find_characterization(r.entries@, q);
            }
        }
        r
    }

    /// Index of the entry registered under `path`, if any.
    pub fn find(&self, path: &String) -> (r: Option<usize>)
        ensures
            match r {
                Option::Some(i) => find_index(self.entries@, path@) == Some(i as int),
                Option::None => find_index(self.entries@, path@) is None,
            },
    {
        let mut i: usize = 0;
        while i < self.entries.len()
            invariant
                i <= self.entries.len(),
                forall|j: int| 0 <= j < i ==> self.entries@[j].0@ != path@,
            decreases self.entries.len() - i,
        {
            if self.entries[i].0.eq(path) {
                proof {
                    lemma_find_of_first_match(self.entries@, path@, i as int);
                }
                return Some(i);
            }
            i = i + 1;
        }
        proof {
            lemma_find_of_no_match(self.entries@, path@);
        }
        None
    }

    /// Whether an object is registered under `path`.
    pub fn contains(&self, path: &String) -> (r: bool)
        ensures
            r == (self.lookup_spec(path@) is Some),
    {
        self.find(path).is_some()
    }

    /// What dispatching a call to path `q` yields: the registered object,
    /// or a not-found error.
    pub open spec fn dispatch_spec(self, q: Seq<char>) -> Result<RegisteredObject, DispatchError> {
        match self.lookup_spec(q) {
            Option::Some(o) => Ok(o),
            Option::None => Err(DispatchError::NotFound),
        }
    }

    /// Dispatches a call to the object under `path`: the object when one is
    /// registered, and a not-found error otherwise.
    pub fn call_at(&self, path: &String) -> (r: Result<RegisteredObject, DispatchError>)
        ensures
            r == self.dispatch_spec(path@),
    {
        match self.find(path) {
            Option::Some(i) => {
                proof {
                    lemma_find_characterization(self.entries@, path@);
                }
                Ok(self.entries[i].1)
            }
            Option::None => Err(DispatchError::NotFound),
        }
    }

    /// Inserts an object under `path`. Fails, changing nothing, if the path
    /// is already registered.
    pub fn insert(&mut self, path: String, object: RegisteredObject) -> (r: Result<
        (),
        RegisterError,
    >)
        requires
            old(self).wf(),
        ensures
            final(self).wf(),
            old(self).lookup_spec(path@) is Some ==> r == Err::<(), RegisterError>(
                RegisterError::PathInUse,
            ) && *final(self) == *old(self),
            old(self).lookup_spec(path@) is None ==> {
                &&& r == Ok::<(), RegisterError>(())
                &&& final(self).entries@.len() == old(self).entries@.len() + 1
                &&& final(self).lookup_spec(path@) == Some(object)
                &&& forall|q: Seq<char>|
                    q != path@ ==> final(self).lookup_spec(q) == old(self).lookup_spec(q)
            },
    {
        if self.contains(&path) {
            return Err(RegisterError::PathInUse);
        }
        proof {
            lemma_find_characterization(self.entries@, path@);
        }
        let ghost old_entries = self.entries@;
        self.entries.push((path, object));
        proof {
            let entries = self.entries@;
            let n = old_entries.len() as int;
            assert(entries =~= old_entries.push(entries[n]));
            assert forall|i: int, j: int| 0 <= i < j < entries.len() implies entries[i].0@
                != entries[j].0@ by {
                if j < n {
                } else {
                    assert(entries[j].0@ == entries[n].0@);
                    assert(old_entries[i].0@ != entries[n].0@);
                }
            }
            lemma_find_of_first_match(entries, entries[n].0@, n);
            assert forall|q: Seq<char>| q != entries[n].0@ implies lookup(entries, q) == lookup(
                old_entries,
                q,
            ) by {
                lemma_find_characterization(old_entries, q);
                match find_index(old_entries, q) {
                    Option::None => {
                        lemma_find_of_no_match(entries, q);
                    }
                    Option::Some(i) => {
                        lemma_find_of_first_match(entries, q, i);
                    }
                }
            }
        }
        Ok(())
    }

    /// Removes the object under `path`, returning it, or `None` if the path
    /// is not registered. Other registrations are untouched.
    pub fn remove(&mut self, path: &String) -> (r: Option<RegisteredObject>)
        requires
            old(self).wf(),
        ensures
            final(self).wf(),
            r == old(self).lookup_spec(path@),
            final(self).lookup_spec(path@) is None,
            forall|q: Seq<char>|
                q != path@ ==> final(self).lookup_spec(q) == old(self).lookup_spec(q),
            final(self).entries@.len() == if old(self).lookup_spec(path@) is Some {
                old(self).entries@.len() - 1
            } else {
                old(self).entries@.len() as int
            },
    {
        let found = self.find(path);
        match found {
            Option::None => {
                proof {
                    lemma_find_characterization(self.entries@, path@);
                }
                None
            }
            Option::Some(i) => {
                proof {
                    lemma_find_characterization(self.entries@, path@);
                }
                let ghost old_entries = self.entries@;
                let (_, object) = self.entries.remove(i);
                proof {
                    let entries = self.entries@;
                    let n = i as int;
                    assert(entries =~= old_entries.remove(n));
                    lemma_find_characterization(old_entries, path@);
                    assert forall|ii: int, jj: int| 0 <= ii < jj < entries.len() implies
                        entries[ii].0@ != entries[jj].0@ by {
                        let oi = if ii < n { ii } else { ii + 1 };
                        let oj = if jj < n { jj } else { jj + 1 };
                        assert(entries[ii] == old_entries[oi]);
                        assert(entries[jj] == old_entries[oj]);
                    }
                    assert forall|j: int| 0 <= j < entries.len() implies entries[j].0@ != path@ by {
                        let oj = if j < n { j } else { j + 1 };
                        assert(entries[j] == old_entries[oj]);
                        assert(old_entries[n].0@ == path@);
                        if oj != n {
                            assert(old_entries[oj].0@ != old_entries[n].0@);
                        }
                    }
                    lemma_find_of_no_match(entries, path@);
                    assert forall|q: Seq<char>| q != path@ implies lookup(entries, q) == lookup(
                        old_entries,
                        q,
                    ) by {
                        lemma_find_characterization(old_entries, q);
                        match find_index(old_entries, q) {
                            Option::None => {
                                assert forall|j: int| 0 <= j < entries.len() implies entries[j].0@
                                    != q by {
                                    let oj = if j < n { j } else { j + 1 };
                                    assert(entries[j] == old_entries[oj]);
                                }
                                lemma_find_of_no_match(entries, q);
                            }
                            Option::Some(oi) => {
                                assert(old_entries[oi].0@ == q);
                                let ni = if oi < n { oi } else { oi - 1 };
                                assert(oi != n);
                                assert(entries[ni] == old_entries[oi]);
                                assert forall|j: int| 0 <= j < ni implies entries[j].0@ != q by {
                                    let oj = if j < n { j } else { j + 1 };
                                    assert(entries[j] == old_entries[oj]);
                                }
                                lemma_find_of_first_match(entries, q, ni);
                            }
                        }
                    }
                }
                Some(object)
            }
        }
    }
}

} // verus!
