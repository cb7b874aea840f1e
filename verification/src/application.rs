//! Application lifecycle: publishing an object tree as one logical unit
//! and tearing it down cleanly.
//!
//! Registration inserts, under the caller's root path: the root container
//! (object-manager capability), the provisioning agent, the application
//! object — tagged with the application capability and, when a provisioner
//! was supplied, the provisioner capability — and each element keyed by its
//! path with a zero-based index. The insertions are atomic: if any path is
//! in use or repeated, nothing is inserted. Teardown is an explicit,
//! idempotent release that removes every path the registration added.

use vstd::prelude::*;
use vstd::string::StringExecFns;
use crate::agent::ProvisionAgent;
use crate::element::Element;
use crate::element::ReqError;
use crate::element::ReqResult;
use crate::provisioner::Provisioner;
use crate::provisioner::RegisteredProvisioner;
use crate::registry::DispatchError;
use crate::registry::RegisterError;
use crate::registry::RegisteredObject;
use crate::registry::RegistrationTable;

verus! {

/// Definition of a mesh application: a path, its elements, and an
/// optional provisioner.
#[derive(Clone, Debug)]
pub struct Application {
    /// The application's object path.
    pub path: String,
    /// The application's elements, in index order.
    pub elements: Vec<Element>,
    /// The provisioner role, if this application provisions.
    pub provisioner: Option<Provisioner>,
}

impl Default for Application {
    fn default() -> (r: Self)
        ensures
            r.path@ == Seq::<char>::empty(),
            r.elements@.len() == 0,
            r.provisioner is None,
    {
        Application { path: String::new(), elements: Vec::new(), provisioner: None }
    }
}

/// The object path of the provisioning agent under a root path.
pub open spec fn agent_path_view(root: Seq<char>) -> Seq<char> {
    root + "/agent"@
}

/// The paths that registering `app` under `root` occupies, in insertion
/// order: root, agent, application, then each element.
pub open spec fn register_path_views(app: Application, root: Seq<char>) -> Seq<Seq<char>> {
    seq![root, agent_path_view(root), app.path@] + Seq::new(
        app.elements@.len(),
        |i: int| app.elements@[i].path@,
    )
}

/// The object inserted at position `k` of the registration sequence.
pub open spec fn register_object_at(app: Application, k: int) -> RegisteredObject {
    if k == 0 {
        RegisteredObject::Root
    } else if k == 1 {
        RegisteredObject::Agent
    } else if k == 2 {
        RegisteredObject::Application { provisioner: app.provisioner is Some }
    } else {
        RegisteredObject::Element { index: (k - 3) as u8 }
    }
}

/// Whether registration can succeed: the paths are pairwise distinct and
/// none is already registered.
pub open spec fn register_viable(table: RegistrationTable, pvs: Seq<Seq<char>>) -> bool {
    &&& forall|i: int, j: int| 0 <= i < j < pvs.len() ==> pvs[i] != pvs[j]
    &&& forall|i: int| 0 <= i < pvs.len() ==> table.lookup_spec(pvs[i]) is None
}

/// Whether some path in `ps` reads `q`.
pub open spec fn has_path(ps: Seq<String>, q: Seq<char>) -> bool {
    exists|j: int| 0 <= j < ps.len() && ps[j]@ == q
}

/// An application as exposed on the daemon's object bus.
#[derive(Clone, Debug)]
pub struct RegisteredApplication {
    /// The application definition.
    pub app: Application,
    /// The provisioning agent, always present.
    pub agent: ProvisionAgent,
    /// The provisioner, when the application supplied one.
    pub provisioner: Option<RegisteredProvisioner>,
}

impl RegisteredApplication {
    /// Wraps an application for registration, pairing it with an agent
    /// and, when supplied, a registered provisioner.
    pub fn new(app: Application) -> (r: Self)
        ensures
            r.app == app,
            (r.provisioner is Some) == (app.provisioner is Some),
    {
        let provisioner = match &app.provisioner {
            Option::Some(p) => Some(RegisteredProvisioner::new(*p)),
            Option::None => None,
        };
        Self { app, agent: ProvisionAgent::new(), provisioner }
    }

    /// The `CompanyID` property.
    pub fn company_id(&self) -> (r: u16)
        ensures
            r == 0x05F1,
    {
        0x05F1
    }

    /// The `ProductID` property.
    pub fn product_id(&self) -> (r: u16)
        ensures
            r == 0x0001,
    {
        0x0001
    }

    /// The `VersionID` property.
    pub fn version_id(&self) -> (r: u16)
        ensures
            r == 0x0001,
    {
        0x0001
    }

    /// Acknowledges that the daemon completed a join. Fire-and-forget:
    /// always succeeds.
    pub fn join_complete(&self, token: u64) -> (r: ReqResult<()>)
        ensures
            r == Ok::<(), ReqError>(()),
    {
        let _ = token;
        Ok(())
    }

    /// Acknowledges that a join failed. Fire-and-forget: always succeeds.
    pub fn join_failed(&self, reason: &str) -> (r: ReqResult<()>)
        ensures
            r == Ok::<(), ReqError>(()),
    {
        let _ = reason;
        Ok(())
    }

    /// Registers the whole object tree under `root_path` as one logical
    /// unit.
    ///
    /// Succeeds exactly when the root, agent, application and element
    /// paths are pairwise distinct and none is already registered; then
    /// every path is inserted with its object and the returned handle
    /// records them all. Otherwise nothing is inserted and the attempt
    /// fails.
    pub fn register(self, root_path: String, table: &mut RegistrationTable) -> (r: Result<
        ApplicationHandle,
        RegisterError,
    >)
        requires
            old(table).wf(),
            self.app.elements@.len() <= 255,
        ensures
            final(table).wf(),
            !register_viable(*old(table), register_path_views(self.app, root_path@)) ==> r == Err::<
                ApplicationHandle,
                RegisterError,
            >(RegisterError::PathInUse) && *final(table) == *old(table),
            register_viable(*old(table), register_path_views(self.app, root_path@)) ==> match r {
                Ok(h) => {
                    let pvs = register_path_views(self.app, root_path@);
                    &&& h.released == false
                    &&& h.name@ == root_path@
                    &&& h.paths@.len() == pvs.len()
                    &&& forall|k: int| 0 <= k < pvs.len() ==> h.paths@[k]@ == pvs[k]
                    &&& forall|q: Seq<char>|
                        !pvs.contains(q) ==> final(table).lookup_spec(q) == old(table).lookup_spec(
                            q,
                        )
                    &&& forall|k: int|
                        0 <= k < pvs.len() ==> final(table).lookup_spec(pvs[k]) == Some(
                            register_object_at(self.app, k),
                        )
                    &&& final(table).entries@.len() == old(table).entries@.len() + pvs.len()
                },
                Err(_) => false,
            },
    {
        let ghost pvs = register_path_views(self.app, root_path@);
        let ghost t0 = *table;

        // Compute the paths of the tree, in insertion order.
        let mut paths: Vec<String> = Vec::new();
        paths.push(root_path.clone());
        let mut agent_path = root_path.clone();
        agent_path.append("/agent");
        paths.push(agent_path);
        paths.push(self.app.path.clone());
        let n = self.app.elements.len();
        let mut i: usize = 0;
        while i < n
            invariant
                i <= n,
                n == self.app.elements@.len(),
                paths@.len() == 3 + i,
                pvs == register_path_views(self.app, root_path@),
                pvs.len() == 3 + n,
                forall|k: int| 0 <= k < 3 + i ==> paths@[k]@ == pvs[k],
            decreases n - i,
        {
            paths.push(self.app.elements[i].path.clone());
            i = i + 1;
        }

        let m = paths.len();

        // Validate the whole tree before touching the table: every path
        // fresh, no path repeated.
        let mut a: usize = 0;
        while a < m
            invariant
                a <= m,
                m == pvs.len(),
                pvs == register_path_views(self.app, root_path@),
                paths@.len() == m,
                forall|k: int| 0 <= k < m ==> paths@[k]@ == pvs[k],
                t0 == *table,
                t0 == *old(table),
                old(table).wf(),
                forall|x: int| 0 <= x < a ==> table.lookup_spec(pvs[x]) is None,
                forall|x: int, y: int| 0 <= x < a && x < y < m ==> pvs[x] != pvs[y],
            decreases m - a,
        {
            if table.contains(&paths[a]) {
                proof {
                    assert(t0.lookup_spec(pvs[a as int]) is Some);
                    assert(!register_viable(t0, pvs));
                }
                return Err(RegisterError::PathInUse);
            }
            let mut b: usize = a + 1;
            while b < m
                invariant
                    a < b <= m,
                    m == pvs.len(),
                    pvs == register_path_views(self.app, root_path@),
                    paths@.len() == m,
                    t0 == *table,
                    t0 == *old(table),
                    old(table).wf(),
                    forall|k: int| 0 <= k < m ==> paths@[k]@ == pvs[k],
                    forall|y: int| a < y < b ==> pvs[a as int] != pvs[y],
                decreases m - b,
            {
                if paths[a].eq(&paths[b]) {
                    proof {
                        assert(pvs[a as int] == pvs[b as int]);
                        assert(!register_viable(t0, pvs));
                    }
                    return Err(RegisterError::PathInUse);
                }
                b = b + 1;
            }
            a = a + 1;
        }
        assert(register_viable(t0, pvs));

        // Insert the tree. Every insertion succeeds: the paths were just
        // validated.
        let mut k: usize = 0;
        while k < m
            invariant
                k <= m,
                m == pvs.len(),
                pvs == register_path_views(self.app, root_path@),
                m == 3 + self.app.elements@.len(),
                self.app.elements@.len() <= 255,
                paths@.len() == m,
                forall|kk: int| 0 <= kk < m ==> paths@[kk]@ == pvs[kk],
                register_viable(t0, pvs),
                t0 == *old(table),
                table.wf(),
                forall|q: Seq<char>|
                    !pvs.take(k as int).contains(q) ==> table.lookup_spec(q) == t0.lookup_spec(q),
                forall|j: int|
                    0 <= j < k ==> table.lookup_spec(pvs[j]) == Some(
                        register_object_at(self.app, j),
                    ),
                table.entries@.len() == t0.entries@.len() + k,
            decreases m - k,
        {
            let object = if k == 0 {
                RegisteredObject::Root
            } else if k == 1 {
                RegisteredObject::Agent
            } else if k == 2 {
                RegisteredObject::Application { provisioner: self.app.provisioner.is_some() }
            } else {
                RegisteredObject::Element { index: (k - 3) as u8 }
            };
            assert(object == register_object_at(self.app, k as int));
            proof {
                assert(!pvs.take(k as int).contains(pvs[k as int]));
                assert(table.lookup_spec(pvs[k as int]) is None);
            }
            let res = table.insert(paths[k].clone(), object);
            if res.is_err() {
                proof {
                    assert(false);
                }
                return Err(RegisterError::PathInUse);
            }
            proof {
                assert(pvs.take(k + 1int) =~= pvs.take(k as int).push(pvs[k as int]));
                assert forall|q: Seq<char>| !pvs.take(k + 1int).contains(q) implies
                    table.lookup_spec(q) == t0.lookup_spec(q) by {
                    if q == pvs[k as int] {
                        assert(pvs.take(k + 1int)[k as int] == q);
                        assert(pvs.take(k + 1int).contains(q));
                    }
                    if pvs.take(k as int).contains(q) {
                        let i = choose|i: int| 0 <= i < k && pvs.take(k as int)[i] == q;
                        assert(pvs.take(k + 1int)[i] == q);
                        assert(pvs.take(k + 1int).contains(q));
                    }
                }
                assert forall|j: int| 0 <= j < k + 1 implies table.lookup_spec(pvs[j]) == Some(
                    register_object_at(self.app, j),
                ) by {
                    if j < k {
                        assert(pvs[j] != pvs[k as int]);
                    }
                }
            }
            k = k + 1;
        }
        proof {
            assert(pvs.take(m as int) =~= pvs);
            assert forall|q: Seq<char>| !pvs.contains(q) implies table.lookup_spec(q)
                == t0.lookup_spec(q) by {
                assert(!pvs.take(m as int).contains(q));
            }
        }
        Ok(ApplicationHandle { name: root_path, paths, released: false })
    }
}

/// Lifecycle token for a registered application. Releasing it removes the
/// whole registered tree; the release is explicit and idempotent.
#[derive(Clone, Debug)]
pub struct ApplicationHandle {
    /// The root path of the registered tree.
    pub name: String,
    /// Every path the registration inserted, in insertion order.
    pub paths: Vec<String>,
    /// Whether the handle has been released.
    pub released: bool,
}

impl ApplicationHandle {
    /// Releases the application: removes every path the registration
    /// inserted from the table. Idempotent — a second release is a no-op —
    /// and always succeeds.
    pub fn release(&mut self, table: &mut RegistrationTable) -> (r: Result<(), ReqError>)
        requires
            old(table).wf(),
        ensures
            final(table).wf(),
            r == Ok::<(), ReqError>(()),
            final(self).name == old(self).name,
            final(self).paths == old(self).paths,
            final(self).released,
            old(self).released ==> *final(table) == *old(table) && *final(self) == *old(self),
            !old(self).released ==> {
                &&& forall|q: Seq<char>|
                    has_path(old(self).paths@, q) ==> final(table).lookup_spec(q) is None
                &&& forall|q: Seq<char>|
                    !has_path(old(self).paths@, q) ==> final(table).lookup_spec(q) == old(
                        table,
                    ).lookup_spec(q)
            },
    {
        if self.released {
            return Ok(());
        }
        let ghost t0 = *table;
        let m = self.paths.len();
        let mut k: usize = 0;
        while k < m
            invariant
                k <= m,
                m == self.paths@.len(),
                self == old(self),
                table.wf(),
                forall|q: Seq<char>|
                    (exists|j: int| 0 <= j < k && self.paths@[j]@ == q) ==> table.lookup_spec(q)
                        is None,
                forall|q: Seq<char>|
                    !(exists|j: int| 0 <= j < k && self.paths@[j]@ == q) ==> table.lookup_spec(q)
                        == t0.lookup_spec(q),
            decreases m - k,
        {
            let _ = table.remove(&self.paths[k]);
            proof {
                let p = self.paths@[k as int]@;
                assert forall|q: Seq<char>| (exists|j: int|
                    0 <= j < k + 1 && self.paths@[j]@ == q) implies table.lookup_spec(q)
                    is None by {
                    let j = choose|j: int| 0 <= j < k + 1 && self.paths@[j]@ == q;
                    if j < k {
                        if q != p {
                            assert(table.lookup_spec(q) is None);
                        }
                    }
                }
                assert forall|q: Seq<char>| !(exists|j: int|
                    0 <= j < k + 1 && self.paths@[j]@ == q) implies table.lookup_spec(q)
                    == t0.lookup_spec(q) by {
                    assert(q != p);
                    assert(!(exists|j: int| 0 <= j < k && self.paths@[j]@ == q));
                }
            }
            k = k + 1;
        }
        self.released = true;
        Ok(())
    }
}

/// Law: registering an application and then releasing its handle removes
/// the root path from the registration table, makes a call to any of its
/// element paths fail with a not-found error, and restores the table to
/// exactly what it was before the registration.
pub proof fn lemma_register_release_not_found(
    t0: RegistrationTable,
    t1: RegistrationTable,
    t2: RegistrationTable,
    app: Application,
    root: Seq<char>,
    h: ApplicationHandle,
)
    requires
        register_viable(t0, register_path_views(app, root)),
        h.paths@.len() == register_path_views(app, root).len(),
        forall|k: int|
            0 <= k < h.paths@.len() ==> h.paths@[k]@ == register_path_views(app, root)[k],
        forall|q: Seq<char>|
            !register_path_views(app, root).contains(q) ==> t1.lookup_spec(q) == t0.lookup_spec(q),
        forall|q: Seq<char>| has_path(h.paths@, q) ==> t2.lookup_spec(q) is None,
        forall|q: Seq<char>| !has_path(h.paths@, q) ==> t2.lookup_spec(q) == t1.lookup_spec(q),
    ensures
        t2.lookup_spec(root) is None,
        forall|i: int|
            0 <= i < app.elements@.len() ==> t2.dispatch_spec(app.elements@[i].path@) == Err::<
                RegisteredObject,
                DispatchError,
            >(DispatchError::NotFound),
        forall|q: Seq<char>| t2.lookup_spec(q) == t0.lookup_spec(q),
{
    let pvs = register_path_views(app, root);
    assert(pvs.len() == 3 + app.elements@.len());
    assert(pvs[0] == root);
    assert(h.paths@[0]@ == root);
    assert(has_path(h.paths@, root));
    assert forall|i: int| 0 <= i < app.elements@.len() implies t2.dispatch_spec(
        app.elements@[i].path@,
    ) == Err::<RegisteredObject, DispatchError>(DispatchError::NotFound) by {
        assert(pvs[3 + i] == app.elements@[i].path@);
        assert(h.paths@[3 + i]@ == app.elements@[i].path@);
        assert(has_path(h.paths@, app.elements@[i].path@));
    }
    assert forall|q: Seq<char>| t2.lookup_spec(q) == t0.lookup_spec(q) by {
        if has_path(h.paths@, q) {
            let j = choose|j: int| 0 <= j < h.paths@.len() && h.paths@[j]@ == q;
            assert(pvs[j] == q);
            assert(t0.lookup_spec(q) is None);
        } else {
            if pvs.contains(q) {
                let j = choose|j: int| 0 <= j < pvs.len() && pvs[j] == q;
                assert(h.paths@[j]@ == q);
                assert(has_path(h.paths@, q));
            }
        }
    }
}

} // verus!
