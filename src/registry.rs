//! Container descriptors as the registry hands them to the engine, and the
//! registry itself: one entry per container identifier.

use vstd::prelude::*;

verus! {

/// Build or runtime tag of a container.
#[derive(Clone, Debug)]
pub struct RuntimeConfig {
    pub build: Option<String>,
}

/// Overrides of the four virtualized roots, relative to the container root
/// (or absolute).
#[derive(Clone, Debug)]
pub struct PathConfig {
    pub program_files: Option<String>,
    pub appdata: Option<String>,
    pub local_appdata: Option<String>,
    pub temp: Option<String>,
}

/// Declared configuration of one container.
#[derive(Clone, Debug)]
pub struct ContainerManifest {
    pub id: String,
    pub name: String,
    pub version: Option<String>,
    pub entrypoint: Option<String>,
    pub runtime: RuntimeConfig,
    pub paths: PathConfig,
}

/// A descriptor together with the directory that holds the container.
#[derive(Clone, Debug)]
pub struct RegisteredContainer {
    pub manifest: ContainerManifest,
    pub root: String,
}

pub open spec fn ids_unique(s: Seq<RegisteredContainer>) -> bool {
    forall|i: int, j: int|
        0 <= i < s.len() && 0 <= j < s.len() && i != j ==> s[i].manifest.id@ != s[j].manifest.id@
}

/// The registered containers, at most one per identifier.
pub struct ContainerRegistry {
    containers: Vec<RegisteredContainer>,
}

impl ContainerRegistry {
    pub closed spec fn entries(&self) -> Seq<RegisteredContainer> {
        self.containers@
    }

    pub open spec fn wf(&self) -> bool {
        ids_unique(self.entries())
    }

    pub fn new() -> (r: Self)
        ensures
            r.wf(),
            r.entries() == Seq::<RegisteredContainer>::empty(),
    {
        ContainerRegistry { containers: Vec::new() }
    }

    /// Registers `container`; an entry with the same identifier is replaced
    /// in place, otherwise the container is appended.
    pub fn insert(&mut self, container: RegisteredContainer)
        requires
            old(self).wf(),
        ensures
            final(self).wf(),
            ({
                let s = old(self).entries();
                let id = container.manifest.id@;
                if exists|i: int| 0 <= i < s.len() && s[i].manifest.id@ == id {
                    exists|i: int|
                        0 <= i < s.len() && s[i].manifest.id@ == id && final(self).entries()
                            == s.update(i, container)
                } else {
                    final(self).entries() == s.push(container)
                }
            }),
    {
        let n = self.containers.len();
        let mut i: usize = 0;
        while i < n
            invariant
                n == self.containers@.len(),
                self.containers@ == old(self).containers@,
                ids_unique(self.containers@),
                i <= n,
                forall|j: int|
                    0 <= j < i ==> self.containers@[j].manifest.id@ != container.manifest.id@,
            decreases n - i,
        {
            if self.containers[i].manifest.id == container.manifest.id {
                let ghost s = self.containers@;
                self.containers.set(i, container);
                assert(self.containers@ == s.update(i as int, container));
                assert(ids_unique(self.containers@)) by {
                    assert forall|a: int, b: int|
                        0 <= a < s.len() && 0 <= b < s.len() && a != b implies self.containers@[a].manifest.id@
                        != self.containers@[b].manifest.id@ by {
                        if a != i && b != i {
                            assert(s[a].manifest.id@ != s[b].manifest.id@);
                        } else if a == i {
                            assert(s[b].manifest.id@ != s[a].manifest.id@);
                        } else {
                            assert(s[a].manifest.id@ != s[b].manifest.id@);
                        }
                    }
                }
                return ;
            }
            i = i + 1;
        }
        self.containers.push(container);
    }

    /// The registered containers, in registration order.
    pub fn list(&self) -> (r: Vec<&RegisteredContainer>)
        ensures
            r@.len() == self.entries().len(),
            forall|i: int| 0 <= i < r@.len() ==> *r@[i] == self.entries()[i],
    {
        let mut out: Vec<&RegisteredContainer> = Vec::new();
        let mut i: usize = 0;
        while i < self.containers.len()
            invariant
                i <= self.containers@.len(),
                out@.len() == i,
                forall|j: int| 0 <= j < i ==> *out@[j] == self.containers@[j],
            decreases self.containers@.len() - i,
        {
            out.push(&self.containers[i]);
            i = i + 1;
        }
        out
    }
}

} // verus!
