//! The tool registry: an insertion-ordered mapping from operation name
//! to operation descriptor.  Names are unique, lookups are
//! case-sensitive exact matches, and absence is an error value, never a
//! panic.  The registry is built once at startup and read-only
//! afterwards.

use vstd::prelude::*;
use crate::schema::Schema;

verus! {

/// The handler an operation dispatches to: a capability reference the
/// process edge maps to the actual outbound call.
#[derive(PartialEq, Eq, Structural, Clone, Copy, Debug)]
pub enum OpKind {
    CodeCli,
    CodeCliGetWorkdir,
    CodeCliSetWorkdir,
    CodeCliStatus,
    SendMessageToChannel,
    ExecutePython,
    InstallPackage,
    SandboxReadFile,
    SandboxWriteFile,
    SandboxListFiles,
    RunShell,
    SaveToLocal,
    ListLocalFiles,
    ReadLocalFile,
    DeleteLocalFile,
    DownloadFromSandbox,
    UploadToSandbox,
    GoogleCalendarListEvents,
    GoogleCalendarCreateEvent,
    GoogleSheetsRead,
    GoogleSheetsWrite,
    GoogleDriveList,
    GoogleDriveDownload,
    OrsListNotes,
    OrsAddNote,
    OrsArchiveNote,
    BackupNow,
    BackupList,
    BackupStatus,
    BackupSchedule,
    BackupConfig,
    BackupDestinations,
    BackupDeleteDestination,
}

/// One registered operation: its unique name, its human-readable
/// description, the schema its payloads must satisfy, and its handler.
pub struct Descriptor {
    pub name: String,
    pub description: String,
    pub schema: Schema,
    pub op: OpKind,
}

/// The first descriptor in `s` whose name reads `name`, if any.
pub open spec fn lookup_spec(s: Seq<Descriptor>, name: Seq<char>) -> Option<Descriptor>
    decreases s.len(),
{
    if s.len() == 0 {
        None
    } else if s[0].name@ == name {
        Some(s[0])
    } else {
        lookup_spec(s.drop_first(), name)
    }
}

/// Whether all descriptor names in `s` are distinct.
pub open spec fn names_unique(s: Seq<Descriptor>) -> bool {
    forall|i: int, j: int| 0 <= i < j < s.len() ==> (#[trigger] s[i]).name@ != (#[trigger] s[j]).name@
}

/// A lookup misses exactly when no descriptor carries the name.
pub proof fn lemma_lookup_absent(s: Seq<Descriptor>, name: Seq<char>)
    ensures
        lookup_spec(s, name) is None <==> forall|i: int|
            0 <= i < s.len() ==> (#[trigger] s[i]).name@ != name,
    decreases s.len(),
{
    if s.len() > 0 {
        lemma_lookup_absent(s.drop_first(), name);
        assert forall|i: int| 1 <= i < s.len() implies s.drop_first()[i - 1] == s[i] by {}
    }
}

/// Registering a fresh name makes it resolvable to exactly the
/// registered descriptor, and leaves every other name's resolution
/// unchanged.
pub proof fn lemma_register_lookup(s: Seq<Descriptor>, d: Descriptor, other: Seq<char>)
    requires
        lookup_spec(s, d.name@) is None,
    ensures
        lookup_spec(s.push(d), d.name@) == Some(d),
        other != d.name@ ==> lookup_spec(s.push(d), other) == lookup_spec(s, other),
    decreases s.len(),
{
    if s.len() == 0 {
        assert(s.push(d)[0] == d);
        if other != d.name@ {
            assert(lookup_spec(s.push(d), other) is None) by {
                assert(s.push(d).drop_first() =~= Seq::<Descriptor>::empty());
            }
        }
    } else {
        assert(s.push(d)[0] == s[0]);
        assert(s.push(d).drop_first() =~= s.drop_first().push(d));
        lemma_register_lookup(s.drop_first(), d, other);
    }
}

/// Why a registration was refused.
#[derive(Debug)]
pub enum RegistryError {
    DuplicateName,
}

/// The registry itself: descriptors in insertion order, names unique.
pub struct Registry {
    items: Vec<Descriptor>,
}

impl View for Registry {
    type V = Seq<Descriptor>;

    closed spec fn view(&self) -> Seq<Descriptor> {
        self.items@
    }
}

impl Registry {
    /// Well-formed: no two registered operations share a name.
    pub open spec fn wf(&self) -> bool {
        names_unique(self@)
    }

    /// An empty registry.
    pub fn new() -> (r: Registry)
        ensures
            r@ =~= Seq::<Descriptor>::empty(),
            r.wf(),
    {
        Registry { items: Vec::new() }
    }

    /// A registry holding exactly `items`, whose names must already be
    /// distinct.
    pub fn from_items(items: Vec<Descriptor>) -> (r: Registry)
        requires
            names_unique(items@),
        ensures
            r@ == items@,
            r.wf(),
    {
        Registry { items }
    }

    /// Resolves `name`: the descriptor registered under it, or nothing.
    pub fn lookup<'a>(&'a self, name: &str) -> (r: Option<&'a Descriptor>)
        ensures
            match r {
                Some(d) => lookup_spec(self@, name@) == Some(*d),
                None => lookup_spec(self@, name@) is None,
            },
    {
        let key: String = name.to_owned();
        let mut k: usize = 0;
        proof {
            assert(self@.skip(0) =~= self@);
        }
        while k < self.items.len()
            invariant
                0 <= k <= self@.len(),
                key@ == name@,
                self@ == self.items@,
                lookup_spec(self@.skip(k as int), name@) == lookup_spec(self@, name@),
            decreases self@.len() - k,
        {
            proof {
                assert(self@.skip(k as int)[0] == self@[k as int]);
                assert(self@.skip(k as int).drop_first() =~= self@.skip((k + 1) as int));
            }
            if self.items[k].name == key {
                return Some(&self.items[k]);
            }
            k = k + 1;
        }
        proof {
            assert(self@.skip(self@.len() as int) =~= Seq::<Descriptor>::empty());
        }
        None
    }

    /// Registers `d`: appended when its name is fresh, refused without
    /// any change when the name is already present.
    pub fn register(&mut self, d: Descriptor) -> (r: Result<(), RegistryError>)
        requires
            old(self).wf(),
        ensures
            final(self).wf(),
            match r {
                Ok(()) => lookup_spec(old(self)@, d.name@) is None && final(self)@ == old(
                    self,
                )@.push(d),
                Err(RegistryError::DuplicateName) => lookup_spec(old(self)@, d.name@) is Some
                    && final(self)@ == old(self)@,
            },
    {
        let present: bool = match self.lookup(d.name.as_str()) {
            Some(_) => true,
            None => false,
        };
        if present {
            return Err(RegistryError::DuplicateName);
        }
        proof {
            lemma_lookup_absent(self@, d.name@);
        }
        let ghost pre = self@;
        self.items.push(d);
        proof {
            assert forall|i: int, j: int| 0 <= i < j < self@.len() implies (
            #[trigger] self@[i]).name@ != (#[trigger] self@[j]).name@ by {
                if j < pre.len() {
                } else {
                    assert(self@[j] == d);
                    assert(self@[i] == pre[i]);
                }
            }
        }
        Ok(())
    }

    /// The full ordered catalog, for capability discovery.
    pub fn list<'a>(&'a self) -> (r: &'a Vec<Descriptor>)
        ensures
            r@ == self@,
    {
        &self.items
    }
}

} // verus!
