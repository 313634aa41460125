//! The registry of nested sandboxes: the instances that a guest has created
//! and the memories that it has set up for them, each known by a small number.

use crate::error::Error;
use crate::memory::LinearMemory;
use vstd::prelude::*;

verus! {

/// The status that tells the guest that an operation went well.
pub const ERR_OK: u32 = 0;

/// The status that tells the guest that the module or its environment is not
/// valid.
pub const ERR_MODULE: u32 = 0xffff_ffff;

/// The status that tells the guest that execution failed.
pub const ERR_EXECUTION: u32 = 0xffff_fffe;

/// The status that tells the guest that a range lies outside a memory.
pub const ERR_OUT_OF_BOUNDS: u32 = 0xffff_fffd;

/// The maximum that stands for "no maximum" when a memory is created.
pub const MEM_UNLIMITED: u32 = 0xffff_ffff;

/// A nested instance as the registry knows it.
#[derive(Clone, Copy, Debug, PartialEq, Eq)]
pub struct SandboxInstance {
    /// The slot of the outer instance's function table that holds the
    /// function through which the nested instance calls the host.
    pub dispatch_thunk: u32,
}

/// Why a nested instance could not be created.
#[derive(Clone, Copy, Debug, PartialEq, Eq)]
pub enum InstantiationError {
    /// The description of the environment could not be read.
    EnvironmentDefinitionCorrupted,
    /// The module could not be read.
    ModuleDecodingFailed,
    /// The module could not be linked or started.
    Instantiation,
    /// The start function of the module trapped.
    StartTrapped,
    /// The compiler does not support the module.
    CpuFeature,
}

/// What the environment gives a nested instance under one name.
#[derive(Clone, Copy, Debug, PartialEq, Eq)]
pub enum ExternEntity {
    /// The function of the supervisor with this index.
    Function(u32),
    /// The sandboxed memory with this id.
    Memory(u32),
}

/// One entry of the environment of a nested instance.
#[derive(Debug)]
pub struct EnvironmentEntry {
    pub module_name: Vec<u8>,
    pub field_name: Vec<u8>,
    pub entity: ExternEntity,
}

/// The entries that a sequence of bytes starts with in the serialised form of
/// an environment, if it starts with any: for each entry the two names, the
/// tag of what it gives and the number that goes with the tag.
pub uninterp spec fn decoded_environment(bytes: Seq<u8>) -> Option<
    Seq<(Seq<u8>, Seq<u8>, u8, u32)>,
>;

/// The view of each decoded entry.
pub open spec fn raw_entries(parts: Seq<(Vec<u8>, Vec<u8>, u8, u32)>) -> Seq<
    (Seq<u8>, Seq<u8>, u8, u32),
> {
    Seq::new(parts.len(), |i: int| (parts[i].0@, parts[i].1@, parts[i].2, parts[i].3))
}

/// Calls `parity_scale_codec::Decode::decode` for a vector of tuples of two
/// byte vectors, a byte and a 32-bit number, which reads the vector from the
/// front of the bytes or fails. An entry of a serialised environment is made
/// of just these parts.
#[verifier::external_body]
pub(crate) fn decode_environment(bytes: &[u8]) -> (r: Option<Vec<(Vec<u8>, Vec<u8>, u8, u32)>>)
    ensures
        r.is_some() == decoded_environment(bytes@).is_some(),
        r matches Some(parts) ==> decoded_environment(bytes@) == Some(raw_entries(parts@)),
{
    let mut input = bytes;
    match <Vec<(Vec<u8>, Vec<u8>, u8, u32)> as parity_scale_codec::Decode>::decode(&mut input) {
        Ok(parts) => Some(parts),
        Err(_) => None,
    }
}

/// What an entry with the tag `tag` and the number `number` gives: the tag 1
/// stands for a function, the tag 2 for a memory, and no other tag for
/// anything.
pub open spec fn entity_of(tag: u8, number: u32) -> Option<ExternEntity> {
    if tag == 1 {
        Some(ExternEntity::Function(number))
    } else if tag == 2 {
        Some(ExternEntity::Memory(number))
    } else {
        None
    }
}

/// Whether `entries` are the entries that `parts` stand for.
pub open spec fn entries_of(
    entries: Seq<EnvironmentEntry>,
    parts: Seq<(Seq<u8>, Seq<u8>, u8, u32)>,
) -> bool {
    &&& entries.len() == parts.len()
    &&& forall|i: int|
        0 <= i < entries.len() ==> (#[trigger] entries[i]).module_name@ == parts[i].0
            && entries[i].field_name@ == parts[i].1 && Some(entries[i].entity) == entity_of(
            parts[i].2,
            parts[i].3,
        )
}

/// Whether every one of `parts` has a tag that stands for something.
pub open spec fn tags_known(parts: Seq<(Seq<u8>, Seq<u8>, u8, u32)>) -> bool {
    forall|i: int| 0 <= i < parts.len() ==> entity_of((#[trigger] parts[i]).2, parts[i].3).is_some()
}

fn copy_of(bytes: &Vec<u8>) -> (r: Vec<u8>)
    ensures
        r@ == bytes@,
{
    let mut copy: Vec<u8> = Vec::new();
    let mut i: usize = 0;
    while i < bytes.len()
        invariant
            i <= bytes@.len(),
            copy@ == bytes@.subrange(0, i as int),
        decreases bytes@.len() - i,
    {
        copy.push(bytes[i]);
        assert(copy@ =~= bytes@.subrange(0, i + 1));
        i += 1;
    }
    assert(copy@ =~= bytes@);
    copy
}

/// The entries of an environment for the parts that they were decoded to.
/// There are none where a tag stands for nothing.
pub fn environment_entries(parts: &Vec<(Vec<u8>, Vec<u8>, u8, u32)>) -> (r: Option<
    Vec<EnvironmentEntry>,
>)
    ensures
        r.is_some() == tags_known(raw_entries(parts@)),
        r matches Some(entries) ==> entries_of(entries@, raw_entries(parts@)),
{
    let ghost raw = raw_entries(parts@);
    let mut entries: Vec<EnvironmentEntry> = Vec::new();
    let mut i: usize = 0;
    while i < parts.len()
        invariant
            i <= parts@.len(),
            raw == raw_entries(parts@),
            entries@.len() == i,
            forall|j: int| 0 <= j < i ==> entity_of((#[trigger] raw[j]).2, raw[j].3).is_some(),
            forall|j: int|
                0 <= j < i ==> (#[trigger] entries@[j]).module_name@ == raw[j].0
                    && entries@[j].field_name@ == raw[j].1 && Some(entries@[j].entity) == entity_of(
                    raw[j].2,
                    raw[j].3,
                ),
        decreases parts@.len() - i,
    {
        let part = &parts[i];
        let entity = if part.2 == 1 {
            ExternEntity::Function(part.3)
        } else if part.2 == 2 {
            ExternEntity::Memory(part.3)
        } else {
            assert(entity_of(raw[i as int].2, raw[i as int].3).is_none());
            return None;
        };
        entries.push(
            EnvironmentEntry {
                module_name: copy_of(&part.0),
                field_name: copy_of(&part.1),
                entity,
            },
        );
        i += 1;
    }
    Some(entries)
}

/// Reads the serialised description of an environment. There is none where
/// the bytes do not decode or a tag stands for nothing.
pub fn read_environment(raw_env_def: &[u8]) -> (r: Option<Vec<EnvironmentEntry>>)
    ensures
        r.is_some() == (decoded_environment(raw_env_def@) matches Some(parts) && tags_known(parts)),
        r matches Some(entries) ==> entries_of(entries@, decoded_environment(raw_env_def@).unwrap()),
{
    match decode_environment(raw_env_def) {
        None => None,
        Some(parts) => environment_entries(&parts),
    }
}

/// The state of one slot of the registry.
pub enum Slot {
    /// No instance or memory was ever given this id.
    Unused,
    /// The id stands for a live instance or memory.
    Live,
    /// The instance or memory of this id was torn down.
    TornDown,
}

/// The text of the error for an instance id that was never given out.
pub open spec fn no_such_instance() -> Seq<char> {
    "Trying to access a non-existent instance"@
}

/// The text of the error for the id of an instance that was torn down.
pub open spec fn instance_torn_down() -> Seq<char> {
    "Trying to access a torndown instance"@
}

/// The text of the error for a memory id that was never given out.
pub open spec fn no_such_memory() -> Seq<char> {
    "Trying to access a non-existent sandboxed memory"@
}

/// The text of the error for the id of a memory that was torn down.
pub open spec fn memory_torn_down() -> Seq<char> {
    "Trying to access a torndown sandboxed memory"@
}

/// The text of the error for a teardown of an id that was never given out.
pub open spec fn teardown_of_nothing() -> Seq<char> {
    "Trying to teardown a non-existent instance or memory"@
}

/// The text of the error for a second teardown of one id.
pub open spec fn double_teardown() -> Seq<char> {
    "Double teardown of an instance or memory"@
}

/// The text of the error for a memory that cannot be created.
pub open spec fn memory_not_created() -> Seq<char> {
    "Sandboxed memory cannot be created with these limits"@
}

/// The registry of the nested instances and sandboxed memories of one call.
pub struct Store {
    instances: Vec<Option<SandboxInstance>>,
    memories: Vec<Option<LinearMemory>>,
}

impl Store {
    /// The instances by id; `None` for one that was torn down.
    pub closed spec fn instances(&self) -> Seq<Option<SandboxInstance>> {
        self.instances@
    }

    /// The memories by id; `None` for one that was torn down.
    pub closed spec fn memories(&self) -> Seq<Option<LinearMemory>> {
        self.memories@
    }

    /// Every id fits in 32 bits and every live memory is well formed.
    pub open spec fn wf(&self) -> bool {
        &&& self.instances().len() <= u32::MAX
        &&& self.memories().len() <= u32::MAX
        &&& forall|i: int|
            0 <= i < self.memories().len() ==> (#[trigger] self.memories()[i] matches Some(m)
                ==> m.wf())
    }

    /// The state of the instance id `id`.
    pub open spec fn instance_slot(&self, id: u32) -> Slot {
        if id >= self.instances().len() {
            Slot::Unused
        } else if self.instances()[id as int].is_some() {
            Slot::Live
        } else {
            Slot::TornDown
        }
    }

    /// The state of the memory id `id`.
    pub open spec fn memory_slot(&self, id: u32) -> Slot {
        if id >= self.memories().len() {
            Slot::Unused
        } else if self.memories()[id as int].is_some() {
            Slot::Live
        } else {
            Slot::TornDown
        }
    }

    /// A registry without instances and memories.
    pub fn new() -> (r: Store)
        ensures
            r.wf(),
            r.instances().len() == 0,
            r.memories().len() == 0,
    {
        Store { instances: Vec::new(), memories: Vec::new() }
    }

    /// Registers a nested instance and returns its id, the number of ids given
    /// out before. There is no id left once 2^32 - 1 were given out.
    pub fn register_instance(&mut self, instance: SandboxInstance) -> (r: Option<u32>)
        requires
            old(self).wf(),
        ensures
            final(self).wf(),
            final(self).memories() == old(self).memories(),
            r.is_some() == (old(self).instances().len() < u32::MAX),
            r matches Some(id) ==> id == old(self).instances().len() && final(self).instances()
                == old(self).instances().push(Some(instance)),
            r.is_none() ==> final(self).instances() == old(self).instances(),
    {
        if self.instances.len() >= u32::MAX as usize {
            return None;
        }
        let id: u32 = self.instances.len() as u32;
        self.instances.push(Some(instance));
        Some(id)
    }

    /// The live instance with the id `id`.
    pub fn instance(&self, id: u32) -> (r: Result<SandboxInstance, Error>)
        ensures
            match self.instance_slot(id) {
                Slot::Live => r == Ok::<_, Error>(self.instances()[id as int].unwrap()),
                Slot::Unused => r matches Err(e) && e.is_other(no_such_instance()),
                Slot::TornDown => r matches Err(e) && e.is_other(instance_torn_down()),
            },
    {
        if id as usize >= self.instances.len() {
            return Err(Error::Other("Trying to access a non-existent instance".to_owned()));
        }
        match self.instances[id as usize] {
            Some(instance) => Ok(instance),
            None => Err(Error::Other("Trying to access a torndown instance".to_owned())),
        }
    }

    /// The dispatch thunk of the live instance with the id `id`.
    pub fn dispatch_thunk(&self, id: u32) -> (r: Result<u32, Error>)
        ensures
            match self.instance_slot(id) {
                Slot::Live => r == Ok::<_, Error>(
                    self.instances()[id as int].unwrap().dispatch_thunk,
                ),
                Slot::Unused => r matches Err(e) && e.is_other(no_such_instance()),
                Slot::TornDown => r matches Err(e) && e.is_other(instance_torn_down()),
            },
    {
        match self.instance(id) {
            Ok(instance) => Ok(instance.dispatch_thunk),
            Err(e) => Err(e),
        }
    }

    /// Tears the instance with the id `id` down. Its id is not given out
    /// again.
    pub fn instance_teardown(&mut self, id: u32) -> (r: Result<(), Error>)
        requires
            old(self).wf(),
        ensures
            final(self).wf(),
            final(self).memories() == old(self).memories(),
            match old(self).instance_slot(id) {
                Slot::Live => r.is_ok() && final(self).instances() == old(self).instances().update(
                    id as int,
                    None,
                ),
                Slot::Unused => final(self).instances() == old(self).instances() && (r matches Err(
                    e,
                ) && e.is_other(teardown_of_nothing())),
                Slot::TornDown => final(self).instances() == old(self).instances() && (
                r matches Err(e) && e.is_other(double_teardown())),
            },
    {
        if id as usize >= self.instances.len() {
            return Err(
                Error::Other("Trying to teardown a non-existent instance or memory".to_owned()),
            );
        }
        if self.instances[id as usize].is_none() {
            return Err(Error::Other("Double teardown of an instance or memory".to_owned()));
        }
        self.instances[id as usize] = None;
        Ok(())
    }

    /// Creates a sandboxed memory of `initial` zeroed pages that may grow up to
    /// `maximum` pages, where `MEM_UNLIMITED` stands for no maximum, and
    /// returns its id, the number of ids given out before.
    pub fn new_memory(&mut self, initial: u32, maximum: u32) -> (r: Result<u32, Error>)
        requires
            old(self).wf(),
        ensures
            final(self).wf(),
            final(self).instances() == old(self).instances(),
            r.is_ok() == (old(self).memories().len() < u32::MAX && initial
                <= crate::memory::page_limit(declared_maximum(maximum))),
            r matches Ok(id) ==> {
                &&& id == old(self).memories().len()
                &&& final(self).memories().len() == old(self).memories().len() + 1
                &&& final(self).memories().subrange(0, id as int) == old(self).memories()
                &&& final(self).memories()[id as int] matches Some(m) && m@
                    == crate::memory::zeros((initial * 65536) as nat) && m.spec_maximum()
                    == declared_maximum(maximum)
            },
            r matches Err(e) ==> final(self).memories() == old(self).memories() && e.is_other(
                memory_not_created(),
            ),
    {
        let limit: Option<u32> = if maximum == MEM_UNLIMITED {
            None
        } else {
            Some(maximum)
        };
        if self.memories.len() >= u32::MAX as usize {
            return Err(
                Error::Other("Sandboxed memory cannot be created with these limits".to_owned()),
            );
        }
        match LinearMemory::new(initial, limit) {
            None => Err(
                Error::Other("Sandboxed memory cannot be created with these limits".to_owned()),
            ),
            Some(memory) => {
                let id: u32 = self.memories.len() as u32;
                let ghost before = self.memories@;
                self.memories.push(Some(memory));
                assert(self.memories@.subrange(0, id as int) =~= before);
                Ok(id)
            },
        }
    }

    /// Whether `id` stands for a live memory; the error that tells why not
    /// otherwise.
    pub fn check_memory(&self, id: u32) -> (r: Result<(), Error>)
        ensures
            match self.memory_slot(id) {
                Slot::Live => r.is_ok(),
                Slot::Unused => r matches Err(e) && e.is_other(no_such_memory()),
                Slot::TornDown => r matches Err(e) && e.is_other(memory_torn_down()),
            },
    {
        if id as usize >= self.memories.len() {
            return Err(
                Error::Other("Trying to access a non-existent sandboxed memory".to_owned()),
            );
        }
        match &self.memories[id as usize] {
            Some(_) => Ok(()),
            None => Err(Error::Other("Trying to access a torndown sandboxed memory".to_owned())),
        }
    }

    /// Reads `size` bytes of the live memory `id` from `address` on. Fails
    /// where the range does not lie within the memory.
    pub fn memory_read(&self, id: u32, address: u32, size: usize) -> (r: Result<Vec<u8>, Error>)
        requires
            self.wf(),
            self.memory_slot(id) is Live,
        ensures
            ({
                let m = self.memories()[id as int].unwrap();
                &&& r.is_ok() == (address + size <= m@.len())
                &&& r matches Ok(buffer) ==> buffer@ == m@.subrange(address as int, address + size)
            }),
    {
        match &self.memories[id as usize] {
            Some(memory) => memory.read(address, size),
            None => {
                proof {
                    assert(false);
                }
                Ok(Vec::new())
            },
        }
    }

    /// Writes `data` into the live memory `id` from `address` on. Fails,
    /// changing nothing, where the range does not lie within the memory.
    pub fn memory_write(&mut self, id: u32, address: u32, data: &[u8]) -> (r: Result<(), Error>)
        requires
            old(self).wf(),
            old(self).memory_slot(id) is Live,
        ensures
            final(self).wf(),
            final(self).instances() == old(self).instances(),
            final(self).memories().len() == old(self).memories().len(),
            forall|i: int|
                0 <= i < old(self).memories().len() && i != id ==> final(self).memories()[i]
                    == old(self).memories()[i],
            ({
                let before = old(self).memories()[id as int].unwrap();
                &&& final(self).memories()[id as int] matches Some(after) && after.spec_maximum()
                    == before.spec_maximum() && (r.is_ok() ==> after@ == crate::util::written(
                    before@,
                    address as int,
                    data@,
                )) && (r.is_err() ==> after@ == before@)
                &&& r.is_ok() == (address + data@.len() <= before@.len())
            }),
    {
        match &mut self.memories[id as usize] {
            Some(memory) => memory.write_from(address, data),
            None => {
                proof {
                    assert(false);
                }
                Ok(())
            },
        }
    }

    /// Tears the memory with the id `id` down. Its id is not given out again.
    pub fn memory_teardown(&mut self, id: u32) -> (r: Result<(), Error>)
        requires
            old(self).wf(),
        ensures
            final(self).wf(),
            final(self).instances() == old(self).instances(),
            match old(self).memory_slot(id) {
                Slot::Live => r.is_ok() && final(self).memories() == old(self).memories().update(
                    id as int,
                    None,
                ),
                Slot::Unused => final(self).memories() == old(self).memories() && (r matches Err(
                    e,
                ) && e.is_other(teardown_of_nothing())),
                Slot::TornDown => final(self).memories() == old(self).memories() && (
                r matches Err(e) && e.is_other(double_teardown())),
            },
    {
        if id as usize >= self.memories.len() {
            return Err(
                Error::Other("Trying to teardown a non-existent instance or memory".to_owned()),
            );
        }
        if self.memories[id as usize].is_none() {
            return Err(Error::Other("Double teardown of an instance or memory".to_owned()));
        }
        self.memories[id as usize] = None;
        Ok(())
    }

    /// Checks the environment that the guest describes for a nested instance:
    /// every memory that it names has to be live. The first entry that names a
    /// memory id never given out makes the module invalid; the first that names
    /// a memory torn down makes the description corrupt.
    pub fn check_environment(&self, entries: &Vec<EnvironmentEntry>) -> (r: Result<
        (),
        InstantiationError,
    >)
        ensures
            r.is_ok() == (forall|i: int|
                0 <= i < entries@.len() ==> self.entry_usable(#[trigger] entries@[i])),
            forall|i: int|
                0 <= i < entries@.len() && !self.entry_usable(entries@[i]) && (forall|j: int|
                    0 <= j < i ==> self.entry_usable(#[trigger] entries@[j])) ==> r == Err::<(), _>(
                    self.entry_error(entries@[i]),
                ),
    {
        let mut i: usize = 0;
        while i < entries.len()
            invariant
                i <= entries@.len(),
                forall|j: int| 0 <= j < i ==> self.entry_usable(#[trigger] entries@[j]),
            decreases entries@.len() - i,
        {
            match entries[i].entity {
                ExternEntity::Function(_) => {},
                ExternEntity::Memory(id) => {
                    if id as usize >= self.memories.len() {
                        return Err(InstantiationError::ModuleDecodingFailed);
                    }
                    if self.memories[id as usize].is_none() {
                        return Err(InstantiationError::EnvironmentDefinitionCorrupted);
                    }
                },
            }
            i += 1;
        }
        Ok(())
    }

    /// Whether the environment may hold `entry`.
    pub open spec fn entry_usable(&self, entry: EnvironmentEntry) -> bool {
        entry.entity matches ExternEntity::Memory(id) ==> self.memory_slot(id) is Live
    }

    /// Why the environment may not hold `entry`.
    pub open spec fn entry_error(&self, entry: EnvironmentEntry) -> InstantiationError
        recommends
            !self.entry_usable(entry),
    {
        match entry.entity {
            ExternEntity::Memory(id) => if self.memory_slot(id) is Unused {
                InstantiationError::ModuleDecodingFailed
            } else {
                InstantiationError::EnvironmentDefinitionCorrupted
            },
            ExternEntity::Function(_) => arbitrary(),
        }
    }
}

/// The maximum of a memory created with the argument `maximum`.
pub open spec fn declared_maximum(maximum: u32) -> Option<u32> {
    if maximum == MEM_UNLIMITED {
        None
    } else {
        Some(maximum)
    }
}

} // verus!
