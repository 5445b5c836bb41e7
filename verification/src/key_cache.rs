//! The credential store's per-key bookkeeping: the on-disk key descriptor,
//! the in-memory key cache entry with its descriptor geometry, and the
//! small-data pool accounting. The store itself lives outside this crate;
//! these types describe where a key's record sits and how much room a small
//! pool has left.

use vstd::prelude::*;

verus! {

/// Bytes a key name may occupy: pads the descriptor record to exactly
/// [`DK_STRIDE`] bytes.
pub const KEY_NAME_LEN: usize = 95;

/// Bytes of one descriptor slot in the dictionary region.
pub const DK_STRIDE: usize = 127;

/// Bytes of one virtual page of store data.
pub const VPAGE_SIZE: usize = 4064;

/// Largest record the small-data pool stores; one pool spans one vpage.
pub const SMALL_CAPACITY: usize = VPAGE_SIZE;

/// Flag word of a key record. Only bit 0 is assigned: the record is valid.
#[derive(Copy, Clone, Debug, PartialEq, Eq, Structural)]
pub struct KeyFlags(pub u32);

impl KeyFlags {
    /// Bit 0 of the flag word.
    pub open spec fn spec_valid(&self) -> bool {
        self.0 & 1 == 1
    }

    /// Whether the record is valid.
    pub fn valid(&self) -> (r: bool)
        ensures
            r == self.spec_valid(),
    {
        self.0 & 1 == 1
    }

    /// Sets or clears the valid bit, leaving every other bit alone.
    pub fn set_valid(&mut self, v: bool)
        ensures
            final(self).0 == (if v {
                old(self).0 | 1
            } else {
                old(self).0 & 0xffff_fffe
            }),
            final(self).spec_valid() == v,
    {
        let ghost w = self.0;
        if v {
            self.0 = self.0 | 1;
            proof {
                assert((w | 1) & 1 == 1) by (bit_vector);
            }
        } else {
            self.0 = self.0 & 0xffff_fffe;
            proof {
                assert((w & 0xffff_fffe) & 1 == 0) by (bit_vector);
            }
        }
    }
}

/// On-disk shape of a key record: placement, reservation, flags, age and the
/// padded name field.
pub struct KeyDescriptor {
    /// Virtual address of the key's start.
    pub start: u64,
    /// Length of the key's stored data.
    pub len: u64,
    /// Space reserved for the key; at least `len`.
    pub reserved: u64,
    /// Flags on the record entry.
    pub flags: KeyFlags,
    /// Access count of the key.
    pub age: u32,
    /// Name, zero-padded to fill the record.
    pub name: [u8; KEY_NAME_LEN],
}

impl Default for KeyDescriptor {
    /// The all-zero record: unplaced, unreserved, invalid, unnamed.
    fn default() -> (r: KeyDescriptor)
        ensures
            r.start == 0,
            r.len == 0,
            r.reserved == 0,
            r.flags == (KeyFlags(0)),
            r.age == 0,
            forall|i: int| 0 <= i < KEY_NAME_LEN ==> r.name@[i] == 0,
    {
        KeyDescriptor {
            start: 0,
            len: 0,
            reserved: 0,
            flags: KeyFlags(0),
            age: 0,
            name: [0; KEY_NAME_LEN],
        }
    }
}

/// A cached copy of a small key's full contents.
pub struct KeySmallData {
    pub clean: bool,
    pub data: Vec<u8>,
}

/// A cached portion of a large key's contents.
pub struct KeyLargeData {
    pub clean: bool,
    pub start: u64,
    pub data: Vec<u8>,
}

/// Cached key data, in its small or large representation.
pub enum KeyCacheData {
    Small(KeySmallData),
    Large(KeyLargeData),
}

/// The in-memory record of one key: the descriptor fields plus cache state.
pub struct KeyCacheEntry {
    pub start: u64,
    pub len: u64,
    pub reserved: u64,
    pub flags: KeyFlags,
    pub age: u32,
    /// On-disk index of the record: slot 0 holds the dictionary descriptor,
    /// slot 1 the first key, so a key's index is never zero.
    pub descriptor_index: u32,
    /// Whether the cached descriptor matches what is on disk.
    pub clean: bool,
    /// The key's data, if cached; otherwise the disk holds it.
    pub data: Option<KeyCacheData>,
}

impl KeyCacheEntry {
    /// Slots one vpage holds.
    pub open spec fn slots_per_vpage() -> int {
        VPAGE_SIZE as int / DK_STRIDE as int
    }

    /// The starting virtual address of this key's descriptor, given the base
    /// of the dictionary that owns it.
    pub fn descriptor_vaddr(&self, dict_offset: u64) -> (r: u64)
        requires
            dict_offset >= 1,
            dict_offset + (self.descriptor_index + 1) * DK_STRIDE <= u64::MAX,
        ensures
            r == dict_offset + (self.descriptor_index + 1) * DK_STRIDE,
            r != 0,
    {
        dict_offset + (self.descriptor_index as u64 + 1) * (DK_STRIDE as u64)
    }

    /// The slot of this descriptor within its vpage.
    pub fn descriptor_modulus(&self) -> (r: usize)
        ensures
            r == (self.descriptor_index + 1) as int % Self::slots_per_vpage(),
    {
        (((self.descriptor_index as u64) + 1) % ((VPAGE_SIZE / DK_STRIDE) as u64)) as usize
    }

    /// The vpage of this descriptor, counted from the start of the
    /// dictionary's storage region.
    pub fn descriptor_vpage_num(&self) -> (r: usize)
        ensures
            r == (self.descriptor_index + 1) as int / Self::slots_per_vpage(),
    {
        (((self.descriptor_index as u64) + 1) / ((VPAGE_SIZE / DK_STRIDE) as u64)) as usize
    }
}

/// Accounting for one pool of small key records: which keys sit in it and
/// how much room is left. The store's dictionary layer owns the pools and
/// does the actual placement; the pool itself only reports its room.
pub struct KeySmallPool {
    /// Names of the keys stored in this pool; the dictionary layer resolves
    /// them to their records.
    pub contents: Vec<String>,
    /// Room left in the pool, kept current so placement queries need no
    /// walk over the contents.
    pub avail: u16,
    /// Whether the pool's on-disk image matches this accounting.
    pub clean: bool,
}

impl KeySmallPool {
    /// An empty, clean pool with the full capacity to give.
    pub fn new() -> (r: KeySmallPool)
        ensures
            r.contents@.len() == 0,
            r.avail == SMALL_CAPACITY as u16,
            r.clean,
    {
        KeySmallPool { contents: Vec::new(), avail: SMALL_CAPACITY as u16, clean: true }
    }

    /// Whether `data` was fitted into this pool. Placement goes through the
    /// dictionary layer, which updates `contents` and `avail` itself; the
    /// pool admits no key through this entry point, so the answer is always
    /// that the key was not fitted.
    #[allow(unused_variables)]
    pub fn try_insert_key(&self, data: &KeyCacheEntry, capacity_hint: Option<usize>) -> (r:
        bool)
        ensures
            r == false,
    {
        false
    }

    /// Tries to update a key held in this pool with new data, handing back
    /// the name of a key evicted for room. As with
    /// [`KeySmallPool::try_insert_key`], placement goes through the
    /// dictionary layer, so nothing is updated and nothing is evicted.
    #[allow(unused_variables)]
    pub fn try_update_key(&self, data: &KeyCacheEntry, capacity_hint: Option<usize>) -> (r:
        Option<String>)
        ensures
            r is None,
    {
        None
    }

    /// Removal notice for a key of this pool. The dictionary layer adjusts
    /// `contents` and `avail` when it moves keys; the pool keeps no other
    /// per-key accounting, so there is nothing to update here.
    #[allow(unused_variables)]
    pub fn delete_key(&self, data: &KeyCacheEntry) {
    }

    /// The room left in the pool, in bytes.
    pub fn free(&self) -> (r: usize)
        ensures
            r == self.avail as usize,
    {
        self.avail as usize
    }
}

/// Pool bookkeeping for a most-room-first ordering: pools compare by room
/// alone, never by position.
#[derive(Eq)]
pub struct KeySmallPoolOrd {
    pub avail: u16,
    pub index: usize,
}

impl PartialEq for KeySmallPoolOrd {
    fn eq(&self, other: &Self) -> (r: bool) {
        self.avail == other.avail
    }
}

impl vstd::std_specs::cmp::PartialEqSpecImpl for KeySmallPoolOrd {
    open spec fn obeys_eq_spec() -> bool {
        true
    }

    open spec fn eq_spec(&self, other: &Self) -> bool {
        self.avail == other.avail
    }
}

impl PartialOrd for KeySmallPoolOrd {
    fn partial_cmp(&self, other: &Self) -> (r: Option<core::cmp::Ordering>) {
        if self.avail < other.avail {
            Some(core::cmp::Ordering::Less)
        } else if self.avail == other.avail {
            Some(core::cmp::Ordering::Equal)
        } else {
            Some(core::cmp::Ordering::Greater)
        }
    }
}

impl vstd::std_specs::cmp::PartialOrdSpecImpl for KeySmallPoolOrd {
    open spec fn obeys_partial_cmp_spec() -> bool {
        true
    }

    open spec fn partial_cmp_spec(&self, other: &Self) -> Option<core::cmp::Ordering> {
        if self.avail < other.avail {
            Some(core::cmp::Ordering::Less)
        } else if self.avail == other.avail {
            Some(core::cmp::Ordering::Equal)
        } else {
            Some(core::cmp::Ordering::Greater)
        }
    }
}

} // verus!
