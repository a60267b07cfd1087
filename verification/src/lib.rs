//! A skeletal data model for a celestial-mechanics simulation: stars, planets,
//! asteroids and artificial bodies, each described by mass, orbit, rotation and
//! derived physical properties.
//!
//! Unless otherwise specified the unit of distance is the meter, the unit of
//! time is the second, and the unit of mass is the kilogram. Derived lengths
//! are reported in micrometers and derived speeds in micrometers per second,
//! so that they can be held exactly in integers.

pub mod automata;
pub mod big;
pub mod entity;
pub mod mineable;
pub mod orbit;
pub mod physics;
pub mod planet;
pub mod star_stat;

use vstd::prelude::*;

verus! {

/// The number of distinct values a 56-bit sequence may take; a valid sequence
/// lies strictly below it.
pub const SEQUENCE_LIMIT: u64 = 0x0100_0000_0000_0000;

/// Mask selecting the low 56 bits of a handle, where the sequence lives.
pub const SEQUENCE_MASK: u64 = 0x00FF_FFFF_FFFF_FFFF;

/// The category of a simulated entity, stored in the high byte of an
/// [`EntityId`].
#[derive(Debug, Clone, Copy, PartialEq, Eq, Structural)]
pub enum EntityType {
    /// A star
    Star,
    /// A planet
    Planet,
    /// An asteroid or other small body
    Asteroid,
    /// A spacecraft or other artificial object
    Manmade,
}

/// The byte value that stands for each category in a packed handle.
pub open spec fn type_repr(t: EntityType) -> u8 {
    match t {
        EntityType::Star => 0,
        EntityType::Planet => 1,
        EntityType::Asteroid => 2,
        EntityType::Manmade => 3,
    }
}

/// The category a byte stands for, if any: only the four known tags decode.
pub open spec fn type_of_repr(b: u8) -> Option<EntityType> {
    if b == 0 {
        Some(EntityType::Star)
    } else if b == 1 {
        Some(EntityType::Planet)
    } else if b == 2 {
        Some(EntityType::Asteroid)
    } else if b == 3 {
        Some(EntityType::Manmade)
    } else {
        None
    }
}

impl EntityType {
    /// The byte this category is packed as.
    pub fn as_repr(&self) -> (r: u8)
        ensures
            r == type_repr(*self),
    {
        match self {
            EntityType::Star => 0,
            EntityType::Planet => 1,
            EntityType::Asteroid => 2,
            EntityType::Manmade => 3,
        }
    }

    /// Decodes a byte back into a category; `None` for any byte that is not
    /// one of the four known tags.
    pub fn from_repr(b: u8) -> (r: Option<EntityType>)
        ensures
            r == type_of_repr(b),
    {
        if b == 0 {
            Some(EntityType::Star)
        } else if b == 1 {
            Some(EntityType::Planet)
        } else if b == 2 {
            Some(EntityType::Asteroid)
        } else if b == 3 {
            Some(EntityType::Manmade)
        } else {
            None
        }
    }
}

/// The typed failure raised when a handle's high byte does not name any known
/// category: the handle is corrupted or foreign and is never silently coerced
/// to a default category.
#[derive(Debug, Clone, Copy, PartialEq, Eq, Structural)]
pub struct MalformedHandle {
    /// The unrecognized high byte of the offending handle.
    pub category_byte: u8,
}

/// A packed 64-bit identifier for a simulated entity: the category tag in the
/// most significant byte and an application-assigned sequence number in the
/// low 56 bits.
#[derive(Debug, Clone, Copy, PartialEq, Eq, Structural)]
pub struct EntityId {
    inner: u64,
}

impl EntityId {
    /// The low 56 bits of the packed handle: the sequence number.
    pub closed spec fn spec_sequence(self) -> u64 {
        self.inner & SEQUENCE_MASK
    }

    /// The high byte of the packed handle: the category tag.
    pub closed spec fn spec_category_byte(self) -> u8 {
        (self.inner >> 56) as u8
    }

    /// The handle that packing a sequence with a category produces: the
    /// category byte shifted into the most significant byte, the sequence in
    /// the low 56 bits.
    pub closed spec fn spec_encode(id: u64, t: EntityType) -> EntityId {
        EntityId { inner: id | (type_repr(t) as u64) << 56 }
    }

    /// Packs `id` and `entity_type` into a single handle. The sequence must
    /// fit in 56 bits so that it cannot overlap the category byte; see
    /// [`EntityId::try_new`] for the checked form.
    pub fn new(id: u64, entity_type: EntityType) -> (r: Self)
        requires
            id < SEQUENCE_LIMIT,
        ensures
            r == EntityId::spec_encode(id, entity_type),
            r.spec_sequence() == id,
            r.spec_category_byte() == type_repr(entity_type),
    {
        let t: u64 = entity_type.as_repr() as u64;
        let inner: u64 = id | t << 56;
        proof {
            assert(inner & 0x00FF_FFFF_FFFF_FFFFu64 == id && ((inner >> 56) as u8) == t as u8)
                by (bit_vector)
                requires
                    inner == id | t << 56,
                    id < 0x0100_0000_0000_0000u64,
                    t < 256,
            ;
        }
        Self { inner }
    }

    /// Checked construction: packs `id` and `entity_type` when the sequence
    /// fits in 56 bits, and rejects it otherwise instead of letting it corrupt
    /// the category byte.
    pub fn try_new(id: u64, entity_type: EntityType) -> (r: Option<Self>)
        ensures
            id < SEQUENCE_LIMIT <==> r is Some,
            id < SEQUENCE_LIMIT ==> {
                &&& r->Some_0.spec_sequence() == id
                &&& r->Some_0.spec_category_byte() == type_repr(entity_type)
            },
    {
        if id < SEQUENCE_LIMIT {
            Some(Self::new(id, entity_type))
        } else {
            None
        }
    }

    /// Rebuilds a handle from its raw 64-bit value, as received from an
    /// outside collaborator; nothing is validated here, so decoding the
    /// category may later fail with [`MalformedHandle`].
    pub fn from_raw(raw: u64) -> (r: Self)
        ensures
            r.spec_raw() == raw,
            r.spec_sequence() == raw & SEQUENCE_MASK,
            r.spec_category_byte() == (raw >> 56) as u8,
    {
        Self { inner: raw }
    }

    /// The raw 64-bit value of the handle.
    pub closed spec fn spec_raw(self) -> u64 {
        self.inner
    }

    /// The raw 64-bit value of the handle, for storage or comparison by an
    /// outside collaborator.
    pub fn raw(&self) -> (r: u64)
        ensures
            r == self.spec_raw(),
    {
        self.inner
    }

    /// The sequence number: the low 56 bits of the handle.
    pub fn id(&self) -> (r: u64)
        ensures
            r == self.spec_sequence(),
    {
        self.inner & SEQUENCE_MASK
    }

    /// The category tag: the high byte of the handle, decoded into the closed
    /// enumeration. Fails with [`MalformedHandle`] exactly when the byte does
    /// not name one of the four known categories.
    pub fn entity_type(&self) -> (r: Result<EntityType, MalformedHandle>)
        ensures
            match r {
                Ok(t) => type_of_repr(self.spec_category_byte()) == Some(t),
                Err(e) => {
                    &&& type_of_repr(self.spec_category_byte()) is None
                    &&& e.category_byte == self.spec_category_byte()
                },
            },
    {
        let b: u8 = (self.inner >> 56) as u8;
        match EntityType::from_repr(b) {
            Some(t) => Ok(t),
            None => Err(MalformedHandle { category_byte: b }),
        }
    }
}

/// The round trip of the identity encoder: packing any 56-bit sequence with
/// any of the four categories and unpacking the result reproduces both
/// exactly; in particular the category byte is never corrupted, not even by
/// the largest representable sequence.
pub proof fn lemma_handle_round_trip(id: u64, entity_type: EntityType)
    requires
        id < SEQUENCE_LIMIT,
    ensures
        EntityId::spec_encode(id, entity_type).spec_sequence() == id,
        type_of_repr(EntityId::spec_encode(id, entity_type).spec_category_byte()) == Some(
            entity_type,
        ),
{
    let t: u64 = type_repr(entity_type) as u64;
    let inner: u64 = id | t << 56;
    assert(inner & 0x00FF_FFFF_FFFF_FFFFu64 == id && ((inner >> 56) as u8) == t as u8)
        by (bit_vector)
        requires
            inner == id | t << 56,
            id < 0x0100_0000_0000_0000u64,
            t < 256,
    ;
}

} // verus!
