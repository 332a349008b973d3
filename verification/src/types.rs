//! The identity types of the protocol: numeric IDs for message types and
//! senders, the namespace tags that say who assigned a number, the
//! byte-string names that are the stable cross-process identity, and the
//! advisory class-of-service flags.

use vstd::prelude::*;
use crate::constants;

verus! {

/// The raw integer wrapped by the various ID types.
pub type IdType = i32;

/// A typed wrapper around a raw numeric ID.
pub trait TypeSafeId: Sized + Copy {
    /// The raw ID this value wraps.
    spec fn id_spec(&self) -> IdType;

    fn get(&self) -> (r: IdType)
        ensures
            r == self.id_spec(),
    ;

    fn new(val: IdType) -> (r: Self)
        ensures
            r.id_spec() == val,
    ;
}

/// Marks an ID category with the name type that identifies its entities
/// across processes.
pub trait BaseTypeSafeIdName {
    type Name;
}

/// An ID category of the protocol itself (message type or sender), as
/// opposed to a namespace-tagged wrapper around one.
pub trait BaseTypeSafeId: TypeSafeId + BaseTypeSafeIdName {
    /// The reserved system message type that announces an ID of this
    /// category to the peer.
    spec fn description_type_spec() -> TypeId;

    fn description_type() -> (r: TypeId)
        ensures
            r == Self::description_type_spec(),
    ;
}

/// Anything that can be stripped down to a base ID.
pub trait IntoId: TypeSafeId {
    /// Self in the case of a base ID, otherwise the wrapped base type.
    type BaseId: BaseTypeSafeId;

    /// The base ID this value stands for.
    spec fn into_id_spec(self) -> Self::BaseId;

    fn into_id(self) -> (r: Self::BaseId)
        ensures
            r == self.into_id_spec(),
    ;
}

/// ID for a message type.
#[derive(Debug, Clone, Copy, Eq, PartialEq, Ord, PartialOrd, Hash, Structural)]
pub struct TypeId(pub IdType);

/// ID for a sender.
#[derive(Debug, Clone, Copy, Eq, PartialEq, Ord, PartialOrd, Hash, Structural)]
pub struct SenderId(pub IdType);

/// An ID as this side's own translation table numbers it.
#[derive(Debug, Clone, Copy, Eq, PartialEq, Ord, PartialOrd, Hash)]
pub struct LocalId<T: BaseTypeSafeId>(pub T);

/// An ID as the peer numbers it.
#[derive(Debug, Clone, Copy, Eq, PartialEq, Ord, PartialOrd, Hash)]
pub struct RemoteId<T: BaseTypeSafeId>(pub T);

impl TypeSafeId for TypeId {
    open spec fn id_spec(&self) -> IdType {
        self.0
    }

    fn get(&self) -> IdType {
        self.0
    }

    fn new(val: IdType) -> TypeId {
        TypeId(val)
    }
}

impl BaseTypeSafeIdName for TypeId {
    type Name = TypeName;
}

impl BaseTypeSafeId for TypeId {
    open spec fn description_type_spec() -> TypeId {
        TypeId(constants::TYPE_DESCRIPTION_ID)
    }

    fn description_type() -> TypeId {
        TypeId(constants::TYPE_DESCRIPTION_ID)
    }
}

impl TypeId {
    /// True when this ID denotes a reserved protocol-infrastructure
    /// ("system") message type rather than a user message type.
    pub fn is_system_message(&self) -> (r: bool)
        ensures
            r == (self.0 < 0),
    {
        self.0 < 0
    }
}

impl TypeSafeId for SenderId {
    open spec fn id_spec(&self) -> IdType {
        self.0
    }

    fn get(&self) -> IdType {
        self.0
    }

    fn new(val: IdType) -> SenderId {
        SenderId(val)
    }
}

impl BaseTypeSafeIdName for SenderId {
    type Name = SenderName;
}

impl BaseTypeSafeId for SenderId {
    open spec fn description_type_spec() -> TypeId {
        TypeId(constants::SENDER_DESCRIPTION_ID)
    }

    fn description_type() -> TypeId {
        TypeId(constants::SENDER_DESCRIPTION_ID)
    }
}

impl<T: BaseTypeSafeId> TypeSafeId for LocalId<T> {
    open spec fn id_spec(&self) -> IdType {
        self.0.id_spec()
    }

    fn get(&self) -> IdType {
        self.0.get()
    }

    fn new(val: IdType) -> LocalId<T> {
        LocalId(T::new(val))
    }
}

impl<T: BaseTypeSafeId> TypeSafeId for RemoteId<T> {
    open spec fn id_spec(&self) -> IdType {
        self.0.id_spec()
    }

    fn get(&self) -> IdType {
        self.0.get()
    }

    fn new(val: IdType) -> RemoteId<T> {
        RemoteId(T::new(val))
    }
}

impl<T: BaseTypeSafeId> IntoId for T {
    type BaseId = T;

    open spec fn into_id_spec(self) -> T {
        self
    }

    fn into_id(self) -> T {
        self
    }
}

impl<T: BaseTypeSafeId> IntoId for LocalId<T> {
    type BaseId = T;

    open spec fn into_id_spec(self) -> T {
        self.0
    }

    fn into_id(self) -> T {
        self.0
    }
}

impl<T: BaseTypeSafeId> IntoId for RemoteId<T> {
    type BaseId = T;

    open spec fn into_id_spec(self) -> T {
        self.0
    }

    fn into_id(self) -> T {
        self.0
    }
}

/// What an optional dispatch filter says of an ID: `None` matches anything,
/// `Some(x)` matches exactly `x`.
pub open spec fn id_filter_matches_spec<T: TypeSafeId>(filter: Option<T>, other: T) -> bool {
    match filter {
        None => true,
        Some(i) => i.id_spec() == other.id_spec(),
    }
}

/// The building block of wildcard vs. exact-match dispatch filters.
pub fn id_filter_matches<T: TypeSafeId>(filter: Option<T>, other: T) -> (r: bool)
    ensures
        r == id_filter_matches_spec(filter, other),
{
    match filter {
        None => true,
        Some(i) => i.get() == other.get(),
    }
}

/// Where a raw ID falls relative to a dense translation array of the given
/// length.
#[derive(Debug, Clone, Copy, Eq, PartialEq, Hash, Structural)]
pub enum RangedId {
    BelowZero(IdType),
    InArray(IdType),
    AboveArray(IdType),
}

/// Categorizes an ID as below the array (a system ID), an index into the
/// array, or past its end. Callers decide which of the variants are errors.
pub(crate) fn determine_id_range<T: BaseTypeSafeId>(id: T, len: usize) -> (r: RangedId)
    ensures
        id.id_spec() < 0 ==> r == RangedId::BelowZero(id.id_spec()),
        0 <= id.id_spec() && id.id_spec() < len ==> r == RangedId::InArray(id.id_spec()),
        id.id_spec() >= 0 && id.id_spec() >= len ==> r == RangedId::AboveArray(id.id_spec()),
{
    let raw = id.get();
    if raw < 0 {
        RangedId::BelowZero(raw)
    } else {
        let index = raw as usize;
        if index < len {
            RangedId::InArray(raw)
        } else {
            RangedId::AboveArray(raw)
        }
    }
}

/// The name of a sender known at compile time.
#[derive(Debug, Clone, Copy, Eq, PartialEq, Ord, PartialOrd, Hash)]
pub struct StaticSenderName(pub &'static [u8]);

/// The byte-string name of a sender: the stable identity that numeric
/// sender IDs stand for.
#[derive(Debug, Clone, Eq, PartialEq, Ord, PartialOrd, Hash)]
pub struct SenderName(pub Vec<u8>);

/// The name of a message type known at compile time.
#[derive(Debug, Clone, Copy, Eq, PartialEq, Ord, PartialOrd, Hash)]
pub struct StaticTypeName(pub &'static [u8]);

/// The byte-string name of a message type.
#[derive(Debug, Clone, Eq, PartialEq, Ord, PartialOrd, Hash)]
pub struct TypeName(pub Vec<u8>);

/// A sensor index within a tracker-style device.
#[derive(Debug, Clone, Copy, Eq, PartialEq, Ord, PartialOrd, Hash, Structural)]
pub struct Sensor(pub i32);

/// A frame's sequence number. Carried on the wire; receive-side logic does
/// not consume it beyond diagnostics.
#[derive(Debug, Clone, Copy, Eq, PartialEq, Ord, PartialOrd, Hash, Structural)]
pub struct SequenceNumber(pub u32);

/// Advisory delivery-intent flags attached to an outgoing message. The core
/// only classifies; any channel selection by flag is the transport's
/// business.
#[derive(Debug, Clone, Copy, Eq, PartialEq, Hash, Structural)]
pub struct ClassOfService {
    pub bits: u32,
}

impl ClassOfService {
    pub fn from_bits(bits: u32) -> (r: ClassOfService)
        ensures
            r.bits == bits,
    {
        ClassOfService { bits }
    }

    pub fn reliable() -> (r: ClassOfService)
        ensures
            r.bits == 1u32,
    {
        ClassOfService { bits: 1 }
    }

    pub fn fixed_latency() -> (r: ClassOfService)
        ensures
            r.bits == 2u32,
    {
        ClassOfService { bits: 2 }
    }

    pub fn low_latency() -> (r: ClassOfService)
        ensures
            r.bits == 4u32,
    {
        ClassOfService { bits: 4 }
    }

    pub fn fixed_throughput() -> (r: ClassOfService)
        ensures
            r.bits == 8u32,
    {
        ClassOfService { bits: 8 }
    }

    pub fn high_throughput() -> (r: ClassOfService)
        ensures
            r.bits == 16u32,
    {
        ClassOfService { bits: 16 }
    }

    /// The union of two sets of flags.
    pub fn union(self, other: ClassOfService) -> (r: ClassOfService)
        ensures
            r.bits == (self.bits | other.bits),
    {
        ClassOfService { bits: self.bits | other.bits }
    }

    /// True when every flag of `other` is set in `self`.
    pub fn contains(self, other: ClassOfService) -> (r: bool)
        ensures
            r == ((self.bits & other.bits) == other.bits),
    {
        (self.bits & other.bits) == other.bits
    }
}

} // verus!
