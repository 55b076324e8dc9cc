//! Concepts, as the server reports them and as the driver hands them on.
//!
//! The types whose names end in `Proto` hold what a wire message holds, as
//! plain values. The others are the driver's own, and each is read from its
//! wire form by `try_from_proto`, which refuses what breaks the protocol.

use crate::error::{Error, ErrorView, InternalError};
use chrono::NaiveDateTime;
use vstd::prelude::*;
use vstd::string::*;

verus! {

/// Whether chrono can represent the moment that lies `secs` seconds and
/// `nsecs` nanoseconds after the beginning of 1970.
pub uninterp spec fn is_timestamp(secs: i64, nsecs: u32) -> bool;

/// The seconds before and after 1970 within which chrono is asked. Every
/// moment that chrono can represent lies well within them: its years end
/// some 8.3 million million seconds from 1970.
pub const TIMESTAMP_BOUND: i64 = 10_000_000_000_000;

/// Calls `chrono::NaiveDateTime::from_timestamp_opt` and says whether it
/// returned a date and time. It returns none for seconds out of chrono's
/// range and for invalid nanoseconds; of the latter the contract states what
/// the source shows: two seconds' worth or more is invalid. Within the bound
/// on the seconds chrono's arithmetic on the days does not overflow.
#[verifier::external_body]
fn timestamp_is_valid(secs: i64, nsecs: u32) -> (valid: bool)
    requires
        -TIMESTAMP_BOUND <= secs <= TIMESTAMP_BOUND,
    ensures
        valid == is_timestamp(secs, nsecs),
        nsecs >= 2_000_000_000 ==> !valid,
{
    NaiveDateTime::from_timestamp_opt(secs, nsecs).is_some()
}

/// How a type is encoded on the wire.
#[derive(Clone, Copy, Debug, PartialEq, Eq, Structural)]
pub enum Encoding {
    ThingType,
    EntityType,
    RelationType,
    AttributeType,
    RoleType,
}

/// The kind of value that an attribute holds.
#[derive(Clone, Copy, Debug, PartialEq, Eq, Structural)]
pub enum ValueType {
    Object,
    Boolean,
    Long,
    Double,
    String,
    DateTime,
}

/// The encoding that a number on the wire stands for.
pub open spec fn encoding_of(number: int) -> Option<Encoding> {
    if number == 0 {
        Some(Encoding::ThingType)
    } else if number == 1 {
        Some(Encoding::EntityType)
    } else if number == 2 {
        Some(Encoding::RelationType)
    } else if number == 3 {
        Some(Encoding::AttributeType)
    } else if number == 4 {
        Some(Encoding::RoleType)
    } else {
        None
    }
}

/// The value type that a number on the wire stands for.
pub open spec fn value_type_of(number: int) -> Option<ValueType> {
    if number == 0 {
        Some(ValueType::Object)
    } else if number == 1 {
        Some(ValueType::Boolean)
    } else if number == 2 {
        Some(ValueType::Long)
    } else if number == 3 {
        Some(ValueType::Double)
    } else if number == 4 {
        Some(ValueType::String)
    } else if number == 5 {
        Some(ValueType::DateTime)
    } else {
        None
    }
}

/// The encoding that a number on the wire stands for.
pub fn encoding_from_i32(number: i32) -> (encoding: Option<Encoding>)
    ensures
        encoding == encoding_of(number as int),
{
    if number == 0 {
        Some(Encoding::ThingType)
    } else if number == 1 {
        Some(Encoding::EntityType)
    } else if number == 2 {
        Some(Encoding::RelationType)
    } else if number == 3 {
        Some(Encoding::AttributeType)
    } else if number == 4 {
        Some(Encoding::RoleType)
    } else {
        None
    }
}

/// Calls `typedb_protocol::ValueType::from_i32`, which prost generates for
/// the enumeration: it returns the member with the given number, and `None`
/// for a number that no member has. The members are numbered from `OBJECT`,
/// 0, to `DATETIME`, 5.
#[verifier::external_body]
fn value_type_from_i32(number: i32) -> (value_type: Option<ValueType>)
    ensures
        value_type == value_type_of(number as int),
{
    match typedb_protocol::ValueType::from_i32(number) {
        Some(typedb_protocol::ValueType::Object) => Some(ValueType::Object),
        Some(typedb_protocol::ValueType::Boolean) => Some(ValueType::Boolean),
        Some(typedb_protocol::ValueType::Long) => Some(ValueType::Long),
        Some(typedb_protocol::ValueType::Double) => Some(ValueType::Double),
        Some(typedb_protocol::ValueType::String) => Some(ValueType::String),
        Some(typedb_protocol::ValueType::Datetime) => Some(ValueType::DateTime),
        None => None,
    }
}

/// A type, as the wire message holds it.
#[derive(Debug)]
pub struct TypeProto {
    pub label: String,
    pub scope: String,
    pub encoding: i32,
    pub value_type: i32,
    pub is_root: bool,
    pub is_abstract: bool,
}

/// The value of an attribute, as the wire message holds it. A double is
/// held by its bits, a date and time by its milliseconds since 1970.
#[derive(Debug)]
pub enum ValueProto {
    String(String),
    Boolean(bool),
    Long(i64),
    Double(u64),
    DateTime(i64),
}

/// A thing, as the wire message holds it.
#[derive(Debug)]
pub struct ThingProto {
    pub iid: Vec<u8>,
    pub type_: Option<TypeProto>,
    pub value: Option<ValueProto>,
    pub inferred: bool,
}

/// A concept, as the wire message holds it.
#[derive(Debug)]
pub enum ConceptKindProto {
    Thing(ThingProto),
    Type(TypeProto),
    /// A concept that the driver does not read yet.
    Unread,
}

/// The message that wraps a concept.
#[derive(Debug)]
pub struct ConceptProto {
    pub concept: Option<ConceptKindProto>,
}

/// A number, as the wire message holds it. A double is held by its bits.
#[derive(Clone, Copy, Debug, PartialEq, Eq, Structural)]
pub enum NumericValueProto {
    LongValue(i64),
    DoubleValue(u64),
    Nan,
}

/// The message that wraps a number.
#[derive(Clone, Copy, Debug, PartialEq, Eq, Structural)]
pub struct NumericProto {
    pub value: Option<NumericValueProto>,
}

/// The answer to a query: concepts by the names of their variables, as the
/// wire message holds them.
#[derive(Debug)]
pub struct ConceptMapProto {
    pub map: Vec<(String, ConceptProto)>,
}

/// The result of an aggregate query. A double is held by its bits.
#[derive(Clone, Copy, Debug, PartialEq, Eq, Structural)]
pub enum Numeric {
    Long(i64),
    Double(u64),
    NaN,
}

#[derive(Debug)]
pub struct EntityType {
    pub label: String,
}

#[derive(Debug)]
pub struct RelationType {
    pub label: String,
}

#[derive(Debug)]
pub enum AttributeType {
    Root,
    Boolean { label: String },
    Long { label: String },
    Double { label: String },
    String { label: String },
    DateTime { label: String },
}

#[derive(Debug)]
pub struct RoleType {
    pub scope: String,
    pub label: String,
}

#[derive(Debug)]
pub enum ThingType {
    Root,
    Entity(EntityType),
    Relation(RelationType),
    Attribute(AttributeType),
}

#[derive(Debug)]
pub enum Type {
    Thing(ThingType),
    Role(RoleType),
}

#[derive(Debug)]
pub struct Entity {
    pub type_: EntityType,
    pub iid: Vec<u8>,
}

#[derive(Debug)]
pub struct Relation {
    pub type_: RelationType,
    pub iid: Vec<u8>,
}

/// An attribute with its value. A double is held by its bits, and a date
/// and time by the seconds since the beginning of 1970 and the nanoseconds
/// within the second, as chrono takes them.
#[allow(inconsistent_fields)]
#[derive(Debug)]
pub enum Attribute {
    Boolean { value: bool, iid: Vec<u8> },
    Long { value: i64, iid: Vec<u8> },
    Double { value: u64, iid: Vec<u8> },
    String { value: String, iid: Vec<u8> },
    DateTime { seconds: i64, nanoseconds: u32, iid: Vec<u8> },
}

#[derive(Debug)]
pub enum Thing {
    Entity(Entity),
    Relation(Relation),
    Attribute(Attribute),
}

#[derive(Debug)]
pub enum Concept {
    Thing(Thing),
    Type(Type),
}

/// The answer to a query: concepts by the names of their variables, in the
/// order of the message.
#[derive(Debug)]
pub struct ConceptMap {
    pub map: Vec<(String, Concept)>,
}

/// The error that says that a response lacks the named field.
pub open spec fn missing(field: Seq<char>) -> ErrorView {
    ErrorView::MissingResponseField(field)
}

/// The error that says that a number is no member of its enumeration.
pub open spec fn out_of_bounds() -> ErrorView {
    ErrorView::InternalError(InternalError::EnumOutOfBounds)
}

/// The error that says that a response has not the shape that was asked for.
pub open spec fn unexpected() -> ErrorView {
    ErrorView::InternalError(InternalError::UnexpectedResponseType)
}

/// The whole seconds that a number of milliseconds makes, rounded towards
/// zero.
pub open spec fn datetime_seconds(millis: i64) -> i64 {
    if millis >= 0 {
        (millis / 1000) as i64
    } else {
        (-((-millis) / 1000)) as i64
    }
}

/// What is handed to chrono as the nanoseconds of a date and time: the
/// remainder of the milliseconds by a thousand, as an unsigned number of 32
/// bits. The remainder of a negative number is negative, and as an unsigned
/// number it is more than chrono takes.
pub open spec fn datetime_nanos(millis: i64) -> u32 {
    if millis >= 0 {
        (millis % 1000) as u32
    } else if (-millis) % 1000 == 0 {
        0
    } else {
        (4294967296 - (-millis) % 1000) as u32
    }
}

/// Whether the milliseconds are a date and time that chrono can represent:
/// their seconds lie within the bound, and chrono takes the seconds with the
/// nanoseconds that are handed to it.
pub open spec fn is_datetime(millis: i64) -> bool {
    &&& -TIMESTAMP_BOUND <= datetime_seconds(millis) <= TIMESTAMP_BOUND
    &&& is_timestamp(datetime_seconds(millis), datetime_nanos(millis))
}

/// Whether a value is of the kind that the value type names.
pub open spec fn value_fits(value_type: ValueType, value: ValueProto) -> bool {
    match value {
        ValueProto::String(_) => value_type is String,
        ValueProto::Boolean(_) => value_type is Boolean,
        ValueProto::Long(_) => value_type is Long,
        ValueProto::Double(_) => value_type is Double,
        ValueProto::DateTime(_) => value_type is DateTime,
    }
}

/// Why no attribute type can be read from the message, if none can: the
/// number of its value type is out of bounds.
pub open spec fn attribute_type_error(proto: TypeProto) -> Option<ErrorView> {
    if value_type_of(proto.value_type as int) is None {
        Some(out_of_bounds())
    } else {
        None
    }
}

/// Whether the attribute type is the one that the message describes.
pub open spec fn describes_attribute_type(result: AttributeType, proto: TypeProto) -> bool {
    match result {
        AttributeType::Root => value_type_of(proto.value_type as int) == Some(ValueType::Object),
        AttributeType::Boolean { label } => value_type_of(proto.value_type as int) == Some(
            ValueType::Boolean,
        ) && label@ == proto.label@,
        AttributeType::Long { label } => value_type_of(proto.value_type as int) == Some(
            ValueType::Long,
        ) && label@ == proto.label@,
        AttributeType::Double { label } => value_type_of(proto.value_type as int) == Some(
            ValueType::Double,
        ) && label@ == proto.label@,
        AttributeType::String { label } => value_type_of(proto.value_type as int) == Some(
            ValueType::String,
        ) && label@ == proto.label@,
        AttributeType::DateTime { label } => value_type_of(proto.value_type as int) == Some(
            ValueType::DateTime,
        ) && label@ == proto.label@,
    }
}

/// Why no type can be read from the message, if none can.
pub open spec fn type_error(proto: TypeProto) -> Option<ErrorView> {
    match encoding_of(proto.encoding as int) {
        None => Some(out_of_bounds()),
        Some(Encoding::AttributeType) => attribute_type_error(proto),
        Some(_) => None,
    }
}

/// Whether the type is the one that the message describes.
pub open spec fn describes_type(result: Type, proto: TypeProto) -> bool {
    match result {
        Type::Thing(ThingType::Root) => encoding_of(proto.encoding as int) == Some(
            Encoding::ThingType,
        ),
        Type::Thing(ThingType::Entity(entity)) => encoding_of(proto.encoding as int) == Some(
            Encoding::EntityType,
        ) && entity.label@ == proto.label@,
        Type::Thing(ThingType::Relation(relation)) => encoding_of(proto.encoding as int) == Some(
            Encoding::RelationType,
        ) && relation.label@ == proto.label@,
        Type::Thing(ThingType::Attribute(attribute)) => encoding_of(proto.encoding as int) == Some(
            Encoding::AttributeType,
        ) && describes_attribute_type(attribute, proto),
        Type::Role(role) => encoding_of(proto.encoding as int) == Some(Encoding::RoleType)
            && role.scope@ == proto.scope@ && role.label@ == proto.label@,
    }
}

/// Why no attribute can be read from the message, if none can.
pub open spec fn attribute_error(proto: ThingProto) -> Option<ErrorView> {
    match proto.type_ {
        None => Some(missing("type"@)),
        Some(type_) => match value_type_of(type_.value_type as int) {
            None => Some(out_of_bounds()),
            Some(ValueType::Object) => Some(unexpected()),
            Some(value_type) => match proto.value {
                None => Some(missing("value"@)),
                Some(value) => if !value_fits(value_type, value) {
                    Some(unexpected())
                } else {
                    match value {
                        ValueProto::DateTime(millis) => if is_datetime(millis) {
                            None
                        } else {
                            Some(unexpected())
                        },
                        _ => None,
                    }
                },
            },
        },
    }
}

/// Whether the attribute is the one that the message describes.
pub open spec fn describes_attribute(result: Attribute, proto: ThingProto) -> bool {
    match result {
        Attribute::Boolean { value, iid } => proto.value == Some(ValueProto::Boolean(value))
            && iid@ == proto.iid@,
        Attribute::Long { value, iid } => proto.value == Some(ValueProto::Long(value)) && iid@
            == proto.iid@,
        Attribute::Double { value, iid } => proto.value == Some(ValueProto::Double(value))
            && iid@ == proto.iid@,
        Attribute::String { value, iid } => proto.value matches Some(ValueProto::String(text))
            && text@ == value@ && iid@ == proto.iid@,
        Attribute::DateTime { seconds, nanoseconds, iid } => proto.value matches Some(
            ValueProto::DateTime(millis),
        ) && seconds == datetime_seconds(millis) && nanoseconds == datetime_nanos(millis) && iid@
            == proto.iid@,
    }
}

/// Why no thing can be read from the message, if none can.
pub open spec fn thing_error(proto: ThingProto) -> Option<ErrorView> {
    match proto.type_ {
        None => Some(missing("type"@)),
        Some(type_) => match encoding_of(type_.encoding as int) {
            None => Some(out_of_bounds()),
            Some(Encoding::EntityType) => None,
            Some(Encoding::RelationType) => None,
            Some(Encoding::AttributeType) => attribute_error(proto),
            Some(_) => Some(unexpected()),
        },
    }
}

/// Whether the thing is the one that the message describes.
pub open spec fn describes_thing(result: Thing, proto: ThingProto) -> bool {
    proto.type_ matches Some(type_) && match result {
        Thing::Entity(entity) => encoding_of(type_.encoding as int) == Some(Encoding::EntityType)
            && entity.type_.label@ == type_.label@ && entity.iid@ == proto.iid@,
        Thing::Relation(relation) => encoding_of(type_.encoding as int) == Some(
            Encoding::RelationType,
        ) && relation.type_.label@ == type_.label@ && relation.iid@ == proto.iid@,
        Thing::Attribute(attribute) => encoding_of(type_.encoding as int) == Some(
            Encoding::AttributeType,
        ) && describes_attribute(attribute, proto),
    }
}

/// Why no concept can be read from the message, if none can.
pub open spec fn concept_error(proto: ConceptProto) -> Option<ErrorView> {
    match proto.concept {
        None => Some(missing("concept"@)),
        Some(ConceptKindProto::Thing(thing)) => thing_error(thing),
        Some(ConceptKindProto::Type(type_)) => type_error(type_),
        Some(ConceptKindProto::Unread) => Some(unexpected()),
    }
}

/// Whether the concept is the one that the message describes.
pub open spec fn describes_concept(result: Concept, proto: ConceptProto) -> bool {
    match result {
        Concept::Thing(thing) => proto.concept matches Some(ConceptKindProto::Thing(message))
            && describes_thing(thing, message),
        Concept::Type(type_) => proto.concept matches Some(ConceptKindProto::Type(message))
            && describes_type(type_, message),
    }
}

impl Numeric {
    /// Reads a number from its message. Fails with `MissingResponseField`
    /// exactly when the message holds no value.
    pub fn try_from_proto(proto: NumericProto) -> (res: Result<Numeric, Error>)
        ensures
            match res {
                Ok(numeric) => match proto.value {
                    Some(NumericValueProto::LongValue(long)) => numeric == Numeric::Long(long),
                    Some(NumericValueProto::DoubleValue(bits)) => numeric == Numeric::Double(bits),
                    Some(NumericValueProto::Nan) => numeric == Numeric::NaN,
                    None => false,
                },
                Err(error) => proto.value is None && error@ == missing("value"@),
            },
    {
        match proto.value {
            Some(NumericValueProto::LongValue(long)) => Ok(Numeric::Long(long)),
            Some(NumericValueProto::DoubleValue(bits)) => Ok(Numeric::Double(bits)),
            Some(NumericValueProto::Nan) => Ok(Numeric::NaN),
            None => Err(Error::MissingResponseField(String::from_str("value"))),
        }
    }
}

impl EntityType {
    /// Reads an entity type from its message: it has the message's label.
    pub fn try_from_proto(proto: TypeProto) -> (res: Result<EntityType, Error>)
        ensures
            res matches Ok(entity_type) && entity_type.label@ == proto.label@,
    {
        Ok(EntityType { label: proto.label })
    }
}

impl RelationType {
    /// Reads a relation type from its message: it has the message's label.
    pub fn try_from_proto(proto: TypeProto) -> (res: Result<RelationType, Error>)
        ensures
            res matches Ok(relation_type) && relation_type.label@ == proto.label@,
    {
        Ok(RelationType { label: proto.label })
    }
}

impl RoleType {
    /// Reads a role type from its message: it has the message's scope and
    /// label.
    pub fn try_from_proto(proto: TypeProto) -> (res: Result<RoleType, Error>)
        ensures
            res matches Ok(role_type) && role_type.scope@ == proto.scope@ && role_type.label@
                == proto.label@,
    {
        Ok(RoleType { scope: proto.scope, label: proto.label })
    }
}

impl AttributeType {
    /// Reads an attribute type from its message: the root attribute type
    /// where the value type is `Object`, else the type of that value type
    /// with the message's label. Fails with an internal error exactly when
    /// the number of the value type is out of bounds.
    pub fn try_from_proto(proto: TypeProto) -> (res: Result<AttributeType, Error>)
        ensures
            match res {
                Ok(attribute_type) => attribute_type_error(proto) is None
                    && describes_attribute_type(attribute_type, proto),
                Err(error) => attribute_type_error(proto) == Some(error@),
            },
    {
        match value_type_from_i32(proto.value_type) {
            None => Err(Error::InternalError(InternalError::EnumOutOfBounds)),
            Some(ValueType::Object) => Ok(AttributeType::Root),
            Some(ValueType::Boolean) => Ok(AttributeType::Boolean { label: proto.label }),
            Some(ValueType::Long) => Ok(AttributeType::Long { label: proto.label }),
            Some(ValueType::Double) => Ok(AttributeType::Double { label: proto.label }),
            Some(ValueType::String) => Ok(AttributeType::String { label: proto.label }),
            Some(ValueType::DateTime) => Ok(AttributeType::DateTime { label: proto.label }),
        }
    }
}

impl Type {
    /// Reads a type from its message, by its encoding. Fails with an
    /// internal error exactly when the number of the encoding, or that of
    /// the value type of an attribute type, is out of bounds.
    pub fn try_from_proto(proto: TypeProto) -> (res: Result<Type, Error>)
        ensures
            match res {
                Ok(type_) => type_error(proto) is None && describes_type(type_, proto),
                Err(error) => type_error(proto) == Some(error@),
            },
    {
        match encoding_from_i32(proto.encoding) {
            None => Err(Error::InternalError(InternalError::EnumOutOfBounds)),
            Some(Encoding::ThingType) => Ok(Type::Thing(ThingType::Root)),
            Some(Encoding::EntityType) => Ok(
                Type::Thing(ThingType::Entity(EntityType { label: proto.label })),
            ),
            Some(Encoding::RelationType) => Ok(
                Type::Thing(ThingType::Relation(RelationType { label: proto.label })),
            ),
            Some(Encoding::AttributeType) => match AttributeType::try_from_proto(proto) {
                Ok(attribute_type) => Ok(Type::Thing(ThingType::Attribute(attribute_type))),
                Err(error) => Err(error),
            },
            Some(Encoding::RoleType) => Ok(
                Type::Role(RoleType { scope: proto.scope, label: proto.label }),
            ),
        }
    }
}

/// The seconds and nanoseconds of a date and time that is held as
/// milliseconds, where chrono can represent it.
fn datetime_from_millis(millis: i64) -> (datetime: Option<(i64, u32)>)
    ensures
        match datetime {
            Some((seconds, nanoseconds)) => is_datetime(millis) && seconds == datetime_seconds(
                millis,
            ) && nanoseconds == datetime_nanos(millis),
            None => !is_datetime(millis),
        },
        millis < 0 && (-millis) % 1000 != 0 ==> datetime is None,
{
    let (secs, nanos): (i64, u32) = if millis >= 0 {
        (millis / 1000, (millis % 1000) as u32)
    } else {
        let magnitude: u64 = if millis == i64::MIN {
            9223372036854775808
        } else {
            (-millis) as u64
        };
        let whole = magnitude / 1000;
        let rest = magnitude % 1000;
        let nanos: u32 = if rest == 0 {
            0
        } else {
            (4294967296u64 - rest) as u32
        };
        (-(whole as i64), nanos)
    };
    if secs < -TIMESTAMP_BOUND || secs > TIMESTAMP_BOUND {
        return None;
    }
    if timestamp_is_valid(secs, nanos) {
        Some((secs, nanos))
    } else {
        None
    }
}

impl Attribute {
    /// Reads an attribute from its message: the value of the message, which
    /// has to be of the kind that the value type of the attribute's type
    /// names, and the message's instance id.
    ///
    /// Fails with `MissingResponseField` when the type or the value is
    /// missing, and with an internal error when the number of the value
    /// type is out of bounds, when the value type is `Object`, when the
    /// value is of another kind than the value type, and when a date and
    /// time is one that chrono cannot represent. A date and time is held by
    /// its seconds and nanoseconds: the milliseconds divided by a thousand,
    /// and their remainder.
    pub fn try_from_proto(proto: ThingProto) -> (res: Result<Attribute, Error>)
        ensures
            match res {
                Ok(attribute) => attribute_error(proto) is None && describes_attribute(
                    attribute,
                    proto,
                ),
                Err(error) => attribute_error(proto) == Some(error@),
            },
    {
        let type_ = match proto.type_ {
            Some(type_) => type_,
            None => {
                return Err(Error::MissingResponseField(String::from_str("type")));
            },
        };
        let value_type = match value_type_from_i32(type_.value_type) {
            Some(value_type) => value_type,
            None => {
                return Err(Error::InternalError(InternalError::EnumOutOfBounds));
            },
        };
        if let ValueType::Object = value_type {
            return Err(Error::InternalError(InternalError::UnexpectedResponseType));
        }
        let value = match proto.value {
            Some(value) => value,
            None => {
                return Err(Error::MissingResponseField(String::from_str("value")));
            },
        };
        let iid = proto.iid;
        match (value_type, value) {
            (ValueType::Boolean, ValueProto::Boolean(value)) => Ok(
                Attribute::Boolean { value, iid },
            ),
            (ValueType::Long, ValueProto::Long(value)) => Ok(Attribute::Long { value, iid }),
            (ValueType::Double, ValueProto::Double(value)) => Ok(
                Attribute::Double { value, iid },
            ),
            (ValueType::String, ValueProto::String(value)) => Ok(
                Attribute::String { value, iid },
            ),
            (ValueType::DateTime, ValueProto::DateTime(millis)) => {
                match datetime_from_millis(millis) {
                    Some((seconds, nanoseconds)) => Ok(
                        Attribute::DateTime { seconds, nanoseconds, iid },
                    ),
                    None => Err(Error::InternalError(InternalError::UnexpectedResponseType)),
                }
            },
            _ => Err(Error::InternalError(InternalError::UnexpectedResponseType)),
        }
    }
}

impl Entity {
    /// Reads an entity from its message: it has the label of the message's
    /// type and the message's instance id. Fails with `MissingResponseField`
    /// exactly when the type is missing.
    pub fn try_from_proto(proto: ThingProto) -> (res: Result<Entity, Error>)
        ensures
            match res {
                Ok(entity) => proto.type_ matches Some(type_) && entity.type_.label@
                    == type_.label@ && entity.iid@ == proto.iid@,
                Err(error) => proto.type_ is None && error@ == missing("type"@),
            },
    {
        match proto.type_ {
            Some(type_) => Ok(Entity { type_: EntityType { label: type_.label }, iid: proto.iid }),
            None => Err(Error::MissingResponseField(String::from_str("type"))),
        }
    }
}

impl Relation {
    /// Reads a relation from its message: it has the label of the message's
    /// type and the message's instance id. Fails with `MissingResponseField`
    /// exactly when the type is missing.
    pub fn try_from_proto(proto: ThingProto) -> (res: Result<Relation, Error>)
        ensures
            match res {
                Ok(relation) => proto.type_ matches Some(type_) && relation.type_.label@
                    == type_.label@ && relation.iid@ == proto.iid@,
                Err(error) => proto.type_ is None && error@ == missing("type"@),
            },
    {
        match proto.type_ {
            Some(type_) => Ok(
                Relation { type_: RelationType { label: type_.label }, iid: proto.iid },
            ),
            None => Err(Error::MissingResponseField(String::from_str("type"))),
        }
    }
}

impl Thing {
    /// Reads a thing from its message, by the encoding of its type: an
    /// entity, a relation or an attribute. Fails with `MissingResponseField`
    /// when the type is missing, with an internal error when the encoding is
    /// out of bounds or is not that of a thing, and where an attribute
    /// cannot be read.
    pub fn try_from_proto(proto: ThingProto) -> (res: Result<Thing, Error>)
        ensures
            match res {
                Ok(thing) => thing_error(proto) is None && describes_thing(thing, proto),
                Err(error) => thing_error(proto) == Some(error@),
            },
    {
        let encoding = match &proto.type_ {
            Some(type_) => encoding_from_i32(type_.encoding),
            None => {
                return Err(Error::MissingResponseField(String::from_str("type")));
            },
        };
        match encoding {
            None => Err(Error::InternalError(InternalError::EnumOutOfBounds)),
            Some(Encoding::EntityType) => match Entity::try_from_proto(proto) {
                Ok(entity) => Ok(Thing::Entity(entity)),
                Err(error) => Err(error),
            },
            Some(Encoding::RelationType) => match Relation::try_from_proto(proto) {
                Ok(relation) => Ok(Thing::Relation(relation)),
                Err(error) => Err(error),
            },
            Some(Encoding::AttributeType) => match Attribute::try_from_proto(proto) {
                Ok(attribute) => Ok(Thing::Attribute(attribute)),
                Err(error) => Err(error),
            },
            Some(_) => Err(Error::InternalError(InternalError::UnexpectedResponseType)),
        }
    }
}

impl Concept {
    /// Reads a concept from its message: a thing or a type. Fails with
    /// `MissingResponseField` when the message holds no concept, with an
    /// internal error for a concept that the driver does not read, and where
    /// the thing or the type cannot be read.
    pub fn try_from_proto(proto: ConceptProto) -> (res: Result<Concept, Error>)
        ensures
            match res {
                Ok(concept) => concept_error(proto) is None && describes_concept(concept, proto),
                Err(error) => concept_error(proto) == Some(error@),
            },
    {
        match proto.concept {
            None => Err(Error::MissingResponseField(String::from_str("concept"))),
            Some(ConceptKindProto::Thing(thing)) => match Thing::try_from_proto(thing) {
                Ok(thing) => Ok(Concept::Thing(thing)),
                Err(error) => Err(error),
            },
            Some(ConceptKindProto::Type(type_)) => match Type::try_from_proto(type_) {
                Ok(type_) => Ok(Concept::Type(type_)),
                Err(error) => Err(error),
            },
            Some(ConceptKindProto::Unread) => Err(
                Error::InternalError(InternalError::UnexpectedResponseType),
            ),
        }
    }
}

/// The index of the first entry of an answer from which no concept can be
/// read, at or after `from`, or the number of entries if there is none.
pub open spec fn first_unreadable(map: Seq<(String, ConceptProto)>, from: int) -> int
    decreases map.len() - from,
{
    if 0 <= from < map.len() && concept_error(map[from].1) is None {
        first_unreadable(map, from + 1)
    } else {
        from
    }
}

/// Why no answer can be read from the message, if none can: the error of
/// the first concept that cannot be read.
pub open spec fn concept_map_error(proto: ConceptMapProto) -> Option<ErrorView> {
    let at = first_unreadable(proto.map@, 0);
    if at < proto.map@.len() {
        concept_error(proto.map@[at].1)
    } else {
        None
    }
}

/// Whether the answer is the one that the message describes: the same
/// variables in the same order, each with the concept of the message.
pub open spec fn describes_concept_map(result: ConceptMap, proto: ConceptMapProto) -> bool {
    &&& result.map@.len() == proto.map@.len()
    &&& forall|i: int|
        0 <= i < result.map@.len() ==> (#[trigger] result.map@[i]).0@ == proto.map@[i].0@
            && describes_concept(result.map@[i].1, proto.map@[i].1)
}

/// What `first_unreadable` finds: every entry before it can be read, and
/// the entry at it cannot.
pub proof fn lemma_first_unreadable(map: Seq<(String, ConceptProto)>, from: int)
    requires
        0 <= from <= map.len(),
    ensures
        from <= first_unreadable(map, from) <= map.len(),
        first_unreadable(map, from) < map.len() ==> concept_error(
            map[first_unreadable(map, from)].1,
        ) is Some,
        forall|j: int|
            from <= j < first_unreadable(map, from) ==> concept_error((#[trigger] map[j]).1)
                is None,
    decreases map.len() - from,
{
    if from < map.len() && concept_error(map[from].1) is None {
        lemma_first_unreadable(map, from + 1);
    }
}

impl ConceptMap {
    /// Reads an answer from its message: each variable with its concept, in
    /// the order of the message. Fails where a concept cannot be read, with
    /// the error of the first such concept.
    pub fn try_from_proto(proto: ConceptMapProto) -> (res: Result<ConceptMap, Error>)
        ensures
            match res {
                Ok(answer) => concept_map_error(proto) is None && describes_concept_map(
                    answer,
                    proto,
                ),
                Err(error) => concept_map_error(proto) == Some(error@),
            },
    {
        let mut entries = proto.map;
        let ghost all = entries@;
        let mut map: Vec<(String, Concept)> = Vec::new();
        let count = entries.len();
        let mut i: usize = 0;
        while i < count
            invariant
                i <= count,
                all == proto.map@,
                count == all.len(),
                entries@.len() == count - i,
                forall|j: int| 0 <= j < count - i ==> (#[trigger] entries@[j]) == all[i + j],
                map@.len() == i,
                first_unreadable(all, 0) == first_unreadable(all, i as int),
                forall|j: int|
                    0 <= j < i ==> (#[trigger] map@[j]).0@ == all[j].0@ && describes_concept(
                        map@[j].1,
                        all[j].1,
                    ),
            decreases count - i,
        {
            let ghost rest = entries@;
            let (name, concept) = entries.remove(0);
            assert forall|j: int| 0 <= j < count - i - 1 implies (#[trigger] entries@[j]) == all[i
                + 1 + j] by {
                assert(entries@[j] == rest[j + 1]);
            }
            assert((name, concept) == all[i as int]);
            match Concept::try_from_proto(concept) {
                Ok(concept) => map.push((name, concept)),
                Err(error) => {
                    return Err(error);
                },
            }
            i += 1;
        }
        proof {
            lemma_first_unreadable(all, 0);
        }
        Ok(ConceptMap { map })
    }
}

} // verus!
