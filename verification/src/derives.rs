//! What the derive of a SQL type generates, decided from the shape of the
//! item it is applied to.
//!
//! The item arrives as plain values that its parser has read off it; the
//! expansion leaves as a plan that the macro renders as tokens.

use vstd::prelude::*;

verus! {

/// How the names of an item's variants or fields are turned into SQL names.
#[derive(Debug, Clone, Copy, PartialEq, Eq, Structural)]
pub enum RenameAll {
    LowerCase,
}

/// What `str::to_lowercase` makes of the characters `s`: each replaced by its
/// lowercase equivalent as Unicode defines it.
pub uninterp spec fn lowercase(s: Seq<char>) -> Seq<char>;

/// `str::to_lowercase`: the lowercase equivalent of `s`, as `lowercase` names
/// it.
#[verifier::external_body]
fn to_lowercase(s: &str) -> (r: String)
    ensures
        r@ == lowercase(s@),
{
    s.to_lowercase()
}

/// The name `s` as the pattern turns it.
pub open spec fn renamed(s: Seq<char>, pattern: RenameAll) -> Seq<char> {
    match pattern {
        RenameAll::LowerCase => lowercase(s),
    }
}

/// Turns the name `s` as `pattern` says.
pub fn rename_all(s: &str, pattern: RenameAll) -> (r: String)
    ensures
        r@ == renamed(s@, pattern),
{
    match pattern {
        RenameAll::LowerCase => to_lowercase(s),
    }
}

/// The fields of a struct.
#[derive(Debug, Clone, Copy, PartialEq, Eq, Structural)]
pub enum Fields {
    /// Named fields, this many.
    Named(usize),
    /// Unnamed fields, this many.
    Unnamed(usize),
    /// None: a unit struct.
    Unit,
}

/// The kind of item that a derive is applied to.
#[derive(Debug, Clone, Copy, PartialEq, Eq, Structural)]
pub enum Data {
    Struct(Fields),
    Enum,
    Union,
}

/// What a derive reads off the item it is applied to: its kind and those of
/// its attributes that decide the expansion.
#[derive(Debug, Clone, Copy, PartialEq, Eq, Structural)]
pub struct DeriveInput {
    pub data: Data,
    /// Whether the item names a representation, as a weak enum does.
    pub has_repr: bool,
    /// The object identifier that the item names for Postgres.
    pub postgres_oid: Option<u32>,
}

/// The backends that the derive generates for.
#[derive(Debug, Clone, Copy, PartialEq, Eq, Structural)]
pub struct Backends {
    pub mysql: bool,
    pub postgres: bool,
}

/// The impls that the derive of a SQL type generates.
#[derive(Debug, Clone, Copy, PartialEq, Eq, Structural)]
pub enum TypeExpansion {
    /// For every backend, the type of the single field.
    Transparent,
    /// For every backend, the type of the representation.
    WeakEnum,
    /// For MySQL, where `mysql` is set, the type of a string; for Postgres,
    /// where an identifier is given, the type of that identifier.
    StrongEnum { mysql: bool, postgres_oid: Option<u32> },
    /// For Postgres, where an identifier is given, the type of that
    /// identifier.
    Struct { postgres_oid: Option<u32> },
}

/// Why the derive of a SQL type generates nothing.
#[derive(Debug, Clone, Copy, PartialEq, Eq, Structural)]
pub enum DeriveError {
    /// Unions are not supported.
    Union,
    /// Structs with zero or more than one unnamed field are not supported.
    UnnamedFields,
    /// Unit structs are not supported.
    UnitStruct,
    /// The item names no object identifier, which Postgres needs.
    MissingPostgresOid,
}

impl DeriveError {
    /// The message that the compiler shows at the item.
    pub open spec fn text(self) -> Seq<char> {
        match self {
            DeriveError::Union => "unions are not supported"@,
            DeriveError::UnnamedFields => "structs with zero or more than one unnamed field are not supported"@,
            DeriveError::UnitStruct => "unit structs are not supported"@,
            DeriveError::MissingPostgresOid => "OID should be set"@,
        }
    }

    /// The message that the compiler shows at the item.
    pub fn message(&self) -> (r: &'static str)
        ensures
            r@ == self.text(),
    {
        match self {
            DeriveError::Union => "unions are not supported",
            DeriveError::UnnamedFields => "structs with zero or more than one unnamed field are not supported",
            DeriveError::UnitStruct => "unit structs are not supported",
            DeriveError::MissingPostgresOid => "OID should be set",
        }
    }
}

/// The object identifier that an impl for Postgres is generated with: that of
/// the item where Postgres is generated for, none otherwise. An item without
/// one cannot be generated for Postgres.
pub open spec fn postgres_oid_of(input: DeriveInput, backends: Backends) -> Result<
    Option<u32>,
    DeriveError,
> {
    if !backends.postgres {
        Ok(None)
    } else if input.postgres_oid is Some {
        Ok(input.postgres_oid)
    } else {
        Err(DeriveError::MissingPostgresOid)
    }
}

/// What the derive of a SQL type generates for an item.
///
/// A struct of one unnamed field is transparent. An enum is weak where it
/// names a representation and strong otherwise. A struct of named fields is a
/// composite. Unions, unit structs and structs of any other number of unnamed
/// fields are refused.
pub open spec fn type_expansion(input: DeriveInput, backends: Backends) -> Result<
    TypeExpansion,
    DeriveError,
> {
    match input.data {
        Data::Struct(Fields::Unnamed(n)) => if n == 1 {
            Ok(TypeExpansion::Transparent)
        } else {
            Err(DeriveError::UnnamedFields)
        },
        Data::Enum => if input.has_repr {
            Ok(TypeExpansion::WeakEnum)
        } else {
            match postgres_oid_of(input, backends) {
                Ok(postgres_oid) => Ok(
                    TypeExpansion::StrongEnum { mysql: backends.mysql, postgres_oid },
                ),
                Err(e) => Err(e),
            }
        },
        Data::Struct(Fields::Named(_)) => match postgres_oid_of(input, backends) {
            Ok(postgres_oid) => Ok(TypeExpansion::Struct { postgres_oid }),
            Err(e) => Err(e),
        },
        Data::Union => Err(DeriveError::Union),
        Data::Struct(Fields::Unit) => Err(DeriveError::UnitStruct),
    }
}

/// The object identifier for Postgres, checked.
fn postgres_oid(input: &DeriveInput, backends: Backends) -> (r: Result<Option<u32>, DeriveError>)
    ensures
        r == postgres_oid_of(*input, backends),
{
    if !backends.postgres {
        Ok(None)
    } else if input.postgres_oid.is_some() {
        Ok(input.postgres_oid)
    } else {
        Err(DeriveError::MissingPostgresOid)
    }
}

/// Decides what the derive of a SQL type generates for `input`.
pub fn expand_derive_type(input: &DeriveInput, backends: Backends) -> (r: Result<
    TypeExpansion,
    DeriveError,
>)
    ensures
        r == type_expansion(*input, backends),
{
    match input.data {
        Data::Struct(Fields::Unnamed(n)) => {
            if n == 1 {
                Ok(TypeExpansion::Transparent)
            } else {
                Err(DeriveError::UnnamedFields)
            }
        },
        Data::Enum => {
            if input.has_repr {
                Ok(TypeExpansion::WeakEnum)
            } else {
                let postgres_oid = postgres_oid(input, backends)?;
                Ok(TypeExpansion::StrongEnum { mysql: backends.mysql, postgres_oid })
            }
        },
        Data::Struct(Fields::Named(_)) => {
            let postgres_oid = postgres_oid(input, backends)?;
            Ok(TypeExpansion::Struct { postgres_oid })
        },
        Data::Union => Err(DeriveError::Union),
        Data::Struct(Fields::Unit) => Err(DeriveError::UnitStruct),
    }
}

} // verus!
