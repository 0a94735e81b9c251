//! Type descriptors of the target runtime.

use vstd::prelude::*;

verus! {

/// A reference to a named type of the target runtime.
#[derive(Debug, PartialEq, Eq)]
pub struct DotnetTypeRef {
    /// The assembly that defines the type; `None` for a type of the module being built.
    pub assembly: Option<String>,
    /// The full name of the type, with `.` between path segments.
    pub name_path: String,
    /// Whether the type is a value type rather than a class.
    pub is_valuetype: bool,
}

/// The model of a `DotnetTypeRef`.
pub struct DotnetTypeRefModel {
    pub assembly: Option<Seq<char>>,
    pub name_path: Seq<char>,
    pub is_valuetype: bool,
}

impl View for DotnetTypeRef {
    type V = DotnetTypeRefModel;

    open spec fn view(&self) -> DotnetTypeRefModel {
        DotnetTypeRefModel {
            assembly: match self.assembly {
                Some(a) => Some(a@),
                None => None,
            },
            name_path: self.name_path@,
            is_valuetype: self.is_valuetype,
        }
    }
}

/// A type descriptor of the target runtime.
#[derive(Debug, PartialEq, Eq)]
pub enum Type {
    Void,
    Bool,
    /// A source-language character: a 32-bit scalar value.
    Char,
    /// A 16-bit character of the target runtime.
    DotnetChar,
    I8,
    I16,
    I32,
    I64,
    I128,
    ISize,
    U8,
    U16,
    U32,
    U64,
    U128,
    USize,
    F32,
    F64,
    Ptr(Box<Type>),
    DotnetType(DotnetTypeRef),
    /// The generic parameter with the given index of the enclosing type.
    GenericArg(u32),
}

/// The model of a `Type`.
pub enum TypeModel {
    Void,
    Bool,
    Char,
    DotnetChar,
    I8,
    I16,
    I32,
    I64,
    I128,
    ISize,
    U8,
    U16,
    U32,
    U64,
    U128,
    USize,
    F32,
    F64,
    Ptr(Box<TypeModel>),
    DotnetType(DotnetTypeRefModel),
    GenericArg(u32),
}

pub open spec fn type_view(t: Type) -> TypeModel
    decreases t,
{
    match t {
        Type::Void => TypeModel::Void,
        Type::Bool => TypeModel::Bool,
        Type::Char => TypeModel::Char,
        Type::DotnetChar => TypeModel::DotnetChar,
        Type::I8 => TypeModel::I8,
        Type::I16 => TypeModel::I16,
        Type::I32 => TypeModel::I32,
        Type::I64 => TypeModel::I64,
        Type::I128 => TypeModel::I128,
        Type::ISize => TypeModel::ISize,
        Type::U8 => TypeModel::U8,
        Type::U16 => TypeModel::U16,
        Type::U32 => TypeModel::U32,
        Type::U64 => TypeModel::U64,
        Type::U128 => TypeModel::U128,
        Type::USize => TypeModel::USize,
        Type::F32 => TypeModel::F32,
        Type::F64 => TypeModel::F64,
        Type::Ptr(inner) => TypeModel::Ptr(Box::new(type_view(*inner))),
        Type::DotnetType(r) => TypeModel::DotnetType(r@),
        Type::GenericArg(i) => TypeModel::GenericArg(i),
    }
}

impl View for Type {
    type V = TypeModel;

    open spec fn view(&self) -> TypeModel {
        type_view(*self)
    }
}

/// A storable slot: the type that owns it, the type it holds and its name.
#[derive(Debug, PartialEq, Eq)]
pub struct FieldDescriptor {
    pub owner: DotnetTypeRef,
    pub tpe: Type,
    pub name: String,
}

/// The model of a `FieldDescriptor`.
pub struct FieldModel {
    pub owner: DotnetTypeRefModel,
    pub tpe: TypeModel,
    pub name: Seq<char>,
}

impl View for FieldDescriptor {
    type V = FieldModel;

    open spec fn view(&self) -> FieldModel {
        FieldModel { owner: self.owner@, tpe: self.tpe@, name: self.name@ }
    }
}

impl DotnetTypeRef {
    /// A reference to the type `name` of `assembly`, as a value type.
    pub fn new(assembly: Option<&str>, name: &str) -> (r: DotnetTypeRef)
        ensures
            r@.assembly == (match assembly {
                Some(a) => Some(a@),
                None => None::<Seq<char>>,
            }),
            r@.name_path == name@,
            r@.is_valuetype,
    {
        DotnetTypeRef {
            assembly: match assembly {
                Some(a) => Some(String::from_str(a)),
                None => None,
            },
            name_path: String::from_str(name),
            is_valuetype: true,
        }
    }

    pub fn set_valuetype(&mut self, is_valuetype: bool)
        ensures
            final(self)@ == (DotnetTypeRefModel { is_valuetype, ..old(self)@ }),
    {
        self.is_valuetype = is_valuetype;
    }

    pub fn name_path(&self) -> (r: &str)
        ensures
            r@ == self@.name_path,
    {
        self.name_path.as_str()
    }

    pub fn assembly(&self) -> (r: Option<&str>)
        ensures
            r is Some <==> self@.assembly is Some,
            r is Some ==> r->0@ == self@.assembly->0,
    {
        match &self.assembly {
            Some(a) => Some(a.as_str()),
            None => None,
        }
    }

    /// Returns a copy of this reference.
    pub fn copy(&self) -> (r: DotnetTypeRef)
        ensures
            r@ == self@,
    {
        DotnetTypeRef {
            assembly: match &self.assembly {
                Some(a) => Some(a.clone()),
                None => None,
            },
            name_path: self.name_path.clone(),
            is_valuetype: self.is_valuetype,
        }
    }
}

impl Type {
    /// Returns a copy of this type.
    pub fn copy(&self) -> (r: Type)
        ensures
            r@ == self@,
        decreases self,
    {
        match self {
            Type::Void => Type::Void,
            Type::Bool => Type::Bool,
            Type::Char => Type::Char,
            Type::DotnetChar => Type::DotnetChar,
            Type::I8 => Type::I8,
            Type::I16 => Type::I16,
            Type::I32 => Type::I32,
            Type::I64 => Type::I64,
            Type::I128 => Type::I128,
            Type::ISize => Type::ISize,
            Type::U8 => Type::U8,
            Type::U16 => Type::U16,
            Type::U32 => Type::U32,
            Type::U64 => Type::U64,
            Type::U128 => Type::U128,
            Type::USize => Type::USize,
            Type::F32 => Type::F32,
            Type::F64 => Type::F64,
            Type::Ptr(inner) => Type::Ptr(Box::new(inner.copy())),
            Type::DotnetType(r) => Type::DotnetType(r.copy()),
            Type::GenericArg(i) => Type::GenericArg(*i),
        }
    }

    /// The reference behind a named type, if this is one.
    pub fn as_dotnet(&self) -> (r: Option<DotnetTypeRef>)
        ensures
            r is Some <==> self@ is DotnetType,
            r is Some ==> self@ == TypeModel::DotnetType(r->0@),
    {
        match self {
            Type::DotnetType(r) => Some(r.copy()),
            _ => None,
        }
    }
}

impl FieldDescriptor {
    pub fn new(owner: DotnetTypeRef, tpe: Type, name: String) -> (r: FieldDescriptor)
        ensures
            r@ == (FieldModel { owner: owner@, tpe: tpe@, name: name@ }),
    {
        FieldDescriptor { owner, tpe, name }
    }

    /// Returns a copy of this descriptor.
    pub fn copy(&self) -> (r: FieldDescriptor)
        ensures
            r@ == self@,
    {
        FieldDescriptor { owner: self.owner.copy(), tpe: self.tpe.copy(), name: self.name.clone() }
    }
}

} // verus!
