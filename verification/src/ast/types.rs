//! Ast types are bridges between Rust origin types and C/Swift/Java types.

use vstd::prelude::*;
use vstd::std_specs::convert::FromSpecImpl;

use crate::ast::parser::ParseContext;
use crate::text::str_eq;

verus! {

/// The element type of a `Vec` in a contract.
#[derive(Debug, Clone, PartialEq)]
pub enum AstBaseType {
    Void,
    Byte(String),
    Short(String),
    Int(String),
    Long(String),
    Float(String),
    Double(String),
    Boolean,
    String,
    Callback(String),
    Struct(String),
}

/// A type of an argument, a return value or a struct field in a contract.
#[derive(Debug, Clone, PartialEq)]
pub enum AstType {
    Void,
    Byte(String),
    Int(String),
    Short(String),
    Long(String),
    Float(String),
    Double(String),
    Boolean,
    String,
    Vec(AstBaseType),
    Callback(String),
    Struct(String),
}

/// Mathematical model of an `AstBaseType`: names as character sequences.
pub enum BaseTypeView {
    Void,
    Byte(Seq<char>),
    Short(Seq<char>),
    Int(Seq<char>),
    Long(Seq<char>),
    Float(Seq<char>),
    Double(Seq<char>),
    Boolean,
    String,
    Callback(Seq<char>),
    Struct(Seq<char>),
}

/// Mathematical model of an `AstType`.
pub enum TypeView {
    Void,
    Byte(Seq<char>),
    Int(Seq<char>),
    Short(Seq<char>),
    Long(Seq<char>),
    Float(Seq<char>),
    Double(Seq<char>),
    Boolean,
    String,
    Vec(BaseTypeView),
    Callback(Seq<char>),
    Struct(Seq<char>),
}

impl View for AstBaseType {
    type V = BaseTypeView;

    open spec fn view(&self) -> BaseTypeView {
        match self {
            AstBaseType::Void => BaseTypeView::Void,
            AstBaseType::Byte(o) => BaseTypeView::Byte(o@),
            AstBaseType::Short(o) => BaseTypeView::Short(o@),
            AstBaseType::Int(o) => BaseTypeView::Int(o@),
            AstBaseType::Long(o) => BaseTypeView::Long(o@),
            AstBaseType::Float(o) => BaseTypeView::Float(o@),
            AstBaseType::Double(o) => BaseTypeView::Double(o@),
            AstBaseType::Boolean => BaseTypeView::Boolean,
            AstBaseType::String => BaseTypeView::String,
            AstBaseType::Callback(o) => BaseTypeView::Callback(o@),
            AstBaseType::Struct(o) => BaseTypeView::Struct(o@),
        }
    }
}

impl View for AstType {
    type V = TypeView;

    open spec fn view(&self) -> TypeView {
        match self {
            AstType::Void => TypeView::Void,
            AstType::Byte(o) => TypeView::Byte(o@),
            AstType::Int(o) => TypeView::Int(o@),
            AstType::Short(o) => TypeView::Short(o@),
            AstType::Long(o) => TypeView::Long(o@),
            AstType::Float(o) => TypeView::Float(o@),
            AstType::Double(o) => TypeView::Double(o@),
            AstType::Boolean => TypeView::Boolean,
            AstType::String => TypeView::String,
            AstType::Vec(b) => TypeView::Vec(b@),
            AstType::Callback(o) => TypeView::Callback(o@),
            AstType::Struct(o) => TypeView::Struct(o@),
        }
    }
}

/// The category that a Rust type name falls in, by the name alone.
pub enum TypeKind {
    Byte,
    Short,
    Int,
    Float,
    Double,
    Long,
    Str,
    Boolean,
    Boxed,
    Other,
}

/// Which category a Rust type name `ident` stands for.
pub open spec fn kind_of(ident: Seq<char>) -> TypeKind {
    if ident == "u8"@ || ident == "i8"@ {
        TypeKind::Byte
    } else if ident == "u16"@ || ident == "i16"@ {
        TypeKind::Short
    } else if ident == "u32"@ || ident == "i32"@ || ident == "isize"@ || ident == "usize"@ {
        TypeKind::Int
    } else if ident == "f32"@ {
        TypeKind::Float
    } else if ident == "f64"@ {
        TypeKind::Double
    } else if ident == "u64"@ || ident == "i64"@ {
        TypeKind::Long
    } else if ident == "str"@ || ident == "String"@ {
        TypeKind::Str
    } else if ident == "bool"@ {
        TypeKind::Boolean
    } else if ident == "Box"@ {
        TypeKind::Boxed
    } else {
        TypeKind::Other
    }
}

/// The base type that `AstBaseType::new(ident, sub, _)` builds.
pub open spec fn base_type_of(ident: Seq<char>, sub: Seq<char>) -> BaseTypeView {
    match kind_of(ident) {
        TypeKind::Byte => BaseTypeView::Byte(ident),
        TypeKind::Short => BaseTypeView::Short(ident),
        TypeKind::Int => BaseTypeView::Int(ident),
        TypeKind::Float => BaseTypeView::Float(ident),
        TypeKind::Double => BaseTypeView::Double(ident),
        TypeKind::Long => BaseTypeView::Long(ident),
        TypeKind::Str => BaseTypeView::String,
        TypeKind::Boolean => BaseTypeView::Boolean,
        // all callbacks are wrapped with Box
        TypeKind::Boxed => BaseTypeView::Callback(sub),
        // an unknown name is taken to be a struct
        TypeKind::Other => BaseTypeView::Struct(sub),
    }
}

/// The type that `AstType::new(ident, sub, _)` builds.
pub open spec fn type_of(ident: Seq<char>, sub: Seq<char>) -> TypeView {
    match kind_of(ident) {
        TypeKind::Byte => TypeView::Byte(ident),
        TypeKind::Short => TypeView::Short(ident),
        TypeKind::Int => TypeView::Int(ident),
        TypeKind::Float => TypeView::Float(ident),
        TypeKind::Double => TypeView::Double(ident),
        TypeKind::Long => TypeView::Long(ident),
        TypeKind::Str => TypeView::String,
        TypeKind::Boolean => TypeView::Boolean,
        TypeKind::Boxed => TypeView::Callback(sub),
        TypeKind::Other => TypeView::Struct(sub),
    }
}

/// The Rust type name that a base type stands for.
pub open spec fn base_origin(b: BaseTypeView) -> Seq<char> {
    match b {
        BaseTypeView::Void => Seq::empty(),
        BaseTypeView::Byte(o) => o,
        BaseTypeView::Short(o) => o,
        BaseTypeView::Int(o) => o,
        BaseTypeView::Long(o) => o,
        BaseTypeView::Float(o) => o,
        BaseTypeView::Double(o) => o,
        BaseTypeView::Boolean => "bool"@,
        BaseTypeView::String => "String"@,
        BaseTypeView::Callback(o) => o,
        BaseTypeView::Struct(o) => o,
    }
}

/// The Rust type text that a type stands for.
pub open spec fn type_origin(t: TypeView) -> Seq<char> {
    match t {
        TypeView::Void => Seq::empty(),
        TypeView::Byte(o) => o,
        TypeView::Short(o) => o,
        TypeView::Int(o) => o,
        TypeView::Long(o) => o,
        TypeView::Float(o) => o,
        TypeView::Double(o) => o,
        TypeView::Boolean => "bool"@,
        TypeView::String => "String"@,
        TypeView::Vec(b) => "Vec<"@ + base_origin(b) + ">"@,
        TypeView::Callback(o) => o,
        TypeView::Struct(o) => o,
    }
}

/// The type that a `Vec` element type stands for on its own.
pub open spec fn widen(b: BaseTypeView) -> TypeView {
    match b {
        BaseTypeView::Void => TypeView::Void,
        BaseTypeView::Byte(o) => TypeView::Byte(o),
        BaseTypeView::Short(o) => TypeView::Short(o),
        BaseTypeView::Int(o) => TypeView::Int(o),
        BaseTypeView::Long(o) => TypeView::Long(o),
        BaseTypeView::Float(o) => TypeView::Float(o),
        BaseTypeView::Double(o) => TypeView::Double(o),
        BaseTypeView::Boolean => TypeView::Boolean,
        BaseTypeView::String => TypeView::String,
        BaseTypeView::Callback(o) => TypeView::Callback(o),
        BaseTypeView::Struct(o) => TypeView::Struct(o),
    }
}

/// The JNI signature of a type.
pub open spec fn java_sig_of(t: TypeView) -> Seq<char> {
    match t {
        TypeView::Void => "V"@,
        TypeView::Byte(_) => "B"@,
        TypeView::Short(_) => "S"@,
        TypeView::Int(_) => "I"@,
        TypeView::Long(_) => "J"@,
        TypeView::Float(_) => "F"@,
        TypeView::Double(_) => "D"@,
        TypeView::Boolean => "I"@,
        TypeView::String => "Ljava/lang/String;"@,
        TypeView::Callback(_) => "Ljava/lang/String;"@,
        TypeView::Struct(_) => "Ljava/lang/String;"@,
        TypeView::Vec(BaseTypeView::Byte(_)) => "[B"@,
        TypeView::Vec(_) => "Ljava/lang/String;"@,
    }
}

/// The category of a Rust type name.
pub fn classify(ident: &str) -> (k: TypeKind)
    ensures
        k == kind_of(ident@),
{
    if str_eq(ident, "u8") || str_eq(ident, "i8") {
        TypeKind::Byte
    } else if str_eq(ident, "u16") || str_eq(ident, "i16") {
        TypeKind::Short
    } else if str_eq(ident, "u32") || str_eq(ident, "i32") || str_eq(ident, "isize")
        || str_eq(ident, "usize") {
        TypeKind::Int
    } else if str_eq(ident, "f32") {
        TypeKind::Float
    } else if str_eq(ident, "f64") {
        TypeKind::Double
    } else if str_eq(ident, "u64") || str_eq(ident, "i64") {
        TypeKind::Long
    } else if str_eq(ident, "str") || str_eq(ident, "String") {
        TypeKind::Str
    } else if str_eq(ident, "bool") {
        TypeKind::Boolean
    } else if str_eq(ident, "Box") {
        TypeKind::Boxed
    } else {
        TypeKind::Other
    }
}

impl AstBaseType {
    /// The base type for the Rust type name `ident`; `sub` names the
    /// callback or struct when `ident` is `Box` or not a known primitive.
    pub fn new(ident: &str, sub: &str, ctx: &ParseContext) -> (r: Self)
        ensures
            r@ == base_type_of(ident@, sub@),
    {
        let origin = ident.to_owned();
        match classify(ident) {
            TypeKind::Byte => AstBaseType::Byte(origin),
            TypeKind::Short => AstBaseType::Short(origin),
            TypeKind::Int => AstBaseType::Int(origin),
            TypeKind::Float => AstBaseType::Float(origin),
            TypeKind::Double => AstBaseType::Double(origin),
            TypeKind::Long => AstBaseType::Long(origin),
            TypeKind::Str => AstBaseType::String,
            TypeKind::Boolean => AstBaseType::Boolean,
            TypeKind::Boxed => AstBaseType::Callback(sub.to_owned()),
            TypeKind::Other => AstBaseType::Struct(sub.to_owned()),
        }
    }

    /// The Rust type name this base type stands for.
    pub fn origin(&self) -> (r: String)
        ensures
            r@ == base_origin(self@),
    {
        match self {
            AstBaseType::Void => String::new(),
            AstBaseType::Byte(o) => o.clone(),
            AstBaseType::Short(o) => o.clone(),
            AstBaseType::Int(o) => o.clone(),
            AstBaseType::Long(o) => o.clone(),
            AstBaseType::Float(o) => o.clone(),
            AstBaseType::Double(o) => o.clone(),
            AstBaseType::Boolean => "bool".to_owned(),
            AstBaseType::String => "String".to_owned(),
            AstBaseType::Callback(o) => o.clone(),
            AstBaseType::Struct(o) => o.clone(),
        }
    }

    /// A copy of this base type.
    pub fn duplicate(&self) -> (r: Self)
        ensures
            r@ == self@,
    {
        match self {
            AstBaseType::Void => AstBaseType::Void,
            AstBaseType::Byte(o) => AstBaseType::Byte(o.clone()),
            AstBaseType::Short(o) => AstBaseType::Short(o.clone()),
            AstBaseType::Int(o) => AstBaseType::Int(o.clone()),
            AstBaseType::Long(o) => AstBaseType::Long(o.clone()),
            AstBaseType::Float(o) => AstBaseType::Float(o.clone()),
            AstBaseType::Double(o) => AstBaseType::Double(o.clone()),
            AstBaseType::Boolean => AstBaseType::Boolean,
            AstBaseType::String => AstBaseType::String,
            AstBaseType::Callback(o) => AstBaseType::Callback(o.clone()),
            AstBaseType::Struct(o) => AstBaseType::Struct(o.clone()),
        }
    }
}

impl AstType {
    /// The type for the Rust type name `ident`; `sub` names the callback or
    /// struct when `ident` is `Box` or not a known primitive.
    pub fn new(ident: &str, sub: &str, ctx: &ParseContext) -> (r: Self)
        ensures
            r@ == type_of(ident@, sub@),
    {
        let origin = ident.to_owned();
        match classify(ident) {
            TypeKind::Byte => AstType::Byte(origin),
            TypeKind::Short => AstType::Short(origin),
            TypeKind::Int => AstType::Int(origin),
            TypeKind::Float => AstType::Float(origin),
            TypeKind::Double => AstType::Double(origin),
            TypeKind::Long => AstType::Long(origin),
            TypeKind::Str => AstType::String,
            TypeKind::Boolean => AstType::Boolean,
            TypeKind::Boxed => AstType::Callback(sub.to_owned()),
            TypeKind::Other => AstType::Struct(sub.to_owned()),
        }
    }

    /// The Rust type text this type stands for, `Vec<..>` for vectors.
    pub fn origin(&self) -> (r: String)
        ensures
            r@ == type_origin(self@),
    {
        match self {
            AstType::Void => String::new(),
            AstType::Byte(o) => o.clone(),
            AstType::Short(o) => o.clone(),
            AstType::Int(o) => o.clone(),
            AstType::Long(o) => o.clone(),
            AstType::Float(o) => o.clone(),
            AstType::Double(o) => o.clone(),
            AstType::Boolean => "bool".to_owned(),
            AstType::String => "String".to_owned(),
            AstType::Vec(base) => {
                let mut r = "Vec<".to_owned();
                let inner = base.origin();
                r.append(inner.as_str());
                r.append(">");
                r
            },
            AstType::Callback(o) => o.clone(),
            AstType::Struct(o) => o.clone(),
        }
    }

    /// The JNI type signature of this type.
    pub fn to_java_sig(&self) -> (r: String)
        ensures
            r@ == java_sig_of(self@),
    {
        match self {
            AstType::Void => "V".to_owned(),
            AstType::Byte(_) => "B".to_owned(),
            AstType::Short(_) => "S".to_owned(),
            AstType::Int(_) => "I".to_owned(),
            AstType::Long(_) => "J".to_owned(),
            AstType::Float(_) => "F".to_owned(),
            AstType::Double(_) => "D".to_owned(),
            AstType::Boolean => "I".to_owned(),
            AstType::String => "Ljava/lang/String;".to_owned(),
            AstType::Callback(_) => "Ljava/lang/String;".to_owned(),
            AstType::Struct(_) => "Ljava/lang/String;".to_owned(),
            AstType::Vec(AstBaseType::Byte(_)) => "[B".to_owned(),
            AstType::Vec(_) => "Ljava/lang/String;".to_owned(),
        }
    }

    /// A copy of this type.
    pub fn duplicate(&self) -> (r: Self)
        ensures
            r@ == self@,
    {
        match self {
            AstType::Void => AstType::Void,
            AstType::Byte(o) => AstType::Byte(o.clone()),
            AstType::Short(o) => AstType::Short(o.clone()),
            AstType::Int(o) => AstType::Int(o.clone()),
            AstType::Long(o) => AstType::Long(o.clone()),
            AstType::Float(o) => AstType::Float(o.clone()),
            AstType::Double(o) => AstType::Double(o.clone()),
            AstType::Boolean => AstType::Boolean,
            AstType::String => AstType::String,
            AstType::Vec(b) => AstType::Vec(b.duplicate()),
            AstType::Callback(o) => AstType::Callback(o.clone()),
            AstType::Struct(o) => AstType::Struct(o.clone()),
        }
    }
}

impl From<AstBaseType> for AstType {
    fn from(base_ty: AstBaseType) -> (r: Self) {
        match base_ty {
            AstBaseType::Void => AstType::Void,
            AstBaseType::Byte(origin) => AstType::Byte(origin),
            AstBaseType::Short(origin) => AstType::Short(origin),
            AstBaseType::Int(origin) => AstType::Int(origin),
            AstBaseType::Long(origin) => AstType::Long(origin),
            AstBaseType::Float(origin) => AstType::Float(origin),
            AstBaseType::Double(origin) => AstType::Double(origin),
            AstBaseType::Boolean => AstType::Boolean,
            AstBaseType::String => AstType::String,
            AstBaseType::Callback(origin) => AstType::Callback(origin),
            AstBaseType::Struct(origin) => AstType::Struct(origin),
        }
    }
}

impl FromSpecImpl<AstBaseType> for AstType {
    open spec fn obeys_from_spec() -> bool {
        true
    }

    open spec fn from_spec(base_ty: AstBaseType) -> AstType {
        match base_ty {
            AstBaseType::Void => AstType::Void,
            AstBaseType::Byte(origin) => AstType::Byte(origin),
            AstBaseType::Short(origin) => AstType::Short(origin),
            AstBaseType::Int(origin) => AstType::Int(origin),
            AstBaseType::Long(origin) => AstType::Long(origin),
            AstBaseType::Float(origin) => AstType::Float(origin),
            AstBaseType::Double(origin) => AstType::Double(origin),
            AstBaseType::Boolean => AstType::Boolean,
            AstBaseType::String => AstType::String,
            AstBaseType::Callback(origin) => AstType::Callback(origin),
            AstBaseType::Struct(origin) => AstType::Struct(origin),
        }
    }
}

/// Law: the type read from a Rust type name gives that name back as its
/// origin, for every name but `str` (read as `String`); a boxed callback or
/// a struct gives back the name inside; a vector element gives back the
/// same text as the type on its own.
pub proof fn law_origin_round_trip(ident: Seq<char>, sub: Seq<char>)
    ensures
        ident != "str"@ && !(kind_of(ident) is Boxed) && !(kind_of(ident) is Other) ==> type_origin(
            type_of(ident, sub),
        ) == ident,
        (kind_of(ident) is Boxed || kind_of(ident) is Other) ==> type_origin(type_of(ident, sub))
            == sub,
        base_origin(base_type_of(ident, sub)) == type_origin(type_of(ident, sub)),
        widen(base_type_of(ident, sub)) == type_of(ident, sub),
{
}

} // verus!
