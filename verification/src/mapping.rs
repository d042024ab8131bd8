use vstd::prelude::*;

use crate::rust_source::{OutlineModel, Segment, SegmentModel, TypeOutline};
use crate::text::same;

verus! {

/// The Java side of a declared Rust type.
pub enum Mapped {
    /// A primitive letter (`Z B C S I J F D`, and `V` for the void return).
    Prim(char),
    /// `String` and `&str`.
    Str,
    /// `JObject`: any reference, whose exact class is found at run time.
    Object,
    /// `Self`, the bound class: a return type only.
    SelfRef,
    /// `Option<T>`: the descriptor of `T`, and null is accepted.
    OptionOf(Box<Mapped>),
    /// `Vec<T>`: an array of `T`.
    VecOf(Box<Mapped>),
}

/// The list of supported types that the messages end with.
pub const SUPPORTED_TYPES: &'static str = "supported types: () (return only), bool, i8, i16, i32, i64, f32, f64, char, u8 (Java byte), String, &str (parameters only), JObject, Option<T>, Vec<T>, and Self (return only)";

/// Whether a type is the plain `str`.
pub open spec fn names_str(ty: OutlineModel) -> bool {
    match ty {
        OutlineModel::Path { qualified: false, segments } => segments.len() == 1
            && segments[0].ident == "str"@,
        _ => false,
    }
}

/// The mapping of a type name that takes no arguments.
pub open spec fn simple_mapping(name: Seq<char>) -> Option<Mapped> {
    if name == "Self"@ {
        Some(Mapped::SelfRef)
    } else if name == "i8"@ || name == "u8"@ {
        Some(Mapped::Prim('B'))
    } else if name == "i16"@ {
        Some(Mapped::Prim('S'))
    } else if name == "i32"@ {
        Some(Mapped::Prim('I'))
    } else if name == "i64"@ {
        Some(Mapped::Prim('J'))
    } else if name == "f32"@ {
        Some(Mapped::Prim('F'))
    } else if name == "f64"@ {
        Some(Mapped::Prim('D'))
    } else if name == "bool"@ {
        Some(Mapped::Prim('Z'))
    } else if name == "char"@ {
        Some(Mapped::Prim('C'))
    } else if name == "String"@ {
        Some(Mapped::Str)
    } else if name == "JObject"@ {
        Some(Mapped::Object)
    } else {
        None
    }
}

/// The one type argument of `Option<T>` or `Vec<T>`.
pub open spec fn only_argument(seg: SegmentModel, name: Seq<char>) -> Result<
    OutlineModel,
    Seq<char>,
> {
    match seg.args {
        Some(list) => if list.len() != 1 {
            Err("`"@ + name + "<T>` requires exactly one type argument"@)
        } else {
            match list[0] {
                Some(t) => Ok(t),
                None => Err("`"@ + name + "<T>` requires a type argument"@),
            }
        },
        None => Err("`"@ + name + "<T>` requires exactly one type argument"@),
    }
}

/// The mapping of a type.
pub open spec fn mapped(ty: OutlineModel) -> Result<Mapped, Seq<char>>
    decreases ty,
{
    match ty {
        OutlineModel::Path { qualified: false, segments } => if segments.len() == 0 {
            Err("unsupported type in bind!; "@ + SUPPORTED_TYPES@)
        } else {
            let last = segments[segments.len() - 1];
            match simple_mapping(last.ident) {
                Some(m) => Ok(m),
                None => if last.ident == "Option"@ || last.ident == "Vec"@ {
                    match only_argument(last, last.ident) {
                        Err(m) => Err(m),
                        Ok(t) => {
                            match mapped(t) {
                                Err(m) => Err(m),
                                Ok(inner) => Ok(
                                    if last.ident == "Option"@ {
                                        Mapped::OptionOf(Box::new(inner))
                                    } else {
                                        Mapped::VecOf(Box::new(inner))
                                    },
                                ),
                            }
                        },
                    }
                } else {
                    Err("unsupported type `"@ + last.ident + "` in bind!; "@ + SUPPORTED_TYPES@)
                },
            }
        },
        OutlineModel::Reference { mutable: false, elem } => if names_str(*elem) {
            Ok(Mapped::Str)
        } else {
            Err("unsupported reference type in bind!; "@ + SUPPORTED_TYPES@)
        },
        OutlineModel::Tuple(0) => Ok(Mapped::Prim('V')),
        _ => Err("unsupported type in bind!; "@ + SUPPORTED_TYPES@),
    }
}

fn with_supported(start: &str) -> (m: String)
    ensures
        m@ == start@ + SUPPORTED_TYPES@,
{
    let mut m = start.to_owned();
    m.push_str(SUPPORTED_TYPES);
    m
}

fn simple_type(name: &str) -> (r: Option<Mapped>)
    ensures
        r == simple_mapping(name@),
{
    if same(name, "Self") {
        Some(Mapped::SelfRef)
    } else if same(name, "i8") || same(name, "u8") {
        Some(Mapped::Prim('B'))
    } else if same(name, "i16") {
        Some(Mapped::Prim('S'))
    } else if same(name, "i32") {
        Some(Mapped::Prim('I'))
    } else if same(name, "i64") {
        Some(Mapped::Prim('J'))
    } else if same(name, "f32") {
        Some(Mapped::Prim('F'))
    } else if same(name, "f64") {
        Some(Mapped::Prim('D'))
    } else if same(name, "bool") {
        Some(Mapped::Prim('Z'))
    } else if same(name, "char") {
        Some(Mapped::Prim('C'))
    } else if same(name, "String") {
        Some(Mapped::Str)
    } else if same(name, "JObject") {
        Some(Mapped::Object)
    } else {
        None
    }
}

/// The one type argument of `Option<T>` or `Vec<T>`.
pub fn single_generic<'a>(seg: &'a Segment, name: &str) -> (r: Result<&'a TypeOutline, String>)
    ensures
        match r {
            Ok(t) => only_argument(seg@, name@) == Ok::<OutlineModel, Seq<char>>(t@)
                && decreases_to!(seg => t),
            Err(m) => only_argument(seg@, name@) == Err::<OutlineModel, Seq<char>>(m@),
        },
{
    let mut m = "`".to_owned();
    m.push_str(name);
    match &seg.args {
        Some(list) => {
            if list.len() != 1 {
                m.push_str("<T>` requires exactly one type argument");
                return Err(m);
            }
            match &list[0] {
                Some(t) => Ok(t),
                None => {
                    m.push_str("<T>` requires a type argument");
                    Err(m)
                },
            }
        },
        None => {
            m.push_str("<T>` requires exactly one type argument");
            Err(m)
        },
    }
}

fn is_str_path(ty: &TypeOutline) -> (r: bool)
    ensures
        r == names_str(ty@),
{
    match ty {
        TypeOutline::Path { qualified, segments } => {
            assert(segments@.len() == 1 ==> ty@->segments[0] == segments@[0]@);
            !*qualified && segments.len() == 1 && same(segments[0].ident.as_str(), "str")
        },
        _ => false,
    }
}

/// Maps a declared Rust type to its Java side.
pub fn map_type(ty: &TypeOutline) -> (r: Result<Mapped, String>)
    ensures
        match r {
            Ok(m) => mapped(ty@) == Ok::<Mapped, Seq<char>>(m),
            Err(m) => mapped(ty@) == Err::<Mapped, Seq<char>>(m@),
        },
    decreases *ty,
{
    match ty {
        TypeOutline::Path { qualified: false, segments } => {
            if segments.len() == 0 {
                return Err(with_supported("unsupported type in bind!; "));
            }
            let last = &segments[segments.len() - 1];
            let name = last.ident.as_str();
            assert(ty@->segments[segments@.len() - 1] == last@);
            if let Some(m) = simple_type(name) {
                return Ok(m);
            }
            if same(name, "Option") || same(name, "Vec") {
                match single_generic(last, name) {
                    Err(m) => Err(m),
                    Ok(t) => {
                        match map_type(t) {
                            Err(m) => Err(m),
                            Ok(inner) => if same(name, "Option") {
                                Ok(Mapped::OptionOf(Box::new(inner)))
                            } else {
                                Ok(Mapped::VecOf(Box::new(inner)))
                            },
                        }
                    },
                }
            } else {
                let mut m = "unsupported type `".to_owned();
                m.push_str(name);
                m.push_str("` in bind!; ");
                m.push_str(SUPPORTED_TYPES);
                Err(m)
            }
        },
        TypeOutline::Reference { mutable: false, elem } => {
            if is_str_path(elem) {
                Ok(Mapped::Str)
            } else {
                Err(with_supported("unsupported reference type in bind!; "))
            }
        },
        TypeOutline::Tuple(0) => Ok(Mapped::Prim('V')),
        _ => Err(with_supported("unsupported type in bind!; ")),
    }
}

/// Whether a mapping holds `Self` anywhere.
pub open spec fn has_self(m: Mapped) -> bool
    decreases m,
{
    match m {
        Mapped::SelfRef => true,
        Mapped::OptionOf(inner) => has_self(*inner),
        Mapped::VecOf(inner) => has_self(*inner),
        _ => false,
    }
}

/// Whether a mapping holds `()` anywhere.
pub open spec fn has_void(m: Mapped) -> bool
    decreases m,
{
    match m {
        Mapped::Prim(c) => c == 'V',
        Mapped::OptionOf(inner) => has_void(*inner),
        Mapped::VecOf(inner) => has_void(*inner),
        _ => false,
    }
}

fn contains_void(m: &Mapped) -> (r: bool)
    ensures
        r == has_void(*m),
    decreases *m,
{
    match m {
        Mapped::Prim(c) => *c == 'V',
        Mapped::OptionOf(inner) => contains_void(inner),
        Mapped::VecOf(inner) => contains_void(inner),
        _ => false,
    }
}

/// Whether the letters in a mapping are primitive letters or `V`.
pub open spec fn well_formed(m: Mapped) -> bool
    decreases m,
{
    match m {
        Mapped::Prim(c) => crate::signature::is_primitive_letter(c) || c == 'V',
        Mapped::OptionOf(inner) => well_formed(*inner),
        Mapped::VecOf(inner) => well_formed(*inner),
        _ => true,
    }
}

/// Every type that maps at all maps to known letters.
pub proof fn mapped_is_well_formed(ty: OutlineModel)
    requires
        mapped(ty) is Ok,
    ensures
        well_formed(mapped(ty)->Ok_0),
    decreases ty,
{
    match ty {
        OutlineModel::Path { qualified: false, segments } => {
            let last = segments[segments.len() - 1];
            if simple_mapping(last.ident) is None {
                mapped_is_well_formed(only_argument(last, last.ident)->Ok_0);
            }
        },
        _ => {},
    }
}

/// Whether a mapping holds `Self` anywhere.
pub fn contains_self(m: &Mapped) -> (r: bool)
    ensures
        r == has_self(*m),
    decreases *m,
{
    match m {
        Mapped::SelfRef => true,
        Mapped::OptionOf(inner) => contains_self(inner),
        Mapped::VecOf(inner) => contains_self(inner),
        _ => false,
    }
}

/// The descriptor fragment of a mapping; `class` is the bound class with slashes.
pub open spec fn fragment(m: Mapped, class: Seq<char>) -> Seq<char>
    decreases m,
{
    match m {
        Mapped::Prim(c) => seq![c],
        Mapped::Str => "Ljava/lang/String;"@,
        Mapped::Object => "Ljava/lang/Object;"@,
        Mapped::SelfRef => "L"@ + class + ";"@,
        Mapped::OptionOf(inner) => fragment(*inner, class),
        Mapped::VecOf(inner) => "["@ + fragment(*inner, class),
    }
}

/// The descriptor fragment of a mapping, in parameter or return position.
pub fn frag(m: &Mapped, slash_class: &str) -> (s: String)
    ensures
        s@ == fragment(*m, slash_class@),
    decreases *m,
{
    match m {
        Mapped::Prim(c) => {
            let mut s = String::new();
            s.push(*c);
            assert(s@ =~= seq![*c]);
            s
        },
        Mapped::Str => "Ljava/lang/String;".to_owned(),
        Mapped::Object => "Ljava/lang/Object;".to_owned(),
        Mapped::SelfRef => {
            let mut s = "L".to_owned();
            s.push_str(slash_class);
            s.push_str(";");
            s
        },
        Mapped::OptionOf(inner) => frag(inner, slash_class),
        Mapped::VecOf(inner) => {
            let mut s = "[".to_owned();
            s.push_str(frag(inner, slash_class).as_str());
            s
        },
    }
}

/// The name of a primitive type, and of `void`.
pub open spec fn primitive_name(c: char) -> Seq<char> {
    if c == 'Z' {
        "boolean"@
    } else if c == 'B' {
        "byte"@
    } else if c == 'C' {
        "char"@
    } else if c == 'S' {
        "short"@
    } else if c == 'I' {
        "int"@
    } else if c == 'J' {
        "long"@
    } else if c == 'F' {
        "float"@
    } else if c == 'D' {
        "double"@
    } else {
        "void"@
    }
}

/// The name that `Class.getName()` gives a declared parameter type.
pub open spec fn binary(m: Mapped) -> Seq<char>
    decreases m,
{
    match m {
        Mapped::Prim(c) => primitive_name(c),
        Mapped::Str => "java.lang.String"@,
        Mapped::Object => "java.lang.Object"@,
        Mapped::SelfRef => Seq::empty(),
        Mapped::OptionOf(inner) => binary(*inner),
        Mapped::VecOf(inner) => "["@ + element(*inner),
    }
}

/// The same inside an array, where primitives are letters and classes `L<name>;`.
pub open spec fn element(m: Mapped) -> Seq<char>
    decreases m,
{
    match m {
        Mapped::Prim(c) => seq![c],
        Mapped::Str => "Ljava.lang.String;"@,
        Mapped::Object => "Ljava.lang.Object;"@,
        Mapped::SelfRef => Seq::empty(),
        Mapped::OptionOf(inner) => element(*inner),
        Mapped::VecOf(inner) => "["@ + element(*inner),
    }
}

/// The name of a primitive letter, or of `V`.
pub fn prim_binary_name(c: char) -> (s: &'static str)
    requires
        crate::signature::is_primitive_letter(c) || c == 'V',
    ensures
        s@ == primitive_name(c),
{
    match c {
        'Z' => "boolean",
        'B' => "byte",
        'C' => "char",
        'S' => "short",
        'I' => "int",
        'J' => "long",
        'F' => "float",
        'D' => "double",
        _ => "void",
    }
}

/// The name that `Class.getName()` gives a declared parameter type: the dotted class
/// name, the primitive keyword, or the array form.
pub fn binary_name(m: &Mapped) -> (s: String)
    requires
        well_formed(*m),
        !has_self(*m),
    ensures
        s@ == binary(*m),
    decreases *m,
{
    match m {
        Mapped::Prim(c) => prim_binary_name(*c).to_owned(),
        Mapped::Str => "java.lang.String".to_owned(),
        Mapped::Object => "java.lang.Object".to_owned(),
        Mapped::SelfRef => String::new(),
        Mapped::OptionOf(inner) => binary_name(inner),
        Mapped::VecOf(inner) => {
            let mut s = "[".to_owned();
            s.push_str(elem_binary(inner).as_str());
            s
        },
    }
}

/// The name fragment of a type inside an array.
pub fn elem_binary(m: &Mapped) -> (s: String)
    requires
        well_formed(*m),
        !has_self(*m),
    ensures
        s@ == element(*m),
    decreases *m,
{
    match m {
        Mapped::Prim(c) => {
            let mut s = String::new();
            s.push(*c);
            assert(s@ =~= seq![*c]);
            s
        },
        Mapped::Str => "Ljava.lang.String;".to_owned(),
        Mapped::Object => "Ljava.lang.Object;".to_owned(),
        Mapped::SelfRef => String::new(),
        Mapped::OptionOf(inner) => elem_binary(inner),
        Mapped::VecOf(inner) => {
            let mut s = "[".to_owned();
            s.push_str(elem_binary(inner).as_str());
            s
        },
    }
}

/// Whether a type is a reference, or an `Option` or a `Vec` that holds one.
pub open spec fn holds_reference(ty: OutlineModel) -> bool
    decreases ty,
{
    match ty {
        OutlineModel::Reference { .. } => true,
        OutlineModel::Path { qualified: false, segments } => if segments.len() == 0 {
            false
        } else {
            let last = segments[segments.len() - 1];
            if last.ident == "Option"@ || last.ident == "Vec"@ {
                match only_argument(last, last.ident) {
                    Ok(t) => holds_reference(t),
                    Err(_) => false,
                }
            } else {
                false
            }
        },
        _ => false,
    }
}

fn contains_reference(ty: &TypeOutline) -> (r: bool)
    ensures
        r == holds_reference(ty@),
    decreases *ty,
{
    match ty {
        TypeOutline::Reference { .. } => true,
        TypeOutline::Path { qualified: false, segments } => {
            if segments.len() == 0 {
                return false;
            }
            let last = &segments[segments.len() - 1];
            let name = last.ident.as_str();
            assert(ty@->segments[segments@.len() - 1] == last@);
            if same(name, "Option") || same(name, "Vec") {
                match single_generic(last, name) {
                    Ok(t) => contains_reference(t),
                    Err(_) => false,
                }
            } else {
                false
            }
        },
        _ => false,
    }
}

/// Whether `Self` stands inside an `Option` or a `Vec`.
pub open spec fn nested_self(m: Mapped) -> bool {
    match m {
        Mapped::OptionOf(inner) => has_self(*inner),
        Mapped::VecOf(inner) => has_self(*inner),
        _ => false,
    }
}

fn wraps_self(m: &Mapped) -> (r: bool)
    ensures
        r == nested_self(*m),
{
    match m {
        Mapped::OptionOf(inner) => contains_self(inner),
        Mapped::VecOf(inner) => contains_self(inner),
        _ => false,
    }
}

/// The complaint about a mapping in parameter position of `bind!`, if there is one.
pub open spec fn param_fault(m: Mapped) -> Option<Seq<char>> {
    match m {
        Mapped::SelfRef => Some("`Self` is only valid as a return type in bind!"@),
        _ => if has_void(m) {
            Some("`()` (void) is only valid as a return type in bind!"@)
        } else if nested_self(m) {
            Some(
                "`Option<Self>` / `Vec<Self>` are not supported in bind! — use `Option<JObject>` / `JObject`"@,
            )
        } else {
            None
        },
    }
}

/// The complaint about a mapping in return position of `bind!`, if there is one.
pub open spec fn return_fault(m: Mapped, ty: OutlineModel) -> Option<Seq<char>> {
    if holds_reference(ty) {
        Some("`&str` cannot be a return type in bind! — use `String`"@)
    } else if nested_self(m) {
        Some(
            "`Option<Self>` / `Vec<Self>` are not supported in bind! — use `Option<JObject>` / `JObject`"@,
        )
    } else {
        None
    }
}

/// The complaint about a field type of `bind!`, if there is one.
pub open spec fn field_fault(m: Mapped, ty: OutlineModel) -> Option<Seq<char>> {
    match m {
        Mapped::SelfRef => Some(
            "`Self` is not supported as a field type in bind! — use a concrete type"@,
        ),
        _ => if has_void(m) {
            Some("`()` (void) is not a valid field type in bind!"@)
        } else if holds_reference(ty) {
            Some("`&str` cannot be a field type in bind! — use `String`"@)
        } else if nested_self(m) {
            Some("`Option<Self>` / `Vec<Self>` are not supported as field types in bind!"@)
        } else {
            None
        },
    }
}

/// The complaint about a parameter of `interface!`, if there is one.
pub open spec fn interface_param_fault(m: Mapped, ty: OutlineModel) -> Option<Seq<char>> {
    match m {
        Mapped::SelfRef => Some(
            "`Self` is not supported in interface! — the implemented object is your Rust state, not a Java wrapper; use a concrete type (e.g. `JObject`)"@,
        ),
        _ => if has_void(m) {
            Some("`()` (void) is only valid as a return type in interface!"@)
        } else if holds_reference(ty) {
            Some(
                "`&str` cannot be an interface! parameter — the dispatch converts the JNI value into an owned Rust value; use `String`"@,
            )
        } else if nested_self(m) {
            Some("`Option<Self>` / `Vec<Self>` are not supported in interface!"@)
        } else {
            None
        },
    }
}

/// The complaint about a return type of `interface!`, if there is one.
pub open spec fn interface_return_fault(m: Mapped, ty: OutlineModel) -> Option<Seq<char>> {
    if holds_reference(ty) {
        Some("`&str` cannot be an interface! return type — use `String`"@)
    } else if m is SelfRef {
        Some("`Self` is not supported in interface! — return a concrete type (e.g. `JObject`)"@)
    } else if nested_self(m) {
        Some("`Option<Self>` / `Vec<Self>` are not supported in interface!"@)
    } else {
        None
    }
}

/// Whether a check found what its specification says: nothing, or that complaint.
pub open spec fn verdict(r: Result<(), String>, fault: Option<Seq<char>>) -> bool {
    match r {
        Ok(()) => fault is None,
        Err(m) => fault == Some(m@),
    }
}

/// Checks a mapping in parameter position of `bind!`.
pub fn validate_param(m: &Mapped) -> (r: Result<(), String>)
    ensures
        verdict(r, param_fault(*m)),
{
    match m {
        Mapped::SelfRef => Err("`Self` is only valid as a return type in bind!".to_owned()),
        _ => if contains_void(m) {
            Err("`()` (void) is only valid as a return type in bind!".to_owned())
        } else if wraps_self(m) {
            Err(
                "`Option<Self>` / `Vec<Self>` are not supported in bind! — use `Option<JObject>` / `JObject`".to_owned(),
            )
        } else {
            Ok(())
        },
    }
}

/// Checks a mapping in return position of `bind!`; `ty` is the declared type.
pub fn validate_return(m: &Mapped, ty: &TypeOutline) -> (r: Result<(), String>)
    ensures
        verdict(r, return_fault(*m, ty@)),
{
    if contains_reference(ty) {
        return Err("`&str` cannot be a return type in bind! — use `String`".to_owned());
    }
    if wraps_self(m) {
        return Err(
            "`Option<Self>` / `Vec<Self>` are not supported in bind! — use `Option<JObject>` / `JObject`".to_owned(),
        );
    }
    Ok(())
}

/// Checks a field type of `bind!`: a field value is owned and concrete.
pub fn validate_field(m: &Mapped, ty: &TypeOutline) -> (r: Result<(), String>)
    ensures
        verdict(r, field_fault(*m, ty@)),
{
    match m {
        Mapped::SelfRef => Err(
            "`Self` is not supported as a field type in bind! — use a concrete type".to_owned(),
        ),
        _ => {
            if contains_void(m) {
                return Err("`()` (void) is not a valid field type in bind!".to_owned());
            }
            if contains_reference(ty) {
                return Err("`&str` cannot be a field type in bind! — use `String`".to_owned());
            }
            if wraps_self(m) {
                return Err(
                    "`Option<Self>` / `Vec<Self>` are not supported as field types in bind!".to_owned(),
                );
            }
            Ok(())
        },
    }
}

/// Checks a parameter of `interface!`: the dispatch must be able to own the value.
pub fn validate_interface_param(m: &Mapped, ty: &TypeOutline) -> (r: Result<(), String>)
    ensures
        verdict(r, interface_param_fault(*m, ty@)),
        r is Ok ==> !has_self(*m),
{
    match m {
        Mapped::SelfRef => Err(
            "`Self` is not supported in interface! — the implemented object is your Rust state, not a Java wrapper; use a concrete type (e.g. `JObject`)".to_owned(),
        ),
        _ => {
            if contains_void(m) {
                return Err(
                    "`()` (void) is only valid as a return type in interface!".to_owned(),
                );
            }
            if contains_reference(ty) {
                return Err(
                    "`&str` cannot be an interface! parameter — the dispatch converts the JNI value into an owned Rust value; use `String`".to_owned(),
                );
            }
            if wraps_self(m) {
                return Err(
                    "`Option<Self>` / `Vec<Self>` are not supported in interface!".to_owned(),
                );
            }
            Ok(())
        },
    }
}

/// Checks a return type of `interface!`.
pub fn validate_interface_return(m: &Mapped, ty: &TypeOutline) -> (r: Result<(), String>)
    ensures
        verdict(r, interface_return_fault(*m, ty@)),
{
    if contains_reference(ty) {
        return Err("`&str` cannot be an interface! return type — use `String`".to_owned());
    }
    if let Mapped::SelfRef = m {
        return Err(
            "`Self` is not supported in interface! — return a concrete type (e.g. `JObject`)".to_owned(),
        );
    }
    if wraps_self(m) {
        return Err("`Option<Self>` / `Vec<Self>` are not supported in interface!".to_owned());
    }
    Ok(())
}

/// Every use of a type that is accepted keeps to its place at any depth: `()` stands in
/// return types only, `&str` in parameters of `bind!` only, and `Self` in return types of
/// `bind!` only, where it stands alone.
pub proof fn accepted_types_keep_their_places(m: Mapped, ty: OutlineModel)
    ensures
        param_fault(m) is None <==> !has_void(m) && !has_self(m),
        return_fault(m, ty) is None <==> !holds_reference(ty) && (m is SelfRef || !has_self(m)),
        field_fault(m, ty) is None <==> !has_void(m) && !has_self(m) && !holds_reference(ty),
        interface_param_fault(m, ty) is None <==> !has_void(m) && !has_self(m)
            && !holds_reference(ty),
        interface_return_fault(m, ty) is None <==> !has_self(m) && !holds_reference(ty),
{
}

/// The three `Object` methods that the interface runtime answers itself, by their
/// exact signatures: `toString()`, `hashCode()` and `equals(Object)`.
pub open spec fn reserved(java_name: Seq<char>, params: Seq<Seq<char>>) -> bool {
    ||| java_name == "toString"@ && params.len() == 0
    ||| java_name == "hashCode"@ && params.len() == 0
    ||| java_name == "equals"@ && params.len() == 1 && params[0] == "java.lang.Object"@
}

/// Whether a method is one of the `Object` methods that the interface runtime
/// answers itself.
pub fn is_reserved_object_method(java_name: &str, param_bins: &Vec<String>) -> (r: bool)
    ensures
        r == reserved(java_name@, crate::text::views(param_bins@)),
{
    proof {
        reveal_strlit("toString");
        reveal_strlit("hashCode");
        reveal_strlit("equals");
        assert("toString"@.len() != "equals"@.len());
        assert("hashCode"@.len() != "equals"@.len());
    }
    if same(java_name, "toString") || same(java_name, "hashCode") {
        param_bins.len() == 0
    } else if same(java_name, "equals") {
        param_bins.len() == 1 && same(param_bins[0].as_str(), "java.lang.Object")
    } else {
        false
    }
}

/// Each of Rust's names for a Java primitive maps to that primitive, and the three names
/// for references to theirs.
pub proof fn names_map_to_their_types()
    ensures
        simple_mapping("bool"@) == Some(Mapped::Prim('Z')),
        simple_mapping("i8"@) == Some(Mapped::Prim('B')),
        simple_mapping("u8"@) == Some(Mapped::Prim('B')),
        simple_mapping("char"@) == Some(Mapped::Prim('C')),
        simple_mapping("i16"@) == Some(Mapped::Prim('S')),
        simple_mapping("i32"@) == Some(Mapped::Prim('I')),
        simple_mapping("i64"@) == Some(Mapped::Prim('J')),
        simple_mapping("f32"@) == Some(Mapped::Prim('F')),
        simple_mapping("f64"@) == Some(Mapped::Prim('D')),
        simple_mapping("String"@) == Some(Mapped::Str),
        simple_mapping("JObject"@) == Some(Mapped::Object),
        simple_mapping("Self"@) == Some(Mapped::SelfRef),
        simple_mapping("Option"@) is None,
        simple_mapping("Vec"@) is None,
{
    reveal_strlit("bool");
    reveal_strlit("i8");
    reveal_strlit("u8");
    reveal_strlit("char");
    reveal_strlit("i16");
    reveal_strlit("i32");
    reveal_strlit("i64");
    reveal_strlit("f32");
    reveal_strlit("f64");
    reveal_strlit("String");
    reveal_strlit("JObject");
    reveal_strlit("Self");
    reveal_strlit("Option");
    reveal_strlit("Vec");
    assert("String"@.len() == 6 && "JObject"@.len() == 7 && "Vec"@.len() == 3);
    assert("bool"@[0] != "Self"@[0] && "char"@[0] != "Self"@[0] && "char"@[0] != "bool"@[0]);
    assert("i16"@[1] != "i32"@[1] && "i16"@[1] != "i64"@[1] && "i32"@[1] != "i64"@[1]);
    assert("i16"@[0] != "f32"@[0] && "i32"@[0] != "f32"@[0] && "i64"@[0] != "f32"@[0]);
    assert("i16"@[0] != "f64"@[0] && "i32"@[0] != "f64"@[0] && "i64"@[0] != "f64"@[0]);
    assert("f32"@[1] != "f64"@[1]);
    assert("Option"@[0] != "String"@[0]);
    assert("Vec"@[0] != "i16"@[0] && "Vec"@[0] != "i32"@[0] && "Vec"@[0] != "i64"@[0]);
    assert("Vec"@[0] != "f32"@[0] && "Vec"@[0] != "f64"@[0]);
}

/// A path type maps by its last name alone, whatever stands before it.
pub proof fn paths_map_by_their_last_name(segments: Seq<SegmentModel>, m: Mapped)
    requires
        segments.len() > 0,
        simple_mapping(segments.last().ident) == Some(m),
    ensures
        mapped(OutlineModel::Path { qualified: false, segments }) == Ok::<Mapped, Seq<char>>(m),
{
}

/// No path type maps whose last name is none of those that are known.
pub proof fn unknown_names_do_not_map(segments: Seq<SegmentModel>)
    requires
        segments.len() > 0,
    ensures
        ({
            let name = segments.last().ident;
            mapped(OutlineModel::Path { qualified: false, segments }) is Ok ==> {
                ||| name == "bool"@
                ||| name == "i8"@
                ||| name == "u8"@
                ||| name == "char"@
                ||| name == "i16"@
                ||| name == "i32"@
                ||| name == "i64"@
                ||| name == "f32"@
                ||| name == "f64"@
                ||| name == "String"@
                ||| name == "JObject"@
                ||| name == "Self"@
                ||| name == "Option"@
                ||| name == "Vec"@
            }
        }),
{
}

/// `Option<T>` and `Vec<T>` map to an option and an array of what `T` maps to, `&str` to a
/// string, and `()` to nothing; no other type is known.
pub proof fn wrapped_types_map_inside(
    segments: Seq<SegmentModel>,
    inner: OutlineModel,
    elem: OutlineModel,
    n: usize,
)
    ensures
        segments.len() > 0 && segments.last().args == Some(seq![Some(inner)]) ==> {
            let r = mapped(OutlineModel::Path { qualified: false, segments });
            &&& segments.last().ident == "Option"@ ==> match mapped(inner) {
                Ok(m) => r == Ok::<Mapped, Seq<char>>(Mapped::OptionOf(Box::new(m))),
                Err(e) => r == Err::<Mapped, Seq<char>>(e),
            }
            &&& segments.last().ident == "Vec"@ ==> match mapped(inner) {
                Ok(m) => r == Ok::<Mapped, Seq<char>>(Mapped::VecOf(Box::new(m))),
                Err(e) => r == Err::<Mapped, Seq<char>>(e),
            }
        },
        segments.len() > 0 && (segments.last().ident == "Option"@ || segments.last().ident
            == "Vec"@) && !(segments.last().args matches Some(list) && list.len() == 1 && list[0]
            is Some) ==> mapped(OutlineModel::Path { qualified: false, segments }) is Err,
        mapped(OutlineModel::Path { qualified: true, segments }) is Err,
        names_str(elem) ==> mapped(OutlineModel::Reference { mutable: false, elem: Box::new(elem) })
            == Ok::<Mapped, Seq<char>>(Mapped::Str),
        !names_str(elem) ==> mapped(
            OutlineModel::Reference { mutable: false, elem: Box::new(elem) },
        ) is Err,
        mapped(OutlineModel::Reference { mutable: true, elem: Box::new(elem) }) is Err,
        mapped(OutlineModel::Tuple(n)) is Ok <==> n == 0,
        mapped(OutlineModel::Tuple(0)) == Ok::<Mapped, Seq<char>>(Mapped::Prim('V')),
        mapped(OutlineModel::Other) is Err,
{
    names_map_to_their_types();
    reveal_strlit("Option");
    reveal_strlit("Vec");
    assert("Option"@.len() == 6 && "Vec"@.len() == 3);
    if segments.len() > 0 && segments.last().args == Some(seq![Some(inner)]) {
        assert(only_argument(segments.last(), segments.last().ident) == Ok::<
            OutlineModel,
            Seq<char>,
        >(inner));
    }
}

/// The descriptor of a mapped type: a primitive's letter, the class of a string, an object
/// and the bound class, that of `T` for `Option<T>`, and an array of it for `Vec<T>`.
pub proof fn fragments_are_those_of_java(c: char, inner: Mapped, class: Seq<char>)
    ensures
        fragment(Mapped::Prim(c), class) == seq![c],
        fragment(Mapped::Str, class) == "Ljava/lang/String;"@,
        fragment(Mapped::Object, class) == "Ljava/lang/Object;"@,
        fragment(Mapped::SelfRef, class) == "L"@ + class + ";"@,
        fragment(Mapped::OptionOf(Box::new(inner)), class) == fragment(inner, class),
        fragment(Mapped::VecOf(Box::new(inner)), class) == "["@ + fragment(inner, class),
{
}

/// The name that Java gives a declared parameter type: the keyword of a primitive, the
/// class of a string and an object, that of `T` for `Option<T>`, and for `Vec<T>` the name
/// of an array, in which a primitive stands by its letter.
pub proof fn binary_names_are_those_of_java(c: char, inner: Mapped)
    ensures
        binary(Mapped::Prim('Z')) == "boolean"@ && binary(Mapped::Prim('B')) == "byte"@,
        binary(Mapped::Prim('C')) == "char"@ && binary(Mapped::Prim('S')) == "short"@,
        binary(Mapped::Prim('I')) == "int"@ && binary(Mapped::Prim('J')) == "long"@,
        binary(Mapped::Prim('F')) == "float"@ && binary(Mapped::Prim('D')) == "double"@,
        binary(Mapped::Prim('V')) == "void"@,
        binary(Mapped::Str) == "java.lang.String"@,
        binary(Mapped::Object) == "java.lang.Object"@,
        binary(Mapped::OptionOf(Box::new(inner))) == binary(inner),
        binary(Mapped::VecOf(Box::new(Mapped::Prim(c)))) == "["@ + seq![c],
        binary(Mapped::VecOf(Box::new(Mapped::Str))) == "["@ + "Ljava.lang.String;"@,
        binary(Mapped::VecOf(Box::new(Mapped::Object))) == "["@ + "Ljava.lang.Object;"@,
        binary(Mapped::VecOf(Box::new(Mapped::VecOf(Box::new(inner))))) == "["@ + binary(
            Mapped::VecOf(Box::new(inner)),
        ),
        binary(Mapped::VecOf(Box::new(Mapped::OptionOf(Box::new(inner))))) == binary(
            Mapped::VecOf(Box::new(inner)),
        ),
{
    reveal_with_fuel(element, 3);
    reveal_with_fuel(binary, 3);
}

}
