use vstd::prelude::*;

use crate::convert::{DoubleBits, FloatBits, FromJava};
use crate::handles::JObject;
use crate::mapping::{fragment, simple_mapping, Mapped};
use crate::vectors::JavaVecElement;

verus! {

/// A type that can be declared in a binding, and converts at run time.
pub trait Declared: FromJava {
    /// What the macros take the type for.
    spec fn declared() -> Mapped;

    /// The fragment that a macro computes for the type is the one that its conversions
    /// use.
    proof fn mirrors(class: Seq<char>)
        ensures
            fragment(Self::declared(), class) == Self::return_type(),
    ;
}

/// A declared type with a name of its own.
pub trait Named: Declared {
    /// Its name in Rust. The two types of bits stand for the types of the numbers.
    spec fn rust_name() -> Seq<char>;

    /// The macros take the name for what the type is declared as.
    proof fn is_declared_by_name()
        ensures
            simple_mapping(Self::rust_name()) == Some(Self::declared()),
    ;
}

/// A declared type that can be an element of a declared vector.
pub trait DeclaredElement: Declared + JavaVecElement {
    /// The fragment of an element is that of the type.
    proof fn element_mirrors()
        ensures
            Self::sig() == Self::return_type(),
    ;
}

/// What tells the names of simple types apart.
proof fn names_differ()
    ensures
        "Self"@.len() == 4,
        "Self"@[0] == 'S',
        "i8"@.len() == 2,
        "i8"@[0] == 'i',
        "u8"@.len() == 2,
        "u8"@[0] == 'u',
        "i16"@.len() == 3,
        "i16"@[0] == 'i',
        "i16"@[1] == '1',
        "i16"@[2] == '6',
        "i32"@.len() == 3,
        "i32"@[0] == 'i',
        "i32"@[1] == '3',
        "i32"@[2] == '2',
        "i64"@.len() == 3,
        "i64"@[0] == 'i',
        "i64"@[1] == '6',
        "i64"@[2] == '4',
        "f32"@.len() == 3,
        "f32"@[0] == 'f',
        "f32"@[1] == '3',
        "f32"@[2] == '2',
        "f64"@.len() == 3,
        "f64"@[0] == 'f',
        "f64"@[1] == '6',
        "f64"@[2] == '4',
        "bool"@.len() == 4,
        "bool"@[0] == 'b',
        "char"@.len() == 4,
        "char"@[0] == 'c',
        "String"@.len() == 6,
        "String"@[0] == 'S',
        "JObject"@.len() == 7,
        "JObject"@[0] == 'J',
{
    reveal_strlit("Self");
    reveal_strlit("i8");
    reveal_strlit("u8");
    reveal_strlit("i16");
    reveal_strlit("i32");
    reveal_strlit("i64");
    reveal_strlit("f32");
    reveal_strlit("f64");
    reveal_strlit("bool");
    reveal_strlit("char");
    reveal_strlit("String");
    reveal_strlit("JObject");
}

impl Declared for () {
    open spec fn declared() -> Mapped {
        Mapped::Prim('V')
    }

    proof fn mirrors(class: Seq<char>) {
        reveal_strlit("V");
        assert("V"@ =~= seq!['V']);
    }
}

impl Declared for bool {
    open spec fn declared() -> Mapped {
        Mapped::Prim('Z')
    }

    proof fn mirrors(class: Seq<char>) {
        reveal_strlit("Z");
        assert("Z"@ =~= seq!['Z']);
    }
}

impl Declared for i8 {
    open spec fn declared() -> Mapped {
        Mapped::Prim('B')
    }

    proof fn mirrors(class: Seq<char>) {
        reveal_strlit("B");
        assert("B"@ =~= seq!['B']);
    }
}

impl Declared for u8 {
    open spec fn declared() -> Mapped {
        Mapped::Prim('B')
    }

    proof fn mirrors(class: Seq<char>) {
        reveal_strlit("B");
        assert("B"@ =~= seq!['B']);
    }
}

impl Declared for i16 {
    open spec fn declared() -> Mapped {
        Mapped::Prim('S')
    }

    proof fn mirrors(class: Seq<char>) {
        reveal_strlit("S");
        assert("S"@ =~= seq!['S']);
    }
}

impl Declared for i32 {
    open spec fn declared() -> Mapped {
        Mapped::Prim('I')
    }

    proof fn mirrors(class: Seq<char>) {
        reveal_strlit("I");
        assert("I"@ =~= seq!['I']);
    }
}

impl Declared for i64 {
    open spec fn declared() -> Mapped {
        Mapped::Prim('J')
    }

    proof fn mirrors(class: Seq<char>) {
        reveal_strlit("J");
        assert("J"@ =~= seq!['J']);
    }
}

impl Declared for FloatBits {
    open spec fn declared() -> Mapped {
        Mapped::Prim('F')
    }

    proof fn mirrors(class: Seq<char>) {
        reveal_strlit("F");
        assert("F"@ =~= seq!['F']);
    }
}

impl Declared for DoubleBits {
    open spec fn declared() -> Mapped {
        Mapped::Prim('D')
    }

    proof fn mirrors(class: Seq<char>) {
        reveal_strlit("D");
        assert("D"@ =~= seq!['D']);
    }
}

impl Declared for char {
    open spec fn declared() -> Mapped {
        Mapped::Prim('C')
    }

    proof fn mirrors(class: Seq<char>) {
        reveal_strlit("C");
        assert("C"@ =~= seq!['C']);
    }
}

impl Declared for String {
    open spec fn declared() -> Mapped {
        Mapped::Str
    }

    proof fn mirrors(class: Seq<char>) {
    }
}

impl Declared for JObject {
    open spec fn declared() -> Mapped {
        Mapped::Object
    }

    proof fn mirrors(class: Seq<char>) {
    }
}

impl Named for bool {
    open spec fn rust_name() -> Seq<char> {
        "bool"@
    }

    proof fn is_declared_by_name() {
        names_differ();
    }
}

impl DeclaredElement for bool {
    proof fn element_mirrors() {
    }
}

impl Named for i8 {
    open spec fn rust_name() -> Seq<char> {
        "i8"@
    }

    proof fn is_declared_by_name() {
        names_differ();
    }
}

impl DeclaredElement for i8 {
    proof fn element_mirrors() {
    }
}

impl Named for u8 {
    open spec fn rust_name() -> Seq<char> {
        "u8"@
    }

    proof fn is_declared_by_name() {
        names_differ();
    }
}

impl DeclaredElement for u8 {
    proof fn element_mirrors() {
    }
}

impl Named for i16 {
    open spec fn rust_name() -> Seq<char> {
        "i16"@
    }

    proof fn is_declared_by_name() {
        names_differ();
    }
}

impl DeclaredElement for i16 {
    proof fn element_mirrors() {
    }
}

impl Named for i32 {
    open spec fn rust_name() -> Seq<char> {
        "i32"@
    }

    proof fn is_declared_by_name() {
        names_differ();
    }
}

impl DeclaredElement for i32 {
    proof fn element_mirrors() {
    }
}

impl Named for i64 {
    open spec fn rust_name() -> Seq<char> {
        "i64"@
    }

    proof fn is_declared_by_name() {
        names_differ();
    }
}

impl DeclaredElement for i64 {
    proof fn element_mirrors() {
    }
}

impl Named for FloatBits {
    open spec fn rust_name() -> Seq<char> {
        "f32"@
    }

    proof fn is_declared_by_name() {
        names_differ();
    }
}

impl DeclaredElement for FloatBits {
    proof fn element_mirrors() {
    }
}

impl Named for DoubleBits {
    open spec fn rust_name() -> Seq<char> {
        "f64"@
    }

    proof fn is_declared_by_name() {
        names_differ();
    }
}

impl DeclaredElement for DoubleBits {
    proof fn element_mirrors() {
    }
}

impl Named for char {
    open spec fn rust_name() -> Seq<char> {
        "char"@
    }

    proof fn is_declared_by_name() {
        names_differ();
    }
}

impl DeclaredElement for char {
    proof fn element_mirrors() {
    }
}

impl Named for String {
    open spec fn rust_name() -> Seq<char> {
        "String"@
    }

    proof fn is_declared_by_name() {
        names_differ();
    }
}

impl DeclaredElement for String {
    proof fn element_mirrors() {
    }
}

impl Named for JObject {
    open spec fn rust_name() -> Seq<char> {
        "JObject"@
    }

    proof fn is_declared_by_name() {
        names_differ();
    }
}

impl DeclaredElement for JObject {
    proof fn element_mirrors() {
    }
}

impl<T: Declared> Declared for Option<T> {
    open spec fn declared() -> Mapped {
        Mapped::OptionOf(Box::new(T::declared()))
    }

    proof fn mirrors(class: Seq<char>) {
        T::mirrors(class);
    }
}

impl<T: DeclaredElement> Declared for Vec<T> {
    open spec fn declared() -> Mapped {
        Mapped::VecOf(Box::new(T::declared()))
    }

    proof fn mirrors(class: Seq<char>) {
        T::mirrors(class);
        T::element_mirrors();
    }
}

impl<T: DeclaredElement> DeclaredElement for Option<T> {
    proof fn element_mirrors() {
        T::element_mirrors();
    }
}

/// The JNI signatures that the macros compute from declared types are made of the
/// fragments that the conversions of these types use at run time.
pub proof fn signatures_mirror_conversions<T: Declared>(class: Seq<char>)
    ensures
        fragment(T::declared(), class) == T::return_type(),
{
    T::mirrors(class);
}

}
