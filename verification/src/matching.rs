use vstd::prelude::*;

use crate::mapping::primitive_name;
use crate::names::is_primitive;
use crate::signature::is_primitive_letter;
use crate::text::same;
use crate::value::{arg_letter, JavaArg};

verus! {

/// The letter of a primitive type, from its name.
pub open spec fn letter_of(name: Seq<char>) -> Option<char> {
    if name == "boolean"@ {
        Some('Z')
    } else if name == "byte"@ {
        Some('B')
    } else if name == "char"@ {
        Some('C')
    } else if name == "short"@ {
        Some('S')
    } else if name == "int"@ {
        Some('I')
    } else if name == "long"@ {
        Some('J')
    } else if name == "float"@ {
        Some('F')
    } else if name == "double"@ {
        Some('D')
    } else {
        None
    }
}

/// The letter of a primitive type, from its name.
pub fn primitive_letter(name: &str) -> (c: Option<char>)
    ensures
        c == letter_of(name@),
        c matches Some(l) ==> is_primitive_letter(l),
{
    if same(name, "boolean") {
        Some('Z')
    } else if same(name, "byte") {
        Some('B')
    } else if same(name, "char") {
        Some('C')
    } else if same(name, "short") {
        Some('S')
    } else if same(name, "int") {
        Some('I')
    } else if same(name, "long") {
        Some('J')
    } else if same(name, "float") {
        Some('F')
    } else if same(name, "double") {
        Some('D')
    } else {
        None
    }
}

/// The wrapper class of a primitive letter.
pub open spec fn wrapper(c: char) -> Seq<char> {
    if c == 'Z' {
        "java.lang.Boolean"@
    } else if c == 'B' {
        "java.lang.Byte"@
    } else if c == 'C' {
        "java.lang.Character"@
    } else if c == 'S' {
        "java.lang.Short"@
    } else if c == 'I' {
        "java.lang.Integer"@
    } else if c == 'J' {
        "java.lang.Long"@
    } else if c == 'F' {
        "java.lang.Float"@
    } else {
        "java.lang.Double"@
    }
}

/// The wrapper class of a primitive letter.
pub fn wrapper_class(c: char) -> (s: &'static str)
    requires
        is_primitive_letter(c),
    ensures
        s@ == wrapper(c),
{
    match c {
        'Z' => "java.lang.Boolean",
        'B' => "java.lang.Byte",
        'C' => "java.lang.Character",
        'S' => "java.lang.Short",
        'I' => "java.lang.Integer",
        'J' => "java.lang.Long",
        'F' => "java.lang.Float",
        _ => "java.lang.Double",
    }
}

/// The method that reads the primitive out of a wrapper object.
pub open spec fn reader(c: char) -> Seq<char> {
    if c == 'Z' {
        "booleanValue"@
    } else if c == 'B' {
        "byteValue"@
    } else if c == 'C' {
        "charValue"@
    } else if c == 'S' {
        "shortValue"@
    } else if c == 'I' {
        "intValue"@
    } else if c == 'J' {
        "longValue"@
    } else if c == 'F' {
        "floatValue"@
    } else {
        "doubleValue"@
    }
}

/// The method that reads the primitive out of a wrapper object. It takes nothing and
/// returns the primitive.
pub fn reader_method(c: char) -> (s: &'static str)
    requires
        is_primitive_letter(c),
    ensures
        s@ == reader(c),
{
    match c {
        'Z' => "booleanValue",
        'B' => "byteValue",
        'C' => "charValue",
        'S' => "shortValue",
        'I' => "intValue",
        'J' => "longValue",
        'F' => "floatValue",
        _ => "doubleValue",
    }
}

/// Whether a primitive can be boxed for a parameter of that class: a wrapper class, or
/// `Object`, which type parameters are erased to.
pub open spec fn boxable(param: Seq<char>) -> bool {
    ||| param == "java.lang.Object"@
    ||| param == "java.lang.Boolean"@
    ||| param == "java.lang.Byte"@
    ||| param == "java.lang.Character"@
    ||| param == "java.lang.Short"@
    ||| param == "java.lang.Integer"@
    ||| param == "java.lang.Long"@
    ||| param == "java.lang.Float"@
    ||| param == "java.lang.Double"@
}

/// Whether a primitive can be boxed for a parameter of that class.
pub fn is_boxable_param_class(param: &str) -> (r: bool)
    ensures
        r == boxable(param@),
{
    same(param, "java.lang.Object") || same(param, "java.lang.Boolean") || same(
        param,
        "java.lang.Byte",
    ) || same(param, "java.lang.Character") || same(param, "java.lang.Short") || same(
        param,
        "java.lang.Integer",
    ) || same(param, "java.lang.Long") || same(param, "java.lang.Float") || same(
        param,
        "java.lang.Double",
    )
}

/// How an argument meets a parameter, as far as the two themselves tell.
#[derive(Clone, Copy, PartialEq, Eq, Structural, Debug)]
pub enum Fit {
    /// The argument goes as it is.
    Exact,
    /// The argument goes as a wrapper object.
    Boxed,
    /// An object: its class decides.
    ByClass,
    /// The argument does not go.
    Never,
}

/// How an argument meets a parameter of that class. A primitive goes to its own type or
/// is boxed; null goes to any reference and to no primitive.
pub open spec fn fit(arg: JavaArg, param: Seq<char>) -> Fit {
    match arg_letter(arg) {
        Some(c) => if param == primitive_name(c) {
            Fit::Exact
        } else if boxable(param) {
            Fit::Boxed
        } else {
            Fit::Never
        },
        None => if arg == JavaArg::Object(None) {
            if is_primitive(param) {
                Fit::Never
            } else {
                Fit::Exact
            }
        } else {
            Fit::ByClass
        },
    }
}

/// How an argument meets a parameter, as far as the two themselves tell.
pub fn arg_matches_param(arg: &JavaArg, param: &str) -> (f: Fit)
    ensures
        f == fit(*arg, param@),
{
    match arg.letter() {
        Some(c) => if same(param, crate::mapping::prim_binary_name(c)) {
            Fit::Exact
        } else if is_boxable_param_class(param) {
            Fit::Boxed
        } else {
            Fit::Never
        },
        None => match arg {
            JavaArg::Object(None) => if crate::names::is_primitive_name(param) {
                Fit::Never
            } else {
                Fit::Exact
            },
            _ => Fit::ByClass,
        },
    }
}

/// The letter that an object of the class `class` unboxes to for the parameter: only the
/// exact wrapper of a primitive parameter unboxes, and nothing widens.
pub open spec fn unboxes(param: Seq<char>, class: Seq<char>) -> Option<char> {
    match letter_of(param) {
        Some(c) => if class == wrapper(c) {
            Some(c)
        } else {
            None
        },
        None => None,
    }
}

/// The letter that an object of that class unboxes to for the parameter.
pub fn unbox_primitive(param: &str, class: &str) -> (c: Option<char>)
    ensures
        c == unboxes(param@, class@),
        c matches Some(l) ==> is_primitive_letter(l),
{
    match primitive_letter(param) {
        Some(c) => if same(class, wrapper_class(c)) {
            Some(c)
        } else {
            None
        },
        None => None,
    }
}

/// The class whose `valueOf` boxes an argument, with slashes, and the signature of that
/// method.
pub open spec fn boxing(c: char) -> (Seq<char>, Seq<char>) {
    let class = crate::text::replaced(wrapper(c), '.', '/');
    (class, "("@ + seq![c] + ")L"@ + class + ";"@)
}

/// The class whose `valueOf` boxes a primitive argument, and the signature of that
/// method; `None` for an object, which is not boxed.
pub fn box_primitive(arg: &JavaArg) -> (r: Option<(String, String)>)
    ensures
        match (r, arg_letter(*arg)) {
            (Some((class, sig)), Some(c)) => (class@, sig@) == boxing(c),
            (None, None) => true,
            _ => false,
        },
{
    match arg.letter() {
        None => None,
        Some(c) => {
            let class = crate::text::replace_char(wrapper_class(c), '.', '/');
            let mut sig = "(".to_owned();
            let ghost before = sig@;
            sig.push(c);
            assert(sig@ =~= before + seq![c]);
            sig.push_str(")L");
            sig.push_str(class.as_str());
            sig.push_str(";");
            Some((class, sig))
        },
    }
}

/// Each of the eight primitive names has one letter, and it leads back to the name.
pub proof fn letters_name_primitives(name: Seq<char>)
    ensures
        letter_of(name) is Some <==> is_primitive(name),
        letter_of(name) matches Some(c) ==> is_primitive_letter(c) && primitive_name(c) == name,
{
}

/// Null never meets a primitive parameter, whatever else is tried.
pub proof fn null_is_no_primitive(param: Seq<char>)
    requires
        is_primitive(param),
    ensures
        fit(JavaArg::Object(None), param) == Fit::Never,
{
}

/// A primitive argument meets exactly one primitive parameter type: nothing widens.
pub proof fn primitives_do_not_widen(arg: JavaArg, param: Seq<char>)
    requires
        arg_letter(arg) is Some,
        is_primitive(param),
    ensures
        fit(arg, param) == (if letter_of(param) == arg_letter(arg) {
            Fit::Exact
        } else {
            Fit::Never
        }),
{
    reveal_strlit("boolean");
    reveal_strlit("byte");
    reveal_strlit("char");
    reveal_strlit("short");
    reveal_strlit("int");
    reveal_strlit("long");
    reveal_strlit("float");
    reveal_strlit("double");
    reveal_strlit("java.lang.Object");
    reveal_strlit("java.lang.Boolean");
    reveal_strlit("java.lang.Byte");
    reveal_strlit("java.lang.Character");
    reveal_strlit("java.lang.Short");
    reveal_strlit("java.lang.Integer");
    reveal_strlit("java.lang.Long");
    reveal_strlit("java.lang.Float");
    reveal_strlit("java.lang.Double");
    assert("boolean"@.len() == 7 && "byte"@.len() == 4 && "char"@.len() == 4 && "short"@.len() == 5
        && "int"@.len() == 3 && "long"@.len() == 4 && "float"@.len() == 5 && "double"@.len() == 6);
    assert("byte"@[0] == 'b' && "char"@[0] == 'c' && "long"@[0] == 'l');
    assert("short"@[0] == 's' && "float"@[0] == 'f');
    assert("java.lang.Object"@.len() > 7 && "java.lang.Boolean"@.len() > 7 && "java.lang.Byte"@.len()
        > 7 && "java.lang.Character"@.len() > 7 && "java.lang.Short"@.len() > 7
        && "java.lang.Integer"@.len() > 7 && "java.lang.Long"@.len() > 7 && "java.lang.Float"@.len()
        > 7 && "java.lang.Double"@.len() > 7);
}

/// The eight primitive types, each with its letter, its wrapper class, the method that
/// reads it out of the wrapper, and the way into the wrapper. There are no others.
pub proof fn the_primitive_types_are_known(name: Seq<char>, c: char)
    ensures
        letter_of("boolean"@) == Some('Z'),
        primitive_name('Z') == "boolean"@,
        wrapper('Z') == "java.lang.Boolean"@,
        reader('Z') == "booleanValue"@,
        boxing('Z') == ("java/lang/Boolean"@, "(Z)Ljava/lang/Boolean;"@),
        boxable("java.lang.Boolean"@),
        is_primitive_letter('Z'),
        letter_of("byte"@) == Some('B'),
        primitive_name('B') == "byte"@,
        wrapper('B') == "java.lang.Byte"@,
        reader('B') == "byteValue"@,
        boxing('B') == ("java/lang/Byte"@, "(B)Ljava/lang/Byte;"@),
        boxable("java.lang.Byte"@),
        is_primitive_letter('B'),
        letter_of("char"@) == Some('C'),
        primitive_name('C') == "char"@,
        wrapper('C') == "java.lang.Character"@,
        reader('C') == "charValue"@,
        boxing('C') == ("java/lang/Character"@, "(C)Ljava/lang/Character;"@),
        boxable("java.lang.Character"@),
        is_primitive_letter('C'),
        letter_of("short"@) == Some('S'),
        primitive_name('S') == "short"@,
        wrapper('S') == "java.lang.Short"@,
        reader('S') == "shortValue"@,
        boxing('S') == ("java/lang/Short"@, "(S)Ljava/lang/Short;"@),
        boxable("java.lang.Short"@),
        is_primitive_letter('S'),
        letter_of("int"@) == Some('I'),
        primitive_name('I') == "int"@,
        wrapper('I') == "java.lang.Integer"@,
        reader('I') == "intValue"@,
        boxing('I') == ("java/lang/Integer"@, "(I)Ljava/lang/Integer;"@),
        boxable("java.lang.Integer"@),
        is_primitive_letter('I'),
        letter_of("long"@) == Some('J'),
        primitive_name('J') == "long"@,
        wrapper('J') == "java.lang.Long"@,
        reader('J') == "longValue"@,
        boxing('J') == ("java/lang/Long"@, "(J)Ljava/lang/Long;"@),
        boxable("java.lang.Long"@),
        is_primitive_letter('J'),
        letter_of("float"@) == Some('F'),
        primitive_name('F') == "float"@,
        wrapper('F') == "java.lang.Float"@,
        reader('F') == "floatValue"@,
        boxing('F') == ("java/lang/Float"@, "(F)Ljava/lang/Float;"@),
        boxable("java.lang.Float"@),
        is_primitive_letter('F'),
        letter_of("double"@) == Some('D'),
        primitive_name('D') == "double"@,
        wrapper('D') == "java.lang.Double"@,
        reader('D') == "doubleValue"@,
        boxing('D') == ("java/lang/Double"@, "(D)Ljava/lang/Double;"@),
        boxable("java.lang.Double"@),
        is_primitive_letter('D'),
        letter_of(name) is Some <==> name == "boolean"@ || name == "byte"@ || name == "char"@ || name
            == "short"@ || name == "int"@ || name == "long"@ || name == "float"@ || name
            == "double"@,
        is_primitive_letter(c) <==> c == 'Z' || c == 'B' || c == 'C' || c == 'S' || c == 'I' || c
            == 'J' || c == 'F' || c == 'D',
{
    reveal_strlit("boolean");
    reveal_strlit("byte");
    reveal_strlit("char");
    reveal_strlit("short");
    reveal_strlit("int");
    reveal_strlit("long");
    reveal_strlit("float");
    reveal_strlit("double");
    reveal_strlit("java.lang.Boolean");
    reveal_strlit("java/lang/Boolean");
    reveal_strlit("(Z)Ljava/lang/Boolean;");
    reveal_strlit("java.lang.Byte");
    reveal_strlit("java/lang/Byte");
    reveal_strlit("(B)Ljava/lang/Byte;");
    reveal_strlit("java.lang.Character");
    reveal_strlit("java/lang/Character");
    reveal_strlit("(C)Ljava/lang/Character;");
    reveal_strlit("java.lang.Short");
    reveal_strlit("java/lang/Short");
    reveal_strlit("(S)Ljava/lang/Short;");
    reveal_strlit("java.lang.Integer");
    reveal_strlit("java/lang/Integer");
    reveal_strlit("(I)Ljava/lang/Integer;");
    reveal_strlit("java.lang.Long");
    reveal_strlit("java/lang/Long");
    reveal_strlit("(J)Ljava/lang/Long;");
    reveal_strlit("java.lang.Float");
    reveal_strlit("java/lang/Float");
    reveal_strlit("(F)Ljava/lang/Float;");
    reveal_strlit("java.lang.Double");
    reveal_strlit("java/lang/Double");
    reveal_strlit("(D)Ljava/lang/Double;");
    reveal_strlit("(");
    reveal_strlit(")L");
    reveal_strlit(";");
    assert("boolean"@.len() == 7 && "byte"@.len() == 4 && "char"@.len() == 4 && "short"@.len() == 5
        && "int"@.len() == 3 && "long"@.len() == 4 && "float"@.len() == 5 && "double"@.len() == 6);
    assert("byte"@[0] == 'b' && "char"@[0] == 'c' && "long"@[0] == 'l');
    assert("short"@[0] == 's' && "float"@[0] == 'f');
    assert(crate::text::replaced("java.lang.Boolean"@, '.', '/') =~= "java/lang/Boolean"@);
    assert("("@ + seq!['Z'] + ")L"@ + "java/lang/Boolean"@ + ";"@ =~= "(Z)Ljava/lang/Boolean;"@);
    assert(crate::text::replaced("java.lang.Byte"@, '.', '/') =~= "java/lang/Byte"@);
    assert("("@ + seq!['B'] + ")L"@ + "java/lang/Byte"@ + ";"@ =~= "(B)Ljava/lang/Byte;"@);
    assert(crate::text::replaced("java.lang.Character"@, '.', '/') =~= "java/lang/Character"@);
    assert("("@ + seq!['C'] + ")L"@ + "java/lang/Character"@ + ";"@ =~= "(C)Ljava/lang/Character;"@);
    assert(crate::text::replaced("java.lang.Short"@, '.', '/') =~= "java/lang/Short"@);
    assert("("@ + seq!['S'] + ")L"@ + "java/lang/Short"@ + ";"@ =~= "(S)Ljava/lang/Short;"@);
    assert(crate::text::replaced("java.lang.Integer"@, '.', '/') =~= "java/lang/Integer"@);
    assert("("@ + seq!['I'] + ")L"@ + "java/lang/Integer"@ + ";"@ =~= "(I)Ljava/lang/Integer;"@);
    assert(crate::text::replaced("java.lang.Long"@, '.', '/') =~= "java/lang/Long"@);
    assert("("@ + seq!['J'] + ")L"@ + "java/lang/Long"@ + ";"@ =~= "(J)Ljava/lang/Long;"@);
    assert(crate::text::replaced("java.lang.Float"@, '.', '/') =~= "java/lang/Float"@);
    assert("("@ + seq!['F'] + ")L"@ + "java/lang/Float"@ + ";"@ =~= "(F)Ljava/lang/Float;"@);
    assert(crate::text::replaced("java.lang.Double"@, '.', '/') =~= "java/lang/Double"@);
    assert("("@ + seq!['D'] + ")L"@ + "java/lang/Double"@ + ";"@ =~= "(D)Ljava/lang/Double;"@);
}

/// How an argument meets a parameter: a primitive goes as it is to its own type, into a
/// wrapper to any wrapper class and to `Object`, and nowhere else; null goes to every type
/// that is no primitive; and of an object its class decides.
pub proof fn arguments_meet_their_parameters(arg: JavaArg, param: Seq<char>, o: u64)
    ensures
        arg_letter(arg) matches Some(c) ==> {
            &&& fit(arg, param) == Fit::Exact <==> param == primitive_name(c)
            &&& fit(arg, param) == Fit::Boxed <==> param != primitive_name(c) && (param
                == "java.lang.Object"@ || param == "java.lang.Boolean"@ || param
                == "java.lang.Byte"@ || param == "java.lang.Character"@ || param
                == "java.lang.Short"@ || param == "java.lang.Integer"@ || param
                == "java.lang.Long"@ || param == "java.lang.Float"@ || param
                == "java.lang.Double"@)
            &&& fit(arg, param) != Fit::ByClass
        },
        fit(JavaArg::Object(None), param) == Fit::Never <==> letter_of(param) is Some,
        fit(JavaArg::Object(None), param) == Fit::Exact <==> letter_of(param) is None,
        fit(JavaArg::Object(Some(o)), param) == Fit::ByClass,
{
    letters_name_primitives(param);
}

/// A wrapper object unboxes for the parameter of its own primitive type, and for no other;
/// no other object unboxes.
pub proof fn only_the_own_wrapper_unboxes(param: Seq<char>, class: Seq<char>)
    ensures
        unboxes(param, class) matches Some(c) ==> letter_of(param) == Some(c) && class == wrapper(
            c,
        ),
        letter_of(param) matches Some(c) ==> (class == wrapper(c) ==> unboxes(param, class) == Some(
            c,
        )),
{
}

}
