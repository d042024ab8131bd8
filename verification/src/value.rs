use vstd::prelude::*;

verus! {

/// A reference to a Java object: null, or the number under which it is held.
pub type ObjectRef = Option<u64>;

/// An argument of a Java call. A float is held by its bits.
#[derive(Clone, Copy, PartialEq, Eq, Structural, Debug)]
pub enum JavaArg {
    Object(ObjectRef),
    Bool(bool),
    Byte(i8),
    Char(u16),
    Short(i16),
    Int(i32),
    Long(i64),
    Float(u32),
    Double(u64),
}

/// A value that came back from Java. A float is held by its bits.
#[derive(Clone, Copy, PartialEq, Eq, Structural, Debug)]
pub enum JavaValue {
    Void,
    Object(ObjectRef),
    Bool(bool),
    Byte(i8),
    Char(u16),
    Short(i16),
    Int(i32),
    Long(i64),
    Float(u32),
    Double(u64),
}

/// The letter of a primitive argument.
pub open spec fn arg_letter(a: JavaArg) -> Option<char> {
    match a {
        JavaArg::Object(_) => None,
        JavaArg::Bool(_) => Some('Z'),
        JavaArg::Byte(_) => Some('B'),
        JavaArg::Char(_) => Some('C'),
        JavaArg::Short(_) => Some('S'),
        JavaArg::Int(_) => Some('I'),
        JavaArg::Long(_) => Some('J'),
        JavaArg::Float(_) => Some('F'),
        JavaArg::Double(_) => Some('D'),
    }
}

/// A primitive value as an argument.
pub open spec fn value_arg(v: JavaValue) -> Option<JavaArg> {
    match v {
        JavaValue::Bool(x) => Some(JavaArg::Bool(x)),
        JavaValue::Byte(x) => Some(JavaArg::Byte(x)),
        JavaValue::Char(x) => Some(JavaArg::Char(x)),
        JavaValue::Short(x) => Some(JavaArg::Short(x)),
        JavaValue::Int(x) => Some(JavaArg::Int(x)),
        JavaValue::Long(x) => Some(JavaArg::Long(x)),
        JavaValue::Float(x) => Some(JavaArg::Float(x)),
        JavaValue::Double(x) => Some(JavaArg::Double(x)),
        _ => None,
    }
}

/// An argument as the value that a call hands over.
pub open spec fn arg_value(a: JavaArg) -> JavaValue {
    match a {
        JavaArg::Object(o) => JavaValue::Object(o),
        JavaArg::Bool(x) => JavaValue::Bool(x),
        JavaArg::Byte(x) => JavaValue::Byte(x),
        JavaArg::Char(x) => JavaValue::Char(x),
        JavaArg::Short(x) => JavaValue::Short(x),
        JavaArg::Int(x) => JavaValue::Int(x),
        JavaArg::Long(x) => JavaValue::Long(x),
        JavaArg::Float(x) => JavaValue::Float(x),
        JavaArg::Double(x) => JavaValue::Double(x),
    }
}

impl JavaArg {
    /// Whether the argument is a primitive, not an object reference.
    pub fn is_primitive_arg(&self) -> (r: bool)
        ensures
            r == arg_letter(*self) is Some,
    {
        match self {
            JavaArg::Object(_) => false,
            _ => true,
        }
    }

    /// The letter of a primitive argument.
    pub fn letter(&self) -> (c: Option<char>)
        ensures
            c == arg_letter(*self),
            c matches Some(l) ==> crate::signature::is_primitive_letter(l),
    {
        match self {
            JavaArg::Object(_) => None,
            JavaArg::Bool(_) => Some('Z'),
            JavaArg::Byte(_) => Some('B'),
            JavaArg::Char(_) => Some('C'),
            JavaArg::Short(_) => Some('S'),
            JavaArg::Int(_) => Some('I'),
            JavaArg::Long(_) => Some('J'),
            JavaArg::Float(_) => Some('F'),
            JavaArg::Double(_) => Some('D'),
        }
    }
}

/// The value that a call hands over for an argument.
pub fn to_jvalue(arg: &JavaArg) -> (v: JavaValue)
    ensures
        v == arg_value(*arg),
{
    match arg {
        JavaArg::Object(o) => JavaValue::Object(*o),
        JavaArg::Bool(x) => JavaValue::Bool(*x),
        JavaArg::Byte(x) => JavaValue::Byte(*x),
        JavaArg::Char(x) => JavaValue::Char(*x),
        JavaArg::Short(x) => JavaValue::Short(*x),
        JavaArg::Int(x) => JavaValue::Int(*x),
        JavaArg::Long(x) => JavaValue::Long(*x),
        JavaArg::Float(x) => JavaValue::Float(*x),
        JavaArg::Double(x) => JavaValue::Double(*x),
    }
}

/// A primitive value as an argument.
pub fn primitive_arg(v: &JavaValue) -> (a: Option<JavaArg>)
    ensures
        a == value_arg(*v),
{
    match v {
        JavaValue::Bool(x) => Some(JavaArg::Bool(*x)),
        JavaValue::Byte(x) => Some(JavaArg::Byte(*x)),
        JavaValue::Char(x) => Some(JavaArg::Char(*x)),
        JavaValue::Short(x) => Some(JavaArg::Short(*x)),
        JavaValue::Int(x) => Some(JavaArg::Int(*x)),
        JavaValue::Long(x) => Some(JavaArg::Long(*x)),
        JavaValue::Float(x) => Some(JavaArg::Float(*x)),
        JavaValue::Double(x) => Some(JavaArg::Double(*x)),
        _ => None,
    }
}

/// Handing a primitive over and taking it back changes nothing.
pub proof fn primitives_survive_the_call(a: JavaArg)
    requires
        arg_letter(a) is Some,
    ensures
        value_arg(arg_value(a)) == Some(a),
{
}

}
