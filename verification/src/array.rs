use vstd::prelude::*;

use crate::error::{misuse, ErrorModel, JavaError};
use crate::value::{JavaArg, JavaValue, ObjectRef};

verus! {

/// The element type of a primitive Java array.
#[derive(Clone, Copy, PartialEq, Eq, Structural, Debug)]
pub enum ArrayKind {
    Bool,
    Byte,
    Char,
    Short,
    Int,
    Long,
    Float,
    Double,
}

/// The Java array that a whole vector converts to.
#[derive(Clone, Copy, PartialEq, Eq, Structural, Debug)]
pub enum VecKind {
    /// A primitive array.
    Primitive(ArrayKind),
    /// An array of references.
    Object,
    /// A `byte[]` that holds the bit patterns of `u8` values.
    U8,
}

/// The contents of a primitive Java array. Floats are held by their bits.
#[derive(Debug)]
pub enum Region {
    Bool(Vec<bool>),
    Byte(Vec<i8>),
    Char(Vec<u16>),
    Short(Vec<i16>),
    Int(Vec<i32>),
    Long(Vec<i64>),
    Float(Vec<u32>),
    Double(Vec<u64>),
}

/// The mathematical content of a [`Region`].
pub struct RegionModel {
    pub kind: ArrayKind,
    pub values: Seq<JavaValue>,
}

/// The element type of a value, if it is a primitive.
pub open spec fn value_kind(v: JavaValue) -> Option<ArrayKind> {
    match v {
        JavaValue::Bool(_) => Some(ArrayKind::Bool),
        JavaValue::Byte(_) => Some(ArrayKind::Byte),
        JavaValue::Char(_) => Some(ArrayKind::Char),
        JavaValue::Short(_) => Some(ArrayKind::Short),
        JavaValue::Int(_) => Some(ArrayKind::Int),
        JavaValue::Long(_) => Some(ArrayKind::Long),
        JavaValue::Float(_) => Some(ArrayKind::Float),
        JavaValue::Double(_) => Some(ArrayKind::Double),
        _ => None,
    }
}

/// The element type of a region.
pub open spec fn region_kind(r: Region) -> ArrayKind {
    match r {
        Region::Bool(_) => ArrayKind::Bool,
        Region::Byte(_) => ArrayKind::Byte,
        Region::Char(_) => ArrayKind::Char,
        Region::Short(_) => ArrayKind::Short,
        Region::Int(_) => ArrayKind::Int,
        Region::Long(_) => ArrayKind::Long,
        Region::Float(_) => ArrayKind::Float,
        Region::Double(_) => ArrayKind::Double,
    }
}

/// The elements of a region.
pub open spec fn region_values(r: Region) -> Seq<JavaValue> {
    match r {
        Region::Bool(v) => Seq::new(v@.len(), |i: int| JavaValue::Bool(v@[i])),
        Region::Byte(v) => Seq::new(v@.len(), |i: int| JavaValue::Byte(v@[i])),
        Region::Char(v) => Seq::new(v@.len(), |i: int| JavaValue::Char(v@[i])),
        Region::Short(v) => Seq::new(v@.len(), |i: int| JavaValue::Short(v@[i])),
        Region::Int(v) => Seq::new(v@.len(), |i: int| JavaValue::Int(v@[i])),
        Region::Long(v) => Seq::new(v@.len(), |i: int| JavaValue::Long(v@[i])),
        Region::Float(v) => Seq::new(v@.len(), |i: int| JavaValue::Float(v@[i])),
        Region::Double(v) => Seq::new(v@.len(), |i: int| JavaValue::Double(v@[i])),
    }
}

impl View for Region {
    type V = RegionModel;

    open spec fn view(&self) -> RegionModel {
        RegionModel { kind: region_kind(*self), values: region_values(*self) }
    }
}

/// What holds of the contents of every region: each element has the element type.
pub open spec fn is_region(m: RegionModel) -> bool {
    forall|i: int|
        0 <= i < m.values.len() ==> value_kind(#[trigger] m.values[i]) == Some(m.kind)
}

impl Region {
    /// The element type.
    pub fn kind(&self) -> (k: ArrayKind)
        ensures
            k == self@.kind,
    {
        match self {
            Region::Bool(_) => ArrayKind::Bool,
            Region::Byte(_) => ArrayKind::Byte,
            Region::Char(_) => ArrayKind::Char,
            Region::Short(_) => ArrayKind::Short,
            Region::Int(_) => ArrayKind::Int,
            Region::Long(_) => ArrayKind::Long,
            Region::Float(_) => ArrayKind::Float,
            Region::Double(_) => ArrayKind::Double,
        }
    }

    /// The number of elements.
    pub fn len(&self) -> (n: usize)
        ensures
            n == self@.values.len(),
    {
        match self {
            Region::Bool(v) => v.len(),
            Region::Byte(v) => v.len(),
            Region::Char(v) => v.len(),
            Region::Short(v) => v.len(),
            Region::Int(v) => v.len(),
            Region::Long(v) => v.len(),
            Region::Float(v) => v.len(),
            Region::Double(v) => v.len(),
        }
    }

    /// The element at `i`.
    pub fn value_at(&self, i: usize) -> (v: JavaValue)
        requires
            i < self@.values.len(),
        ensures
            v == self@.values[i as int],
    {
        match self {
            Region::Bool(v) => JavaValue::Bool(v[i]),
            Region::Byte(v) => JavaValue::Byte(v[i]),
            Region::Char(v) => JavaValue::Char(v[i]),
            Region::Short(v) => JavaValue::Short(v[i]),
            Region::Int(v) => JavaValue::Int(v[i]),
            Region::Long(v) => JavaValue::Long(v[i]),
            Region::Float(v) => JavaValue::Float(v[i]),
            Region::Double(v) => JavaValue::Double(v[i]),
        }
    }

    /// A region of that element type without elements.
    pub fn empty(kind: ArrayKind) -> (r: Region)
        ensures
            r@ == (RegionModel { kind, values: Seq::empty() }),
    {
        let r = match kind {
            ArrayKind::Bool => Region::Bool(Vec::new()),
            ArrayKind::Byte => Region::Byte(Vec::new()),
            ArrayKind::Char => Region::Char(Vec::new()),
            ArrayKind::Short => Region::Short(Vec::new()),
            ArrayKind::Int => Region::Int(Vec::new()),
            ArrayKind::Long => Region::Long(Vec::new()),
            ArrayKind::Float => Region::Float(Vec::new()),
            ArrayKind::Double => Region::Double(Vec::new()),
        };
        assert(r@.values =~= Seq::empty());
        r
    }

    /// The region with one more element, which has the element type.
    fn with(self, v: JavaValue) -> (r: Region)
        requires
            value_kind(v) == Some(self@.kind),
        ensures
            r@ == (RegionModel { kind: self@.kind, values: self@.values.push(v) }),
    {
        let ghost before = self@;
        let r = match (self, v) {
            (Region::Bool(mut e), JavaValue::Bool(x)) => {
                e.push(x);
                Region::Bool(e)
            },
            (Region::Byte(mut e), JavaValue::Byte(x)) => {
                e.push(x);
                Region::Byte(e)
            },
            (Region::Char(mut e), JavaValue::Char(x)) => {
                e.push(x);
                Region::Char(e)
            },
            (Region::Short(mut e), JavaValue::Short(x)) => {
                e.push(x);
                Region::Short(e)
            },
            (Region::Int(mut e), JavaValue::Int(x)) => {
                e.push(x);
                Region::Int(e)
            },
            (Region::Long(mut e), JavaValue::Long(x)) => {
                e.push(x);
                Region::Long(e)
            },
            (Region::Float(mut e), JavaValue::Float(x)) => {
                e.push(x);
                Region::Float(e)
            },
            (Region::Double(mut e), JavaValue::Double(x)) => {
                e.push(x);
                Region::Double(e)
            },
            (other, _) => other,
        };
        assert(r@.values =~= before.values.push(v));
        r
    }
}

/// Every region holds elements of its element type.
pub proof fn regions_are_uniform(r: Region)
    ensures
        is_region(r@),
{
}

/// The letter of an element type.
pub open spec fn kind_letter(k: ArrayKind) -> char {
    match k {
        ArrayKind::Bool => 'Z',
        ArrayKind::Byte => 'B',
        ArrayKind::Char => 'C',
        ArrayKind::Short => 'S',
        ArrayKind::Int => 'I',
        ArrayKind::Long => 'J',
        ArrayKind::Float => 'F',
        ArrayKind::Double => 'D',
    }
}

/// Whether an argument can be an element of an array of that element type.
pub open spec fn is_element(arg: JavaArg, kind: ArrayKind) -> bool {
    value_kind(crate::value::arg_value(arg)) == Some(kind)
}

fn fits(arg: &JavaArg, kind: ArrayKind) -> (r: bool)
    ensures
        r == is_element(*arg, kind),
{
    match (arg, kind) {
        (JavaArg::Bool(_), ArrayKind::Bool) => true,
        (JavaArg::Byte(_), ArrayKind::Byte) => true,
        (JavaArg::Char(_), ArrayKind::Char) => true,
        (JavaArg::Short(_), ArrayKind::Short) => true,
        (JavaArg::Int(_), ArrayKind::Int) => true,
        (JavaArg::Long(_), ArrayKind::Long) => true,
        (JavaArg::Float(_), ArrayKind::Float) => true,
        (JavaArg::Double(_), ArrayKind::Double) => true,
        _ => false,
    }
}

/// The message where one of the elements to fill an array with has another type.
pub open spec fn fill_fault(kind: ArrayKind) -> Seq<char> {
    match kind {
        ArrayKind::Bool => "expected all elements to be booleans"@,
        ArrayKind::Byte => "expected all elements to be bytes"@,
        ArrayKind::Char => "expected all elements to be chars"@,
        ArrayKind::Short => "expected all elements to be shorts"@,
        ArrayKind::Int => "expected all elements to be ints"@,
        ArrayKind::Long => "expected all elements to be longs"@,
        ArrayKind::Float => "expected all elements to be floats"@,
        ArrayKind::Double => "expected all elements to be doubles"@,
    }
}

fn fill_message(kind: ArrayKind) -> (s: &'static str)
    ensures
        s@ == fill_fault(kind),
{
    match kind {
        ArrayKind::Bool => "expected all elements to be booleans",
        ArrayKind::Byte => "expected all elements to be bytes",
        ArrayKind::Char => "expected all elements to be chars",
        ArrayKind::Short => "expected all elements to be shorts",
        ArrayKind::Int => "expected all elements to be ints",
        ArrayKind::Long => "expected all elements to be longs",
        ArrayKind::Float => "expected all elements to be floats",
        ArrayKind::Double => "expected all elements to be doubles",
    }
}

/// The values that arguments hand over.
pub open spec fn arg_values(args: Seq<JavaArg>) -> Seq<JavaValue> {
    Seq::new(args.len(), |i: int| crate::value::arg_value(args[i]))
}

/// The contents of an array that is filled with the arguments: every argument has the
/// element type.
pub open spec fn filled(kind: ArrayKind, args: Seq<JavaArg>) -> Result<RegionModel, ErrorModel> {
    if forall|i: int| 0 <= i < args.len() ==> is_element(#[trigger] args[i], kind) {
        Ok(RegionModel { kind, values: arg_values(args) })
    } else {
        Err(misuse(fill_fault(kind)))
    }
}

/// The contents of an array that is filled with the arguments.
pub fn fill_primitive_array(kind: ArrayKind, args: &Vec<JavaArg>) -> (r: Result<
    Region,
    JavaError,
>)
    ensures
        match r {
            Ok(region) => filled(kind, args@) == Ok::<RegionModel, ErrorModel>(region@),
            Err(e) => filled(kind, args@) == Err::<RegionModel, ErrorModel>(e@),
        },
{
    let mut region = Region::empty(kind);
    let mut i: usize = 0;
    assert(arg_values(args@).take(0) =~= Seq::empty());
    while i < args.len()
        invariant
            i <= args@.len(),
            region@ == (RegionModel { kind, values: arg_values(args@).take(i as int) }),
            forall|k: int| 0 <= k < i ==> is_element(#[trigger] args@[k], kind),
        decreases args@.len() - i,
    {
        if !fits(&args[i], kind) {
            assert(!is_element(args@[i as int], kind));
            return Err(JavaError::InvalidArgument(fill_message(kind)));
        }
        region = region.with(crate::value::to_jvalue(&args[i]));
        i += 1;
        assert(arg_values(args@).take(i as int) =~= arg_values(args@).take(i - 1).push(
            crate::value::arg_value(args@[i - 1]),
        ));
    }
    assert(arg_values(args@).take(i as int) =~= arg_values(args@));
    Ok(region)
}

/// The message where a value to store in an array has another type.
pub open spec fn element_fault(kind: ArrayKind) -> Seq<char> {
    match kind {
        ArrayKind::Bool => "expected a boolean array element"@,
        ArrayKind::Byte => "expected a byte array element"@,
        ArrayKind::Char => "expected a char array element"@,
        ArrayKind::Short => "expected a short array element"@,
        ArrayKind::Int => "expected an int array element"@,
        ArrayKind::Long => "expected a long array element"@,
        ArrayKind::Float => "expected a float array element"@,
        ArrayKind::Double => "expected a double array element"@,
    }
}

fn element_message(kind: ArrayKind) -> (s: &'static str)
    ensures
        s@ == element_fault(kind),
{
    match kind {
        ArrayKind::Bool => "expected a boolean array element",
        ArrayKind::Byte => "expected a byte array element",
        ArrayKind::Char => "expected a char array element",
        ArrayKind::Short => "expected a short array element",
        ArrayKind::Int => "expected an int array element",
        ArrayKind::Long => "expected a long array element",
        ArrayKind::Float => "expected a float array element",
        ArrayKind::Double => "expected a double array element",
    }
}

/// The one-element region that stores an argument in an array of that element type.
pub open spec fn stored(kind: ArrayKind, arg: JavaArg) -> Result<RegionModel, ErrorModel> {
    if is_element(arg, kind) {
        Ok(RegionModel { kind, values: seq![crate::value::arg_value(arg)] })
    } else {
        Err(misuse(element_fault(kind)))
    }
}

/// The one-element region that stores an argument in an array of that element type.
pub fn array_set(kind: ArrayKind, arg: &JavaArg) -> (r: Result<Region, JavaError>)
    ensures
        match r {
            Ok(region) => stored(kind, *arg) == Ok::<RegionModel, ErrorModel>(region@),
            Err(e) => stored(kind, *arg) == Err::<RegionModel, ErrorModel>(e@),
        },
{
    if fits(arg, kind) {
        let r = Region::empty(kind).with(crate::value::to_jvalue(arg));
        assert(r@.values =~= seq![crate::value::arg_value(*arg)]);
        Ok(r)
    } else {
        Err(JavaError::InvalidArgument(element_message(kind)))
    }
}

/// The value that a one-element read of an array gives.
pub fn array_get(region: &Region) -> (v: Option<JavaValue>)
    ensures
        v == (if region@.values.len() == 1 {
            Some(region@.values[0])
        } else {
            None
        }),
        v matches Some(x) ==> value_kind(x) == Some(region@.kind),
{
    proof {
        regions_are_uniform(*region);
    }
    if region.len() == 1 {
        Some(region.value_at(0))
    } else {
        None
    }
}

/// The index that an array access hands to the virtual machine, which checks it against
/// the bounds. An index that no Java array has becomes a negative one.
pub open spec fn java_index(index: int) -> int {
    if index <= i32::MAX {
        index
    } else if index <= u32::MAX {
        index - 0x1_0000_0000
    } else {
        -1
    }
}

/// The index that an array access hands to the virtual machine.
pub fn region_start(index: usize) -> (i: i32)
    ensures
        i == java_index(index as int),
{
    if index as u64 <= 0x7fff_ffffu64 {
        index as i32
    } else if index as u64 <= 0xffff_ffffu64 {
        let k: i64 = index as i64 - 0x1_0000_0000i64;
        k as i32
    } else {
        -1
    }
}

/// No two indexes of one Java array collide, and none that is too large for every array
/// comes out as the index of an element.
pub proof fn indexes_are_kept_apart(a: int, b: int)
    requires
        0 <= a <= usize::MAX,
        0 <= b <= usize::MAX,
    ensures
        java_index(a) >= 0 <==> a <= i32::MAX,
        java_index(a) >= 0 && java_index(a) == java_index(b) ==> a == b,
{
}

/// The error where an object is not an array of the element type that was asked for.
pub fn validate_array_kind(is_array: bool) -> (r: Result<(), JavaError>)
    ensures
        match r {
            Ok(()) => is_array,
            Err(e) => !is_array && e@ == misuse(
                "the returned Java object is not an array of the annotated element type"@,
            ),
        },
{
    if is_array {
        Ok(())
    } else {
        Err(
            JavaError::InvalidArgument(
                "the returned Java object is not an array of the annotated element type",
            ),
        )
    }
}

/// The elements of an object array, none of which is null.
pub open spec fn required(elements: Seq<ObjectRef>) -> Result<Seq<u64>, ErrorModel> {
    if forall|i: int| 0 <= i < elements.len() ==> (#[trigger] elements[i]) is Some {
        Ok(Seq::new(elements.len(), |i: int| elements[i]->0))
    } else {
        Err(misuse("array element is null; use to_vec_options to accept null elements"@))
    }
}

/// The elements of an object array, none of which may be null.
pub fn to_vec_required(elements: &Vec<ObjectRef>) -> (r: Result<Vec<u64>, JavaError>)
    ensures
        match r {
            Ok(v) => required(elements@) == Ok::<Seq<u64>, ErrorModel>(v@),
            Err(e) => required(elements@) == Err::<Seq<u64>, ErrorModel>(e@),
        },
{
    let mut out: Vec<u64> = Vec::new();
    let mut i: usize = 0;
    while i < elements.len()
        invariant
            i <= elements@.len(),
            out@.len() == i,
            forall|k: int| 0 <= k < i ==> elements@[k] == Some(#[trigger] out@[k]),
        decreases elements@.len() - i,
    {
        match elements[i] {
            Some(o) => out.push(o),
            None => {
                assert(elements@[i as int] is None);
                return Err(
                    JavaError::InvalidArgument(
                        "array element is null; use to_vec_options to accept null elements",
                    ),
                );
            },
        }
        i += 1;
    }
    proof {
        assert forall|k: int| 0 <= k < elements@.len() implies (#[trigger] elements@[k]) is Some by {
            assert(elements@[k] == Some(out@[k]));
        }
        assert(out@ =~= Seq::new(elements@.len(), |k: int| elements@[k]->0));
    }
    Ok(out)
}

/// The class name of an object array's elements, as a class lookup takes it.
pub open spec fn lookup_name(class: Seq<char>) -> Seq<char> {
    if class.contains('/') {
        class
    } else {
        crate::text::replaced(class, '.', '/')
    }
}

/// The class name of an object array's elements, as a class lookup takes it: a dotted
/// name, a name with slashes, or an array descriptor.
pub fn element_class_name(class: &str) -> (s: String)
    ensures
        s@ == lookup_name(class@),
{
    if crate::text::contains_char(class, '/') {
        class.to_owned()
    } else {
        crate::text::replace_char(class, '.', '/')
    }
}

/// An array that is filled with arguments holds each of them in its place, and is refused
/// where one of them is of another type; storing one argument stores that argument.
pub proof fn arrays_hold_what_they_are_given(
    kind: ArrayKind,
    args: Seq<JavaArg>,
    i: int,
    letter: char,
)
    requires
        0 <= i < args.len(),
        letter == kind_letter(kind),
    ensures
        filled(kind, args) matches Ok(m) ==> m.kind == kind && m.values.len() == args.len()
            && m.values[i] == crate::value::arg_value(args[i]),
        filled(kind, args) is Ok ==> crate::value::arg_letter(args[i]) == Some(letter),
        (forall|k: int|
            0 <= k < args.len() ==> crate::value::arg_letter(#[trigger] args[k]) == Some(letter))
            ==> filled(kind, args) is Ok,
        stored(kind, args[i]) is Ok <==> crate::value::arg_letter(args[i]) == Some(letter),
        stored(kind, args[i]) matches Ok(m) ==> m.kind == kind && m.values.len() == 1
            && m.values[0] == crate::value::arg_value(args[i]),
{
    if forall|k: int|
        0 <= k < args.len() ==> crate::value::arg_letter(#[trigger] args[k]) == Some(letter) {
        assert forall|k: int| 0 <= k < args.len() implies is_element(#[trigger] args[k], kind) by {
            assert(crate::value::arg_letter(args[k]) == Some(letter));
        }
    }
    if filled(kind, args) is Ok {
        assert(is_element(args[i], kind));
    }
}

/// Each element type has its own letter, which is the one that Java gives it.
pub proof fn element_types_have_their_letters(v: JavaValue, k: ArrayKind)
    ensures
        kind_letter(ArrayKind::Bool) == 'Z' && kind_letter(ArrayKind::Byte) == 'B',
        kind_letter(ArrayKind::Char) == 'C' && kind_letter(ArrayKind::Short) == 'S',
        kind_letter(ArrayKind::Int) == 'I' && kind_letter(ArrayKind::Long) == 'J',
        kind_letter(ArrayKind::Float) == 'F' && kind_letter(ArrayKind::Double) == 'D',
        value_kind(v) == Some(k) <==> (match (v, k) {
            (JavaValue::Bool(_), ArrayKind::Bool) => true,
            (JavaValue::Byte(_), ArrayKind::Byte) => true,
            (JavaValue::Char(_), ArrayKind::Char) => true,
            (JavaValue::Short(_), ArrayKind::Short) => true,
            (JavaValue::Int(_), ArrayKind::Int) => true,
            (JavaValue::Long(_), ArrayKind::Long) => true,
            (JavaValue::Float(_), ArrayKind::Float) => true,
            (JavaValue::Double(_), ArrayKind::Double) => true,
            _ => false,
        }),
{
}

/// An index of a Java array is handed over as it is.
pub proof fn indexes_are_handed_over(index: int)
    requires
        0 <= index <= i32::MAX,
    ensures
        java_index(index) == index,
{
}

/// The elements that are read from an object array are those of the array, in order, and a
/// null among them is the only reason to refuse it.
pub proof fn elements_are_read_in_order(elements: Seq<ObjectRef>, objects: Seq<u64>)
    ensures
        required(elements) == Ok::<Seq<u64>, ErrorModel>(objects) ==> objects.len()
            == elements.len() && forall|i: int|
            0 <= i < elements.len() ==> #[trigger] elements[i] == Some(objects[i]),
        elements.contains(None) ==> required(elements) is Err,
        elements.len() == objects.len() && (forall|i: int|
            0 <= i < elements.len() ==> #[trigger] elements[i] == Some(objects[i])) ==> required(
            elements,
        ) == Ok::<Seq<u64>, ErrorModel>(objects),
{
    if elements.len() == objects.len() && (forall|i: int|
        0 <= i < elements.len() ==> #[trigger] elements[i] == Some(objects[i])) {
        assert(Seq::new(elements.len(), |i: int| elements[i]->0) =~= objects);
    }
}

/// An element class is looked up under its name with slashes; one that has a slash is
/// looked up as it is.
pub proof fn element_classes_are_looked_up_by_name(class: Seq<char>, i: int)
    requires
        0 <= i < class.len(),
    ensures
        lookup_name(class).len() == class.len(),
        class.contains('/') ==> lookup_name(class) == class,
        !class.contains('/') ==> lookup_name(class)[i] == (if class[i] == '.' {
            '/'
        } else {
            class[i]
        }),
{
}

}
