use vstd::prelude::*;

use crate::call::{accessor, accessor_name};
use crate::convert::{one, Outgoing, OutgoingModel, ToJava};
use crate::error::{method_missing, misuse, ErrorModel, JavaError};
use crate::text::{join, joined, replace_char, replaced, same, views};
use crate::value::{JavaArg, JavaValue, ObjectRef};

verus! {

/// A Rust value that maps to the properties of a Java object, and back.
#[derive(Debug)]
pub struct JavaBean<T> {
    /// The value.
    pub value: T,
    /// The class of the object that is written, with dots or slashes. A value that was
    /// read has an empty class here.
    pub class: &'static str,
}

/// The name under which a bean inside another value is serialized.
pub const BEAN_MARKER_STRUCT: &'static str = "JavaBean";

/// The field of a serialized bean that holds its class.
pub const BEAN_MARKER_CLASS_KEY: &'static str = "__rjava_bean_class";

/// The field of a serialized bean that holds its value.
pub const BEAN_MARKER_VALUE_KEY: &'static str = "value";

/// A serialization failure with that message.
pub open spec fn serde_fault(message: Seq<char>) -> ErrorModel {
    ErrorModel::Serde(message)
}

impl<T> JavaBean<T> {
    /// The bean with a value that was read: it names no class.
    pub fn read(value: T) -> (b: Self)
        ensures
            b.value == value,
            b.class@ == Seq::<char>::empty(),
    {
        proof {
            reveal_strlit("");
        }
        let b = JavaBean { value, class: "" };
        assert(b.class@ =~= Seq::empty());
        b
    }

    /// The JNI type fragment of a parameter that the bean is passed for.
    pub fn java_args(&self) -> (s: String)
        ensures
            s@ == "L"@ + replaced(self.class@, '.', '/') + ";"@,
    {
        let mut s = "L".to_owned();
        s.push_str(replace_char(self.class, '.', '/').as_str());
        s.push_str(";");
        s
    }

    /// The JNI type fragment of a method that returns a bean: any object.
    pub fn java_return_type() -> (s: String)
        ensures
            s@ == "Ljava/lang/Object;"@,
    {
        "Ljava/lang/Object;".to_owned()
    }
}

/// A bean whose object has been built: an argument of the bean's class.
#[derive(Debug)]
pub struct BuiltBean {
    /// The class, with dots or slashes.
    pub class: &'static str,
    /// The object, by its number.
    pub id: u64,
}

impl ToJava for BuiltBean {
    open spec fn sent(&self) -> Result<Seq<OutgoingModel>, ErrorModel> {
        Ok(seq![OutgoingModel::Arg(JavaArg::Object(Some(self.id)))])
    }

    open spec fn arg_types(&self) -> Seq<char> {
        "L"@ + replaced(self.class@, '.', '/') + ";"@
    }

    fn to_java(&self) -> (r: Result<Vec<Outgoing>, JavaError>) {
        one(Outgoing::Arg(JavaArg::Object(Some(self.id))))
    }

    fn java_args(&self) -> (s: String) {
        JavaBean { value: self.id, class: self.class }.java_args()
    }
}

/// The error for every value that does not serialize as a struct.
pub fn not_a_struct_ser() -> (e: JavaError)
    ensures
        e@ == serde_fault(
            "JavaBean<T> requires `T` to serialize as a struct — bean properties map one-to-one to named struct fields (scalars, sequences, maps, tuples and enums are not bean shapes)"@,
        ),
{
    JavaError::Serde(
        "JavaBean<T> requires `T` to serialize as a struct — bean properties map one-to-one to named struct fields (scalars, sequences, maps, tuples and enums are not bean shapes)".to_owned(),
    )
}

/// The error for every type that is not read as a struct.
pub fn not_a_struct_de() -> (e: JavaError)
    ensures
        e@ == serde_fault(
            "JavaBean<T> requires `T` to be a struct — bean properties map one-to-one to named struct fields, read through the getters `get<Name>` / `is<Name>` (`x()` on a record)"@,
        ),
{
    JavaError::Serde(
        "JavaBean<T> requires `T` to be a struct — bean properties map one-to-one to named struct fields, read through the getters `get<Name>` / `is<Name>` (`x()` on a record)".to_owned(),
    )
}

/// The object that a bean is read from, which may not be null.
pub fn bean_object(v: &JavaValue) -> (r: Result<u64, JavaError>)
    ensures
        match r {
            Ok(o) => *v == JavaValue::Object(Some(o)),
            Err(e) => !(*v matches JavaValue::Object(Some(_))) && e@ == serde_fault(
                "bean deserialization requires a non-null Java object (got null or a primitive value)"@,
            ),
        },
{
    match v {
        JavaValue::Object(Some(o)) => Ok(*o),
        _ => Err(
            JavaError::Serde(
                "bean deserialization requires a non-null Java object (got null or a primitive value)".to_owned(),
            ),
        ),
    }
}

/// A field of a struct, with its converted value.
#[derive(Debug)]
pub struct Property {
    pub name: String,
    pub value: ObjectRef,
}

/// The mathematical content of a [`Property`].
pub struct PropertyModel {
    pub name: Seq<char>,
    pub value: ObjectRef,
}

impl View for Property {
    type V = PropertyModel;

    open spec fn view(&self) -> PropertyModel {
        PropertyModel { name: self.name@, value: self.value }
    }
}

/// The contents of properties.
pub open spec fn properties(v: Seq<Property>) -> Seq<PropertyModel> {
    Seq::new(v.len(), |i: int| v[i]@)
}

/// Whether a struct of that name, inside a bean, is a bean itself.
pub fn is_bean_marker(name: &str) -> (r: bool)
    ensures
        r == (name@ == BEAN_MARKER_STRUCT@),
{
    same(name, BEAN_MARKER_STRUCT)
}

/// The value of a bean is a struct that is not a bean itself.
pub fn check_captured_struct(name: &str) -> (r: Result<(), JavaError>)
    ensures
        match r {
            Ok(()) => name@ != BEAN_MARKER_STRUCT@,
            Err(e) => name@ == BEAN_MARKER_STRUCT@ && e@ == serde_fault(
                "rjava bean: a `JavaBean<T>` nested directly inside another `JavaBean<T>`'s value is not a bean shape — the value must be a plain struct"@,
            ),
        },
{
    if is_bean_marker(name) {
        Err(
            JavaError::Serde(
                "rjava bean: a `JavaBean<T>` nested directly inside another `JavaBean<T>`'s value is not a bean shape — the value must be a plain struct".to_owned(),
            ),
        )
    } else {
        Ok(())
    }
}

/// What a field of a serialized bean holds.
#[derive(Clone, Copy, PartialEq, Eq, Structural, Debug)]
pub enum MarkerField {
    Class,
    Value,
}

/// What the field of a serialized bean holds, by its name.
pub open spec fn marker_key(key: Seq<char>) -> Result<MarkerField, ErrorModel> {
    if key == BEAN_MARKER_CLASS_KEY@ {
        Ok(MarkerField::Class)
    } else if key == BEAN_MARKER_VALUE_KEY@ {
        Ok(MarkerField::Value)
    } else {
        Err(
            serde_fault(
                "rjava bean: internal error — the `JavaBean` marker struct emitted an unknown field `"@
                    + key + "`"@,
            ),
        )
    }
}

/// What the field of a serialized bean holds, by its name.
pub fn marker_field(key: &str) -> (r: Result<MarkerField, JavaError>)
    ensures
        crate::error::outcome(r) == marker_key(key@),
{
    if same(key, BEAN_MARKER_CLASS_KEY) {
        Ok(MarkerField::Class)
    } else if same(key, BEAN_MARKER_VALUE_KEY) {
        Ok(MarkerField::Value)
    } else {
        let mut m =
            "rjava bean: internal error — the `JavaBean` marker struct emitted an unknown field `".to_owned();
        m.push_str(key);
        m.push_str("`");
        Err(JavaError::Serde(m))
    }
}

/// The class of a bean that was serialized.
pub fn marker_class(class: Option<String>) -> (r: Result<String, JavaError>)
    ensures
        match (r, class) {
            (Ok(s), Some(c)) => s == c,
            (Err(e), None) => e@ == serde_fault(
                "rjava bean: internal error — the `JavaBean` marker struct is missing its `__rjava_bean_class` field"@,
            ),
            _ => false,
        },
{
    match class {
        Some(c) => Ok(c),
        None => Err(
            JavaError::Serde(
                "rjava bean: internal error — the `JavaBean` marker struct is missing its `__rjava_bean_class` field".to_owned(),
            ),
        ),
    }
}

/// Whether a class is a record, from what `Class.isRecord()` gave. A virtual machine
/// without that method has no records.
pub open spec fn is_record(r: Result<JavaValue, ErrorModel>) -> Result<bool, ErrorModel> {
    match r {
        Ok(JavaValue::Bool(b)) => Ok(b),
        Ok(_) => Err(misuse("internal error: Class.isRecord() did not return a boolean"@)),
        Err(e) => if method_missing(e) || (e matches ErrorModel::JavaException { class, .. } && class
            == "java.lang.NoSuchMethodError"@) {
            Ok(false)
        } else {
            Err(e)
        },
    }
}

/// Whether a class is a record, from what `Class.isRecord()` gave.
pub fn is_record_class(r: Result<JavaValue, JavaError>) -> (b: Result<bool, JavaError>)
    ensures
        crate::error::outcome(b) == is_record(crate::error::outcome(r)),
{
    match r {
        Ok(JavaValue::Bool(b)) => Ok(b),
        Ok(_) => Err(
            JavaError::InvalidArgument(
                "internal error: Class.isRecord() did not return a boolean",
            ),
        ),
        Err(e) => {
            if e.is_method_not_found() {
                return Ok(false);
            }
            if let JavaError::JavaException { class, .. } = &e {
                if same(class.as_str(), "java.lang.NoSuchMethodError") {
                    return Ok(false);
                }
            }
            Err(e)
        },
    }
}

/// What has to be done next to build a bean object.
#[derive(Debug)]
pub enum BeanAsk {
    /// Find the class of that name.
    Find(String),
    /// What does `Class.isRecord()` give?
    IsRecord,
    /// What are the names of the record's components, in order?
    Components,
    /// Construct an object with these arguments.
    Construct(Vec<JavaArg>),
    /// Call that setter of the object with the value of the field, which stands at that
    /// position.
    Assign { object: u64, field: String, setter: String, at: usize },
}

/// An answer to a [`BeanAsk`].
#[derive(Debug)]
pub enum BeanReply {
    Found(Result<(), JavaError>),
    IsRecord(Result<JavaValue, JavaError>),
    Components(Result<Vec<String>, JavaError>),
    Constructed(Result<u64, JavaError>),
    Assign(Result<JavaValue, JavaError>),
}

/// What an answer leads to.
#[derive(Debug)]
pub enum BeanStep {
    Ask(BeanAsk),
    /// The object.
    Done(Result<u64, JavaError>),
}

/// The mathematical content of a [`BeanAsk`].
pub enum BeanAskModel {
    Find(Seq<char>),
    IsRecord,
    Components,
    Construct(Seq<JavaArg>),
    Assign { object: u64, field: Seq<char>, setter: Seq<char>, at: int },
}

/// The mathematical content of a [`BeanReply`].
pub enum BeanReplyModel {
    Found(Result<(), ErrorModel>),
    IsRecord(Result<JavaValue, ErrorModel>),
    Components(Result<Seq<Seq<char>>, ErrorModel>),
    Constructed(Result<u64, ErrorModel>),
    Assign(Result<JavaValue, ErrorModel>),
}

/// The mathematical content of a [`BeanStep`].
pub enum BeanStepModel {
    Ask(BeanAskModel),
    Done(Result<u64, ErrorModel>),
}

impl View for BeanAsk {
    type V = BeanAskModel;

    open spec fn view(&self) -> BeanAskModel {
        match self {
            BeanAsk::Find(s) => BeanAskModel::Find(s@),
            BeanAsk::IsRecord => BeanAskModel::IsRecord,
            BeanAsk::Components => BeanAskModel::Components,
            BeanAsk::Construct(v) => BeanAskModel::Construct(v@),
            BeanAsk::Assign { object, field, setter, at } => BeanAskModel::Assign {
                object: *object,
                field: field@,
                setter: setter@,
                at: *at as int,
            },
        }
    }
}

impl View for BeanReply {
    type V = BeanReplyModel;

    open spec fn view(&self) -> BeanReplyModel {
        match self {
            BeanReply::Found(r) => BeanReplyModel::Found(crate::error::outcome(*r)),
            BeanReply::IsRecord(r) => BeanReplyModel::IsRecord(crate::error::outcome(*r)),
            BeanReply::Components(Ok(v)) => BeanReplyModel::Components(Ok(views(v@))),
            BeanReply::Components(Err(e)) => BeanReplyModel::Components(Err(e@)),
            BeanReply::Constructed(r) => BeanReplyModel::Constructed(crate::error::outcome(*r)),
            BeanReply::Assign(r) => BeanReplyModel::Assign(crate::error::outcome(*r)),
        }
    }
}

impl View for BeanStep {
    type V = BeanStepModel;

    open spec fn view(&self) -> BeanStepModel {
        match self {
            BeanStep::Ask(a) => BeanStepModel::Ask(a@),
            BeanStep::Done(r) => BeanStepModel::Done(crate::error::outcome(*r)),
        }
    }
}

/// An object that is built of properties.
#[derive(Debug)]
pub struct BeanBuild {
    class: String,
    pairs: Vec<Property>,
    /// Whether the class is a record.
    record: bool,
}

/// The mathematical content of a [`BeanBuild`].
pub struct BuildModel {
    pub class: Seq<char>,
    pub pairs: Seq<PropertyModel>,
    pub record: bool,
}

impl View for BeanBuild {
    type V = BuildModel;

    closed spec fn view(&self) -> BuildModel {
        BuildModel { class: self.class@, pairs: properties(self.pairs@), record: self.record }
    }
}

/// The names of properties.
pub open spec fn names(pairs: Seq<PropertyModel>) -> Seq<Seq<char>> {
    Seq::new(pairs.len(), |i: int| pairs[i].name)
}

/// The values of properties, as arguments.
pub open spec fn values(pairs: Seq<PropertyModel>) -> Seq<JavaArg> {
    Seq::new(pairs.len(), |i: int| JavaArg::Object(pairs[i].value))
}

/// The end, with a failure.
pub open spec fn bean_failed(e: ErrorModel) -> BeanStepModel {
    BeanStepModel::Done(Err(e))
}

/// On to the setter of the property at `i`, if there is one.
pub open spec fn set_from(m: BuildModel, object: u64, i: int) -> BeanStepModel {
    if i < m.pairs.len() {
        BeanStepModel::Ask(
            BeanAskModel::Assign {
                object,
                field: m.pairs[i].name,
                setter: accessor("set"@, m.pairs[i].name),
                at: i,
            },
        )
    } else {
        BeanStepModel::Done(Ok(object))
    }
}

/// The message where a property has no setter for its value.
pub open spec fn no_setter(class: Seq<char>, field: Seq<char>) -> Seq<char> {
    "rjava bean `"@ + class + "`: no setter for property `"@ + field
        + "` accepting the serialized value (tried `"@ + accessor("set"@, field)
        + "` — the setter must be a public method whose parameter type accepts the value: a boxed primitive does not widen to a wider primitive, and `null` only matches a reference parameter)"@
}

/// The message where the fields are not the components of a record.
pub open spec fn wrong_order(
    class: Seq<char>,
    components: Seq<Seq<char>>,
    fields: Seq<Seq<char>>,
) -> Seq<char> {
    "rjava bean `"@ + class
        + "` is a Java record: the Rust struct's field order must match the record's component order (components: "@
        + joined(components, ", "@) + ") but the struct serialized fields: "@ + joined(
        fields,
        ", "@,
    )
}

/// What an answer leads to. An answer to another question leaves the question open.
pub open spec fn bean_next(m: BuildModel, ask: BeanAskModel, reply: BeanReplyModel) -> (
    BuildModel,
    BeanStepModel,
) {
    match (ask, reply) {
        (BeanAskModel::Find(_), BeanReplyModel::Found(r)) => match r {
            Ok(()) => (m, BeanStepModel::Ask(BeanAskModel::IsRecord)),
            Err(e) => (m, bean_failed(e)),
        },
        (BeanAskModel::IsRecord, BeanReplyModel::IsRecord(r)) => match is_record(r) {
            Ok(true) => (
                BuildModel { record: true, ..m },
                BeanStepModel::Ask(BeanAskModel::Components),
            ),
            Ok(false) => (
                BuildModel { record: false, ..m },
                BeanStepModel::Ask(BeanAskModel::Construct(Seq::empty())),
            ),
            Err(e) => (m, bean_failed(e)),
        },
        (BeanAskModel::Components, BeanReplyModel::Components(r)) => match r {
            Ok(components) => if components == names(m.pairs) {
                (m, BeanStepModel::Ask(BeanAskModel::Construct(values(m.pairs))))
            } else {
                (m, bean_failed(serde_fault(wrong_order(m.class, components, names(m.pairs)))))
            },
            Err(e) => (m, bean_failed(e)),
        },
        (BeanAskModel::Construct(_), BeanReplyModel::Constructed(r)) => match r {
            Ok(object) => if m.record {
                (m, BeanStepModel::Done(Ok(object)))
            } else {
                (m, set_from(m, object, 0))
            },
            Err(e) => (m, bean_failed(e)),
        },
        (BeanAskModel::Assign { object, field, setter, at }, BeanReplyModel::Assign(r)) => match r {
            Ok(_) => (m, set_from(m, object, at + 1)),
            Err(ErrorModel::InvalidArgument(_)) => (
                m,
                bean_failed(serde_fault(no_setter(m.class, field))),
            ),
            Err(e) => (m, bean_failed(e)),
        },
        _ => (m, BeanStepModel::Ask(ask)),
    }
}

fn same_names(components: &Vec<String>, pairs: &Vec<Property>) -> (r: bool)
    ensures
        r == (views(components@) == names(properties(pairs@))),
{
    if components.len() != pairs.len() {
        assert(views(components@).len() != names(properties(pairs@)).len());
        return false;
    }
    let mut i: usize = 0;
    while i < components.len()
        invariant
            i <= components@.len(),
            components@.len() == pairs@.len(),
            forall|k: int| 0 <= k < i ==> components@[k]@ == pairs@[k].name@,
        decreases components@.len() - i,
    {
        if !same(components[i].as_str(), pairs[i].name.as_str()) {
            assert(views(components@)[i as int] != names(properties(pairs@))[i as int]);
            return false;
        }
        i += 1;
    }
    assert(views(components@) =~= names(properties(pairs@)));
    true
}

fn names_of(pairs: &Vec<Property>) -> (v: Vec<String>)
    ensures
        views(v@) == names(properties(pairs@)),
{
    let mut v: Vec<String> = Vec::new();
    let mut i: usize = 0;
    while i < pairs.len()
        invariant
            i <= pairs@.len(),
            v@.len() == i,
            forall|k: int| 0 <= k < i ==> v@[k]@ == pairs@[k].name@,
        decreases pairs@.len() - i,
    {
        v.push(pairs[i].name.as_str().to_owned());
        i += 1;
    }
    assert(views(v@) =~= names(properties(pairs@)));
    v
}

fn values_of(pairs: &Vec<Property>) -> (v: Vec<JavaArg>)
    ensures
        v@ == values(properties(pairs@)),
{
    let mut v: Vec<JavaArg> = Vec::new();
    let mut i: usize = 0;
    while i < pairs.len()
        invariant
            i <= pairs@.len(),
            v@.len() == i,
            forall|k: int| 0 <= k < i ==> v@[k] == JavaArg::Object(pairs@[k].value),
        decreases pairs@.len() - i,
    {
        v.push(JavaArg::Object(pairs[i].value));
        i += 1;
    }
    assert(v@ =~= values(properties(pairs@)));
    v
}

impl BeanBuild {
    /// An object of that class, with dots or slashes in its name, that is built of the
    /// fields of a struct.
    pub fn build_bean(class: String, pairs: Vec<Property>) -> (b: BeanBuild)
        ensures
            b@ == (BuildModel { class: class@, pairs: properties(pairs@), record: false }),
    {
        BeanBuild { class, pairs, record: false }
    }

    /// The first step: the class has to be found.
    pub fn start(&self) -> (s: BeanStep)
        ensures
            s@ == BeanStepModel::Ask(BeanAskModel::Find(replaced(self@.class, '.', '/'))),
    {
        BeanStep::Ask(BeanAsk::Find(replace_char(self.class.as_str(), '.', '/')))
    }

    fn set_next(&self, object: u64, i: usize) -> (s: BeanStep)
        ensures
            s@ == set_from(self@, object, i as int),
    {
        if i < self.pairs.len() {
            BeanStep::Ask(
                BeanAsk::Assign {
                    object,
                    field: self.pairs[i].name.as_str().to_owned(),
                    setter: accessor_name("set", self.pairs[i].name.as_str()),
                    at: i,
                },
            )
        } else {
            BeanStep::Done(Ok(object))
        }
    }

    fn setter_error(&self, field: &str) -> (e: JavaError)
        ensures
            e@ == serde_fault(no_setter(self@.class, field@)),
    {
        let mut m = "rjava bean `".to_owned();
        m.push_str(self.class.as_str());
        m.push_str("`: no setter for property `");
        m.push_str(field);
        m.push_str("` accepting the serialized value (tried `");
        m.push_str(accessor_name("set", field).as_str());
        m.push_str(
            "` — the setter must be a public method whose parameter type accepts the value: a boxed primitive does not widen to a wider primitive, and `null` only matches a reference parameter)",
        );
        JavaError::Serde(m)
    }

    fn order_error(&self, components: &Vec<String>) -> (e: JavaError)
        ensures
            e@ == serde_fault(
                wrong_order(self@.class, views(components@), names(self@.pairs)),
            ),
    {
        let mut m = "rjava bean `".to_owned();
        m.push_str(self.class.as_str());
        m.push_str(
            "` is a Java record: the Rust struct's field order must match the record's component order (components: ",
        );
        m.push_str(join(components, ", ").as_str());
        m.push_str(") but the struct serialized fields: ");
        m.push_str(join(&names_of(&self.pairs), ", ").as_str());
        JavaError::Serde(m)
    }

    /// What an answer leads to.
    pub fn answered(&mut self, ask: BeanAsk, reply: BeanReply) -> (s: BeanStep)
        ensures
            (final(self)@, s@) == bean_next(old(self)@, ask@, reply@),
    {
        match (ask, reply) {
            (BeanAsk::Find(_), BeanReply::Found(r)) => match r {
                Ok(()) => BeanStep::Ask(BeanAsk::IsRecord),
                Err(e) => BeanStep::Done(Err(e)),
            },
            (BeanAsk::IsRecord, BeanReply::IsRecord(r)) => match is_record_class(r) {
                Ok(true) => {
                    self.record = true;
                    BeanStep::Ask(BeanAsk::Components)
                },
                Ok(false) => {
                    self.record = false;
                    let none: Vec<JavaArg> = Vec::new();
                    assert(none@ =~= Seq::empty());
                    BeanStep::Ask(BeanAsk::Construct(none))
                },
                Err(e) => BeanStep::Done(Err(e)),
            },
            (BeanAsk::Components, BeanReply::Components(r)) => match r {
                Ok(components) => if same_names(&components, &self.pairs) {
                    BeanStep::Ask(BeanAsk::Construct(values_of(&self.pairs)))
                } else {
                    BeanStep::Done(Err(self.order_error(&components)))
                },
                Err(e) => BeanStep::Done(Err(e)),
            },
            (BeanAsk::Construct(_), BeanReply::Constructed(r)) => match r {
                Ok(object) => if self.record {
                    BeanStep::Done(Ok(object))
                } else {
                    self.set_next(object, 0)
                },
                Err(e) => BeanStep::Done(Err(e)),
            },
            (BeanAsk::Assign { object, field, setter: _, at }, BeanReply::Assign(r)) => match r {
                Ok(_) => {
                    let n = self.pairs.len();
                    if at < n {
                        self.set_next(object, at + 1)
                    } else {
                        BeanStep::Done(Ok(object))
                    }
                },
                Err(JavaError::InvalidArgument(_)) => BeanStep::Done(
                    Err(self.setter_error(field.as_str())),
                ),
                Err(e) => BeanStep::Done(Err(e)),
            },
            (ask, _) => BeanStep::Ask(ask),
        }
    }
}

/// A record is constructed of the struct's values in their order, and only where the
/// struct's fields are the record's components, in order. No setter is called.
pub proof fn records_take_matching_fields(m: BuildModel, components: Seq<Seq<char>>, object: u64)
    ensures
        bean_next(
            m,
            BeanAskModel::Components,
            BeanReplyModel::Components(Ok(components)),
        ).1 is Ask <==> components == names(m.pairs),
        m.record ==> bean_next(
            m,
            BeanAskModel::Construct(values(m.pairs)),
            BeanReplyModel::Constructed(Ok(object)),
        ).1 == BeanStepModel::Done(Ok(object)),
{
}

/// Every property of a bean is set, in order: after the setter of one comes that of the
/// next, and after the last the object is done.
pub proof fn every_property_is_set(m: BuildModel, object: u64, at: int, v: JavaValue)
    requires
        0 <= at < m.pairs.len(),
    ensures
        bean_next(
            m,
            BeanAskModel::Assign {
                object,
                field: m.pairs[at].name,
                setter: accessor("set"@, m.pairs[at].name),
                at,
            },
            BeanReplyModel::Assign(Ok(v)),
        ).1 == set_from(m, object, at + 1),
        set_from(m, object, m.pairs.len() as int) == BeanStepModel::Done(Ok(object)),
{
}

/// What has to be done next to read a property.
#[derive(Clone, Copy, PartialEq, Eq, Structural, Debug)]
pub enum GetterAsk {
    /// Call `get<Name>`.
    Get,
    /// Call `is<Name>`.
    Is,
    /// Call the accessor of the record's component, which has the property's name.
    Component,
    /// What is the name of the object's class? It is for the error.
    ClassName,
}

/// An answer to a [`GetterAsk`].
#[derive(Debug)]
pub enum GetterReply {
    Called(Result<JavaValue, JavaError>),
    /// The class name, if it could be found out.
    ClassName(Option<String>),
}

/// What an answer leads to.
#[derive(Debug)]
pub enum GetterStep {
    Ask(GetterAsk),
    /// The property's value.
    Done(Result<JavaValue, JavaError>),
}

/// The mathematical content of a [`GetterReply`].
pub enum GetterReplyModel {
    Called(Result<JavaValue, ErrorModel>),
    ClassName(Option<Seq<char>>),
}

/// The mathematical content of a [`GetterStep`].
pub enum GetterStepModel {
    Ask(GetterAsk),
    Done(Result<JavaValue, ErrorModel>),
}

impl View for GetterReply {
    type V = GetterReplyModel;

    open spec fn view(&self) -> GetterReplyModel {
        match self {
            GetterReply::Called(r) => GetterReplyModel::Called(crate::error::outcome(*r)),
            GetterReply::ClassName(Some(s)) => GetterReplyModel::ClassName(Some(s@)),
            GetterReply::ClassName(None) => GetterReplyModel::ClassName(None),
        }
    }
}

impl View for GetterStep {
    type V = GetterStepModel;

    open spec fn view(&self) -> GetterStepModel {
        match self {
            GetterStep::Ask(a) => GetterStepModel::Ask(*a),
            GetterStep::Done(r) => GetterStepModel::Done(crate::error::outcome(*r)),
        }
    }
}

/// The method that is called to read a property.
pub open spec fn getter_method(ask: GetterAsk, field: Seq<char>) -> Option<Seq<char>> {
    match ask {
        GetterAsk::Get => Some(accessor("get"@, field)),
        GetterAsk::Is => Some(accessor("is"@, field)),
        GetterAsk::Component => Some(field),
        GetterAsk::ClassName => None,
    }
}

/// The message where a property has no getter.
pub open spec fn no_getter(field: Seq<char>, class: Option<Seq<char>>, record: bool) -> Seq<char> {
    let getters = "`"@ + accessor("get"@, field) + "` and `"@ + accessor("is"@, field) + "`"@;
    let tried = if record {
        "`"@ + field + "()`, "@ + getters
    } else {
        getters
    };
    let class = match class {
        Some(c) => c,
        None => "<unknown class>"@,
    };
    "rjava bean: no getter for property `"@ + field + "` on "@ + class + " (tried "@ + tried + ")"@
}

/// What an answer leads to, for a property of an object whose class is a record or not. An
/// answer to another question leaves the question open.
pub open spec fn getter_next(
    ask: GetterAsk,
    field: Seq<char>,
    record: bool,
    reply: GetterReplyModel,
) -> GetterStepModel {
    match (ask, reply) {
        (GetterAsk::ClassName, GetterReplyModel::ClassName(class)) => GetterStepModel::Done(
            Err(serde_fault(no_getter(field, class, record))),
        ),
        (GetterAsk::ClassName, _) => GetterStepModel::Ask(ask),
        (_, GetterReplyModel::Called(r)) => match r {
            Ok(v) => GetterStepModel::Done(Ok(v)),
            Err(ErrorModel::InvalidArgument(_)) => GetterStepModel::Ask(
                match ask {
                    GetterAsk::Get => GetterAsk::Is,
                    GetterAsk::Is => if record {
                        GetterAsk::Component
                    } else {
                        GetterAsk::ClassName
                    },
                    _ => GetterAsk::ClassName,
                },
            ),
            Err(e) => GetterStepModel::Done(Err(e)),
        },
        _ => GetterStepModel::Ask(ask),
    }
}

fn getter_error(field: &str, class: Option<String>, record: bool) -> (e: JavaError)
    ensures
        e@ == serde_fault(
            no_getter(
                field@,
                match class {
                    Some(s) => Some(s@),
                    None => None,
                },
                record,
            ),
        ),
{
    let mut tried = String::new();
    if record {
        tried.push_str("`");
        tried.push_str(field);
        tried.push_str("()`, ");
    }
    let ghost start = tried@;
    tried.push_str("`");
    tried.push_str(accessor_name("get", field).as_str());
    tried.push_str("` and `");
    tried.push_str(accessor_name("is", field).as_str());
    tried.push_str("`");
    proof {
        let getters = "`"@ + accessor("get"@, field@) + "` and `"@ + accessor("is"@, field@)
            + "`"@;
        assert(tried@ =~= start + getters);
        if record {
            assert(start =~= "`"@ + field@ + "()`, "@);
        } else {
            assert(tried@ =~= getters);
        }
    }
    let mut m = "rjava bean: no getter for property `".to_owned();
    m.push_str(field);
    m.push_str("` on ");
    match class {
        Some(c) => m.push_str(c.as_str()),
        None => m.push_str("<unknown class>"),
    }
    m.push_str(" (tried ");
    m.push_str(tried.as_str());
    m.push_str(")");
    JavaError::Serde(m)
}

impl GetterAsk {
    /// Starts to read a property.
    pub fn getter_value() -> (a: GetterAsk)
        ensures
            a == GetterAsk::Get,
    {
        GetterAsk::Get
    }

    /// The method to call, if one is to be called.
    pub fn method(&self, field: &str) -> (m: Option<String>)
        ensures
            match (m, getter_method(*self, field@)) {
                (Some(s), Some(t)) => s@ == t,
                (None, None) => true,
                _ => false,
            },
    {
        match self {
            GetterAsk::Get => Some(accessor_name("get", field)),
            GetterAsk::Is => Some(accessor_name("is", field)),
            GetterAsk::Component => Some(field.to_owned()),
            GetterAsk::ClassName => None,
        }
    }

    /// What an answer leads to.
    pub fn answered(self, field: &str, record: bool, reply: GetterReply) -> (s: GetterStep)
        ensures
            s@ == getter_next(self, field@, record, reply@),
    {
        match (self, reply) {
            (GetterAsk::ClassName, GetterReply::ClassName(class)) => GetterStep::Done(
                Err(getter_error(field, class, record)),
            ),
            (GetterAsk::ClassName, _) => GetterStep::Ask(GetterAsk::ClassName),
            (ask, GetterReply::Called(r)) => match r {
                Ok(v) => GetterStep::Done(Ok(v)),
                Err(JavaError::InvalidArgument(_)) => GetterStep::Ask(
                    match ask {
                        GetterAsk::Get => GetterAsk::Is,
                        GetterAsk::Is => if record {
                            GetterAsk::Component
                        } else {
                            GetterAsk::ClassName
                        },
                        _ => GetterAsk::ClassName,
                    },
                ),
                Err(e) => GetterStep::Done(Err(e)),
            },
            (ask, _) => GetterStep::Ask(ask),
        }
    }
}

/// A plain bean is never probed for a method of the property's bare name.
pub proof fn plain_beans_have_no_component_accessors(
    ask: GetterAsk,
    field: Seq<char>,
    reply: GetterReplyModel,
)
    requires
        ask != GetterAsk::Component,
    ensures
        getter_next(ask, field, false, reply) != GetterStepModel::Ask(GetterAsk::Component),
{
}

/// The walk over the fields of a struct while its properties are read.
#[derive(Debug)]
pub struct FieldWalk {
    count: usize,
    index: usize,
}

/// The mathematical content of a [`FieldWalk`].
pub struct WalkModel {
    pub count: int,
    pub index: int,
}

impl View for FieldWalk {
    type V = WalkModel;

    closed spec fn view(&self) -> WalkModel {
        WalkModel { count: self.count as int, index: self.index as int }
    }
}

impl FieldWalk {
    /// A walk over that many fields.
    pub fn new(count: usize) -> (w: FieldWalk)
        ensures
            w@ == (WalkModel { count: count as int, index: 0 }),
    {
        FieldWalk { count, index: 0 }
    }

    /// The field that is read next.
    pub fn next_key(&self) -> (k: Option<usize>)
        ensures
            match k {
                Some(i) => i == self@.index && self@.index < self@.count,
                None => self@.index >= self@.count,
            },
    {
        if self.index >= self.count {
            None
        } else {
            Some(self.index)
        }
    }

    /// The value of the field was read.
    pub fn next_value(&mut self)
        requires
            old(self)@.index < old(self)@.count,
        ensures
            final(self)@ == (WalkModel { index: old(self)@.index + 1, ..old(self)@ }),
    {
        self.index = self.index + 1;
    }

    /// How many fields are left.
    pub fn size_hint(&self) -> (n: usize)
        ensures
            n == (if self@.index <= self@.count {
                self@.count - self@.index
            } else {
                0
            }),
    {
        if self.index <= self.count {
            self.count - self.index
        } else {
            0
        }
    }
}

/// Whichever getter is called, the property's value is exactly what it returned, and a
/// failure other than that there is no such getter is what the read fails with.
pub proof fn getters_give_the_value(
    ask: GetterAsk,
    field: Seq<char>,
    record: bool,
    v: JavaValue,
    e: ErrorModel,
)
    requires
        ask == GetterAsk::Get || ask == GetterAsk::Is || ask == GetterAsk::Component,
    ensures
        getter_next(ask, field, record, GetterReplyModel::Called(Ok(v))) == GetterStepModel::Done(
            Ok(v),
        ),
        !(e is InvalidArgument) ==> getter_next(
            ask,
            field,
            record,
            GetterReplyModel::Called(Err(e)),
        ) == GetterStepModel::Done(Err(e)),
{
}

/// The step that a getter's value leads to, in full: no other step has that content.
pub proof fn getter_steps_are_final(
    ask: GetterAsk,
    field: Seq<char>,
    record: bool,
    v: JavaValue,
    s: GetterStep,
)
    requires
        ask == GetterAsk::Get || ask == GetterAsk::Is || ask == GetterAsk::Component,
        s@ == getter_next(ask, field, record, GetterReply::Called(Ok(v))@),
    ensures
        s == GetterStep::Done(Ok(v)),
{
}

/// A property is looked for in `get<Name>`, then in `is<Name>`, and on a record then in the
/// component of its name; where there is none of them, the read fails and names the
/// property.
pub proof fn getters_are_tried_in_order(
    field: Seq<char>,
    record: bool,
    message: Seq<char>,
    class: Option<Seq<char>>,
)
    ensures
        ({
            let missing = GetterReplyModel::Called(Err(ErrorModel::InvalidArgument(message)));
            &&& getter_next(GetterAsk::Get, field, record, missing) == GetterStepModel::Ask(
                GetterAsk::Is,
            )
            &&& getter_next(GetterAsk::Is, field, true, missing) == GetterStepModel::Ask(
                GetterAsk::Component,
            )
            &&& getter_next(GetterAsk::Is, field, false, missing) == GetterStepModel::Ask(
                GetterAsk::ClassName,
            )
            &&& getter_next(GetterAsk::Component, field, record, missing) == GetterStepModel::Ask(
                GetterAsk::ClassName,
            )
        }),
        getter_method(GetterAsk::Get, field) == Some("get"@ + crate::text::camel(field, true)),
        getter_method(GetterAsk::Is, field) == Some("is"@ + crate::text::camel(field, true)),
        getter_method(GetterAsk::Component, field) == Some(field),
        getter_next(GetterAsk::ClassName, field, record, GetterReplyModel::ClassName(class))
            matches GetterStepModel::Done(Err(ErrorModel::Serde(text))) && exists|rest: Seq<char>|
            text == #[trigger] ("rjava bean: no getter for property `"@ + field + rest),
{
    let getters = "`"@ + accessor("get"@, field) + "` and `"@ + accessor("is"@, field) + "`"@;
    let tried = if record {
        "`"@ + field + "()`, "@ + getters
    } else {
        getters
    };
    let shown = match class {
        Some(c) => c,
        None => "<unknown class>"@,
    };
    let rest = "` on "@ + shown + " (tried "@ + tried + ")"@;
    assert(no_getter(field, class, record) =~= "rjava bean: no getter for property `"@ + field
        + rest);
}

/// A property shows its name and its value, and a list of them shows each in its place.
pub proof fn properties_are_what_they_show(v: Seq<Property>, i: int)
    requires
        0 <= i < v.len(),
    ensures
        properties(v).len() == v.len(),
        properties(v)[i].name == v[i].name@,
        properties(v)[i].value == v[i].value,
        names(properties(v)).len() == v.len() && names(properties(v))[i] == v[i].name@,
        values(properties(v)).len() == v.len() && values(properties(v))[i] == JavaArg::Object(
            v[i].value,
        ),
{
}

/// A record is constructed with the values of the struct's fields, one for each component
/// and in order, and the constructed object is the bean.
pub proof fn records_are_constructed_in_order(
    m: BuildModel,
    components: Seq<Seq<char>>,
    object: u64,
    args: Seq<JavaArg>,
)
    ensures
        bean_next(
            m,
            BeanAskModel::IsRecord,
            BeanReplyModel::IsRecord(Ok(JavaValue::Bool(true))),
        ) == (
            BuildModel { class: m.class, pairs: m.pairs, record: true },
            BeanStepModel::Ask(BeanAskModel::Components),
        ),
        components.len() == m.pairs.len() && (forall|i: int|
            0 <= i < m.pairs.len() ==> #[trigger] components[i] == m.pairs[i].name) ==> ({
            let (after, step) = bean_next(
                m,
                BeanAskModel::Components,
                BeanReplyModel::Components(Ok(components)),
            );
            &&& after == m
            &&& step matches BeanStepModel::Ask(BeanAskModel::Construct(given))
            &&& given.len() == m.pairs.len()
            &&& forall|i: int|
                0 <= i < given.len() ==> #[trigger] given[i] == JavaArg::Object(m.pairs[i].value)
        }),
        (exists|i: int|
            0 <= i < components.len() && i < m.pairs.len() && #[trigger] components[i]
                != m.pairs[i].name) || components.len() != m.pairs.len() ==> (bean_next(
            m,
            BeanAskModel::Components,
            BeanReplyModel::Components(Ok(components)),
        ).1 matches BeanStepModel::Done(Err(ErrorModel::Serde(_)))),
        m.record ==> bean_next(
            m,
            BeanAskModel::Construct(args),
            BeanReplyModel::Constructed(Ok(object)),
        ) == (m, BeanStepModel::Done(Ok(object))),
{
    if components.len() == m.pairs.len() && (forall|i: int|
        0 <= i < m.pairs.len() ==> #[trigger] components[i] == m.pairs[i].name) {
        assert(components =~= names(m.pairs));
    }
    if exists|i: int|
        0 <= i < components.len() && i < m.pairs.len() && #[trigger] components[i]
            != m.pairs[i].name {
        let i = choose|i: int|
            0 <= i < components.len() && i < m.pairs.len() && #[trigger] components[i]
                != m.pairs[i].name;
        assert(names(m.pairs)[i] == m.pairs[i].name);
    }
    assert(names(m.pairs).len() == m.pairs.len());
}

/// A plain bean is constructed without arguments, and then each field is set, in order, on
/// that object and with that field's own setter; behind the last the object is the bean. A
/// class whose virtual machine knows no records is a plain bean.
pub proof fn beans_are_set_field_by_field(
    m: BuildModel,
    object: u64,
    at: int,
    v: JavaValue,
    args: Seq<JavaArg>,
    setter: Seq<char>,
    field: Seq<char>,
    e: ErrorModel,
)
    ensures
        bean_next(
            m,
            BeanAskModel::IsRecord,
            BeanReplyModel::IsRecord(Ok(JavaValue::Bool(false))),
        ) == (
            BuildModel { class: m.class, pairs: m.pairs, record: false },
            BeanStepModel::Ask(BeanAskModel::Construct(Seq::empty())),
        ),
        method_missing(e) ==> bean_next(
            m,
            BeanAskModel::IsRecord,
            BeanReplyModel::IsRecord(Err(e)),
        ).1 == BeanStepModel::Ask(BeanAskModel::Construct(Seq::empty())),
        !m.record ==> bean_next(
            m,
            BeanAskModel::Construct(args),
            BeanReplyModel::Constructed(Ok(object)),
        ) == (
            m,
            if m.pairs.len() > 0 {
                BeanStepModel::Ask(
                    BeanAskModel::Assign {
                        object,
                        field: m.pairs[0].name,
                        setter: "set"@ + crate::text::camel(m.pairs[0].name, true),
                        at: 0,
                    },
                )
            } else {
                BeanStepModel::Done(Ok(object))
            },
        ),
        bean_next(
            m,
            BeanAskModel::Assign { object, field, setter, at },
            BeanReplyModel::Assign(Ok(v)),
        ) == (
            m,
            if at + 1 < m.pairs.len() {
                BeanStepModel::Ask(
                    BeanAskModel::Assign {
                        object,
                        field: m.pairs[at + 1].name,
                        setter: "set"@ + crate::text::camel(m.pairs[at + 1].name, true),
                        at: at + 1,
                    },
                )
            } else {
                BeanStepModel::Done(Ok(object))
            },
        ),
{
}

/// A failure while a bean is built is what the build fails with; only a setter that does
/// not take the value is named, with its property.
pub proof fn build_failures_are_reported(
    m: BuildModel,
    name: Seq<char>,
    args: Seq<JavaArg>,
    object: u64,
    field: Seq<char>,
    setter: Seq<char>,
    at: int,
    e: ErrorModel,
    message: Seq<char>,
)
    ensures
        bean_next(m, BeanAskModel::Find(name), BeanReplyModel::Found(Ok(()))) == (
            m,
            BeanStepModel::Ask(BeanAskModel::IsRecord),
        ),
        bean_next(m, BeanAskModel::Find(name), BeanReplyModel::Found(Err(e))) == (
            m,
            BeanStepModel::Done(Err(e)),
        ),
        bean_next(m, BeanAskModel::Components, BeanReplyModel::Components(Err(e))) == (
            m,
            BeanStepModel::Done(Err(e)),
        ),
        bean_next(m, BeanAskModel::Construct(args), BeanReplyModel::Constructed(Err(e))) == (
            m,
            BeanStepModel::Done(Err(e)),
        ),
        !(e is InvalidArgument) ==> bean_next(
            m,
            BeanAskModel::Assign { object, field, setter, at },
            BeanReplyModel::Assign(Err(e)),
        ) == (m, BeanStepModel::Done(Err(e))),
        bean_next(
            m,
            BeanAskModel::Assign { object, field, setter, at },
            BeanReplyModel::Assign(Err(ErrorModel::InvalidArgument(message))),
        ).1 matches BeanStepModel::Done(Err(ErrorModel::Serde(text))) && exists|rest: Seq<char>|
            text == #[trigger] ("rjava bean `"@ + m.class + "`: no setter for property `"@ + field
                + rest),
        e matches ErrorModel::JavaException { class, .. } && class != "java.lang.NoSuchMethodError"@
            ==> bean_next(m, BeanAskModel::IsRecord, BeanReplyModel::IsRecord(Err(e))) == (
            m,
            BeanStepModel::Done(Err(e)),
        ),
{
    let rest = "` accepting the serialized value (tried `"@ + accessor("set"@, field)
        + "` — the setter must be a public method whose parameter type accepts the value: a boxed primitive does not widen to a wider primitive, and `null` only matches a reference parameter)"@;
    assert(no_setter(m.class, field) =~= "rjava bean `"@ + m.class + "`: no setter for property `"@
        + field + rest);
}

/// A built bean is passed as its object, under its own class.
pub proof fn beans_are_passed_as_their_object(b: BuiltBean)
    ensures
        b.sent() == Ok::<Seq<OutgoingModel>, ErrorModel>(
            seq![OutgoingModel::Arg(JavaArg::Object(Some(b.id)))],
        ),
        b.arg_types().len() == b.class@.len() + 2,
        b.arg_types()[0] == 'L',
        b.arg_types().last() == ';',
        forall|i: int| #![trigger b.class@[i]]
            0 <= i < b.class@.len() ==> b.arg_types()[i + 1] == (if b.class@[i] == '.' {
                '/'
            } else {
                b.class@[i]
            }),
{
    reveal_strlit("L");
    reveal_strlit(";");
}

/// The two fields of a serialized bean are told apart by their names.
pub proof fn marker_fields_are_told_apart(key: Seq<char>)
    ensures
        marker_key("__rjava_bean_class"@) == Ok::<MarkerField, ErrorModel>(MarkerField::Class),
        marker_key("value"@) == Ok::<MarkerField, ErrorModel>(MarkerField::Value),
        key != "__rjava_bean_class"@ && key != "value"@ ==> marker_key(key) is Err,
{
    reveal_strlit("__rjava_bean_class");
    reveal_strlit("value");
    assert("__rjava_bean_class"@.len() == 18 && "value"@.len() == 5);
}

/// Whether a class is a record is what the virtual machine says of it; one that knows no
/// records has none, and any other failure stands.
pub proof fn records_are_what_the_machine_calls_records(
    b: bool,
    v: JavaValue,
    e: ErrorModel,
    message: Seq<char>,
)
    ensures
        is_record(Ok(JavaValue::Bool(b))) == Ok::<bool, ErrorModel>(b),
        !(v is Bool) ==> is_record(Ok(v)) is Err,
        method_missing(e) ==> is_record(Err(e)) == Ok::<bool, ErrorModel>(false),
        is_record(
            Err(
                ErrorModel::JavaException { class: "java.lang.NoSuchMethodError"@, message },
            ),
        ) == Ok::<bool, ErrorModel>(false),
        !method_missing(e) && !(e is JavaException) ==> is_record(Err(e)) == Err::<
            bool,
            ErrorModel,
        >(e),
{
}

}
