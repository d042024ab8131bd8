use vstd::prelude::*;

use crate::error::{ErrorModel, JavaError, JniError, JniErrorKind, JniErrorModel};
use crate::text::{same, views};

verus! {

/// How the `jni` crate words its refusal of a method signature, `None` where it accepts
/// the signature.
pub uninterp spec fn method_signature_fault(text: Seq<char>) -> Option<Seq<char>>;

/// How the `jni` crate words its refusal of a field signature, `None` where it accepts
/// the signature.
pub uninterp spec fn field_signature_fault(text: Seq<char>) -> Option<Seq<char>>;

/// `jni::signature::RuntimeMethodSignature::from_str`: the text of its error, if it
/// returns one.
#[verifier::external_body]
fn refuse_method_signature(text: &str) -> (r: Option<String>)
    ensures
        match r {
            Some(s) => method_signature_fault(text@) == Some(s@),
            None => method_signature_fault(text@) is None,
        },
{
    jni::signature::RuntimeMethodSignature::from_str(text).err().map(|e| e.to_string())
}

/// `jni::signature::RuntimeFieldSignature::from_str`: the text of its error, if it
/// returns one.
#[verifier::external_body]
fn refuse_field_signature(text: &str) -> (r: Option<String>)
    ensures
        match r {
            Some(s) => field_signature_fault(text@) == Some(s@),
            None => field_signature_fault(text@) is None,
        },
{
    jni::signature::RuntimeFieldSignature::from_str(text).err().map(|e| e.to_string())
}

/// The error for a signature that the `jni` crate refuses with that text.
pub open spec fn refused(text: Seq<char>) -> ErrorModel {
    ErrorModel::Jni(JniErrorModel { kind: JniErrorKind::Other, text })
}

/// A checked signature, given what the `jni` crate has against it.
pub fn accepted(text: String, fault: Option<String>) -> (r: Result<String, JavaError>)
    ensures
        match (r, fault) {
            (Ok(s), None) => s@ == text@,
            (Err(e), Some(f)) => e@ == refused(f@),
            _ => false,
        },
{
    match fault {
        None => Ok(text),
        Some(f) => Err(JavaError::Jni(JniError { kind: JniErrorKind::Other, text: f })),
    }
}

/// What says which method signatures are well formed.
#[derive(Debug)]
pub enum Signatures {
    /// The `jni` crate.
    Jni,
    /// A list of those that are.
    Given(Vec<String>),
}

/// The mathematical content of [`Signatures`].
pub enum SignaturesModel {
    Jni,
    Given(Seq<Seq<char>>),
}

impl View for Signatures {
    type V = SignaturesModel;

    open spec fn view(&self) -> SignaturesModel {
        match self {
            Signatures::Jni => SignaturesModel::Jni,
            Signatures::Given(list) => SignaturesModel::Given(views(list@)),
        }
    }
}

impl SignaturesModel {
    /// Whether a method signature is well formed.
    pub open spec fn accepts(self, text: Seq<char>) -> bool {
        match self {
            SignaturesModel::Jni => method_signature_fault(text) is None,
            SignaturesModel::Given(list) => list.contains(text),
        }
    }
}

impl Signatures {
    /// Whether a method signature is well formed.
    pub fn accepts(&self, text: &str) -> (r: bool)
        ensures
            r == self@.accepts(text@),
    {
        match self {
            Signatures::Jni => is_method_signature(text),
            Signatures::Given(list) => {
                let mut i: usize = 0;
                while i < list.len()
                    invariant
                        i <= list@.len(),
                        self@ == SignaturesModel::Given(views(list@)),
                        forall|k: int| 0 <= k < i ==> views(list@)[k] != text@,
                    decreases list@.len() - i,
                {
                    if same(list[i].as_str(), text) {
                        assert(views(list@)[i as int] == text@);
                        return true;
                    }
                    i += 1;
                }
                false
            },
        }
    }
}

/// Whether the `jni` crate accepts a method signature.
pub fn is_method_signature(text: &str) -> (r: bool)
    ensures
        r == method_signature_fault(text@) is None,
{
    refuse_method_signature(text).is_none()
}

/// The method signature of argument fragments and a return fragment.
pub open spec fn method_sig(args: Seq<char>, ret: Seq<char>) -> Seq<char> {
    "("@ + args + ")"@ + ret
}

/// Puts a method signature together and has it checked.
pub fn parse_method_sig(args: &str, ret: &str) -> (r: Result<String, JavaError>)
    ensures
        match r {
            Ok(s) => s@ == method_sig(args@, ret@) && method_signature_fault(s@) is None,
            Err(e) => method_signature_fault(method_sig(args@, ret@)) matches Some(f) && e@
                == refused(f),
        },
{
    let mut full = "(".to_owned();
    full.push_str(args);
    full.push_str(")");
    full.push_str(ret);
    let fault = refuse_method_signature(full.as_str());
    accepted(full, fault)
}

/// Has a field signature checked.
pub fn parse_field_sig(frag: &str) -> (r: Result<String, JavaError>)
    ensures
        match r {
            Ok(s) => s@ == frag@ && field_signature_fault(frag@) is None,
            Err(e) => field_signature_fault(frag@) matches Some(f) && e@ == refused(f),
        },
{
    let fault = refuse_field_signature(frag);
    accepted(frag.to_owned(), fault)
}

/// A method signature is its parameter types between parentheses, and the return type
/// behind them.
pub proof fn signatures_hold_both_sides(args: Seq<char>, ret: Seq<char>)
    ensures
        method_sig(args, ret).len() == args.len() + ret.len() + 2,
        method_sig(args, ret)[0] == '(',
        method_sig(args, ret).subrange(1, 1 + args.len() as int) == args,
        method_sig(args, ret)[1 + args.len() as int] == ')',
        method_sig(args, ret).skip(2 + args.len() as int) == ret,
{
    reveal_strlit("(");
    reveal_strlit(")");
    assert(method_sig(args, ret).subrange(1, 1 + args.len() as int) =~= args);
    assert(method_sig(args, ret).skip(2 + args.len() as int) =~= ret);
}

/// A list of signatures accepts those that stand in it, and no other.
pub proof fn listed_signatures_are_accepted(list: Vec<String>, text: Seq<char>)
    ensures
        Signatures::Given(list)@.accepts(text) <==> exists|i: int|
            0 <= i < list@.len() && #[trigger] list@[i]@ == text,
        Signatures::Jni@.accepts(text) <==> method_signature_fault(text) is None,
{
    let shown = views(list@);
    if shown.contains(text) {
        let i = choose|i: int| 0 <= i < shown.len() && shown[i] == text;
        assert(list@[i]@ == text);
    }
    if exists|i: int| 0 <= i < list@.len() && #[trigger] list@[i]@ == text {
        let i = choose|i: int| 0 <= i < list@.len() && #[trigger] list@[i]@ == text;
        assert(shown[i] == text);
    }
}

}
