use vstd::prelude::*;

use crate::convert::{outgoing_models, Outgoing, OutgoingModel, ToJava};
use crate::error::{ErrorModel, JavaError};

verus! {

/// The argument list of a Java call, as far as it is put together: what is sent, and the
/// JNI type fragments that go with it.
#[derive(Debug)]
pub struct Arguments {
    sent: Result<Vec<Outgoing>, JavaError>,
    fragments: String,
}

/// The mathematical content of [`Arguments`].
pub struct ArgumentsModel {
    pub sent: Result<Seq<OutgoingModel>, ErrorModel>,
    pub fragments: Seq<char>,
}

impl View for Arguments {
    type V = ArgumentsModel;

    closed spec fn view(&self) -> ArgumentsModel {
        ArgumentsModel {
            sent: crate::convert::sent_outcome(self.sent),
            fragments: self.fragments@,
        }
    }
}

/// One after the other; the first failure decides.
pub open spec fn followed_by(
    a: Result<Seq<OutgoingModel>, ErrorModel>,
    b: Result<Seq<OutgoingModel>, ErrorModel>,
) -> Result<Seq<OutgoingModel>, ErrorModel> {
    match a {
        Err(e) => Err(e),
        Ok(x) => match b {
            Err(e) => Err(e),
            Ok(y) => Ok(x + y),
        },
    }
}

impl Arguments {
    /// No arguments.
    pub fn new() -> (a: Arguments)
        ensures
            a@ == (ArgumentsModel { sent: Ok(Seq::empty()), fragments: Seq::empty() }),
    {
        let none: Vec<Outgoing> = Vec::new();
        assert(outgoing_models(none@) =~= Seq::empty());
        let fragments = String::new();
        assert(fragments@ =~= Seq::empty());
        Arguments { sent: Ok(none), fragments }
    }

    /// The list with one value behind the others. A value may stand for no parameter, or
    /// for several.
    pub fn with<T: ToJava>(self, x: &T) -> (a: Arguments)
        ensures
            a@ == (ArgumentsModel {
                sent: followed_by(self@.sent, x.sent()),
                fragments: self@.fragments + x.arg_types(),
            }),
    {
        let mut fragments = self.fragments;
        fragments.push_str(x.java_args().as_str());
        let sent = match self.sent {
            Err(e) => Err(e),
            Ok(first) => match x.to_java() {
                Err(e) => Err(e),
                Ok(second) => {
                    let mut all = first;
                    let mut more = second;
                    let ghost a = all@;
                    let ghost b = more@;
                    all.append(&mut more);
                    assert(outgoing_models(all@) =~= outgoing_models(a) + outgoing_models(b));
                    Ok(all)
                },
            },
        };
        Arguments { sent, fragments }
    }

    /// The JNI type fragments of the parameters.
    pub fn java_args(&self) -> (s: &str)
        ensures
            s@ == self@.fragments,
    {
        self.fragments.as_str()
    }

    /// What is sent.
    pub fn to_java(self) -> (r: Result<Vec<Outgoing>, JavaError>)
        ensures
            crate::convert::sent_outcome(r) == self@.sent,
    {
        self.sent
    }
}

/// How arguments are grouped makes no difference to what is sent.
pub proof fn arguments_group_freely(
    a: Result<Seq<OutgoingModel>, ErrorModel>,
    b: Result<Seq<OutgoingModel>, ErrorModel>,
    c: Result<Seq<OutgoingModel>, ErrorModel>,
)
    ensures
        followed_by(followed_by(a, b), c) == followed_by(a, followed_by(b, c)),
{
    if a is Ok && b is Ok && c is Ok {
        assert((a->Ok_0 + b->Ok_0) + c->Ok_0 =~= a->Ok_0 + (b->Ok_0 + c->Ok_0));
    }
}

/// Sending nothing among the arguments makes no difference.
pub proof fn nothing_is_no_argument(a: Result<Seq<OutgoingModel>, ErrorModel>)
    ensures
        followed_by(a, ().sent()) == a,
        followed_by(().sent(), a) == a,
{
    if a is Ok {
        assert(a->Ok_0 + Seq::<OutgoingModel>::empty() =~= a->Ok_0);
        assert(Seq::<OutgoingModel>::empty() + a->Ok_0 =~= a->Ok_0);
    }
}

}
