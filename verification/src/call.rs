//! What the daemon was asked to do, in the contract's own words.
//!
//! A [`Call`] is data rather than a trait: a contract has to be describable
//! without knowing who decides about it. It carries a name and whether the
//! call is gated, and nothing in this crate interprets either. The tag is
//! compared and the action id is printed.
use vstd::prelude::*;
use vstd::string::StringExecFns;

verus! {

/// Whether a call is served to anyone who reached the socket, or gated.
///
/// Whatever `Policy("…")` names is decided entirely by the
/// [`Authorizer`](crate::Authorizer) the daemon was built with.
#[derive(Debug, Clone, Copy, PartialEq, Eq)]
pub enum Authorization {
    /// Reaching the socket is the whole gate. Not audited.
    Unprivileged,
    /// Gated, under this action id. Audited, and the id appears in the line.
    Policy(&'static str),
}

/// One thing the daemon can be asked to do.
#[derive(Debug, Clone, Copy, PartialEq, Eq)]
pub struct Call {
    /// The noun the call acts on, in the contract's own spelling.
    pub object: &'static str,
    /// The verb, in the contract's own spelling.
    pub method: &'static str,
    /// Whether the call is gated, and under which action id.
    pub authorization: Authorization,
}

/// The action id that a tag names, if it names one.
pub open spec fn action_of(authorization: Authorization) -> Option<Seq<char>> {
    match authorization {
        Authorization::Policy(action) => Some(action@),
        Authorization::Unprivileged => None,
    }
}

/// The name an operator greps for.
pub open spec fn call_name(call: Call) -> Seq<char> {
    call.object@ + "."@ + call.method@
}

impl Call {
    /// A call that reaching the socket is enough to make.
    pub fn unprivileged(object: &'static str, method: &'static str) -> (call: Self)
        ensures
            call == (Call { object, method, authorization: Authorization::Unprivileged }),
    {
        Call { object, method, authorization: Authorization::Unprivileged }
    }

    /// A call gated under `action`, and audited under it.
    pub fn gated(object: &'static str, method: &'static str, action: &'static str) -> (call: Self)
        ensures
            call == (Call { object, method, authorization: Authorization::Policy(action) }),
    {
        Call { object, method, authorization: Authorization::Policy(action) }
    }

    /// The action id this call is gated by, or `None` if it is unprivileged.
    pub fn action(&self) -> (action: Option<&'static str>)
        ensures
            match self.authorization {
                Authorization::Policy(id) => action == Some(id),
                Authorization::Unprivileged => action is None,
            },
    {
        match self.authorization {
            Authorization::Policy(action) => Some(action),
            Authorization::Unprivileged => None,
        }
    }

    /// `object.method`.
    pub fn to_string(&self) -> (name: String)
        ensures
            name@ == call_name(*self),
    {
        let mut name = self.object.to_owned();
        name.append(".");
        name.append(self.method);
        name
    }
}

/// A call is named by its object and its method, with a dot between them, and
/// the name says nothing of its tag.
pub proof fn a_call_goes_by_its_object_and_method(call: Call)
    ensures
        call_name(call).len() == call.object@.len() + 1 + call.method@.len(),
        call_name(call).take(call.object@.len() as int) == call.object@,
        call_name(call)[call.object@.len() as int] == '.',
        call_name(call).skip(call.object@.len() + 1int) == call.method@,
{
    reveal_strlit(".");
    assert(call_name(call).take(call.object@.len() as int) =~= call.object@);
    assert(call_name(call).skip(call.object@.len() + 1int) =~= call.method@);
}

/// A gated call has the action id of its tag, and an unprivileged one has none.
pub proof fn a_tag_names_its_own_action(action: &'static str)
    ensures
        action_of(Authorization::Policy(action)) == Some(action@),
        action_of(Authorization::Unprivileged) is None,
{
}

/// A call is gated under the action it was made with and goes by the object and
/// the method it was made with, or is not gated at all.
pub proof fn a_call_is_as_it_was_made(
    object: &'static str,
    method: &'static str,
    action: &'static str,
    gated: Call,
    open: Call,
    needed: Option<&'static str>,
    unneeded: Option<&'static str>,
    name: String,
    other: String,
)
    requires
        call_ensures(Call::gated, (object, method, action), gated),
        call_ensures(Call::unprivileged, (object, method), open),
        call_ensures(Call::action, (&gated,), needed),
        call_ensures(Call::action, (&open,), unneeded),
        call_ensures(Call::to_string, (&gated,), name),
        call_ensures(Call::to_string, (&open,), other),
    ensures
        needed == Some(action),
        unneeded is None,
        name@ == object@ + "."@ + method@,
        other@ == name@,
{
}

}
