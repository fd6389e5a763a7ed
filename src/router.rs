use vstd::prelude::*;

use crate::kind::{kind_of_suffix, ExecutionKind};
use crate::text::{split_dots, split_dots_exec, str_eq, views};

verus! {

/// Why an inbound message was dropped before any reply address was known.
#[derive(Clone, Copy, Debug, PartialEq, Eq, Structural)]
pub enum RouterError {
    InvalidSubject,
    NoReplyInbox,
}

/// What an inbound subject names.
#[derive(Clone, Debug)]
pub struct SubjectParts {
    pub workspace_id: String,
    pub change_set_id: String,
    pub kind: ExecutionKind,
}

/// A routed inbound message: where to reply, and what to run.
#[derive(Clone, Debug)]
pub struct InboundRoute {
    pub reply_to: String,
    pub parts: SubjectParts,
}

/// How many parts stand before the kind.
pub open spec fn leading_parts(has_prefix: bool) -> int {
    if has_prefix {
        5
    } else {
        4
    }
}

/// Whether `s` is a well-formed inbound subject under the given layout.
pub open spec fn subject_is_valid(s: Seq<char>, has_prefix: bool) -> bool {
    let ps = split_dots(s);
    let n = leading_parts(has_prefix);
    ps.len() == n + 1 && kind_of_suffix(ps[n]) is Some
}

/// The value of the first header named `name`.
pub open spec fn header_value(hs: Seq<(String, String)>, name: Seq<char>) -> Option<Seq<char>>
    decreases hs.len(),
{
    if hs.len() == 0 {
        None
    } else if hs[0].0@ == name {
        Some(hs[0].1@)
    } else {
        header_value(hs.drop_first(), name)
    }
}

/// Splits an inbound subject into workspace, change set and kind.
pub fn parse_subject(subject: &str, has_prefix: bool) -> (r: Result<SubjectParts, RouterError>)
    ensures
        r is Ok <==> subject_is_valid(subject@, has_prefix),
        r is Err ==> r->Err_0 == RouterError::InvalidSubject,
        r matches Ok(p) ==> {
            let ps = split_dots(subject@);
            let n = leading_parts(has_prefix);
            &&& p.workspace_id@ == ps[n - 2]
            &&& p.change_set_id@ == ps[n - 1]
            &&& Some(p.kind) == kind_of_suffix(ps[n])
        },
{
    let parts = split_dots_exec(subject);
    let lead: usize = if has_prefix {
        5
    } else {
        4
    };
    proof {
        assert(views(parts@).len() == parts@.len());
    }
    if parts.len() != lead + 1 {
        return Err(RouterError::InvalidSubject);
    }
    proof {
        assert(views(parts@)[lead as int] == parts@[lead as int]@);
        assert(views(parts@)[lead - 1] == parts@[lead - 1]@);
        assert(views(parts@)[lead - 2] == parts@[lead - 2]@);
    }
    match ExecutionKind::from_subject_suffix(parts[lead].as_str()) {
        None => Err(RouterError::InvalidSubject),
        Some(kind) => Ok(
            SubjectParts {
                workspace_id: parts[lead - 2].clone(),
                change_set_id: parts[lead - 1].clone(),
                kind,
            },
        ),
    }
}

/// Finds the reply address among the inbound headers.
pub fn reply_address(headers: &Vec<(String, String)>, header_name: &str) -> (r: Result<
    String,
    RouterError,
>)
    ensures
        r is Ok <==> header_value(headers@, header_name@) is Some,
        r matches Ok(a) ==> Some(a@) == header_value(headers@, header_name@),
        r is Err ==> r->Err_0 == RouterError::NoReplyInbox,
{
    let mut i: usize = 0;
    assert(headers@.subrange(0, headers@.len() as int) =~= headers@);
    while i < headers.len()
        invariant
            i <= headers@.len(),
            header_value(headers@, header_name@) == header_value(
                headers@.subrange(i as int, headers@.len() as int),
                header_name@,
            ),
        decreases headers@.len() - i,
    {
        let ghost rest = headers@.subrange(i as int, headers@.len() as int);
        assert(rest.drop_first() =~= headers@.subrange(i + 1, headers@.len() as int));
        assert(rest[0] == headers@[i as int]);
        if str_eq(headers[i].0.as_str(), header_name) {
            return Ok(headers[i].1.clone());
        }
        i = i + 1;
    }
    assert(headers@.subrange(i as int, headers@.len() as int).len() == 0);
    Err(RouterError::NoReplyInbox)
}

/// Routes an inbound message: the reply address is read first, then the subject.
pub fn route(subject: &str, has_prefix: bool, headers: &Vec<(String, String)>, header_name: &str) -> (r:
    Result<InboundRoute, RouterError>)
    ensures
        header_value(headers@, header_name@) is None ==> r == Err::<InboundRoute, RouterError>(
            RouterError::NoReplyInbox,
        ),
        header_value(headers@, header_name@) is Some && !subject_is_valid(subject@, has_prefix)
            ==> r == Err::<InboundRoute, RouterError>(RouterError::InvalidSubject),
        r is Ok <==> header_value(headers@, header_name@) is Some && subject_is_valid(
            subject@,
            has_prefix,
        ),
        r matches Ok(rt) ==> {
            let ps = split_dots(subject@);
            let n = leading_parts(has_prefix);
            &&& Some(rt.reply_to@) == header_value(headers@, header_name@)
            &&& rt.parts.workspace_id@ == ps[n - 2]
            &&& rt.parts.change_set_id@ == ps[n - 1]
            &&& Some(rt.parts.kind) == kind_of_suffix(ps[n])
        },
{
    let reply_to = match reply_address(headers, header_name) {
        Ok(a) => a,
        Err(e) => return Err(e),
    };
    match parse_subject(subject, has_prefix) {
        Ok(parts) => Ok(InboundRoute { reply_to, parts }),
        Err(e) => Err(e),
    }
}

/// A subject with more or fewer parts than the layout asks for is invalid,
/// whatever the parts say.
pub proof fn wrong_part_count_is_invalid(s: Seq<char>, has_prefix: bool)
    requires
        split_dots(s).len() != leading_parts(has_prefix) + 1,
    ensures
        !subject_is_valid(s, has_prefix),
{
}

} // verus!
