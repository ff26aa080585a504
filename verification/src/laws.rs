//! What holds of the exchange whatever engine is on the other side.

use crate::engine::{c_bool, CallView, Fault, Reply};
use crate::types::{all_live, FunctionType, Type};
use vstd::prelude::*;

verus! {

/// A signature survives the exchange. If the engine answers the questions
/// about a signature with what the call that built it carried, then the
/// parameters that come back are those that went in, in the same order and
/// as many, and the signature is variadic exactly if it was built so.
pub proof fn lemma_signature_round_trip(
    return_type: Type,
    param_types: Seq<Type>,
    is_var_args: bool,
    listed: Vec<usize>,
)
    requires
        param_types.len() <= u32::MAX,
        all_live(Type::handles_of(param_types)),
        return_type.fn_type_call(param_types, is_var_args) matches CallView::FunctionType {
            param_types: sent,
            ..
        } && listed@ == sent,
    ensures
        return_type.fn_type_call(param_types, is_var_args) matches CallView::FunctionType {
            param_count,
            is_var_arg,
            ..
        } && {
            &&& Reply::Count(param_count).count() == Ok::<u32, Fault>(param_types.len() as u32)
            &&& Reply::Handles(listed).handles(param_count) == Ok::<Seq<usize>, Fault>(
                Type::handles_of(param_types),
            )
            &&& Type::wrapped(listed@) == Ok::<Seq<usize>, Fault>(Type::handles_of(param_types))
            &&& FunctionType::var_arg_from(Reply::Flag(is_var_arg)) == Ok::<bool, Fault>(
                is_var_args,
            )
        },
{
}

/// A flag survives its encoding: read back either as "is 1" or as "is not
/// 0", the C boolean of `flag` gives `flag`.
pub proof fn lemma_flag_round_trip(flag: bool)
    ensures
        Type::sized_from(Reply::Flag(c_bool(flag))) == Ok::<bool, Fault>(flag),
        FunctionType::var_arg_from(Reply::Flag(c_bool(flag))) == Ok::<bool, Fault>(flag),
{
}

/// The null handle is never wrapped: where an object is owed, a reply gives
/// a handle only if the handle is not null, and the null handle is the fault
/// `NullHandle`; a list of handles is wrapped only if none of them is null.
pub proof fn lemma_null_is_never_wrapped(reply: Reply, raw: Seq<usize>)
    ensures
        reply.handle() matches Ok(handle) ==> handle != 0,
        reply.handle() == Err::<usize, Fault>(Fault::NullHandle) <==> reply == Reply::Handle(0),
        Type::wrapped(raw) is Ok <==> all_live(raw),
        Type::wrapped(raw) matches Err(fault) ==> fault == Fault::NullHandle,
{
}

/// The null handle in place of a field's type is an absence and no fault:
/// no reply makes the lookup of a field fail with `NullHandle`, and the null
/// handle gives `None`.
pub proof fn lemma_absent_field_is_no_fault(reply: Reply)
    ensures
        reply.optional_handle() != Err::<Option<usize>, Fault>(Fault::NullHandle),
        reply == Reply::Handle(0) ==> reply.optional_handle() == Ok::<Option<usize>, Fault>(None),
        reply.optional_handle() == Ok::<Option<usize>, Fault>(None) ==> reply == Reply::Handle(0),
{
}

/// Wrapping keeps identity: two replies that each give an object give the
/// same object exactly when the engine returned the same handle.
pub proof fn lemma_wrapping_keeps_identity(first: usize, second: usize)
    requires
        first != 0,
        second != 0,
    ensures
        Reply::Handle(first).handle() == Reply::Handle(second).handle() <==> first == second,
        Reply::Handle(first).handle() == Ok::<usize, Fault>(first),
{
}

} // verus!
