//! The exchange with the engine: the calls that the library sends, the
//! replies that it accepts, and how a reply is decoded.

use vstd::prelude::*;

verus! {

/// Why an exchange with the engine gave no result.
#[derive(Clone, Copy, Debug, PartialEq, Eq, Structural)]
pub enum Fault {
    /// The engine returned the null handle where an object was owed.
    NullHandle,
    /// The reply has another shape than the call asks for.
    UnexpectedReply,
}

/// One invocation of the engine's C interface, with the arguments as that
/// interface takes them. A handle is the address of the engine's object.
#[derive(Debug, PartialEq, Eq)]
pub enum Call {
    DumpType { ty: usize },
    PrintTypeToString { ty: usize },
    GetTypeKind { ty: usize },
    TypeIsSized { ty: usize },
    GetTypeContext { ty: usize },
    AlignOf { ty: usize },
    GetUndef { ty: usize },
    PointerType { element: usize, address_space: u32 },
    ArrayType { element: usize, element_count: u32 },
    FunctionType { return_type: usize, param_types: Vec<usize>, param_count: u32, is_var_arg: i32 },
    StructGetTypeAtIndex { struct_type: usize, index: u32 },
    ConstInt { int_type: usize, value: u64, sign_extend: i32 },
    /// The constant is given by the bits of its IEEE 754 double.
    ConstReal { real_type: usize, value_bits: u64 },
    ConstArray { element_type: usize, values: Vec<usize>, length: u32 },
    ConstNamedStruct { struct_type: usize, values: Vec<usize>, count: u32 },
    IsFunctionVarArg { function_type: usize },
    CountParamTypes { function_type: usize },
    /// `capacity` is the number of handles that the destination buffer holds.
    GetParamTypes { function_type: usize, capacity: u32 },
    Int1Type,
    Int8Type,
    Int16Type,
    Int32Type,
    Int64Type,
    IntType { bits: u32 },
    HalfType,
    FloatType,
    DoubleType,
    X86FP80Type,
    FP128Type,
    PPCFP128Type,
}

/// The mathematical content of a [`Call`]: handle arrays are sequences.
pub enum CallView {
    DumpType { ty: usize },
    PrintTypeToString { ty: usize },
    GetTypeKind { ty: usize },
    TypeIsSized { ty: usize },
    GetTypeContext { ty: usize },
    AlignOf { ty: usize },
    GetUndef { ty: usize },
    PointerType { element: usize, address_space: u32 },
    ArrayType { element: usize, element_count: u32 },
    FunctionType { return_type: usize, param_types: Seq<usize>, param_count: u32, is_var_arg: i32 },
    StructGetTypeAtIndex { struct_type: usize, index: u32 },
    ConstInt { int_type: usize, value: u64, sign_extend: i32 },
    ConstReal { real_type: usize, value_bits: u64 },
    ConstArray { element_type: usize, values: Seq<usize>, length: u32 },
    ConstNamedStruct { struct_type: usize, values: Seq<usize>, count: u32 },
    IsFunctionVarArg { function_type: usize },
    CountParamTypes { function_type: usize },
    GetParamTypes { function_type: usize, capacity: u32 },
    Int1Type,
    Int8Type,
    Int16Type,
    Int32Type,
    Int64Type,
    IntType { bits: u32 },
    HalfType,
    FloatType,
    DoubleType,
    X86FP80Type,
    FP128Type,
    PPCFP128Type,
}

impl View for Call {
    type V = CallView;

    open spec fn view(&self) -> CallView {
        match *self {
            Call::DumpType { ty } => CallView::DumpType { ty },
            Call::PrintTypeToString { ty } => CallView::PrintTypeToString { ty },
            Call::GetTypeKind { ty } => CallView::GetTypeKind { ty },
            Call::TypeIsSized { ty } => CallView::TypeIsSized { ty },
            Call::GetTypeContext { ty } => CallView::GetTypeContext { ty },
            Call::AlignOf { ty } => CallView::AlignOf { ty },
            Call::GetUndef { ty } => CallView::GetUndef { ty },
            Call::PointerType { element, address_space } => CallView::PointerType {
                element,
                address_space,
            },
            Call::ArrayType { element, element_count } => CallView::ArrayType {
                element,
                element_count,
            },
            Call::FunctionType {
                return_type,
                param_types,
                param_count,
                is_var_arg,
            } => CallView::FunctionType {
                return_type,
                param_types: param_types@,
                param_count,
                is_var_arg,
            },
            Call::StructGetTypeAtIndex { struct_type, index } => CallView::StructGetTypeAtIndex {
                struct_type,
                index,
            },
            Call::ConstInt { int_type, value, sign_extend } => CallView::ConstInt {
                int_type,
                value,
                sign_extend,
            },
            Call::ConstReal { real_type, value_bits } => CallView::ConstReal {
                real_type,
                value_bits,
            },
            Call::ConstArray { element_type, values, length } => CallView::ConstArray {
                element_type,
                values: values@,
                length,
            },
            Call::ConstNamedStruct { struct_type, values, count } => CallView::ConstNamedStruct {
                struct_type,
                values: values@,
                count,
            },
            Call::IsFunctionVarArg { function_type } => CallView::IsFunctionVarArg {
                function_type,
            },
            Call::CountParamTypes { function_type } => CallView::CountParamTypes { function_type },
            Call::GetParamTypes { function_type, capacity } => CallView::GetParamTypes {
                function_type,
                capacity,
            },
            Call::Int1Type => CallView::Int1Type,
            Call::Int8Type => CallView::Int8Type,
            Call::Int16Type => CallView::Int16Type,
            Call::Int32Type => CallView::Int32Type,
            Call::Int64Type => CallView::Int64Type,
            Call::IntType { bits } => CallView::IntType { bits },
            Call::HalfType => CallView::HalfType,
            Call::FloatType => CallView::FloatType,
            Call::DoubleType => CallView::DoubleType,
            Call::X86FP80Type => CallView::X86FP80Type,
            Call::FP128Type => CallView::FP128Type,
            Call::PPCFP128Type => CallView::PPCFP128Type,
        }
    }
}

/// What the engine hands back for a [`Call`].
#[derive(Debug, PartialEq, Eq)]
pub enum Reply {
    /// The call returns nothing.
    Nothing,
    /// A handle; 0 is the null handle.
    Handle(usize),
    /// A C boolean.
    Flag(i32),
    /// An unsigned count.
    Count(u32),
    /// The numeric tag of a type kind.
    Kind(u32),
    /// The handles that the engine wrote to the destination buffer.
    Handles(Vec<usize>),
    /// The bytes of a C string, without its terminator.
    Text(Vec<u8>),
}

impl Reply {
    /// The object handle in the reply: the null handle is a fault, and so is
    /// a reply of another shape.
    pub open spec fn handle(self) -> Result<usize, Fault> {
        match self {
            Reply::Handle(raw) => if raw == 0 {
                Err(Fault::NullHandle)
            } else {
                Ok(raw)
            },
            _ => Err(Fault::UnexpectedReply),
        }
    }

    /// The handle in the reply, where the null handle stands for "none".
    pub open spec fn optional_handle(self) -> Result<Option<usize>, Fault> {
        match self {
            Reply::Handle(raw) => if raw == 0 {
                Ok(None)
            } else {
                Ok(Some(raw))
            },
            _ => Err(Fault::UnexpectedReply),
        }
    }

    /// The C boolean in the reply.
    pub open spec fn flag(self) -> Result<i32, Fault> {
        match self {
            Reply::Flag(flag) => Ok(flag),
            _ => Err(Fault::UnexpectedReply),
        }
    }

    /// The count in the reply.
    pub open spec fn count(self) -> Result<u32, Fault> {
        match self {
            Reply::Count(count) => Ok(count),
            _ => Err(Fault::UnexpectedReply),
        }
    }

    /// The kind tag in the reply.
    pub open spec fn kind_tag(self) -> Result<u32, Fault> {
        match self {
            Reply::Kind(tag) => Ok(tag),
            _ => Err(Fault::UnexpectedReply),
        }
    }

    /// The handles in the reply, which must be `count` many.
    pub open spec fn handles(self, count: u32) -> Result<Seq<usize>, Fault> {
        match self {
            Reply::Handles(raw) => if raw@.len() == count {
                Ok(raw@)
            } else {
                Err(Fault::UnexpectedReply)
            },
            _ => Err(Fault::UnexpectedReply),
        }
    }

    /// The bytes of the string in the reply.
    pub open spec fn text(self) -> Result<Seq<u8>, Fault> {
        match self {
            Reply::Text(bytes) => Ok(bytes@),
            _ => Err(Fault::UnexpectedReply),
        }
    }

    /// Decodes a reply that owes an object.
    pub fn into_handle(self) -> (made: Result<usize, Fault>)
        ensures
            made == self.handle(),
    {
        match self {
            Reply::Handle(raw) => if raw == 0 {
                Err(Fault::NullHandle)
            } else {
                Ok(raw)
            },
            _ => Err(Fault::UnexpectedReply),
        }
    }

    /// Decodes a reply in which the null handle means that there is no object.
    pub fn into_optional_handle(self) -> (made: Result<Option<usize>, Fault>)
        ensures
            made == self.optional_handle(),
    {
        match self {
            Reply::Handle(raw) => if raw == 0 {
                Ok(None)
            } else {
                Ok(Some(raw))
            },
            _ => Err(Fault::UnexpectedReply),
        }
    }

    /// Decodes a reply that carries a C boolean.
    pub fn into_flag(self) -> (made: Result<i32, Fault>)
        ensures
            made == self.flag(),
    {
        match self {
            Reply::Flag(flag) => Ok(flag),
            _ => Err(Fault::UnexpectedReply),
        }
    }

    /// Decodes a reply that carries a count.
    pub fn into_count(self) -> (made: Result<u32, Fault>)
        ensures
            made == self.count(),
    {
        match self {
            Reply::Count(count) => Ok(count),
            _ => Err(Fault::UnexpectedReply),
        }
    }

    /// Decodes a reply that carries a kind tag.
    pub fn into_kind_tag(self) -> (made: Result<u32, Fault>)
        ensures
            made == self.kind_tag(),
    {
        match self {
            Reply::Kind(tag) => Ok(tag),
            _ => Err(Fault::UnexpectedReply),
        }
    }

    /// Decodes a reply that carries the `count` handles of a filled buffer.
    pub fn into_handles(self, count: u32) -> (made: Result<Vec<usize>, Fault>)
        ensures
            viewed(made) == self.handles(count),
    {
        match self {
            Reply::Handles(raw) => if raw.len() == count as usize {
                Ok(raw)
            } else {
                Err(Fault::UnexpectedReply)
            },
            _ => Err(Fault::UnexpectedReply),
        }
    }

    /// Decodes a reply that carries a string.
    pub fn into_text(self) -> (made: Result<Vec<u8>, Fault>)
        ensures
            viewed(made) == self.text(),
    {
        match self {
            Reply::Text(bytes) => Ok(bytes),
            _ => Err(Fault::UnexpectedReply),
        }
    }
}

/// A result seen through the view of what it holds.
pub open spec fn viewed<T: View>(made: Result<T, Fault>) -> Result<T::V, Fault> {
    match made {
        Ok(value) => Ok(value@),
        Err(fault) => Err(fault),
    }
}

/// The C boolean for `flag`.
pub open spec fn c_bool(flag: bool) -> i32 {
    if flag {
        1
    } else {
        0
    }
}

/// Encodes `flag` as the C interface takes it.
pub fn to_c_bool(flag: bool) -> (encoded: i32)
    ensures
        encoded == c_bool(flag),
{
    if flag {
        1
    } else {
        0
    }
}

/// The engine may be called with every call whose content is `call`.
pub open spec fn accepts<E: Fn(Call) -> Reply>(engine: &E, call: CallView) -> bool {
    forall|sent: Call| sent@ == call ==> #[trigger] call_requires(*engine, (sent,))
}

/// `reply` is an answer of the engine to a call whose content is `call`.
pub open spec fn answered<E: Fn(Call) -> Reply>(engine: &E, call: CallView, reply: Reply) -> bool {
    exists|sent: Call| sent@ == call && #[trigger] call_ensures(*engine, (sent,), reply)
}

/// `made` is what [`Reply::handle`] gives for an answer of the engine to
/// `call`.
pub open spec fn minted<E: Fn(Call) -> Reply>(
    engine: &E,
    call: CallView,
    made: Result<usize, Fault>,
) -> bool {
    exists|reply: Reply| #[trigger] answered(engine, call, reply) && made == reply.handle()
}

/// Sends `call` to the engine and returns its reply.
pub fn exchange<E: Fn(Call) -> Reply>(engine: &E, call: Call) -> (reply: Reply)
    requires
        accepts(engine, call@),
    ensures
        answered(engine, call@, reply),
{
    engine(call)
}

/// Sends a call that owes an object and returns the object's handle.
pub fn mint<E: Fn(Call) -> Reply>(engine: &E, call: Call) -> (made: Result<usize, Fault>)
    requires
        accepts(engine, call@),
    ensures
        minted(engine, call@, made),
        made matches Ok(raw) ==> raw != 0,
{
    exchange(engine, call).into_handle()
}

} // verus!
