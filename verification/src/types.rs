//! Types of the engine, and the narrower views of them: function
//! signatures and the primitive number types.

use crate::context::{Context, ContextRef};
use crate::engine::{accepts, answered, c_bool, exchange, mint, minted, to_c_bool, viewed, Call, CallView, Fault, Reply};
use crate::kind::TypeKind;
use crate::render::{describe, description};
use crate::values::Value;
use vstd::prelude::*;

verus! {

/// A type of the engine, held by its handle. The handle is never null. A
/// type belongs to one context and lives as long as that context; the engine
/// keeps one object for each distinct type of a context, so two handles are
/// equal exactly when they name the same type.
#[derive(Clone, Copy, PartialEq, Eq, Structural)]
pub struct Type {
    type_: usize,
}

impl View for Type {
    type V = usize;

    /// The handle: two wrappers are the same type exactly when their views
    /// are equal.
    closed spec fn view(&self) -> usize {
        self.type_
    }
}

/// A function signature: a return type, the parameter types in order, and
/// whether further arguments may follow them.
#[derive(Clone, Copy, PartialEq, Eq, Structural)]
pub struct FunctionType {
    fn_type: usize,
}

impl View for FunctionType {
    type V = usize;

    /// The handle of the signature.
    closed spec fn view(&self) -> usize {
        self.fn_type
    }
}

/// An integer type of a fixed width, as the engine's global context holds
/// it. Asking twice for one width gives the same object.
#[derive(Clone, Copy, PartialEq, Eq, Structural)]
pub struct IntType {
    int_type: usize,
}

impl View for IntType {
    type V = usize;

    /// The handle of the integer type.
    closed spec fn view(&self) -> usize {
        self.int_type
    }
}

/// A floating-point type of a fixed format, as the engine's global context
/// holds it.
#[derive(Clone, Copy, PartialEq, Eq, Structural)]
pub struct FloatType {
    float_type: usize,
}

impl View for FloatType {
    type V = usize;

    /// The handle of the floating-point type.
    closed spec fn view(&self) -> usize {
        self.float_type
    }
}

/// No handle in `raw` is null.
pub open spec fn all_live(raw: Seq<usize>) -> bool {
    forall|i: int| 0 <= i < raw.len() ==> raw[i] != 0
}

impl Type {
    #[verifier::type_invariant]
    spec fn live(self) -> bool {
        self.type_ != 0
    }

    /// The handles of `types`, in order.
    pub open spec fn handles_of(types: Seq<Type>) -> Seq<usize> {
        types.map_values(|ty: Type| ty@)
    }

    /// What wrapping each handle of `raw` gives: the same handles as types,
    /// or a fault where one of them is null.
    pub open spec fn wrapped(raw: Seq<usize>) -> Result<Seq<usize>, Fault> {
        if all_live(raw) {
            Ok(raw)
        } else {
            Err(Fault::NullHandle)
        }
    }

    /// A list of types seen through their handles.
    pub open spec fn viewed_list(made: Result<Vec<Type>, Fault>) -> Result<Seq<usize>, Fault> {
        match made {
            Ok(types) => Ok(Type::handles_of(types@)),
            Err(fault) => Err(fault),
        }
    }

    /// Wraps a handle that the engine returned.
    pub fn new(type_: usize) -> (wrapped: Type)
        requires
            type_ != 0,
        ensures
            wrapped@ == type_,
    {
        Type { type_ }
    }

    /// The handle, as the engine takes it.
    pub fn as_raw(&self) -> (raw: usize)
        ensures
            raw == self@,
            raw != 0,
    {
        proof {
            use_type_invariant(self);
        }
        self.type_
    }

    /// Lays the handles of `types` out as the array that the engine reads.
    pub fn raw_handles(types: &[Type]) -> (raw: Vec<usize>)
        ensures
            raw@ == Type::handles_of(types@),
            all_live(raw@),
    {
        let mut raw: Vec<usize> = Vec::new();
        let mut i: usize = 0;
        while i < types.len()
            invariant
                i <= types.len(),
                raw@.len() == i,
                forall|j: int| 0 <= j < i ==> raw@[j] == (#[trigger] types@[j])@,
                all_live(raw@),
            decreases types.len() - i,
        {
            raw.push(types[i].as_raw());
            i += 1;
        }
        assert(raw@ =~= Type::handles_of(types@));
        raw
    }

    /// Wraps the handles of an array that the engine filled, in order.
    pub fn wrap_all(raw: &Vec<usize>) -> (made: Result<Vec<Type>, Fault>)
        ensures
            Type::viewed_list(made) == Type::wrapped(raw@),
    {
        let mut types: Vec<Type> = Vec::new();
        let mut i: usize = 0;
        while i < raw.len()
            invariant
                i <= raw.len(),
                types@.len() == i,
                forall|j: int| 0 <= j < i ==> (#[trigger] types@[j])@ == raw@[j],
                forall|j: int| 0 <= j < i ==> raw@[j] != 0,
            decreases raw.len() - i,
        {
            if raw[i] == 0 {
                return Err(Fault::NullHandle);
            }
            types.push(Type::new(raw[i]));
            i += 1;
        }
        assert(Type::handles_of(types@) =~= raw@);
        Ok(types)
    }

    /// The call that builds the signature with `self` as return type.
    pub open spec fn fn_type_call(&self, param_types: Seq<Type>, is_var_args: bool) -> CallView {
        CallView::FunctionType {
            return_type: self@,
            param_types: Type::handles_of(param_types),
            param_count: param_types.len() as u32,
            is_var_arg: c_bool(is_var_args),
        }
    }

    /// Builds the function signature that returns `self` and takes
    /// `param_types`, which may be empty, in this order. All of them must
    /// belong to the context of `self`; the engine does not check that.
    pub fn fn_type<E: Fn(Call) -> Reply>(
        &self,
        engine: &E,
        param_types: &[Type],
        is_var_args: bool,
    ) -> (made: Result<FunctionType, Fault>)
        requires
            param_types@.len() <= u32::MAX,
            accepts(engine, self.fn_type_call(param_types@, is_var_args)),
        ensures
            minted(engine, self.fn_type_call(param_types@, is_var_args), viewed(made)),
    {
        let call = Call::FunctionType {
            return_type: self.as_raw(),
            param_types: Type::raw_handles(param_types),
            param_count: param_types.len() as u32,
            is_var_arg: to_c_bool(is_var_args),
        };
        match mint(engine, call) {
            Ok(raw) => Ok(FunctionType::new(raw)),
            Err(fault) => Err(fault),
        }
    }

    /// The call that builds the array constant of `values`.
    pub open spec fn const_array_call(&self, values: Seq<Value>) -> CallView {
        CallView::ConstArray {
            element_type: self@,
            values: Value::handles_of(values),
            length: values.len() as u32,
        }
    }

    /// Builds the array constant that holds `values` in this order, with
    /// `self` as element type. Each value must be of type `self`; the engine
    /// does not check that.
    pub fn const_array<E: Fn(Call) -> Reply>(&self, engine: &E, values: Vec<Value>) -> (made: Result<
        Value,
        Fault,
    >)
        requires
            values@.len() <= u32::MAX,
            accepts(engine, self.const_array_call(values@)),
        ensures
            minted(engine, self.const_array_call(values@), viewed(made)),
    {
        let call = Call::ConstArray {
            element_type: self.as_raw(),
            values: Value::raw_handles(values.as_slice()),
            length: values.len() as u32,
        };
        match mint(engine, call) {
            Ok(raw) => Ok(Value::new(raw)),
            Err(fault) => Err(fault),
        }
    }

    /// The call that asks for the type of the field at `index`.
    pub open spec fn struct_index_call(&self, index: u32) -> CallView {
        CallView::StructGetTypeAtIndex { struct_type: self@, index }
    }

    /// An optional type seen through its handle.
    pub open spec fn viewed_option(made: Result<Option<Type>, Fault>) -> Result<
        Option<usize>,
        Fault,
    > {
        match made {
            Ok(Some(ty)) => Ok(Some(ty@)),
            Ok(None) => Ok(None),
            Err(fault) => Err(fault),
        }
    }

    /// The type of the field at `index` of a struct type. Where the engine
    /// returns the null handle, as it does for an index that is out of range
    /// and for a type without fields, the result is `Ok(None)`.
    pub fn get_type_at_struct_index<E: Fn(Call) -> Reply>(&self, engine: &E, index: u32) -> (made:
        Result<Option<Type>, Fault>)
        requires
            accepts(engine, self.struct_index_call(index)),
        ensures
            exists|reply: Reply| #[trigger]
                answered(engine, self.struct_index_call(index), reply) && Type::viewed_option(made)
                    == reply.optional_handle(),
    {
        let reply = exchange(engine, Call::StructGetTypeAtIndex { struct_type: self.as_raw(), index });
        match reply.into_optional_handle() {
            Ok(Some(raw)) => Ok(Some(Type::new(raw))),
            Ok(None) => Ok(None),
            Err(fault) => Err(fault),
        }
    }

    /// The call that builds the pointer type to `self`.
    pub open spec fn ptr_type_call(&self, address_space: u32) -> CallView {
        CallView::PointerType { element: self@, address_space }
    }

    /// Builds the type of pointers to `self` in `address_space`. The address
    /// space is passed on as it is.
    pub fn ptr_type<E: Fn(Call) -> Reply>(&self, engine: &E, address_space: u32) -> (made: Result<
        Type,
        Fault,
    >)
        requires
            accepts(engine, self.ptr_type_call(address_space)),
        ensures
            minted(engine, self.ptr_type_call(address_space), viewed(made)),
    {
        match mint(engine, Call::PointerType { element: self.as_raw(), address_space }) {
            Ok(raw) => Ok(Type::new(raw)),
            Err(fault) => Err(fault),
        }
    }

    /// The call that builds the array type of `size` elements of `self`.
    pub open spec fn array_type_call(&self, size: u32) -> CallView {
        CallView::ArrayType { element: self@, element_count: size }
    }

    /// Builds the type of arrays of `size` elements of `self`; `size` may be
    /// 0.
    pub fn array_type<E: Fn(Call) -> Reply>(&self, engine: &E, size: u32) -> (made: Result<
        Type,
        Fault,
    >)
        requires
            accepts(engine, self.array_type_call(size)),
        ensures
            minted(engine, self.array_type_call(size), viewed(made)),
    {
        match mint(engine, Call::ArrayType { element: self.as_raw(), element_count: size }) {
            Ok(raw) => Ok(Type::new(raw)),
            Err(fault) => Err(fault),
        }
    }

    /// The call that builds the integer constant.
    pub open spec fn const_int_call(&self, value: u64, sign_extend: bool) -> CallView {
        CallView::ConstInt { int_type: self@, value, sign_extend: c_bool(sign_extend) }
    }

    /// Builds the constant of the integer type `self` from `value`. The 64
    /// bits are passed on as they are: it is the engine that cuts them down
    /// to the width of the type or, with `sign_extend`, widens them by their
    /// sign.
    pub fn const_int<E: Fn(Call) -> Reply>(
        &self,
        engine: &E,
        value: u64,
        sign_extend: bool,
    ) -> (made: Result<Value, Fault>)
        requires
            accepts(engine, self.const_int_call(value, sign_extend)),
        ensures
            minted(engine, self.const_int_call(value, sign_extend), viewed(made)),
    {
        let call = Call::ConstInt {
            int_type: self.as_raw(),
            value,
            sign_extend: to_c_bool(sign_extend),
        };
        match mint(engine, call) {
            Ok(raw) => Ok(Value::new(raw)),
            Err(fault) => Err(fault),
        }
    }

    /// The call that builds the floating-point constant.
    pub open spec fn const_float_call(&self, value_bits: u64) -> CallView {
        CallView::ConstReal { real_type: self@, value_bits }
    }

    /// Builds the constant of the floating-point type `self` for the double
    /// whose IEEE 754 bits are `value_bits`. On a type that is not a
    /// floating-point type the engine's answer is passed on unchanged.
    pub fn const_float<E: Fn(Call) -> Reply>(&self, engine: &E, value_bits: u64) -> (made: Result<
        Value,
        Fault,
    >)
        requires
            accepts(engine, self.const_float_call(value_bits)),
        ensures
            minted(engine, self.const_float_call(value_bits), viewed(made)),
    {
        match mint(engine, Call::ConstReal { real_type: self.as_raw(), value_bits }) {
            Ok(raw) => Ok(Value::new(raw)),
            Err(fault) => Err(fault),
        }
    }

    /// The call that builds the undefined value.
    pub open spec fn get_undef_call(&self) -> CallView {
        CallView::GetUndef { ty: self@ }
    }

    /// Builds the undefined value of type `self`.
    pub fn get_undef<E: Fn(Call) -> Reply>(&self, engine: &E) -> (made: Result<Value, Fault>)
        requires
            accepts(engine, self.get_undef_call()),
        ensures
            minted(engine, self.get_undef_call(), viewed(made)),
    {
        match mint(engine, Call::GetUndef { ty: self.as_raw() }) {
            Ok(raw) => Ok(Value::new(raw)),
            Err(fault) => Err(fault),
        }
    }

    /// The call that asks for the alignment.
    pub open spec fn get_alignment_call(&self) -> CallView {
        CallView::AlignOf { ty: self@ }
    }

    /// The alignment of `self`, as a constant of the engine and not as a
    /// number.
    pub fn get_alignment<E: Fn(Call) -> Reply>(&self, engine: &E) -> (made: Result<Value, Fault>)
        requires
            accepts(engine, self.get_alignment_call()),
        ensures
            minted(engine, self.get_alignment_call(), viewed(made)),
    {
        match mint(engine, Call::AlignOf { ty: self.as_raw() }) {
            Ok(raw) => Ok(Value::new(raw)),
            Err(fault) => Err(fault),
        }
    }

    /// The call that builds the struct constant of `values`.
    pub open spec fn const_struct_call(&self, values: Seq<Value>) -> CallView {
        CallView::ConstNamedStruct {
            struct_type: self@,
            values: Value::handles_of(values),
            count: values.len() as u32,
        }
    }

    /// Builds the constant of the named struct type `self` whose fields are
    /// `values`, in this order. The count that the engine reads is the
    /// length of `values`.
    pub fn const_struct<E: Fn(Call) -> Reply>(&self, engine: &E, values: &[Value]) -> (made: Result<
        Value,
        Fault,
    >)
        requires
            values@.len() <= u32::MAX,
            accepts(engine, self.const_struct_call(values@)),
        ensures
            minted(engine, self.const_struct_call(values@), viewed(made)),
    {
        let call = Call::ConstNamedStruct {
            struct_type: self.as_raw(),
            values: Value::raw_handles(values),
            count: values.len() as u32,
        };
        match mint(engine, call) {
            Ok(raw) => Ok(Value::new(raw)),
            Err(fault) => Err(fault),
        }
    }

    /// The call that asks for the context.
    pub open spec fn get_context_call(&self) -> CallView {
        CallView::GetTypeContext { ty: self@ }
    }

    /// The context that `self` belongs to. Every type has one.
    pub fn get_context<E: Fn(Call) -> Reply>(&self, engine: &E) -> (made: Result<ContextRef, Fault>)
        requires
            accepts(engine, self.get_context_call()),
        ensures
            minted(engine, self.get_context_call(), viewed(made)),
    {
        match mint(engine, Call::GetTypeContext { ty: self.as_raw() }) {
            Ok(raw) => Ok(ContextRef::new(Context::new(raw))),
            Err(fault) => Err(fault),
        }
    }

    /// The call that writes `self` to the diagnostic stream.
    pub open spec fn dump_type_call(&self) -> CallView {
        CallView::DumpType { ty: self@ }
    }

    /// Has the engine write a rendering of `self` to the diagnostic stream.
    /// Whatever the engine replies is dropped.
    pub fn dump_type<E: Fn(Call) -> Reply>(&self, engine: &E)
        requires
            accepts(engine, self.dump_type_call()),
        ensures
            exists|reply: Reply| #[trigger] answered(engine, self.dump_type_call(), reply),
    {
        let _ = exchange(engine, Call::DumpType { ty: self.as_raw() });
    }

    /// The call that asks for the kind.
    pub open spec fn get_kind_call(&self) -> CallView {
        CallView::GetTypeKind { ty: self@ }
    }

    /// The kind that a reply names. A number that stands for no kind is a
    /// reply of the wrong shape.
    pub open spec fn kind_from(reply: Reply) -> Result<TypeKind, Fault> {
        match reply.kind_tag() {
            Ok(tag) => match TypeKind::with_tag(tag) {
                Some(kind) => Ok(kind),
                None => Err(Fault::UnexpectedReply),
            },
            Err(fault) => Err(fault),
        }
    }

    /// The kind of `self`.
    pub fn get_kind<E: Fn(Call) -> Reply>(&self, engine: &E) -> (made: Result<TypeKind, Fault>)
        requires
            accepts(engine, self.get_kind_call()),
        ensures
            exists|reply: Reply| #[trigger]
                answered(engine, self.get_kind_call(), reply) && made == Type::kind_from(reply),
    {
        match exchange(engine, Call::GetTypeKind { ty: self.as_raw() }).into_kind_tag() {
            Ok(tag) => match TypeKind::from_tag(tag) {
                Some(kind) => Ok(kind),
                None => Err(Fault::UnexpectedReply),
            },
            Err(fault) => Err(fault),
        }
    }

    /// The call that asks whether the size is known.
    pub open spec fn is_sized_call(&self) -> CallView {
        CallView::TypeIsSized { ty: self@ }
    }

    /// Whether a reply says that the size is known: its flag is 1.
    pub open spec fn sized_from(reply: Reply) -> Result<bool, Fault> {
        match reply.flag() {
            Ok(flag) => Ok(flag == 1),
            Err(fault) => Err(fault),
        }
    }

    /// Whether the size of `self` is known.
    pub fn is_sized<E: Fn(Call) -> Reply>(&self, engine: &E) -> (made: Result<bool, Fault>)
        requires
            accepts(engine, self.is_sized_call()),
        ensures
            exists|reply: Reply| #[trigger]
                answered(engine, self.is_sized_call(), reply) && made == Type::sized_from(reply),
    {
        match exchange(engine, Call::TypeIsSized { ty: self.as_raw() }).into_flag() {
            Ok(flag) => Ok(flag == 1),
            Err(fault) => Err(fault),
        }
    }

    /// The call that asks for the rendering of `self`.
    pub open spec fn debug_text_call(&self) -> CallView {
        CallView::PrintTypeToString { ty: self@ }
    }

    /// The diagnostic text that a reply gives for the type at `address`.
    pub open spec fn debug_text_from(address: usize, reply: Reply) -> Result<Seq<char>, Fault> {
        match reply.text() {
            Ok(rendering) => Ok(description("Type"@, address, rendering)),
            Err(fault) => Err(fault),
        }
    }

    /// The diagnostic text of `self`: its address and the engine's rendering
    /// of the type.
    pub fn debug_text<E: Fn(Call) -> Reply>(&self, engine: &E) -> (made: Result<String, Fault>)
        requires
            accepts(engine, self.debug_text_call()),
        ensures
            exists|reply: Reply| #[trigger]
                answered(engine, self.debug_text_call(), reply) && viewed(made)
                    == Type::debug_text_from(self@, reply),
    {
        match exchange(engine, Call::PrintTypeToString { ty: self.as_raw() }).into_text() {
            Ok(rendering) => Ok(describe("Type", self.as_raw(), rendering.as_slice())),
            Err(fault) => Err(fault),
        }
    }

    /// The signature that `self` is, where a reply names the kind of a
    /// function.
    pub open spec fn function_type_from(&self, reply: Reply) -> Result<Option<usize>, Fault> {
        match Type::kind_from(reply) {
            Ok(kind) => if kind == TypeKind::Function {
                Ok(Some(self@))
            } else {
                Ok(None)
            },
            Err(fault) => Err(fault),
        }
    }

    /// `self` as a function signature, if its kind is that of a function.
    pub fn as_function_type<E: Fn(Call) -> Reply>(&self, engine: &E) -> (made: Result<
        Option<FunctionType>,
        Fault,
    >)
        requires
            accepts(engine, self.get_kind_call()),
        ensures
            exists|reply: Reply| #[trigger]
                answered(engine, self.get_kind_call(), reply) && FunctionType::viewed_option(made)
                    == self.function_type_from(reply),
    {
        match self.get_kind(engine) {
            Ok(TypeKind::Function) => Ok(Some(FunctionType::new(self.as_raw()))),
            Ok(_) => Ok(None),
            Err(fault) => Err(fault),
        }
    }
}

impl FunctionType {
    #[verifier::type_invariant]
    spec fn live(self) -> bool {
        self.fn_type != 0
    }

    /// Wraps a handle that the engine returned for a signature.
    pub fn new(fn_type: usize) -> (wrapped: FunctionType)
        requires
            fn_type != 0,
        ensures
            wrapped@ == fn_type,
    {
        FunctionType { fn_type }
    }

    /// The handle, as the engine takes it.
    pub fn as_raw(&self) -> (raw: usize)
        ensures
            raw == self@,
            raw != 0,
    {
        proof {
            use_type_invariant(self);
        }
        self.fn_type
    }

    /// The signature as a plain type: the same object of the engine.
    pub fn as_type(&self) -> (ty: Type)
        ensures
            ty@ == self@,
    {
        Type::new(self.as_raw())
    }

    /// An optional signature seen through its handle.
    pub open spec fn viewed_option(made: Result<Option<FunctionType>, Fault>) -> Result<
        Option<usize>,
        Fault,
    > {
        match made {
            Ok(Some(function_type)) => Ok(Some(function_type@)),
            Ok(None) => Ok(None),
            Err(fault) => Err(fault),
        }
    }

    /// The call that asks for the rendering of the signature.
    pub open spec fn debug_text_call(&self) -> CallView {
        CallView::PrintTypeToString { ty: self@ }
    }

    /// The diagnostic text that a reply gives for the signature at
    /// `address`.
    pub open spec fn debug_text_from(address: usize, reply: Reply) -> Result<Seq<char>, Fault> {
        match reply.text() {
            Ok(rendering) => Ok(description("FunctionType"@, address, rendering)),
            Err(fault) => Err(fault),
        }
    }

    /// The diagnostic text of the signature: its address and the engine's
    /// rendering of it.
    pub fn debug_text<E: Fn(Call) -> Reply>(&self, engine: &E) -> (made: Result<String, Fault>)
        requires
            accepts(engine, self.debug_text_call()),
        ensures
            exists|reply: Reply| #[trigger]
                answered(engine, self.debug_text_call(), reply) && viewed(made)
                    == FunctionType::debug_text_from(self@, reply),
    {
        match exchange(engine, Call::PrintTypeToString { ty: self.as_raw() }).into_text() {
            Ok(rendering) => Ok(describe("FunctionType", self.as_raw(), rendering.as_slice())),
            Err(fault) => Err(fault),
        }
    }

    /// The call that asks whether the signature is variadic.
    pub open spec fn is_var_arg_call(&self) -> CallView {
        CallView::IsFunctionVarArg { function_type: self@ }
    }

    /// Whether a reply says that the signature is variadic: its flag is not
    /// 0.
    pub open spec fn var_arg_from(reply: Reply) -> Result<bool, Fault> {
        match reply.flag() {
            Ok(flag) => Ok(flag != 0),
            Err(fault) => Err(fault),
        }
    }

    /// Whether further arguments may follow the declared parameters.
    pub fn is_var_arg<E: Fn(Call) -> Reply>(&self, engine: &E) -> (made: Result<bool, Fault>)
        requires
            accepts(engine, self.is_var_arg_call()),
        ensures
            exists|reply: Reply| #[trigger]
                answered(engine, self.is_var_arg_call(), reply) && made
                    == FunctionType::var_arg_from(reply),
    {
        match exchange(engine, Call::IsFunctionVarArg { function_type: self.as_raw() }).into_flag() {
            Ok(flag) => Ok(flag != 0),
            Err(fault) => Err(fault),
        }
    }

    /// The call that counts the parameters.
    pub open spec fn count_call(&self) -> CallView {
        CallView::CountParamTypes { function_type: self@ }
    }

    /// The call that lists the parameter types into a buffer of `capacity`
    /// handles.
    pub open spec fn list_call(&self, capacity: u32) -> CallView {
        CallView::GetParamTypes { function_type: self@, capacity }
    }

    /// The number of parameters of the signature.
    pub fn count_param_types<E: Fn(Call) -> Reply>(&self, engine: &E) -> (made: Result<u32, Fault>)
        requires
            accepts(engine, self.count_call()),
        ensures
            exists|reply: Reply| #[trigger]
                answered(engine, self.count_call(), reply) && made == reply.count(),
    {
        exchange(engine, Call::CountParamTypes { function_type: self.as_raw() }).into_count()
    }

    /// The parameter types of the signature, in the order of their
    /// declaration. The engine is first asked for their number, then for
    /// that many handles; a list of another length is a fault.
    pub fn get_param_types<E: Fn(Call) -> Reply>(&self, engine: &E) -> (made: Result<
        Vec<Type>,
        Fault,
    >)
        requires
            accepts(engine, self.count_call()),
            forall|capacity: u32| accepts(engine, #[trigger] self.list_call(capacity)),
        ensures
            exists|counted: Reply| #[trigger]
                answered(engine, self.count_call(), counted) && match counted.count() {
                    Err(fault) => made == Err::<Vec<Type>, Fault>(fault),
                    Ok(count) => exists|listed: Reply| #[trigger]
                        answered(engine, self.list_call(count), listed) && Type::viewed_list(made)
                            == match listed.handles(count) {
                            Ok(raw) => Type::wrapped(raw),
                            Err(fault) => Err(fault),
                        },
                },
    {
        let counted = exchange(engine, Call::CountParamTypes { function_type: self.as_raw() });
        let count = match counted.into_count() {
            Ok(count) => count,
            Err(fault) => {
                return Err(fault);
            },
        };
        assert(accepts(engine, self.list_call(count)));
        let listed = exchange(
            engine,
            Call::GetParamTypes { function_type: self.as_raw(), capacity: count },
        );
        match listed.into_handles(count) {
            Ok(raw) => Type::wrap_all(&raw),
            Err(fault) => Err(fault),
        }
    }
}

impl IntType {
    #[verifier::type_invariant]
    spec fn live(self) -> bool {
        self.int_type != 0
    }

    /// Wraps a handle that the engine returned for an integer type.
    pub fn new(int_type: usize) -> (wrapped: IntType)
        requires
            int_type != 0,
        ensures
            wrapped@ == int_type,
    {
        IntType { int_type }
    }

    /// The handle, as the engine takes it.
    pub fn as_raw(&self) -> (raw: usize)
        ensures
            raw == self@,
            raw != 0,
    {
        proof {
            use_type_invariant(self);
        }
        self.int_type
    }

    /// The integer type as a plain type: the same object of the engine.
    pub fn as_type(&self) -> (ty: Type)
        ensures
            ty@ == self@,
    {
        Type::new(self.as_raw())
    }

    /// The call that asks for the integer type of `bits` bits.
    pub open spec fn width_call(bits: u32) -> CallView {
        CallView::IntType { bits }
    }

    /// The 1-bit integer type.
    pub fn bool_type<E: Fn(Call) -> Reply>(engine: &E) -> (made: Result<IntType, Fault>)
        requires
            accepts(engine, CallView::Int1Type),
        ensures
            minted(engine, CallView::Int1Type, viewed(made)),
    {
        match mint(engine, Call::Int1Type) {
            Ok(raw) => Ok(IntType::new(raw)),
            Err(fault) => Err(fault),
        }
    }

    /// The 8-bit integer type.
    pub fn i8_type<E: Fn(Call) -> Reply>(engine: &E) -> (made: Result<IntType, Fault>)
        requires
            accepts(engine, CallView::Int8Type),
        ensures
            minted(engine, CallView::Int8Type, viewed(made)),
    {
        match mint(engine, Call::Int8Type) {
            Ok(raw) => Ok(IntType::new(raw)),
            Err(fault) => Err(fault),
        }
    }

    /// The 16-bit integer type.
    pub fn i16_type<E: Fn(Call) -> Reply>(engine: &E) -> (made: Result<IntType, Fault>)
        requires
            accepts(engine, CallView::Int16Type),
        ensures
            minted(engine, CallView::Int16Type, viewed(made)),
    {
        match mint(engine, Call::Int16Type) {
            Ok(raw) => Ok(IntType::new(raw)),
            Err(fault) => Err(fault),
        }
    }

    /// The 32-bit integer type.
    pub fn i32_type<E: Fn(Call) -> Reply>(engine: &E) -> (made: Result<IntType, Fault>)
        requires
            accepts(engine, CallView::Int32Type),
        ensures
            minted(engine, CallView::Int32Type, viewed(made)),
    {
        match mint(engine, Call::Int32Type) {
            Ok(raw) => Ok(IntType::new(raw)),
            Err(fault) => Err(fault),
        }
    }

    /// The 64-bit integer type.
    pub fn i64_type<E: Fn(Call) -> Reply>(engine: &E) -> (made: Result<IntType, Fault>)
        requires
            accepts(engine, CallView::Int64Type),
        ensures
            minted(engine, CallView::Int64Type, viewed(made)),
    {
        match mint(engine, Call::Int64Type) {
            Ok(raw) => Ok(IntType::new(raw)),
            Err(fault) => Err(fault),
        }
    }

    /// The 128-bit integer type, asked for by its width.
    pub fn i128_type<E: Fn(Call) -> Reply>(engine: &E) -> (made: Result<IntType, Fault>)
        requires
            accepts(engine, IntType::width_call(128)),
        ensures
            minted(engine, IntType::width_call(128), viewed(made)),
    {
        IntType::custom_width_int_type(engine, 128)
    }

    /// The integer type of `bits` bits. The width is passed on as it is.
    pub fn custom_width_int_type<E: Fn(Call) -> Reply>(engine: &E, bits: u32) -> (made: Result<
        IntType,
        Fault,
    >)
        requires
            accepts(engine, IntType::width_call(bits)),
        ensures
            minted(engine, IntType::width_call(bits), viewed(made)),
    {
        match mint(engine, Call::IntType { bits }) {
            Ok(raw) => Ok(IntType::new(raw)),
            Err(fault) => Err(fault),
        }
    }
}

/// The floating-point formats of the engine.
#[derive(Clone, Copy, Debug, PartialEq, Eq, Structural)]
pub enum FloatFormat {
    /// 16 bits, IEEE 754.
    Half,
    /// 32 bits, IEEE 754.
    Float,
    /// 64 bits, IEEE 754.
    Double,
    /// 80 bits, x87.
    X86FP80,
    /// 128 bits, IEEE 754.
    FP128,
    /// 128 bits, two doubles.
    PPCFP128,
}

impl FloatType {
    #[verifier::type_invariant]
    spec fn live(self) -> bool {
        self.float_type != 0
    }

    /// Wraps a handle that the engine returned for a floating-point type.
    pub fn new(float_type: usize) -> (wrapped: FloatType)
        requires
            float_type != 0,
        ensures
            wrapped@ == float_type,
    {
        FloatType { float_type }
    }

    /// The handle, as the engine takes it.
    pub fn as_raw(&self) -> (raw: usize)
        ensures
            raw == self@,
            raw != 0,
    {
        proof {
            use_type_invariant(self);
        }
        self.float_type
    }

    /// The floating-point type as a plain type: the same object of the
    /// engine.
    pub fn as_type(&self) -> (ty: Type)
        ensures
            ty@ == self@,
    {
        Type::new(self.as_raw())
    }

    /// The call that asks for the type of `format`.
    pub open spec fn format_call(format: FloatFormat) -> CallView {
        match format {
            FloatFormat::Half => CallView::HalfType,
            FloatFormat::Float => CallView::FloatType,
            FloatFormat::Double => CallView::DoubleType,
            FloatFormat::X86FP80 => CallView::X86FP80Type,
            FloatFormat::FP128 => CallView::FP128Type,
            FloatFormat::PPCFP128 => CallView::PPCFP128Type,
        }
    }

    /// The floating-point type of `format`.
    pub fn of_format<E: Fn(Call) -> Reply>(engine: &E, format: FloatFormat) -> (made: Result<
        FloatType,
        Fault,
    >)
        requires
            accepts(engine, FloatType::format_call(format)),
        ensures
            minted(engine, FloatType::format_call(format), viewed(made)),
    {
        let call = match format {
            FloatFormat::Half => Call::HalfType,
            FloatFormat::Float => Call::FloatType,
            FloatFormat::Double => Call::DoubleType,
            FloatFormat::X86FP80 => Call::X86FP80Type,
            FloatFormat::FP128 => Call::FP128Type,
            FloatFormat::PPCFP128 => Call::PPCFP128Type,
        };
        match mint(engine, call) {
            Ok(raw) => Ok(FloatType::new(raw)),
            Err(fault) => Err(fault),
        }
    }
}

} // verus!
