use ir_types::engine::{Call, Fault, Reply};
use ir_types::types::{FunctionType, IntType, Type};
use std::cell::RefCell;

/// What a small engine remembers of each type it made.
enum Made {
    Int(u32),
    Function { params: Vec<usize>, var_arg: bool },
}

/// An engine that keeps one object for each distinct type, as the real one
/// does, and answers the questions about signatures from what it was given.
fn interning(table: &RefCell<Vec<Made>>) -> impl Fn(Call) -> Reply + '_ {
    move |call: Call| {
        let mut made = table.borrow_mut();
        let handle = |index: usize| 0x1000 + 16 * index;
        let index = |raw: usize| (raw - 0x1000) / 16;
        match call {
            Call::Int1Type => Reply::Handle(handle(intern(&mut made, 1))),
            Call::Int8Type => Reply::Handle(handle(intern(&mut made, 8))),
            Call::Int16Type => Reply::Handle(handle(intern(&mut made, 16))),
            Call::Int32Type => Reply::Handle(handle(intern(&mut made, 32))),
            Call::Int64Type => Reply::Handle(handle(intern(&mut made, 64))),
            Call::IntType { bits } => Reply::Handle(handle(intern(&mut made, bits))),
            Call::FunctionType { param_types, param_count, is_var_arg, .. } => {
                assert_eq!(param_types.len(), param_count as usize);
                made.push(Made::Function { params: param_types, var_arg: is_var_arg != 0 });
                Reply::Handle(handle(made.len() - 1))
            }
            Call::CountParamTypes { function_type } => match &made[index(function_type)] {
                Made::Function { params, .. } => Reply::Count(params.len() as u32),
                Made::Int(_) => Reply::Count(0),
            },
            Call::GetParamTypes { function_type, capacity } => match &made[index(function_type)] {
                Made::Function { params, .. } => {
                    assert_eq!(params.len(), capacity as usize);
                    Reply::Handles(params.clone())
                }
                Made::Int(_) => Reply::Handles(Vec::new()),
            },
            Call::IsFunctionVarArg { function_type } => match &made[index(function_type)] {
                Made::Function { var_arg, .. } => Reply::Flag(if *var_arg { 1 } else { 0 }),
                Made::Int(_) => Reply::Flag(0),
            },
            _ => Reply::Nothing,
        }
    }
}

fn intern(made: &mut Vec<Made>, bits: u32) -> usize {
    for (index, entry) in made.iter().enumerate() {
        if let Made::Int(width) = entry {
            if *width == bits {
                return index;
            }
        }
    }
    made.push(Made::Int(bits));
    made.len() - 1
}

#[test]
fn test_function_type() {
    let table = RefCell::new(Vec::new());
    let engine = interning(&table);
    let int = IntType::i8_type(&engine).unwrap().as_type();
    let int2 = IntType::i8_type(&engine).unwrap().as_type();
    let int3 = IntType::i8_type(&engine).unwrap().as_type();

    let fn_type = int.fn_type(&engine, &mut [int2, int3], false).ok().unwrap();

    let param_types = fn_type.get_param_types(&engine).ok().unwrap();

    assert_eq!(param_types.len(), 2);
    assert_eq!(param_types[0].as_raw(), int.as_raw());
    assert_eq!(param_types[1].as_raw(), int.as_raw());
}

#[test]
fn same_width_twice_is_one_object() {
    let table = RefCell::new(Vec::new());
    let engine = interning(&table);
    let first = IntType::custom_width_int_type(&engine, 24).ok().unwrap();
    let second = IntType::custom_width_int_type(&engine, 24).ok().unwrap();
    let other = IntType::custom_width_int_type(&engine, 25).ok().unwrap();
    assert!(first == second);
    assert_eq!(first.as_raw(), second.as_raw());
    assert!(first != other);
    assert!(first.as_type() == second.as_type());
}

#[test]
fn named_widths_are_the_widths() {
    let table = RefCell::new(Vec::new());
    let engine = interning(&table);
    let by_width = |bits: u32| IntType::custom_width_int_type(&engine, bits).ok().unwrap();
    assert!(IntType::bool_type(&engine).ok().unwrap() == by_width(1));
    assert!(IntType::i8_type(&engine).ok().unwrap() == by_width(8));
    assert!(IntType::i16_type(&engine).ok().unwrap() == by_width(16));
    assert!(IntType::i32_type(&engine).ok().unwrap() == by_width(32));
    assert!(IntType::i64_type(&engine).ok().unwrap() == by_width(64));
    assert!(IntType::i128_type(&engine).ok().unwrap() == by_width(128));
}

#[test]
fn signature_comes_back_in_order() {
    let table = RefCell::new(Vec::new());
    let engine = interning(&table);
    let ret = IntType::i32_type(&engine).ok().unwrap().as_type();
    let narrow = IntType::i8_type(&engine).ok().unwrap().as_type();
    let wide = IntType::i64_type(&engine).ok().unwrap().as_type();
    let fn_type = ret.fn_type(&engine, &[narrow, wide], false).ok().unwrap();
    assert_eq!(fn_type.count_param_types(&engine), Ok(2));
    let params = fn_type.get_param_types(&engine).ok().unwrap();
    assert_eq!(params.len(), 2);
    assert!(params[0] == narrow);
    assert!(params[1] == wide);
    assert!(params[0] != params[1]);
    assert_eq!(fn_type.is_var_arg(&engine), Ok(false));

    let variadic = ret.fn_type(&engine, &[wide], true).ok().unwrap();
    assert_eq!(variadic.is_var_arg(&engine), Ok(true));
    assert_eq!(variadic.count_param_types(&engine), Ok(1));
}

#[test]
fn signature_without_parameters() {
    let table = RefCell::new(Vec::new());
    let engine = interning(&table);
    let ret = IntType::i32_type(&engine).ok().unwrap().as_type();
    let fn_type = ret.fn_type(&engine, &[], false).ok().unwrap();
    assert_eq!(fn_type.count_param_types(&engine), Ok(0));
    assert_eq!(fn_type.get_param_types(&engine).ok().unwrap().len(), 0);
}

#[test]
fn fn_type_sends_handles_count_and_flag() {
    let sent = RefCell::new(Vec::new());
    let engine = |call: Call| {
        sent.borrow_mut().push(call);
        Reply::Handle(0x40)
    };
    let ret = Type::new(0x10);
    let made = ret.fn_type(&engine, &[Type::new(0x20), Type::new(0x30), Type::new(0x20)], true);
    assert_eq!(made.ok().unwrap().as_raw(), 0x40);
    assert_eq!(
        *sent.borrow(),
        vec![Call::FunctionType {
            return_type: 0x10,
            param_types: vec![0x20, 0x30, 0x20],
            param_count: 3,
            is_var_arg: 1,
        }]
    );
}

#[test]
fn fn_type_null_reply_is_a_fault() {
    let engine = |_call: Call| Reply::Handle(0);
    let made = Type::new(0x10).fn_type(&engine, &[], false);
    assert_eq!(made.err(), Some(Fault::NullHandle));
    let engine = |_call: Call| Reply::Count(3);
    let made = Type::new(0x10).fn_type(&engine, &[], false);
    assert_eq!(made.err(), Some(Fault::UnexpectedReply));
}

#[test]
fn param_list_of_another_length_is_a_fault() {
    let engine = |call: Call| match call {
        Call::CountParamTypes { .. } => Reply::Count(2),
        _ => Reply::Handles(vec![0x20]),
    };
    let made = FunctionType::new(0x40).get_param_types(&engine);
    assert_eq!(made.err(), Some(Fault::UnexpectedReply));
}

#[test]
fn param_list_with_a_null_handle_is_a_fault() {
    let engine = |call: Call| match call {
        Call::CountParamTypes { .. } => Reply::Count(2),
        _ => Reply::Handles(vec![0x20, 0]),
    };
    let made = FunctionType::new(0x40).get_param_types(&engine);
    assert_eq!(made.err(), Some(Fault::NullHandle));
}

#[test]
fn param_list_asks_for_the_counted_capacity() {
    let sent = RefCell::new(Vec::new());
    let engine = |call: Call| {
        let reply = match call {
            Call::CountParamTypes { .. } => Reply::Count(3),
            _ => Reply::Handles(vec![0x20, 0x30, 0x50]),
        };
        sent.borrow_mut().push(call);
        reply
    };
    let params = FunctionType::new(0x40).get_param_types(&engine).ok().unwrap();
    let raw: Vec<usize> = params.iter().map(|ty| ty.as_raw()).collect();
    assert_eq!(raw, vec![0x20, 0x30, 0x50]);
    assert_eq!(
        *sent.borrow(),
        vec![
            Call::CountParamTypes { function_type: 0x40 },
            Call::GetParamTypes { function_type: 0x40, capacity: 3 },
        ]
    );
}

#[test]
fn count_reply_of_the_wrong_shape_stops_the_listing() {
    let sent = RefCell::new(0u32);
    let engine = |_call: Call| {
        *sent.borrow_mut() += 1;
        Reply::Handle(0x20)
    };
    let made = FunctionType::new(0x40).get_param_types(&engine);
    assert_eq!(made.err(), Some(Fault::UnexpectedReply));
    assert_eq!(*sent.borrow(), 1);
    assert_eq!(FunctionType::new(0x40).count_param_types(&engine), Err(Fault::UnexpectedReply));
}

#[test]
fn var_arg_flag_is_anything_but_zero() {
    let flag = |value: i32| FunctionType::new(0x40).is_var_arg(&move |_call: Call| Reply::Flag(value));
    assert_eq!(flag(0), Ok(false));
    assert_eq!(flag(1), Ok(true));
    assert_eq!(flag(2), Ok(true));
    assert_eq!(flag(-1), Ok(true));
    let engine = |_call: Call| Reply::Nothing;
    assert_eq!(FunctionType::new(0x40).is_var_arg(&engine), Err(Fault::UnexpectedReply));
}

#[test]
fn signature_is_the_same_object_as_a_type() {
    let fn_type = FunctionType::new(0x40);
    assert_eq!(fn_type.as_type().as_raw(), 0x40);
    let function = |_call: Call| Reply::Kind(9);
    let back = fn_type.as_type().as_function_type(&function).ok().unwrap();
    assert!(back == Some(fn_type));
    let integer = |_call: Call| Reply::Kind(8);
    assert!(Type::new(0x10).as_function_type(&integer).ok().unwrap().is_none());
    let unknown = |_call: Call| Reply::Kind(15);
    assert_eq!(Type::new(0x10).as_function_type(&unknown).err(), Some(Fault::UnexpectedReply));
}

#[test]
fn int_type_null_reply_is_a_fault() {
    let engine = |_call: Call| Reply::Handle(0);
    assert_eq!(IntType::bool_type(&engine).err(), Some(Fault::NullHandle));
    assert_eq!(IntType::i8_type(&engine).err(), Some(Fault::NullHandle));
    assert_eq!(IntType::i16_type(&engine).err(), Some(Fault::NullHandle));
    assert_eq!(IntType::i32_type(&engine).err(), Some(Fault::NullHandle));
    assert_eq!(IntType::i64_type(&engine).err(), Some(Fault::NullHandle));
    assert_eq!(IntType::i128_type(&engine).err(), Some(Fault::NullHandle));
    assert_eq!(IntType::custom_width_int_type(&engine, 7).err(), Some(Fault::NullHandle));
}

#[test]
fn int_types_send_their_calls() {
    let sent = RefCell::new(Vec::new());
    let engine = |call: Call| {
        sent.borrow_mut().push(call);
        Reply::Handle(0x80)
    };
    assert_eq!(IntType::bool_type(&engine).ok().unwrap().as_raw(), 0x80);
    IntType::i8_type(&engine).ok().unwrap();
    IntType::i16_type(&engine).ok().unwrap();
    IntType::i32_type(&engine).ok().unwrap();
    IntType::i64_type(&engine).ok().unwrap();
    IntType::i128_type(&engine).ok().unwrap();
    IntType::custom_width_int_type(&engine, 0).ok().unwrap();
    assert_eq!(
        *sent.borrow(),
        vec![
            Call::Int1Type,
            Call::Int8Type,
            Call::Int16Type,
            Call::Int32Type,
            Call::Int64Type,
            Call::IntType { bits: 128 },
            Call::IntType { bits: 0 },
        ]
    );
}
