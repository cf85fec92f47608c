use rquickjs_core::error::Error;
use rquickjs_core::value::function::ffi::{check_call_kind, JsFunction, JsFunctionWithClass, MUST_BE_CALLED_WITH_NEW};
use rquickjs_core::value::function::Input;
use rquickjs_core::value::Value;

fn input(args: Vec<Value>) -> Input {
    Input { this: Value::Undefined, args }
}

#[test]
fn call_kind_check() {
    assert_eq!(check_call_kind(false, 0), Ok(()));
    assert_eq!(check_call_kind(true, 1), Ok(()));
    assert_eq!(check_call_kind(true, 0), Err(Error::Type(MUST_BE_CALLED_WITH_NEW)));
    assert_eq!(check_call_kind(false, 1), Err(Error::Type("must be called with new")));
    assert_eq!(check_call_kind(false, 2), Ok(()));
}

#[test]
fn js_function_calls_closure() {
    let f = JsFunction::new(|i: &Input| Ok(Value::Int(i.args.len() as i32)));
    assert_eq!(f.call(false, 0, &input(vec![Value::Null, Value::Null])), Ok(Value::Int(2)));
    assert_eq!(
        f.call(false, 1, &input(vec![])),
        Err(Error::Type("must be called with new"))
    );
    assert_eq!((f.func())(&input(vec![])), Ok(Value::Int(0)));
}

#[test]
fn js_function_with_class_keeps_class() {
    let f: JsFunctionWithClass<u32, (), ()> = JsFunctionWithClass::new(5);
    assert_eq!(*f.class(), 5);
}

#[test]
fn get_opaque_of_class_function() {
    let f: JsFunctionWithClass<u32, (), ()> = JsFunctionWithClass::new(9);
    assert_eq!(JsFunctionWithClass::get_opaque(Some(&f), "Point"), Ok(&9));
    assert_eq!(
        JsFunctionWithClass::<u32, (), ()>::get_opaque(None, "Point"),
        Err(Error::NotClassInstance("Point"))
    );
}
