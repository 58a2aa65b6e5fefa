use lua_userdata::{Dialect, Engine, Error, UserData, Value};

struct Counter;

impl UserData for Counter {}

struct Widget;

impl UserData for Widget {}

const COUNTER_KEY: u64 = 1;
const WIDGET_KEY: u64 = 2;

fn host(_id: u64, _recv: Value, _args: Vec<Value>) -> Result<(Value, Value), Error> {
    Ok((Value::Nil, Value::Nil))
}

#[test]
fn handle_of_own_type_checks() {
    let mut e = Engine::new(Dialect::Lua53);
    let h = e.create_userdata::<Counter>(COUNTER_KEY, Value::Int(1));
    assert!(h.is::<Counter>(&mut e, COUNTER_KEY));
}

#[test]
fn handle_of_other_type_fails_all_typed_access() {
    let mut e = Engine::new(Dialect::Lua53);
    let h = e.create_userdata::<Widget>(WIDGET_KEY, Value::Int(1));
    assert!(!h.is::<Counter>(&mut e, COUNTER_KEY));
    assert!(matches!(
        h.borrow::<Counter>(&mut e, COUNTER_KEY),
        Err(Error::UserDataTypeMismatch)
    ));
    assert!(matches!(
        h.borrow_mut::<Counter>(&mut e, COUNTER_KEY),
        Err(Error::UserDataTypeMismatch)
    ));
    assert!(h.is::<Widget>(&mut e, WIDGET_KEY));
}

#[test]
fn userdata_without_metatable_never_checks() {
    let mut e = Engine::new(Dialect::Lua53);
    let h = e.create_untyped_userdata(Value::Int(1));
    assert!(!h.is::<Counter>(&mut e, COUNTER_KEY));
    assert!(matches!(
        h.borrow::<Counter>(&mut e, COUNTER_KEY),
        Err(Error::UserDataTypeMismatch)
    ));
    assert!(matches!(
        e.invoke_method(h, &String::from("get"), vec![], &host),
        Err(Error::UserDataTypeMismatch)
    ));
}

#[test]
fn registration_is_idempotent_per_key() {
    let mut e = Engine::new(Dialect::Lua53);
    let t1 = e.register_type::<Counter>(COUNTER_KEY);
    let t2 = e.register_type::<Counter>(COUNTER_KEY);
    let t3 = e.register_type::<Widget>(WIDGET_KEY);
    assert_eq!(t1, t2);
    assert_ne!(t1, t3);
}

#[test]
fn handle_from_other_engine_is_a_type_mismatch() {
    let mut a = Engine::new(Dialect::Lua53);
    let _ = a.create_userdata::<Counter>(COUNTER_KEY, Value::Int(1));
    let h = a.create_userdata::<Counter>(COUNTER_KEY, Value::Int(2));
    let mut b = Engine::new(Dialect::Lua53);
    let _ = b.create_userdata::<Counter>(COUNTER_KEY, Value::Int(3));
    // `h` names the second slot of `a`; engine `b` has no such slot.
    assert!(matches!(
        h.borrow::<Counter>(&mut b, COUNTER_KEY),
        Err(Error::UserDataTypeMismatch)
    ));
}

#[test]
fn metatable_identity_follows_the_type() {
    let mut e = Engine::new(Dialect::Lua53);
    let a = e.create_userdata::<Counter>(COUNTER_KEY, Value::Int(1));
    let b = e.create_userdata::<Counter>(COUNTER_KEY, Value::Int(2));
    let c = e.create_userdata::<Widget>(WIDGET_KEY, Value::Int(3));
    let d = e.create_untyped_userdata(Value::Int(4));
    assert_eq!(a.get_metatable(&e).unwrap(), b.get_metatable(&e).unwrap());
    assert_ne!(a.get_metatable(&e).unwrap(), c.get_metatable(&e).unwrap());
    assert!(matches!(d.get_metatable(&e), Err(Error::UserDataTypeMismatch)));
}
