use lua_userdata::{Dialect, Engine, UserData, Value};

struct Counter;

impl UserData for Counter {}

const KEY: u64 = 1;

#[test]
fn user_value_starts_absent() {
    let mut e = Engine::new(Dialect::Lua53);
    let h = e.create_userdata::<Counter>(KEY, Value::Int(0));
    assert_eq!(h.get_user_value(&e).unwrap(), Value::Nil);
}

#[test]
fn user_value_round_trips() {
    let mut e = Engine::new(Dialect::Lua53);
    let h = e.create_userdata::<Counter>(KEY, Value::Int(0));
    h.set_user_value(&mut e, Value::Int(-7)).unwrap();
    assert_eq!(h.get_user_value(&e).unwrap(), Value::Int(-7));
    h.set_user_value(&mut e, Value::Str(String::from("note")))
        .unwrap();
    assert_eq!(
        h.get_user_value(&e).unwrap(),
        Value::Str(String::from("note"))
    );
    h.set_user_value(&mut e, Value::Bool(false)).unwrap();
    assert_eq!(h.get_user_value(&e).unwrap(), Value::Bool(false));
    // absence of a value round-trips too
    h.set_user_value(&mut e, Value::Nil).unwrap();
    assert_eq!(h.get_user_value(&e).unwrap(), Value::Nil);
}

#[test]
fn user_value_is_independent_of_the_instance() {
    let mut e = Engine::new(Dialect::Lua53);
    let h = e.create_userdata::<Counter>(KEY, Value::Int(10));
    h.set_user_value(&mut e, Value::Int(555)).unwrap();
    let v = h.borrow::<Counter>(&mut e, KEY).unwrap();
    assert_eq!(*v.value(), Value::Int(10));
    v.release(&mut e);
}

#[test]
fn user_value_is_per_slot() {
    let mut e = Engine::new(Dialect::Lua53);
    let h1 = e.create_userdata::<Counter>(KEY, Value::Int(0));
    let h2 = e.create_userdata::<Counter>(KEY, Value::Int(0));
    h1.set_user_value(&mut e, Value::Int(1)).unwrap();
    h2.set_user_value(&mut e, Value::Int(2)).unwrap();
    assert_eq!(h1.get_user_value(&e).unwrap(), Value::Int(1));
    assert_eq!(h2.get_user_value(&e).unwrap(), Value::Int(2));
}

#[test]
fn untyped_userdata_carries_a_user_value() {
    let mut e = Engine::new(Dialect::Lua53);
    let h = e.create_untyped_userdata(Value::Nil);
    h.set_user_value(&mut e, Value::Function(9)).unwrap();
    assert_eq!(h.get_user_value(&e).unwrap(), Value::Function(9));
}
