use lua_userdata::{Dialect, Engine, Error, UserData, Value};

struct Counter;

impl UserData for Counter {}

const KEY: u64 = 1;

#[test]
fn borrow_release_then_borrow_mut_succeeds() {
    let mut e = Engine::new(Dialect::Lua53);
    let h = e.create_userdata::<Counter>(KEY, Value::Int(42));
    let v = h.borrow::<Counter>(&mut e, KEY).unwrap();
    assert_eq!(*v.value(), Value::Int(42));
    v.release(&mut e);
    let m = h.borrow_mut::<Counter>(&mut e, KEY).unwrap();
    assert_eq!(*m.value(), Value::Int(42));
    m.release(&mut e);
    // a fully released instance shows no residual conflict either way
    let v2 = h.borrow::<Counter>(&mut e, KEY).unwrap();
    v2.release(&mut e);
}

#[test]
fn nested_borrow_mut_under_shared_conflicts() {
    let mut e = Engine::new(Dialect::Lua53);
    let h = e.create_userdata::<Counter>(KEY, Value::Int(0));
    let v = h.borrow::<Counter>(&mut e, KEY).unwrap();
    assert!(matches!(
        h.borrow_mut::<Counter>(&mut e, KEY),
        Err(Error::UserDataBorrowMutError)
    ));
    // several shared borrows coexist
    let v2 = h.borrow::<Counter>(&mut e, KEY).unwrap();
    v2.release(&mut e);
    v.release(&mut e);
}

#[test]
fn nested_access_under_exclusive_conflicts() {
    let mut e = Engine::new(Dialect::Lua53);
    let h = e.create_userdata::<Counter>(KEY, Value::Int(0));
    let m = h.borrow_mut::<Counter>(&mut e, KEY).unwrap();
    assert!(matches!(
        h.borrow::<Counter>(&mut e, KEY),
        Err(Error::UserDataBorrowError)
    ));
    assert!(matches!(
        h.borrow_mut::<Counter>(&mut e, KEY),
        Err(Error::UserDataBorrowMutError)
    ));
    m.release(&mut e);
}

#[test]
fn exclusive_mutation_lands_at_release() {
    let mut e = Engine::new(Dialect::Lua53);
    let h = e.create_userdata::<Counter>(KEY, Value::Int(1));
    let mut m = h.borrow_mut::<Counter>(&mut e, KEY).unwrap();
    m.set_value(Value::Int(99));
    m.release(&mut e);
    let v = h.borrow::<Counter>(&mut e, KEY).unwrap();
    assert_eq!(*v.value(), Value::Int(99));
    v.release(&mut e);
}

#[test]
fn distinct_handles_do_not_conflict() {
    let mut e = Engine::new(Dialect::Lua53);
    let h1 = e.create_userdata::<Counter>(KEY, Value::Int(1));
    let h2 = e.create_userdata::<Counter>(KEY, Value::Int(2));
    // same tag type, distinct cells: independent borrows never conflict
    let m1 = h1.borrow_mut::<Counter>(&mut e, KEY).unwrap();
    let m2 = h2.borrow_mut::<Counter>(&mut e, KEY).unwrap();
    assert_eq!(*m1.value(), Value::Int(1));
    assert_eq!(*m2.value(), Value::Int(2));
    m1.release(&mut e);
    m2.release(&mut e);
}

#[test]
fn aliasing_handles_share_one_cell() {
    let mut e = Engine::new(Dialect::Lua53);
    let h = e.create_userdata::<Counter>(KEY, Value::Int(5));
    let alias = h;
    let m = h.borrow_mut::<Counter>(&mut e, KEY).unwrap();
    assert!(matches!(
        alias.borrow::<Counter>(&mut e, KEY),
        Err(Error::UserDataBorrowError)
    ));
    m.release(&mut e);
}
