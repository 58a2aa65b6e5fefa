use lua_userdata::{
    Dialect, Engine, Error, MetaMethod, UserData, UserDataMethods, Value,
};

const KEY: u64 = 1;

const FIRST_ID: u64 = 1;
const SECOND_ID: u64 = 2;
const FREE_ID: u64 = 3;
const INDEX_ID: u64 = 4;
const MEMBER_ID: u64 = 5;

struct Shadowed;

impl UserData for Shadowed {
    fn add_methods<M: UserDataMethods>(methods: &mut M) {
        methods.add_method(&String::from("m"), FIRST_ID);
        methods.add_method(&String::from("m"), SECOND_ID);
        methods.add_function(&String::from("free"), FREE_ID);
        methods.add_meta_method(MetaMethod::Index, INDEX_ID);
    }
}

fn host(id: u64, _recv: Value, args: Vec<Value>) -> Result<(Value, Value), Error> {
    match id {
        FIRST_ID => Ok((Value::Nil, Value::Str(String::from("first")))),
        SECOND_ID => Ok((Value::Nil, Value::Str(String::from("second")))),
        FREE_ID => {
            // invoked as a free function: the calling handle leads the arguments
            match args.first() {
                Some(Value::UserData(_)) => Ok((Value::Nil, Value::Int(args.len() as i64))),
                _ => Err(Error::RuntimeError(Value::Str(String::from("no handle")))),
            }
        }
        INDEX_ID => {
            // the index-read override: a known key yields a callable member
            match args.first() {
                Some(Value::Str(s)) if s == "known" => {
                    Ok((Value::Nil, Value::Function(MEMBER_ID)))
                }
                _ => Ok((Value::Nil, Value::Int(31))),
            }
        }
        MEMBER_ID => Ok((Value::Nil, Value::Str(String::from("member called")))),
        _ => Err(Error::RuntimeError(Value::Str(String::from("unknown callback")))),
    }
}

#[test]
fn last_registration_wins() {
    let mut e = Engine::new(Dialect::Lua53);
    let h = e.create_userdata::<Shadowed>(KEY, Value::Int(0));
    let r = e.invoke_method(h, &String::from("m"), vec![], &host).unwrap();
    assert_eq!(r, Value::Str(String::from("second")));
}

#[test]
fn free_function_receives_the_calling_handle() {
    let mut e = Engine::new(Dialect::Lua53);
    let h = e.create_userdata::<Shadowed>(KEY, Value::Int(0));
    let r = e
        .invoke_method(h, &String::from("free"), vec![Value::Nil, Value::Nil], &host)
        .unwrap();
    // handle plus the two explicit arguments
    assert_eq!(r, Value::Int(3));
}

#[test]
fn method_lookup_precedes_index_override() {
    let mut e = Engine::new(Dialect::Lua53);
    let h = e.create_userdata::<Shadowed>(KEY, Value::Int(0));
    // "m" is a registered method, so the index override is not consulted
    let r = e.invoke_method(h, &String::from("m"), vec![], &host).unwrap();
    assert_eq!(r, Value::Str(String::from("second")));
}

#[test]
fn index_override_is_the_fallback_for_missing_methods() {
    let mut e = Engine::new(Dialect::Lua53);
    let h = e.create_userdata::<Shadowed>(KEY, Value::Int(0));
    let r = e.invoke_method(h, &String::from("known"), vec![], &host).unwrap();
    assert_eq!(r, Value::Str(String::from("member called")));
}

#[test]
fn non_callable_member_from_index_override_fails() {
    let mut e = Engine::new(Dialect::Lua53);
    let h = e.create_userdata::<Shadowed>(KEY, Value::Int(0));
    let r = e.invoke_method(h, &String::from("other"), vec![], &host);
    assert!(matches!(r, Err(Error::NotCallable)));
}

struct Joined;

impl UserData for Joined {
    fn add_methods<M: UserDataMethods>(methods: &mut M) {
        methods.add_meta_function(MetaMethod::Concat, FREE_ID);
    }
}

#[test]
fn meta_function_binding_leads_with_the_handle() {
    let mut e = Engine::new(Dialect::Lua53);
    let h = e.create_userdata::<Joined>(8, Value::Int(0));
    let r = e
        .invoke_meta_method(h, MetaMethod::Concat, vec![Value::Str(String::from("x"))], &host)
        .unwrap();
    // the handle plus the one operand reach the callback
    assert_eq!(r, Value::Int(2));
}

struct Bare;

impl UserData for Bare {}

struct Mutating;

impl UserData for Mutating {
    fn add_methods<M: UserDataMethods>(methods: &mut M) {
        methods.add_method_mut(&String::from("bump"), FIRST_ID);
    }
}

#[test]
fn missing_method_without_override_is_reported() {
    let mut e = Engine::new(Dialect::Lua53);
    let h = e.create_userdata::<Bare>(7, Value::Int(0));
    let r = e.invoke_method(h, &String::from("anything"), vec![], &host);
    assert!(matches!(r, Err(Error::MethodNotFound)));
    let r = e.invoke_meta_method(h, MetaMethod::Add, vec![], &host);
    assert!(matches!(r, Err(Error::MethodNotFound)));
}

#[test]
fn reentrant_call_under_exclusive_borrow_conflicts() {
    let mut e = Engine::new(Dialect::Lua53);
    let h = e.create_userdata::<Shadowed>(KEY, Value::Int(0));
    let m = h.borrow_mut::<Shadowed>(&mut e, KEY).unwrap();
    // a bound method needs a shared borrow of the same instance: conflict
    let r = e.invoke_method(h, &String::from("m"), vec![], &host);
    assert!(matches!(r, Err(Error::UserDataBorrowError)));
    m.release(&mut e);
    // once released, the call goes through and the instance is intact
    let r = e.invoke_method(h, &String::from("m"), vec![], &host).unwrap();
    assert_eq!(r, Value::Str(String::from("second")));
}

#[test]
fn mutating_call_under_shared_borrow_conflicts() {
    let mut e = Engine::new(Dialect::Lua53);
    let h = e.create_userdata::<Mutating>(9, Value::Int(0));
    let v = h.borrow::<Mutating>(&mut e, 9).unwrap();
    let r = e.invoke_method(h, &String::from("bump"), vec![], &host);
    assert!(matches!(r, Err(Error::UserDataBorrowMutError)));
    v.release(&mut e);
}
