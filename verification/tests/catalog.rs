use lua_userdata::{
    CallbackKind, Dialect, MetaMethod, MethodKey, UserDataMethods, UserDataRegistry,
};

#[test]
fn wire_names_match_the_metatable_protocol() {
    assert_eq!(MetaMethod::Add.name(), "__add");
    assert_eq!(MetaMethod::Sub.name(), "__sub");
    assert_eq!(MetaMethod::Mul.name(), "__mul");
    assert_eq!(MetaMethod::Div.name(), "__div");
    assert_eq!(MetaMethod::Mod.name(), "__mod");
    assert_eq!(MetaMethod::Pow.name(), "__pow");
    assert_eq!(MetaMethod::Unm.name(), "__unm");
    assert_eq!(MetaMethod::IDiv.name(), "__idiv");
    assert_eq!(MetaMethod::BAnd.name(), "__band");
    assert_eq!(MetaMethod::BOr.name(), "__bor");
    assert_eq!(MetaMethod::BXor.name(), "__bxor");
    assert_eq!(MetaMethod::BNot.name(), "__bnot");
    assert_eq!(MetaMethod::Shl.name(), "__shl");
    assert_eq!(MetaMethod::Shr.name(), "__shr");
    assert_eq!(MetaMethod::Concat.name(), "__concat");
    assert_eq!(MetaMethod::Len.name(), "__len");
    assert_eq!(MetaMethod::Eq.name(), "__eq");
    assert_eq!(MetaMethod::Lt.name(), "__lt");
    assert_eq!(MetaMethod::Le.name(), "__le");
    assert_eq!(MetaMethod::Index.name(), "__index");
    assert_eq!(MetaMethod::NewIndex.name(), "__newindex");
    assert_eq!(MetaMethod::Call.name(), "__call");
    assert_eq!(MetaMethod::ToString.name(), "__tostring");
    assert_eq!(MetaMethod::Pairs.name(), "__pairs");
    assert_eq!(MetaMethod::IPairs.name(), "__ipairs");
}

#[test]
fn no_two_slots_share_a_wire_name() {
    let all = [
        MetaMethod::Add,
        MetaMethod::Sub,
        MetaMethod::Mul,
        MetaMethod::Div,
        MetaMethod::Mod,
        MetaMethod::Pow,
        MetaMethod::Unm,
        MetaMethod::IDiv,
        MetaMethod::BAnd,
        MetaMethod::BOr,
        MetaMethod::BXor,
        MetaMethod::BNot,
        MetaMethod::Shl,
        MetaMethod::Shr,
        MetaMethod::Concat,
        MetaMethod::Len,
        MetaMethod::Eq,
        MetaMethod::Lt,
        MetaMethod::Le,
        MetaMethod::Index,
        MetaMethod::NewIndex,
        MetaMethod::Call,
        MetaMethod::ToString,
        MetaMethod::Pairs,
        MetaMethod::IPairs,
    ];
    for (i, a) in all.iter().enumerate() {
        for (j, b) in all.iter().enumerate() {
            if i != j {
                assert_ne!(a.name(), b.name());
            }
        }
    }
}

#[test]
fn slot_availability_follows_the_dialect() {
    assert!(MetaMethod::BAnd.available(Dialect::Lua53));
    assert!(!MetaMethod::BAnd.available(Dialect::Lua52));
    assert!(!MetaMethod::Shl.available(Dialect::Lua51));
    assert!(!MetaMethod::IDiv.available(Dialect::LuaJit));
    assert!(MetaMethod::Pairs.available(Dialect::Lua52));
    assert!(MetaMethod::Pairs.available(Dialect::Lua53));
    assert!(!MetaMethod::IPairs.available(Dialect::Lua51));
    assert!(MetaMethod::Add.available(Dialect::Lua51));
    assert!(MetaMethod::Eq.available(Dialect::LuaJit));
    assert!(MetaMethod::Index.available(Dialect::Lua52));
}

#[test]
fn the_registry_materializes_with_last_wins_lookup() {
    let mut reg = UserDataRegistry::new(Dialect::Lua53);
    reg.add_method(&String::from("get"), 1);
    reg.add_method_mut(&String::from("set"), 2);
    reg.add_meta_method(MetaMethod::Len, 3);
    reg.add_method(&String::from("get"), 4);
    let table = reg.into_metatable();
    assert_eq!(
        table.lookup(&MethodKey::Name(String::from("get"))),
        Some((CallbackKind::Method, 4))
    );
    assert_eq!(
        table.lookup(&MethodKey::Name(String::from("set"))),
        Some((CallbackKind::MethodMut, 2))
    );
    assert_eq!(
        table.lookup(&MethodKey::Meta(MetaMethod::Len)),
        Some((CallbackKind::Method, 3))
    );
    assert_eq!(table.lookup(&MethodKey::Name(String::from("missing"))), None);
    assert_eq!(table.lookup(&MethodKey::Meta(MetaMethod::Eq)), None);
}

#[test]
fn a_name_key_never_matches_a_slot_key() {
    let mut reg = UserDataRegistry::new(Dialect::Lua53);
    reg.add_method(&String::from("__len"), 1);
    let table = reg.into_metatable();
    // the name "__len" and the length slot are distinct dispatch keys
    assert_eq!(table.lookup(&MethodKey::Meta(MetaMethod::Len)), None);
    assert_eq!(
        table.lookup(&MethodKey::Name(String::from("__len"))),
        Some((CallbackKind::Method, 1))
    );
}

#[test]
fn registration_shapes_record_their_kind() {
    let mut reg = UserDataRegistry::new(Dialect::Lua53);
    reg.add_function(&String::from("f"), 1);
    reg.add_function_mut(&String::from("g"), 2);
    reg.add_meta_method_mut(MetaMethod::Concat, 3);
    reg.add_meta_function(MetaMethod::Call, 4);
    reg.add_meta_function_mut(MetaMethod::Unm, 5);
    let table = reg.into_metatable();
    assert_eq!(
        table.lookup(&MethodKey::Name(String::from("f"))),
        Some((CallbackKind::Function, 1))
    );
    assert_eq!(
        table.lookup(&MethodKey::Name(String::from("g"))),
        Some((CallbackKind::FunctionMut, 2))
    );
    assert_eq!(
        table.lookup(&MethodKey::Meta(MetaMethod::Concat)),
        Some((CallbackKind::MethodMut, 3))
    );
    assert_eq!(
        table.lookup(&MethodKey::Meta(MetaMethod::Call)),
        Some((CallbackKind::Function, 4))
    );
    assert_eq!(
        table.lookup(&MethodKey::Meta(MetaMethod::Unm)),
        Some((CallbackKind::FunctionMut, 5))
    );
}
