//! The modelled engine: the value space handles point into, the per-type
//! metatable store, and the process-wide tag cache.
//!
//! A type tag is the index of a metatable in the store.  Tags are allocated
//! lazily, exactly once per (type key, engine) pair, and cached; a repeated
//! registration for the same key is an idempotent no-op returning the cached
//! tag.  Tag identity is the sole basis for runtime type equality.

use vstd::prelude::*;

use crate::cell::BorrowState;
use crate::cell::UserDataCell;
use crate::error::Error;
use crate::meta::Dialect;
use crate::meta::MetaMethod;
use crate::registry::CallbackKind;
use crate::registry::KeyModel;
use crate::registry::Metatable;
use crate::registry::MethodKey;
use crate::registry::RegModel;
use crate::registry::UserDataRegistry;
use crate::registry::resolve;
use crate::userdata::AnyUserData;
use crate::userdata::UserData;
use crate::value::Value;

verus! {

/// One slot of the engine's value space: an exposed instance in its borrow
/// cell, the tag of its metatable if it has one, and the attached user value.
#[derive(Debug)]
pub struct Object {
    pub(crate) tag: Option<usize>,
    pub(crate) cell: UserDataCell,
    pub(crate) user_value: Value,
}

/// The tag a key resolves to in the cache: the last entry under that key, if
/// any.  Well-formed engines never record a key twice, so the direction of
/// the search is immaterial.
pub open spec fn cache_lookup(cache: Seq<(u64, usize)>, key: u64) -> Option<usize>
    decreases cache.len(),
{
    if cache.len() == 0 {
        None
    } else if cache.last().0 == key {
        Some(cache.last().1)
    } else {
        cache_lookup(cache.drop_last(), key)
    }
}

/// A key the cache does not resolve occurs in no entry.
proof fn lemma_cache_lookup_absent(cache: Seq<(u64, usize)>, key: u64)
    requires
        cache_lookup(cache, key) is None,
    ensures
        forall|i: int| 0 <= i < cache.len() ==> (#[trigger] cache[i]).0 != key,
    decreases cache.len(),
{
    if cache.len() > 0 {
        lemma_cache_lookup_absent(cache.drop_last(), key);
        assert(forall|i: int|
            0 <= i < cache.len() - 1 ==> #[trigger] cache[i] == cache.drop_last()[i]);
    }
}

/// A resolved tag comes from some entry of the cache.
proof fn lemma_cache_lookup_found(cache: Seq<(u64, usize)>, key: u64)
    requires
        cache_lookup(cache, key) is Some,
    ensures
        exists|i: int|
            0 <= i < cache.len() && #[trigger] cache[i] == (key, cache_lookup(
                cache,
                key,
            ).unwrap()),
    decreases cache.len(),
{
    if cache.last().0 == key {
        assert(cache[cache.len() - 1] == (key, cache_lookup(cache, key).unwrap()));
    } else {
        lemma_cache_lookup_found(cache.drop_last(), key);
        let i = choose|i: int|
            0 <= i < cache.drop_last().len() && #[trigger] cache.drop_last()[i] == (
                key,
                cache_lookup(cache.drop_last(), key).unwrap(),
            );
        assert(cache[i] == cache.drop_last()[i]);
    }
}

/// The scripting engine's value space and metatable store, modelled.
///
/// Everything a runtime handle can reach goes through this state: the
/// per-type dispatch tables, the tag cache keyed by native-type identity, and
/// the exposed instances with their borrow cells and user values.
#[derive(Debug)]
pub struct Engine {
    pub(crate) dialect: Dialect,
    pub(crate) metatables: Vec<Metatable>,
    pub(crate) cache: Vec<(u64, usize)>,
    pub(crate) objects: Vec<Object>,
}

impl Engine {
    /// The dialect the engine is configured for.
    pub open(crate) spec fn dialect_spec(self) -> Dialect {
        self.dialect
    }

    /// How many metatables the engine has materialized.
    pub open(crate) spec fn num_types(self) -> int {
        self.metatables@.len() as int
    }

    /// The dispatch table behind the given tag.
    pub open(crate) spec fn table_at(self, tag: int) -> Seq<RegModel> {
        self.metatables@[tag]@
    }

    /// The tag cache, in registration order.
    pub open(crate) spec fn cache_spec(self) -> Seq<(u64, usize)> {
        self.cache@
    }

    /// The metatable store, in tag order.
    pub open(crate) spec fn tables_spec(self) -> Seq<Metatable> {
        self.metatables@
    }

    /// The value space, in slot order.
    pub open(crate) spec fn objects_spec(self) -> Seq<Object> {
        self.objects@
    }

    /// The tag registered for a type key, if any.
    pub open(crate) spec fn cached_tag(self, key: u64) -> Option<usize> {
        cache_lookup(self.cache@, key)
    }

    /// The tag a registration for the key would yield: the cached one, or the
    /// next fresh tag.
    pub open(crate) spec fn tag_after(self, key: u64) -> int {
        match self.cached_tag(key) {
            Some(t) => t as int,
            None => self.num_types(),
        }
    }

    /// How many instances the value space holds.
    pub open(crate) spec fn num_objects(self) -> int {
        self.objects@.len() as int
    }

    /// The value-space slot at the given index.
    pub open(crate) spec fn obj(self, i: int) -> Object {
        self.objects@[i]
    }

    /// The metatable tag of the instance at the given slot.
    pub open(crate) spec fn obj_tag(self, i: int) -> Option<usize> {
        self.objects@[i].tag
    }

    /// The borrow state of the instance at the given slot.
    pub open(crate) spec fn obj_state(self, i: int) -> BorrowState {
        self.objects@[i].cell.state
    }

    /// The instance at the given slot.
    pub open(crate) spec fn obj_value(self, i: int) -> Value {
        self.objects@[i].cell.value
    }

    /// The user value attached at the given slot.
    pub open(crate) spec fn obj_user_value(self, i: int) -> Value {
        self.objects@[i].user_value
    }

    /// What reading the user value through a handle yields: the attached
    /// value for a handle that names a slot, a type mismatch otherwise.
    pub open(crate) spec fn user_value_outcome(self, h: AnyUserData) -> Result<Value, Error> {
        if self.has_slot(h) {
            Ok(self.obj_user_value(h.slot_spec()))
        } else {
            Err(Error::UserDataTypeMismatch)
        }
    }

    /// Whether the handle names a slot of this engine's value space.
    pub open(crate) spec fn has_slot(self, h: AnyUserData) -> bool {
        0 <= h.slot_spec() < self.num_objects()
    }

    /// Whether the handle passes the typed-access check for the given type
    /// key: it names a slot, the slot has a metatable, and the metatable's
    /// tag is exactly the tag registered (or about to be registered) for the
    /// key.
    pub open(crate) spec fn typed_as(self, h: AnyUserData, key: u64) -> bool {
        &&& self.has_slot(h)
        &&& match self.obj_tag(h.slot_spec()) {
            Some(t) => t as int == self.tag_after(key),
            None => false,
        }
    }

    /// Well-formedness: tags index the metatable store, the cache pairs each
    /// key with the metatable its registration created (so entry `i` carries
    /// tag `i`), no key is cached twice, and every borrow counter is sound.
    pub open(crate) spec fn wf(self) -> bool {
        &&& self.cache@.len() == self.metatables@.len()
        &&& forall|i: int| 0 <= i < self.cache@.len() ==> (#[trigger] self.cache@[i]).1 == i
        &&& forall|i: int, j: int|
            0 <= i < j < self.cache@.len() ==> self.cache@[i].0 != self.cache@[j].0
        &&& forall|i: int|
            0 <= i < self.objects@.len() ==> match (#[trigger] self.objects@[i]).tag {
                Some(t) => t < self.metatables@.len(),
                None => true,
            }
        &&& forall|i: int| 0 <= i < self.objects@.len() ==> (#[trigger] self.objects@[i]).cell.state.wf()
    }

    /// How a registration for the key may change the metatable store: either
    /// the key was cached and nothing changes, or one fresh metatable and one
    /// cache entry are appended.  Instances are never touched.
    pub open(crate) spec fn tables_step(self, post: Engine, key: u64) -> bool {
        &&& post.dialect == self.dialect
        &&& match self.cached_tag(key) {
            Some(_) => post.cache@ == self.cache@ && post.metatables@ == self.metatables@,
            None => {
                &&& post.cache@ == self.cache@.push((key, (self.metatables@.len() as usize)))
                &&& post.metatables@.len() == self.metatables@.len() + 1
                &&& forall|t: int|
                    0 <= t < self.metatables@.len() ==> post.table_at(t) == self.table_at(t)
            },
        }
    }

    /// A fresh engine of the given dialect: no types, no instances.
    pub fn new(dialect: Dialect) -> (r: Engine)
        ensures
            r.wf(),
            r.dialect_spec() == dialect,
            r.num_types() == 0,
            r.num_objects() == 0,
    {
        Engine { dialect, metatables: Vec::new(), cache: Vec::new(), objects: Vec::new() }
    }

    /// Materializes the metatable of type `T` under the given type key,
    /// running `T`'s registration pass if and only if the key has no cached
    /// tag yet; otherwise this is an idempotent no-op.  Returns the type's
    /// tag either way.
    #[verifier::loop_isolation(false)]
    pub fn register_type<T: UserData>(&mut self, key: u64) -> (tag: usize)
        requires
            old(self).wf(),
        ensures
            final(self).wf(),
            old(self).tables_step(*final(self), key),
            final(self).objects_spec() == old(self).objects_spec(),
            tag as int == old(self).tag_after(key),
            final(self).cached_tag(key) == Some(tag),
    {
        let n = self.cache.len();
        let mut i: usize = n;
        assert(self.cache@.take(n as int) =~= self.cache@);
        while i > 0
            invariant
                i <= n,
                n == self.cache.len(),
                cache_lookup(self.cache@, key) == cache_lookup(self.cache@.take(i as int), key),
            decreases i,
        {
            i = i - 1;
            assert(self.cache@.take(i as int + 1).last() == self.cache@[i as int]);
            assert(self.cache@.take(i as int + 1).drop_last() =~= self.cache@.take(i as int));
            let entry = self.cache[i];
            if entry.0 == key {
                return entry.1;
            }
        }
        proof {
            lemma_cache_lookup_absent(self.cache@, key);
        }
        let mut methods = UserDataRegistry::new(self.dialect);
        T::add_methods(&mut methods);
        let table = methods.into_metatable();
        let tag = self.metatables.len();
        self.metatables.push(table);
        self.cache.push((key, tag));
        proof {
            assert(self.cache@.drop_last() =~= old(self).cache@);
        }
        tag
    }

    /// Boxes an instance into a fresh borrow cell, tags it with `T`'s
    /// metatable (materializing it under the key on first use), and returns a
    /// handle to the new slot.  The attached user value starts out absent.
    pub fn create_userdata<T: UserData>(&mut self, key: u64, value: Value) -> (h: AnyUserData)
        requires
            old(self).wf(),
        ensures
            final(self).wf(),
            old(self).tables_step(*final(self), key),
            h.slot_spec() == old(self).num_objects(),
            final(self).num_objects() == old(self).num_objects() + 1,
            forall|i: int|
                0 <= i < old(self).num_objects() ==> final(self).obj(i) == old(self).obj(i),
            final(self).obj_tag(h.slot_spec()) == Some((old(self).tag_after(key) as usize)),
            final(self).obj_state(h.slot_spec()) == BorrowState::Free,
            final(self).obj_value(h.slot_spec()) == value,
            final(self).obj_user_value(h.slot_spec()) == Value::Nil,
            final(self).typed_as(h, key),
    {
        let tag = self.register_type::<T>(key);
        let h = AnyUserData { slot: self.objects.len() };
        self.objects.push(
            Object { tag: Some(tag), cell: UserDataCell::new(value), user_value: Value::Nil },
        );
        proof {
            lemma_cache_lookup_found(self.cache@, key);
        }
        h
    }

    /// Boxes an instance that carries no metatable at all.  Typed access
    /// through such a handle always reports a type mismatch, but its user
    /// value works as for any other slot.
    pub fn create_untyped_userdata(&mut self, value: Value) -> (h: AnyUserData)
        requires
            old(self).wf(),
        ensures
            final(self).wf(),
            final(self).dialect_spec() == old(self).dialect_spec(),
            final(self).cache_spec() == old(self).cache_spec(),
            final(self).tables_spec() == old(self).tables_spec(),
            h.slot_spec() == old(self).num_objects(),
            final(self).num_objects() == old(self).num_objects() + 1,
            forall|i: int|
                0 <= i < old(self).num_objects() ==> final(self).obj(i) == old(self).obj(i),
            final(self).obj_tag(h.slot_spec()) is None,
            final(self).obj_state(h.slot_spec()) == BorrowState::Free,
            final(self).obj_value(h.slot_spec()) == value,
            final(self).obj_user_value(h.slot_spec()) == Value::Nil,
    {
        let h = AnyUserData { slot: self.objects.len() };
        self.objects.push(
            Object { tag: None, cell: UserDataCell::new(value), user_value: Value::Nil },
        );
        h
    }
}


/// What an invocation returns once the callback came back: the callback's
/// declared result on success, its error verbatim on failure.  The new
/// receiver a mutating callback produced travels separately.
pub open spec fn pass_through(out: Result<(Value, Value), Error>) -> Result<Value, Error> {
    match out {
        Ok(pair) => Ok(pair.1),
        Err(e) => Err(e),
    }
}

impl Engine {
    /// How one negotiated callback call relates the engine states, the
    /// dispatcher and the result: the borrow demanded by the callback's kind
    /// is taken and handed back around the call (conflicts fail fast without
    /// calling), a mutating method's new receiver is stored back on success,
    /// and the callback's result is passed through unchanged.
    pub open(crate) spec fn binding_step<F: Fn(u64, Value, Vec<Value>) -> Result<
        (Value, Value),
        Error,
    >>(
        pre: Engine,
        post: Engine,
        slot: int,
        kind: CallbackKind,
        id: u64,
        args: Vec<Value>,
        host: F,
        r: Result<Value, Error>,
    ) -> bool {
        &&& post.wf()
        &&& post.dialect_spec() == pre.dialect_spec()
        &&& post.cache_spec() == pre.cache_spec()
        &&& post.tables_spec() == pre.tables_spec()
        &&& post.num_objects() == pre.num_objects()
        &&& forall|j: int| 0 <= j < pre.num_objects() && j != slot ==> post.obj(j) == pre.obj(j)
        &&& match kind {
            CallbackKind::Method => if pre.obj_state(slot).shared_ok() {
                &&& post.obj(slot) == pre.obj(slot)
                &&& exists|out: Result<(Value, Value), Error>|
                    #[trigger] call_ensures(host, (id, pre.obj_value(slot), args), out) && r
                        == pass_through(out)
            } else {
                r == Err::<Value, Error>(Error::UserDataBorrowError) && post.obj(slot) == pre.obj(slot)
            },
            CallbackKind::MethodMut => if pre.obj_state(slot) is Free {
                exists|out: Result<(Value, Value), Error>|
                    #[trigger] call_ensures(host, (id, pre.obj_value(slot), args), out) && match out {
                        Ok(pair) => {
                            &&& post.obj_value(slot) == pair.0
                            &&& post.obj_state(slot) == BorrowState::Free
                            &&& post.obj_tag(slot) == pre.obj_tag(slot)
                            &&& post.obj_user_value(slot) == pre.obj_user_value(slot)
                            &&& r == Ok::<Value, Error>(pair.1)
                        },
                        Err(e) => post.obj(slot) == pre.obj(slot) && r == Err::<Value, Error>(e),
                    }
            } else {
                r == Err::<Value, Error>(Error::UserDataBorrowMutError) && post.obj(slot) == pre.obj(slot)
            },
            CallbackKind::Function | CallbackKind::FunctionMut => {
                &&& post.obj(slot) == pre.obj(slot)
                &&& exists|out: Result<(Value, Value), Error>|
                    #[trigger] call_ensures(host, (id, Value::Nil, args), out) && r == pass_through(
                        out,
                    )
            },
        }
    }

    /// Calls one resolved binding on the instance in the given slot,
    /// negotiating the borrow its kind demands and releasing it on every exit
    /// path.  The dispatcher receives the callback identifier, the receiver
    /// (the instance for receiver-taking kinds, the absent value otherwise)
    /// and the arguments, and returns the new receiver and the call's result.
    pub(crate) fn call_binding<F: Fn(u64, Value, Vec<Value>) -> Result<(Value, Value), Error>>(
        &mut self,
        slot: usize,
        kind: CallbackKind,
        id: u64,
        args: Vec<Value>,
        host: &F,
    ) -> (r: Result<Value, Error>)
        requires
            old(self).wf(),
            slot < old(self).num_objects(),
            forall|a: (u64, Value, Vec<Value>)| #[trigger] call_requires(*host, a),
        ensures
            Engine::binding_step(*old(self), *final(self), slot as int, kind, id, args, *host, r),
    {
        match kind {
            CallbackKind::Method => {
                let acquired = self.objects[slot].cell.acquire_shared();
                if !acquired {
                    return Err(Error::UserDataBorrowError);
                }
                let recv = self.objects[slot].cell.value.duplicate();
                let out = host(id, recv, args);
                self.objects[slot].cell.release_shared();
                match out {
                    Ok(pair) => Ok(pair.1),
                    Err(e) => Err(e),
                }
            },
            CallbackKind::MethodMut => {
                let acquired = self.objects[slot].cell.acquire_exclusive();
                if !acquired {
                    return Err(Error::UserDataBorrowMutError);
                }
                let recv = self.objects[slot].cell.value.duplicate();
                let backup = self.objects[slot].cell.value.duplicate();
                let out = host(id, recv, args);
                match out {
                    Ok(pair) => {
                        self.objects[slot].cell.release_exclusive(pair.0);
                        Ok(pair.1)
                    },
                    Err(e) => {
                        self.objects[slot].cell.release_exclusive(backup);
                        Err(e)
                    },
                }
            },
            CallbackKind::Function | CallbackKind::FunctionMut => {
                let out = host(id, Value::Nil, args);
                match out {
                    Ok(pair) => Ok(pair.1),
                    Err(e) => Err(e),
                }
            },
        }
    }
}


impl Engine {
    /// How the index-read fallback relates the states: the override is called
    /// with the missing name as key (under its own borrow negotiation); a
    /// function member it yields is then called free-style with the handle
    /// prepended to the original arguments, any other member is not callable,
    /// and an error from the override is passed through unchanged.
    pub open(crate) spec fn index_fallback_step<F: Fn(u64, Value, Vec<Value>) -> Result<
        (Value, Value),
        Error,
    >>(
        pre: Engine,
        post: Engine,
        target: AnyUserData,
        name: Seq<char>,
        args: Vec<Value>,
        ik: CallbackKind,
        iid: u64,
        host: F,
        r: Result<Value, Error>,
    ) -> bool {
        exists|mid: Engine, kargs: Vec<Value>, rr: Result<Value, Error>|
            {
                &&& #[trigger] Engine::binding_step(
                    pre,
                    mid,
                    target.slot_spec(),
                    ik,
                    iid,
                    kargs,
                    host,
                    rr,
                )
                &&& if ik is Method || ik is MethodMut {
                    kargs@.len() == 1 && (kargs@[0] matches Value::Str(s) && s@ == name)
                } else {
                    kargs@.len() == 2 && kargs@[0] == Value::UserData(target) && (kargs@[1] matches
                    Value::Str(s) && s@ == name)
                }
                &&& match rr {
                    Ok(member) => match member {
                        Value::Function(fid) => exists|full: Vec<Value>|
                            full@ == seq![Value::UserData(target)] + args@ && #[trigger] Engine::binding_step(
                                mid,
                                post,
                                target.slot_spec(),
                                CallbackKind::Function,
                                fid,
                                full,
                                host,
                                r,
                            ),
                        _ => r == Err::<Value, Error>(Error::NotCallable) && post == mid,
                    },
                    Err(e) => r == Err::<Value, Error>(e) && post == mid,
                }
            }
    }

    /// Invokes a method on the given userdata by name, as scripting code
    /// does with method-call syntax.
    ///
    /// The name is looked up among the type's bindings first — last
    /// registration wins — and only if that fails is an explicitly registered
    /// index-read override consulted as a fallback.  A receiver-taking
    /// binding runs under a freshly negotiated borrow of the instance's cell;
    /// a free-function binding receives the calling handle as its leading
    /// argument instead.
    pub fn invoke_method<F: Fn(u64, Value, Vec<Value>) -> Result<(Value, Value), Error>>(
        &mut self,
        target: AnyUserData,
        name: &String,
        args: Vec<Value>,
        host: &F,
    ) -> (r: Result<Value, Error>)
        requires
            old(self).wf(),
            forall|a: (u64, Value, Vec<Value>)| #[trigger] call_requires(*host, a),
        ensures
            final(self).wf(),
            final(self).dialect_spec() == old(self).dialect_spec(),
            final(self).cache_spec() == old(self).cache_spec(),
            final(self).tables_spec() == old(self).tables_spec(),
            final(self).num_objects() == old(self).num_objects(),
            forall|j: int|
                0 <= j < old(self).num_objects() && j != target.slot_spec() ==> final(self).obj(j)
                    == old(self).obj(j),
            ({
                let pre = *old(self);
                let post = *final(self);
                if !(pre.has_slot(target) && pre.obj_tag(target.slot_spec()) is Some) {
                    r == Err::<Value, Error>(Error::UserDataTypeMismatch) && post == pre
                } else {
                    let table = pre.table_at(pre.obj_tag(target.slot_spec()).unwrap() as int);
                    match resolve(table, KeyModel::Name(name@)) {
                        Some(binding) => if binding.0 is Method || binding.0 is MethodMut {
                            Engine::binding_step(
                                pre,
                                post,
                                target.slot_spec(),
                                binding.0,
                                binding.1,
                                args,
                                *host,
                                r,
                            )
                        } else {
                            exists|full: Vec<Value>|
                                full@ == seq![Value::UserData(target)] + args@
                                    && #[trigger] Engine::binding_step(
                                    pre,
                                    post,
                                    target.slot_spec(),
                                    binding.0,
                                    binding.1,
                                    full,
                                    *host,
                                    r,
                                )
                        },
                        None => match resolve(table, KeyModel::Meta(MetaMethod::Index)) {
                            Some(ib) => Engine::index_fallback_step(
                                pre,
                                post,
                                target,
                                name@,
                                args,
                                ib.0,
                                ib.1,
                                *host,
                                r,
                            ),
                            None => r == Err::<Value, Error>(Error::MethodNotFound) && post == pre,
                        },
                    }
                }
            }),
    {
        if target.slot >= self.objects.len() {
            return Err(Error::UserDataTypeMismatch);
        }
        let tag = match self.objects[target.slot].tag {
            Some(t) => t,
            None => {
                return Err(Error::UserDataTypeMismatch);
            },
        };
        let named = self.metatables[tag].lookup(&MethodKey::Name(name.clone()));
        match named {
            Some((kind, id)) => match kind {
                CallbackKind::Method | CallbackKind::MethodMut => self.call_binding(
                    target.slot,
                    kind,
                    id,
                    args,
                    host,
                ),
                CallbackKind::Function | CallbackKind::FunctionMut => {
                    let mut full: Vec<Value> = Vec::new();
                    full.push(Value::UserData(target));
                    let mut rest = args;
                    full.append(&mut rest);
                    proof {
                        assert(full@ =~= seq![Value::UserData(target)] + args@);
                    }
                    self.call_binding(target.slot, kind, id, full, host)
                },
            },
            None => {
                let indexed = self.metatables[tag].lookup(&MethodKey::Meta(MetaMethod::Index));
                match indexed {
                    Some((ik, iid)) => {
                        let mut kargs: Vec<Value> = Vec::new();
                        let receiver_kind = match ik {
                            CallbackKind::Method | CallbackKind::MethodMut => true,
                            CallbackKind::Function | CallbackKind::FunctionMut => false,
                        };
                        if !receiver_kind {
                            kargs.push(Value::UserData(target));
                        }
                        kargs.push(Value::Str(name.clone()));
                        let ghost pre = *self;
                        let ghost kargs_ghost = kargs;
                        let rr = self.call_binding(target.slot, ik, iid, kargs, host);
                        let ghost mid = *self;
                        match rr {
                            Ok(member) => match member {
                                Value::Function(fid) => {
                                    let mut full: Vec<Value> = Vec::new();
                                    full.push(Value::UserData(target));
                                    let mut rest = args;
                                    full.append(&mut rest);
                                    proof {
                                        assert(full@ =~= seq![Value::UserData(target)] + args@);
                                    }
                                    let r = self.call_binding(
                                        target.slot,
                                        CallbackKind::Function,
                                        fid,
                                        full,
                                        host,
                                    );
                                    proof {
                                        assert(Engine::binding_step(
                                            pre,
                                            mid,
                                            target.slot_spec(),
                                            ik,
                                            iid,
                                            kargs_ghost,
                                            *host,
                                            Ok(Value::Function(fid)),
                                        ));
                                    }
                                    r
                                },
                                _ => {
                                    proof {
                                        assert(Engine::binding_step(
                                            pre,
                                            mid,
                                            target.slot_spec(),
                                            ik,
                                            iid,
                                            kargs_ghost,
                                            *host,
                                            Ok(member),
                                        ));
                                    }
                                    Err(Error::NotCallable)
                                },
                            },
                            Err(e) => {
                                proof {
                                    assert(Engine::binding_step(
                                        pre,
                                        mid,
                                        target.slot_spec(),
                                        ik,
                                        iid,
                                        kargs_ghost,
                                        *host,
                                        Err(e),
                                    ));
                                }
                                Err(e)
                            },
                        }
                    },
                    None => Err(Error::MethodNotFound),
                }
            },
        }
    }

    /// Invokes a metamethod slot on the given userdata, as the engine does
    /// when the corresponding operator fires with the userdata as receiver.
    ///
    /// A receiver-taking binding runs under a freshly negotiated borrow of
    /// the instance's cell and sees the remaining operands as arguments; a
    /// free-function binding receives the handle prepended to them instead.
    pub fn invoke_meta_method<F: Fn(u64, Value, Vec<Value>) -> Result<(Value, Value), Error>>(
        &mut self,
        target: AnyUserData,
        meta: MetaMethod,
        args: Vec<Value>,
        host: &F,
    ) -> (r: Result<Value, Error>)
        requires
            old(self).wf(),
            forall|a: (u64, Value, Vec<Value>)| #[trigger] call_requires(*host, a),
        ensures
            final(self).wf(),
            final(self).dialect_spec() == old(self).dialect_spec(),
            final(self).cache_spec() == old(self).cache_spec(),
            final(self).tables_spec() == old(self).tables_spec(),
            final(self).num_objects() == old(self).num_objects(),
            forall|j: int|
                0 <= j < old(self).num_objects() && j != target.slot_spec() ==> final(self).obj(j)
                    == old(self).obj(j),
            ({
                let pre = *old(self);
                let post = *final(self);
                if !(pre.has_slot(target) && pre.obj_tag(target.slot_spec()) is Some) {
                    r == Err::<Value, Error>(Error::UserDataTypeMismatch) && post == pre
                } else {
                    let table = pre.table_at(pre.obj_tag(target.slot_spec()).unwrap() as int);
                    match resolve(table, KeyModel::Meta(meta)) {
                        Some(binding) => if binding.0 is Method || binding.0 is MethodMut {
                            Engine::binding_step(
                                pre,
                                post,
                                target.slot_spec(),
                                binding.0,
                                binding.1,
                                args,
                                *host,
                                r,
                            )
                        } else {
                            exists|full: Vec<Value>|
                                full@ == seq![Value::UserData(target)] + args@
                                    && #[trigger] Engine::binding_step(
                                    pre,
                                    post,
                                    target.slot_spec(),
                                    binding.0,
                                    binding.1,
                                    full,
                                    *host,
                                    r,
                                )
                        },
                        None => r == Err::<Value, Error>(Error::MethodNotFound) && post == pre,
                    }
                }
            }),
    {
        if target.slot >= self.objects.len() {
            return Err(Error::UserDataTypeMismatch);
        }
        let tag = match self.objects[target.slot].tag {
            Some(t) => t,
            None => {
                return Err(Error::UserDataTypeMismatch);
            },
        };
        let binding = self.metatables[tag].lookup(&MethodKey::Meta(meta));
        match binding {
            Some((kind, id)) => match kind {
                CallbackKind::Method | CallbackKind::MethodMut => self.call_binding(
                    target.slot,
                    kind,
                    id,
                    args,
                    host,
                ),
                CallbackKind::Function | CallbackKind::FunctionMut => {
                    let mut full: Vec<Value> = Vec::new();
                    full.push(Value::UserData(target));
                    let mut rest = args;
                    full.append(&mut rest);
                    proof {
                        assert(full@ =~= seq![Value::UserData(target)] + args@);
                    }
                    self.call_binding(target.slot, kind, id, full, host)
                },
            },
            None => Err(Error::MethodNotFound),
        }
    }
}


/// Tag identity separates types: two distinct type keys that both have a
/// cached tag never share it, so a tag comparison decides type identity.
pub proof fn lemma_distinct_keys_distinct_tags(e: Engine, k1: u64, k2: u64)
    requires
        e.wf(),
        k1 != k2,
        e.cached_tag(k1) is Some,
        e.cached_tag(k2) is Some,
    ensures
        e.cached_tag(k1) != e.cached_tag(k2),
{
    lemma_cache_lookup_found(e.cache@, k1);
    lemma_cache_lookup_found(e.cache@, k2);
    let i = choose|i: int|
        0 <= i < e.cache@.len() && #[trigger] e.cache@[i] == (k1, e.cached_tag(k1).unwrap());
    let j = choose|j: int|
        0 <= j < e.cache@.len() && #[trigger] e.cache@[j] == (k2, e.cached_tag(k2).unwrap());
    if e.cached_tag(k1) == e.cached_tag(k2) {
        assert(e.cache@[i].1 == i);
        assert(e.cache@[j].1 == j);
        assert(i == j);
        assert(false);
    }
}

/// A handle passes the typed-access check for at most one type key: a handle
/// of one exposed type never checks, borrows or borrows mutably as another.
pub proof fn lemma_typed_as_unique(e: Engine, h: AnyUserData, k1: u64, k2: u64)
    requires
        e.wf(),
        k1 != k2,
        e.typed_as(h, k1),
    ensures
        !e.typed_as(h, k2),
{
    if e.typed_as(h, k2) {
        let t = e.obj_tag(h.slot_spec()).unwrap();
        assert(match e.objects@[h.slot_spec()].tag {
            Some(tt) => tt < e.metatables@.len(),
            None => true,
        });
        assert(e.cached_tag(k1) == Some(t));
        assert(e.cached_tag(k2) == Some(t));
        lemma_distinct_keys_distinct_tags(e, k1, k2);
    }
}

} // verus!
