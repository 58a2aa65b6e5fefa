//! Runtime handles to exposed native instances, and the scoped views a
//! borrow yields.
//!
//! Every typed access goes through one choke point, `inspect`: it checks that
//! the handle names a userdata with a metatable, fetches the requested type's
//! tag (allocating it on first use), and compares the two by identity.  The
//! public operations `is`, `borrow` and `borrow_mut` are thin specializations
//! of it.

use vstd::prelude::*;

use crate::cell::BorrowState;
use crate::engine::Engine;
use crate::error::Error;
use crate::meta::MetaMethod;
use crate::registry::CallbackKind;
use crate::registry::KeyModel;
use crate::registry::MethodKey;
use crate::registry::UserDataMethods;
use crate::registry::resolve;
use crate::value::Value;

verus! {

/// Handle to one exposed native instance inside an engine's value space.
///
/// A handle is a lightweight borrowing view: it names a slot of the engine's
/// value space and does not own the instance.  Several handles may alias the
/// same slot; handle equality is reference identity.
#[derive(Debug, Clone, Copy, PartialEq, Eq, Structural)]
pub struct AnyUserData {
    pub(crate) slot: usize,
}

/// The capability a native type implements to become exposable.
///
/// The engine invokes `add_methods` exactly once per (type key, engine) pair,
/// lazily, the first time it encounters the type; the resulting dispatch
/// table is cached for the engine's lifetime.  The default implementation
/// registers nothing: a type with no methods is still exposable, just inert
/// from the scripting side.
pub trait UserData {
    /// Declares the type's methods and operators on the given registry.
    fn add_methods<M: UserDataMethods>(methods: &mut M) {
    }
}

/// A scoped shared view of one exposed instance.
///
/// While the view is live the instance cannot be borrowed exclusively;
/// releasing it hands the shared borrow back.  The view carries a copy of the
/// instance as it stood when the borrow was taken; no exclusive access can
/// change the instance while the borrow is counted, so the copy stays
/// faithful until release.
#[derive(Debug)]
pub struct SharedView {
    pub(crate) slot: usize,
    pub(crate) value: Value,
}

impl SharedView {
    /// The slot the view borrows, for contracts.
    pub open(crate) spec fn slot_spec(self) -> int {
        self.slot as int
    }

    /// The viewed instance, for contracts.
    pub open(crate) spec fn value_spec(self) -> Value {
        self.value
    }

    /// Read access to the viewed instance.
    pub fn value(&self) -> (r: &Value)
        ensures
            *r == self.value_spec(),
    {
        &self.value
    }

    /// Hands the shared borrow back.  Consuming the view guarantees release
    /// happens exactly once on every exit path.
    pub fn release(self, engine: &mut Engine)
        requires
            old(engine).wf(),
        ensures
            final(engine).wf(),
            final(engine).dialect_spec() == old(engine).dialect_spec(),
            final(engine).cache_spec() == old(engine).cache_spec(),
            final(engine).tables_spec() == old(engine).tables_spec(),
            final(engine).num_objects() == old(engine).num_objects(),
            forall|j: int|
                0 <= j < old(engine).num_objects() && j != self.slot_spec() ==> final(engine).obj(
                    j,
                ) == old(engine).obj(j),
            0 <= self.slot_spec() < old(engine).num_objects() ==> {
                &&& final(engine).obj_state(self.slot_spec()) == old(engine).obj_state(
                    self.slot_spec(),
                ).after_shared_release()
                &&& final(engine).obj_tag(self.slot_spec()) == old(engine).obj_tag(
                    self.slot_spec(),
                )
                &&& final(engine).obj_value(self.slot_spec()) == old(engine).obj_value(
                    self.slot_spec(),
                )
                &&& final(engine).obj_user_value(self.slot_spec()) == old(engine).obj_user_value(
                    self.slot_spec(),
                )
            },
    {
        if self.slot < engine.objects.len() {
            engine.objects[self.slot].cell.release_shared();
        }
    }
}

/// A scoped exclusive view of one exposed instance.
///
/// While the view is live no other borrow can be taken.  The view holds the
/// working copy of the instance; mutations act on the copy and are stored
/// back when the view is released, which is when they become observable —
/// nested accesses in the meantime fail with a borrow conflict rather than
/// seeing a half-updated instance.
#[derive(Debug)]
pub struct ExclusiveView {
    pub(crate) slot: usize,
    pub(crate) value: Value,
}

impl ExclusiveView {
    /// The slot the view borrows, for contracts.
    pub open(crate) spec fn slot_spec(self) -> int {
        self.slot as int
    }

    /// The working copy of the instance, for contracts.
    pub open(crate) spec fn value_spec(self) -> Value {
        self.value
    }

    /// Read access to the working copy.
    pub fn value(&self) -> (r: &Value)
        ensures
            *r == self.value_spec(),
    {
        &self.value
    }

    /// Replaces the working copy; the instance itself changes at release.
    pub fn set_value(&mut self, value: Value)
        ensures
            final(self).slot_spec() == old(self).slot_spec(),
            final(self).value_spec() == value,
    {
        self.value = value;
    }

    /// Stores the working copy back and hands the exclusive borrow back.
    /// Consuming the view guarantees release happens exactly once on every
    /// exit path.
    pub fn release(self, engine: &mut Engine)
        requires
            old(engine).wf(),
        ensures
            final(engine).wf(),
            final(engine).dialect_spec() == old(engine).dialect_spec(),
            final(engine).cache_spec() == old(engine).cache_spec(),
            final(engine).tables_spec() == old(engine).tables_spec(),
            final(engine).num_objects() == old(engine).num_objects(),
            forall|j: int|
                0 <= j < old(engine).num_objects() && j != self.slot_spec() ==> final(engine).obj(
                    j,
                ) == old(engine).obj(j),
            0 <= self.slot_spec() < old(engine).num_objects() ==> {
                &&& final(engine).obj_tag(self.slot_spec()) == old(engine).obj_tag(
                    self.slot_spec(),
                )
                &&& final(engine).obj_user_value(self.slot_spec()) == old(engine).obj_user_value(
                    self.slot_spec(),
                )
                &&& if old(engine).obj_state(self.slot_spec()) is Exclusive {
                    final(engine).obj_state(self.slot_spec()) == BorrowState::Free && final(engine).obj_value(self.slot_spec()) == self.value_spec()
                } else {
                    final(engine).obj(self.slot_spec()) == old(engine).obj(self.slot_spec())
                }
            },
    {
        if self.slot < engine.objects.len() {
            engine.objects[self.slot].cell.release_exclusive(self.value);
        }
    }
}

impl AnyUserData {
    /// The value-space slot the handle names, for contracts.
    pub open(crate) spec fn slot_spec(self) -> int {
        self.slot as int
    }

    /// The single choke point of every typed access: checks that the handle
    /// names a userdata carrying a metatable, fetches `T`'s registered tag
    /// under the key (allocating it on first use), and compares it by
    /// identity against the handle's metatable.  On success it yields the
    /// slot of the underlying borrow cell.
    pub(crate) fn inspect<T: UserData>(&self, engine: &mut Engine, key: u64) -> (r: Result<
        usize,
        Error,
    >)
        requires
            old(engine).wf(),
        ensures
            final(engine).wf(),
            final(engine).objects_spec() == old(engine).objects_spec(),
            if old(engine).has_slot(*self) && old(engine).obj_tag(self.slot_spec()) is Some {
                old(engine).tables_step(*final(engine), key)
            } else {
                *final(engine) == *old(engine)
            },
            match r {
                Ok(slot) => slot == self.slot && old(engine).typed_as(*self, key),
                Err(e) => e is UserDataTypeMismatch && !old(engine).typed_as(*self, key),
            },
    {
        if self.slot >= engine.objects.len() {
            return Err(Error::UserDataTypeMismatch);
        }
        let tagged = match engine.objects[self.slot].tag {
            Some(_) => true,
            None => false,
        };
        if !tagged {
            return Err(Error::UserDataTypeMismatch);
        }
        let tag = engine.register_type::<T>(key);
        match engine.objects[self.slot].tag {
            Some(t) => if t == tag {
                Ok(self.slot)
            } else {
                Err(Error::UserDataTypeMismatch)
            },
            None => Err(Error::UserDataTypeMismatch),
        }
    }

    /// Checks whether the type of this userdata is the one registered under
    /// the key.  Never raises: a tag mismatch and a missing metatable both
    /// resolve to `false`.
    pub fn is<T: UserData>(&self, engine: &mut Engine, key: u64) -> (r: bool)
        requires
            old(engine).wf(),
        ensures
            final(engine).wf(),
            final(engine).objects_spec() == old(engine).objects_spec(),
            if old(engine).has_slot(*self) && old(engine).obj_tag(self.slot_spec()) is Some {
                old(engine).tables_step(*final(engine), key)
            } else {
                *final(engine) == *old(engine)
            },
            r == old(engine).typed_as(*self, key),
    {
        match self.inspect::<T>(engine, key) {
            Ok(_) => true,
            Err(_) => false,
        }
    }

    /// Borrows this userdata immutably if it is of the type registered under
    /// the key.
    ///
    /// Fails with a type mismatch if the tag differs (or no metatable is
    /// present), and with a borrow conflict if an exclusive borrow is live;
    /// otherwise one more shared borrow is counted and a scoped view comes
    /// back that hands it back on release.
    pub fn borrow<T: UserData>(&self, engine: &mut Engine, key: u64) -> (r: Result<
        SharedView,
        Error,
    >)
        requires
            old(engine).wf(),
        ensures
            final(engine).wf(),
            if old(engine).has_slot(*self) && old(engine).obj_tag(self.slot_spec()) is Some {
                old(engine).tables_step(*final(engine), key)
            } else {
                *final(engine) == *old(engine)
            },
            final(engine).num_objects() == old(engine).num_objects(),
            forall|j: int|
                0 <= j < old(engine).num_objects() && j != self.slot_spec() ==> final(engine).obj(
                    j,
                ) == old(engine).obj(j),
            match r {
                Ok(v) => {
                    &&& old(engine).typed_as(*self, key)
                    &&& old(engine).obj_state(self.slot_spec()).shared_ok()
                    &&& v.slot_spec() == self.slot_spec()
                    &&& v.value_spec() == old(engine).obj_value(self.slot_spec())
                    &&& final(engine).obj_state(self.slot_spec()) == old(engine).obj_state(
                        self.slot_spec(),
                    ).after_shared_acquire()
                    &&& final(engine).obj_tag(self.slot_spec()) == old(engine).obj_tag(
                        self.slot_spec(),
                    )
                    &&& final(engine).obj_value(self.slot_spec()) == old(engine).obj_value(
                        self.slot_spec(),
                    )
                    &&& final(engine).obj_user_value(self.slot_spec()) == old(engine).obj_user_value(self.slot_spec())
                },
                Err(e) => {
                    &&& final(engine).objects_spec() == old(engine).objects_spec()
                    &&& (e is UserDataTypeMismatch && !old(engine).typed_as(*self, key)) || (
                    e is UserDataBorrowError && old(engine).typed_as(*self, key) && !old(engine).obj_state(self.slot_spec()).shared_ok())
                },
            },
    {
        let slot = match self.inspect::<T>(engine, key) {
            Ok(slot) => slot,
            Err(e) => {
                return Err(e);
            },
        };
        let acquired = engine.objects[slot].cell.acquire_shared();
        if !acquired {
            return Err(Error::UserDataBorrowError);
        }
        let value = engine.objects[slot].cell.value.duplicate();
        Ok(SharedView { slot, value })
    }

    /// Borrows this userdata mutably if it is of the type registered under
    /// the key.
    ///
    /// Fails with a type mismatch if the tag differs (or no metatable is
    /// present), and with a borrow conflict if any borrow — shared or
    /// exclusive — is live; otherwise the instance is marked exclusive and a
    /// scoped view comes back that clears the mark on release.
    pub fn borrow_mut<T: UserData>(&self, engine: &mut Engine, key: u64) -> (r: Result<
        ExclusiveView,
        Error,
    >)
        requires
            old(engine).wf(),
        ensures
            final(engine).wf(),
            if old(engine).has_slot(*self) && old(engine).obj_tag(self.slot_spec()) is Some {
                old(engine).tables_step(*final(engine), key)
            } else {
                *final(engine) == *old(engine)
            },
            final(engine).num_objects() == old(engine).num_objects(),
            forall|j: int|
                0 <= j < old(engine).num_objects() && j != self.slot_spec() ==> final(engine).obj(
                    j,
                ) == old(engine).obj(j),
            match r {
                Ok(v) => {
                    &&& old(engine).typed_as(*self, key)
                    &&& old(engine).obj_state(self.slot_spec()).exclusive_ok()
                    &&& v.slot_spec() == self.slot_spec()
                    &&& v.value_spec() == old(engine).obj_value(self.slot_spec())
                    &&& final(engine).obj_state(self.slot_spec()) == BorrowState::Exclusive
                    &&& final(engine).obj_tag(self.slot_spec()) == old(engine).obj_tag(
                        self.slot_spec(),
                    )
                    &&& final(engine).obj_value(self.slot_spec()) == old(engine).obj_value(
                        self.slot_spec(),
                    )
                    &&& final(engine).obj_user_value(self.slot_spec()) == old(engine).obj_user_value(self.slot_spec())
                },
                Err(e) => {
                    &&& final(engine).objects_spec() == old(engine).objects_spec()
                    &&& (e is UserDataTypeMismatch && !old(engine).typed_as(*self, key)) || (
                    e is UserDataBorrowMutError && old(engine).typed_as(*self, key) && !old(engine).obj_state(self.slot_spec()).exclusive_ok())
                },
            },
    {
        let slot = match self.inspect::<T>(engine, key) {
            Ok(slot) => slot,
            Err(e) => {
                return Err(e);
            },
        };
        let acquired = engine.objects[slot].cell.acquire_exclusive();
        if !acquired {
            return Err(Error::UserDataBorrowMutError);
        }
        let value = engine.objects[slot].cell.value.duplicate();
        Ok(ExclusiveView { slot, value })
    }



    /// The identity of the metatable behind this userdata: its tag.  Fails
    /// with a type mismatch when the userdata carries no metatable, or the
    /// handle names no slot of this engine.
    pub fn get_metatable(&self, engine: &Engine) -> (r: Result<usize, Error>)
        ensures
            match r {
                Ok(t) => engine.has_slot(*self) && engine.obj_tag(self.slot_spec()) == Some(t),
                Err(e) => e is UserDataTypeMismatch && (!engine.has_slot(*self) || engine.obj_tag(
                    self.slot_spec(),
                ) is None),
            },
    {
        if self.slot >= engine.objects.len() {
            return Err(Error::UserDataTypeMismatch);
        }
        match engine.objects[self.slot].tag {
            Some(t) => Ok(t),
            None => Err(Error::UserDataTypeMismatch),
        }
    }

    /// Compares two handles as the scripting language's equality does.
    ///
    /// Reference-identical handles are equal outright.  Otherwise the two
    /// metatables are compared by identity: different tags (or a missing
    /// metatable, which is a type mismatch) never compare equal.  When the
    /// tags match and the type declares an equality operator, the comparison
    /// is delegated to that operator's callback with both handles as
    /// arguments and its result — taken as a truth value — is returned
    /// verbatim.  Without a declared operator, value equality is opt-out:
    /// distinct handles of the same type are unequal.
    pub fn equals<F: Fn(u64, Value, Vec<Value>) -> Result<(Value, Value), Error>>(
        &self,
        engine: &mut Engine,
        other: &AnyUserData,
        host: &F,
    ) -> (r: Result<bool, Error>)
        requires
            old(engine).wf(),
            forall|a: (u64, Value, Vec<Value>)| #[trigger] call_requires(*host, a),
        ensures
            final(engine).wf(),
            final(engine).dialect_spec() == old(engine).dialect_spec(),
            final(engine).cache_spec() == old(engine).cache_spec(),
            final(engine).tables_spec() == old(engine).tables_spec(),
            final(engine).num_objects() == old(engine).num_objects(),
            forall|j: int|
                0 <= j < old(engine).num_objects() && j != self.slot_spec() ==> final(engine).obj(
                    j,
                ) == old(engine).obj(j),
            ({
                let pre = *old(engine);
                let post = *final(engine);
                if self.slot_spec() == other.slot_spec() {
                    r == Ok::<bool, Error>(true) && post == pre
                } else if !(pre.has_slot(*self) && pre.obj_tag(self.slot_spec()) is Some) {
                    r == Err::<bool, Error>(Error::UserDataTypeMismatch) && post == pre
                } else if !(pre.has_slot(*other) && pre.obj_tag(other.slot_spec()) is Some) {
                    r == Err::<bool, Error>(Error::UserDataTypeMismatch) && post == pre
                } else if pre.obj_tag(self.slot_spec()) != pre.obj_tag(other.slot_spec()) {
                    r == Ok::<bool, Error>(false) && post == pre
                } else {
                    let table = pre.table_at(pre.obj_tag(self.slot_spec()).unwrap() as int);
                    match resolve(table, KeyModel::Meta(MetaMethod::Eq)) {
                        None => r == Ok::<bool, Error>(false) && post == pre,
                        Some(binding) => exists|eargs: Vec<Value>, rr: Result<Value, Error>|
                            {
                                &&& if binding.0 is Method || binding.0 is MethodMut {
                                    eargs@ == seq![Value::UserData(*other)]
                                } else {
                                    eargs@ == seq![
                                        Value::UserData(*self),
                                        Value::UserData(*other),
                                    ]
                                }
                                &&& #[trigger] Engine::binding_step(
                                    pre,
                                    post,
                                    self.slot_spec(),
                                    binding.0,
                                    binding.1,
                                    eargs,
                                    *host,
                                    rr,
                                )
                                &&& match rr {
                                    Ok(v) => r == Ok::<bool, Error>(v.truthy()),
                                    Err(e) => r == Err::<bool, Error>(e),
                                }
                            },
                    }
                }
            }),
    {
        if self.slot == other.slot {
            return Ok(true);
        }
        if self.slot >= engine.objects.len() {
            return Err(Error::UserDataTypeMismatch);
        }
        let my_tag = match engine.objects[self.slot].tag {
            Some(t) => t,
            None => {
                return Err(Error::UserDataTypeMismatch);
            },
        };
        if other.slot >= engine.objects.len() {
            return Err(Error::UserDataTypeMismatch);
        }
        let other_tag = match engine.objects[other.slot].tag {
            Some(t) => t,
            None => {
                return Err(Error::UserDataTypeMismatch);
            },
        };
        if my_tag != other_tag {
            return Ok(false);
        }
        let binding = engine.metatables[my_tag].lookup(&MethodKey::Meta(MetaMethod::Eq));
        match binding {
            None => Ok(false),
            Some((kind, id)) => {
                let mut eargs: Vec<Value> = Vec::new();
                let receiver_kind = match kind {
                    CallbackKind::Method | CallbackKind::MethodMut => true,
                    CallbackKind::Function | CallbackKind::FunctionMut => false,
                };
                if !receiver_kind {
                    eargs.push(Value::UserData(*self));
                }
                eargs.push(Value::UserData(*other));
                proof {
                    if receiver_kind {
                        assert(eargs@ =~= seq![Value::UserData(*other)]);
                    } else {
                        assert(eargs@ =~= seq![Value::UserData(*self), Value::UserData(*other)]);
                    }
                }
                let ghost eargs_ghost = eargs;
                let ghost pre = *engine;
                let rr = engine.call_binding(self.slot, kind, id, eargs, host);
                proof {
                    assert(Engine::binding_step(
                        pre,
                        *engine,
                        self.slot_spec(),
                        kind,
                        id,
                        eargs_ghost,
                        *host,
                        rr,
                    ));
                }
                match rr {
                    Ok(v) => Ok(v.is_truthy()),
                    Err(e) => Err(e),
                }
            },
        }
    }

    /// Attaches an engine-visible user value to this userdata, independent of
    /// the native instance.  Any representable value is accepted, including
    /// the absent one.
    pub fn set_user_value(&self, engine: &mut Engine, value: Value) -> (r: Result<(), Error>)
        requires
            old(engine).wf(),
        ensures
            final(engine).wf(),
            final(engine).dialect_spec() == old(engine).dialect_spec(),
            final(engine).cache_spec() == old(engine).cache_spec(),
            final(engine).tables_spec() == old(engine).tables_spec(),
            final(engine).num_objects() == old(engine).num_objects(),
            forall|j: int|
                0 <= j < old(engine).num_objects() && j != self.slot_spec() ==> final(engine).obj(
                    j,
                ) == old(engine).obj(j),
            match r {
                Ok(u) => {
                    &&& old(engine).has_slot(*self)
                    &&& final(engine).obj_user_value(self.slot_spec()) == value
                    &&& final(engine).obj_tag(self.slot_spec()) == old(engine).obj_tag(
                        self.slot_spec(),
                    )
                    &&& final(engine).obj_state(self.slot_spec()) == old(engine).obj_state(
                        self.slot_spec(),
                    )
                    &&& final(engine).obj_value(self.slot_spec()) == old(engine).obj_value(
                        self.slot_spec(),
                    )
                },
                Err(e) => {
                    &&& e is UserDataTypeMismatch
                    &&& !old(engine).has_slot(*self)
                    &&& *final(engine) == *old(engine)
                },
            },
    {
        if self.slot >= engine.objects.len() {
            return Err(Error::UserDataTypeMismatch);
        }
        engine.objects[self.slot].user_value = value;
        Ok(())
    }

    /// Returns the user value attached to this userdata; the absent value if
    /// none was ever attached.
    pub fn get_user_value(&self, engine: &Engine) -> (r: Result<Value, Error>)
        ensures
            r == engine.user_value_outcome(*self),
    {
        if self.slot >= engine.objects.len() {
            return Err(Error::UserDataTypeMismatch);
        }
        Ok(engine.objects[self.slot].user_value.duplicate())
    }
}


/// Attach-then-read round-trips: in any state a successful attachment of `v`
/// through a handle leaves behind, reading the user value through the same
/// handle yields exactly `v`; this holds for every representable value,
/// including the absent one.
pub proof fn lemma_user_value_roundtrip(pre: Engine, post: Engine, h: AnyUserData, v: Value)
    requires
        pre.has_slot(h),
        post.num_objects() == pre.num_objects(),
        post.obj_user_value(h.slot_spec()) == v,
    ensures
        post.user_value_outcome(h) == Ok::<Value, Error>(v),
{
}


/// A fully released instance shows no residual conflict: a typed handle with
/// no live borrow can take a shared borrow, and once that borrow is handed
/// back the instance is free again, so an exclusive borrow then succeeds.
pub proof fn lemma_released_borrow_enables_exclusive(e: Engine, h: AnyUserData, key: u64)
    requires
        e.wf(),
        e.typed_as(h, key),
        e.obj_state(h.slot_spec()) == BorrowState::Free,
    ensures
        e.obj_state(h.slot_spec()).shared_ok(),
        e.obj_state(h.slot_spec()).after_shared_acquire().after_shared_release().exclusive_ok(),
{
}

} // verus!
