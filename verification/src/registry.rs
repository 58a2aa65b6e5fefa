//! Method and operator registration.
//!
//! A type declares its scripting surface through [`UserDataMethods`]: named
//! methods and metamethod slots, each bound to a callback and to the shape of
//! receiver access it needs.  The registry accumulates the bindings in order;
//! when it is materialized into a dispatch table, the last binding for a key
//! wins.

use vstd::prelude::*;

use crate::meta::Dialect;
use crate::meta::MetaMethod;

verus! {

/// The shape of a registered callback: what access to the receiver it needs.
#[derive(Debug, Clone, Copy, PartialEq, Eq, Structural)]
pub enum CallbackKind {
    /// An instance method over a shared borrow of the receiver.
    Method,
    /// An instance method over an exclusive borrow of the receiver.
    MethodMut,
    /// A free function; the receiver is passed as the leading argument and no
    /// borrow is negotiated, so the leading argument need not be of the
    /// receiver's native type.
    Function,
    /// The mutable-closure variant of [`CallbackKind::Function`]; it is
    /// dispatched the same way.
    FunctionMut,
}

/// A dispatch-table key: a method name or a metamethod slot.
#[derive(Debug)]
pub enum MethodKey {
    /// A named method.
    Name(String),
    /// A metamethod slot.
    Meta(MetaMethod),
}

/// The mathematical model of a dispatch-table key: names are compared by
/// their characters, slots by identity.
pub enum KeyModel {
    /// A named method.
    Name(Seq<char>),
    /// A metamethod slot.
    Meta(MetaMethod),
}

impl View for MethodKey {
    type V = KeyModel;

    open spec fn view(&self) -> KeyModel {
        match self {
            MethodKey::Name(s) => KeyModel::Name(s@),
            MethodKey::Meta(m) => KeyModel::Meta(*m),
        }
    }
}

/// Whether two keys are the same dispatch-table key.
pub fn key_matches(a: &MethodKey, b: &MethodKey) -> (r: bool)
    ensures
        r == (a@ == b@),
{
    match (a, b) {
        (MethodKey::Name(x), MethodKey::Name(y)) => *x == *y,
        (MethodKey::Meta(x), MethodKey::Meta(y)) => *x == *y,
        _ => false,
    }
}

/// One recorded binding: a key, the callback's receiver shape, and the
/// callback identifier that invocation hands to the dispatcher.
#[derive(Debug)]
pub struct Registration {
    /// The dispatch-table key the callback is bound under.
    pub key: MethodKey,
    /// The shape of receiver access the callback needs.
    pub kind: CallbackKind,
    /// The callback identifier.
    pub id: u64,
}

/// The mathematical model of one binding.
pub struct RegModel {
    /// The key the callback is bound under.
    pub key: KeyModel,
    /// The shape of receiver access the callback needs.
    pub kind: CallbackKind,
    /// The callback identifier.
    pub id: u64,
}

impl View for Registration {
    type V = RegModel;

    open spec fn view(&self) -> RegModel {
        RegModel { key: self.key@, kind: self.kind, id: self.id }
    }
}

/// The binding a dispatch table yields for a key: the last registration under
/// that key, if there is one.
pub open spec fn resolve(regs: Seq<RegModel>, key: KeyModel) -> Option<(CallbackKind, u64)>
    decreases regs.len(),
{
    if regs.len() == 0 {
        None
    } else if regs.last().key == key {
        Some((regs.last().kind, regs.last().id))
    } else {
        resolve(regs.drop_last(), key)
    }
}

/// Last registration wins: after one more binding is recorded, its key
/// resolves to exactly that binding, and every other key resolves as before.
pub proof fn lemma_resolve_push(regs: Seq<RegModel>, r: RegModel, key: KeyModel)
    ensures
        resolve(regs.push(r), r.key) == Some((r.kind, r.id)),
        key != r.key ==> resolve(regs.push(r), key) == resolve(regs, key),
{
    assert(regs.push(r).drop_last() =~= regs);
}

/// A materialized dispatch table: the recorded bindings of one type, in
/// registration order.
#[derive(Debug)]
pub struct Metatable {
    pub(crate) regs: Vec<Registration>,
}

impl View for Metatable {
    type V = Seq<RegModel>;

    closed spec fn view(&self) -> Seq<RegModel> {
        self.regs@.map_values(|r: Registration| r@)
    }
}

impl Metatable {
    /// The binding under the given key, honouring last-wins order.
    pub fn lookup(&self, key: &MethodKey) -> (r: Option<(CallbackKind, u64)>)
        ensures
            r == resolve(self@, key@),
    {
        let n = self.regs.len();
        let mut i: usize = n;
        assert(self@.take(n as int) =~= self@);
        while i > 0
            invariant
                i <= n,
                n == self.regs.len(),
                resolve(self@, key@) == resolve(self@.take(i as int), key@),
            decreases i,
        {
            i = i - 1;
            let reg = &self.regs[i];
            assert(self@.take(i as int + 1).last() == self@[i as int]);
            assert(self@.take(i as int + 1).drop_last() =~= self@.take(i as int));
            if key_matches(&reg.key, key) {
                return Some((reg.kind, reg.id));
            }
        }
        None
    }
}

/// Method registry for [`UserData`] implementors: the declarative surface a
/// type uses to bind its methods and operators during its one registration
/// pass.
///
/// Every binding records a thread-transferable callback by identifier; the
/// callback itself lives with the conversion collaborator that marshals
/// arguments and results.  Binding the same name or slot twice keeps both
/// records, and the dispatch table gives the later one precedence.
///
/// [`UserData`]: crate::UserData
pub trait UserDataMethods {
    /// The dialect the receiving engine is configured for.
    spec fn dialect_spec(&self) -> Dialect;

    /// The bindings recorded so far, in order.
    spec fn regs_spec(&self) -> Seq<RegModel>;

    /// Binds a method taking a shared borrow of the receiver.
    fn add_method(&mut self, name: &String, id: u64)
        ensures
            final(self).regs_spec() == old(self).regs_spec().push(
                (RegModel { key: KeyModel::Name(name@), kind: CallbackKind::Method, id }),
            ),
            final(self).dialect_spec() == old(self).dialect_spec(),
    ;

    /// Binds a method taking an exclusive borrow of the receiver.
    fn add_method_mut(&mut self, name: &String, id: u64)
        ensures
            final(self).regs_spec() == old(self).regs_spec().push(
                (RegModel { key: KeyModel::Name(name@), kind: CallbackKind::MethodMut, id }),
            ),
            final(self).dialect_spec() == old(self).dialect_spec(),
    ;

    /// Binds a free function under a method name.  When invoked with
    /// method-call syntax the calling handle is passed as the leading
    /// argument; no receiver borrow is negotiated.
    fn add_function(&mut self, name: &String, id: u64)
        ensures
            final(self).regs_spec() == old(self).regs_spec().push(
                (RegModel { key: KeyModel::Name(name@), kind: CallbackKind::Function, id }),
            ),
            final(self).dialect_spec() == old(self).dialect_spec(),
    ;

    /// Binds a mutable free function under a method name.
    fn add_function_mut(&mut self, name: &String, id: u64)
        ensures
            final(self).regs_spec() == old(self).regs_spec().push(
                (RegModel { key: KeyModel::Name(name@), kind: CallbackKind::FunctionMut, id }),
            ),
            final(self).dialect_spec() == old(self).dialect_spec(),
    ;

    /// Binds a metamethod taking a shared borrow of the receiver.  The slot
    /// must exist under the engine's dialect; registering an unavailable slot
    /// is a contract violation, not a silent no-op.
    fn add_meta_method(&mut self, meta: MetaMethod, id: u64)
        requires
            meta.available_spec(old(self).dialect_spec()),
        ensures
            final(self).regs_spec() == old(self).regs_spec().push(
                (RegModel { key: KeyModel::Meta(meta), kind: CallbackKind::Method, id }),
            ),
            final(self).dialect_spec() == old(self).dialect_spec(),
    ;

    /// Binds a metamethod taking an exclusive borrow of the receiver.
    fn add_meta_method_mut(&mut self, meta: MetaMethod, id: u64)
        requires
            meta.available_spec(old(self).dialect_spec()),
        ensures
            final(self).regs_spec() == old(self).regs_spec().push(
                (RegModel { key: KeyModel::Meta(meta), kind: CallbackKind::MethodMut, id }),
            ),
            final(self).dialect_spec() == old(self).dialect_spec(),
    ;

    /// Binds a metamethod as a free function.  Binary operators may dispatch
    /// from either operand's metatable, so the leading argument is not
    /// necessarily of the receiver's native type.
    fn add_meta_function(&mut self, meta: MetaMethod, id: u64)
        requires
            meta.available_spec(old(self).dialect_spec()),
        ensures
            final(self).regs_spec() == old(self).regs_spec().push(
                (RegModel { key: KeyModel::Meta(meta), kind: CallbackKind::Function, id }),
            ),
            final(self).dialect_spec() == old(self).dialect_spec(),
    ;

    /// Binds a metamethod as a mutable free function.
    fn add_meta_function_mut(&mut self, meta: MetaMethod, id: u64)
        requires
            meta.available_spec(old(self).dialect_spec()),
        ensures
            final(self).regs_spec() == old(self).regs_spec().push(
                (RegModel { key: KeyModel::Meta(meta), kind: CallbackKind::FunctionMut, id }),
            ),
            final(self).dialect_spec() == old(self).dialect_spec(),
    ;
}

/// The registry an engine hands to a type's registration pass.
#[derive(Debug)]
pub struct UserDataRegistry {
    pub(crate) dialect: Dialect,
    pub(crate) regs: Vec<Registration>,
}

impl UserDataRegistry {
    /// An empty registry for an engine of the given dialect.
    pub fn new(dialect: Dialect) -> (r: UserDataRegistry)
        ensures
            r.dialect_spec() == dialect,
            r.regs_spec() == Seq::<RegModel>::empty(),
    {
        UserDataRegistry { dialect, regs: Vec::new() }
    }

    /// Materializes the recorded bindings into a dispatch table.
    pub fn into_metatable(self) -> (r: Metatable)
        ensures
            r@ == self.regs_spec(),
    {
        Metatable { regs: self.regs }
    }

    fn record(&mut self, key: MethodKey, kind: CallbackKind, id: u64)
        ensures
            final(self).regs_spec() == old(self).regs_spec().push(
                (RegModel { key: key@, kind, id }),
            ),
            final(self).dialect == old(self).dialect,
    {
        let ghost prior = self.regs@;
        self.regs.push(Registration { key, kind, id });
        assert(self.regs@.map_values(|r: Registration| r@) =~= prior.map_values(
            |r: Registration| r@,
        ).push((RegModel { key: key@, kind, id })));
    }
}

impl UserDataMethods for UserDataRegistry {
    closed spec fn dialect_spec(&self) -> Dialect {
        self.dialect
    }

    closed spec fn regs_spec(&self) -> Seq<RegModel> {
        self.regs@.map_values(|r: Registration| r@)
    }

    fn add_method(&mut self, name: &String, id: u64) {
        self.record(MethodKey::Name(name.clone()), CallbackKind::Method, id);
    }

    fn add_method_mut(&mut self, name: &String, id: u64) {
        self.record(MethodKey::Name(name.clone()), CallbackKind::MethodMut, id);
    }

    fn add_function(&mut self, name: &String, id: u64) {
        self.record(MethodKey::Name(name.clone()), CallbackKind::Function, id);
    }

    fn add_function_mut(&mut self, name: &String, id: u64) {
        self.record(MethodKey::Name(name.clone()), CallbackKind::FunctionMut, id);
    }

    fn add_meta_method(&mut self, meta: MetaMethod, id: u64) {
        self.record(MethodKey::Meta(meta), CallbackKind::Method, id);
    }

    fn add_meta_method_mut(&mut self, meta: MetaMethod, id: u64) {
        self.record(MethodKey::Meta(meta), CallbackKind::MethodMut, id);
    }

    fn add_meta_function(&mut self, meta: MetaMethod, id: u64) {
        self.record(MethodKey::Meta(meta), CallbackKind::Function, id);
    }

    fn add_meta_function_mut(&mut self, meta: MetaMethod, id: u64) {
        self.record(MethodKey::Meta(meta), CallbackKind::FunctionMut, id);
    }
}

} // verus!
