//! The operator catalog: every overridable metamethod slot and its canonical
//! wire name in the engine's metatable protocol.
//!
//! The mapping from slot to name is total and injective: every slot has
//! exactly one name and no two slots share one.  Some slots exist only under
//! certain engine dialects; availability is a static capability of the
//! configured engine, checked at registration time.

use vstd::prelude::*;

verus! {

/// The engine dialect a registry or engine is configured for.
///
/// Availability of some metamethod slots depends on the dialect.
#[derive(Debug, Clone, Copy, PartialEq, Eq, Structural)]
pub enum Dialect {
    /// The 5.1 dialect.
    Lua51,
    /// The 5.2 dialect.
    Lua52,
    /// The 5.3 dialect.
    Lua53,
    /// The tracing-JIT dialect, compatible with 5.1.
    LuaJit,
}

/// Kinds of metamethods that can be overridden.
///
/// Finalization is deliberately not in the catalog: native destructors are the
/// sole teardown hook, so there is no competing finalization path.
#[derive(Debug, Clone, Copy, PartialEq, Eq, Structural, Hash)]
pub enum MetaMethod {
    /// The `+` operator.
    Add,
    /// The `-` operator.
    Sub,
    /// The `*` operator.
    Mul,
    /// The `/` operator.
    Div,
    /// The `%` operator.
    Mod,
    /// The `^` operator.
    Pow,
    /// The unary minus operator.
    Unm,
    /// The floor division operator.
    IDiv,
    /// The bitwise AND operator.
    BAnd,
    /// The bitwise OR operator.
    BOr,
    /// The bitwise XOR operator.
    BXor,
    /// The bitwise NOT operator.
    BNot,
    /// The bitwise left shift operator.
    Shl,
    /// The bitwise right shift operator.
    Shr,
    /// The string concatenation operator.
    Concat,
    /// The length operator.
    Len,
    /// The equality operator.
    Eq,
    /// The less-than operator.
    Lt,
    /// The less-or-equal operator.
    Le,
    /// Index read access.
    Index,
    /// Index write access.
    NewIndex,
    /// The call operator.
    Call,
    /// String conversion.
    ToString,
    /// The iteration hook used by the built-in pair iterator.
    Pairs,
    /// The iteration hook used by the built-in indexed-pair iterator.
    IPairs,
}

impl MetaMethod {
    /// The canonical wire name of the slot, as a sequence of characters.
    pub open spec fn name_spec(self) -> Seq<char> {
        match self {
            MetaMethod::Add => "__add"@,
            MetaMethod::Sub => "__sub"@,
            MetaMethod::Mul => "__mul"@,
            MetaMethod::Div => "__div"@,
            MetaMethod::Mod => "__mod"@,
            MetaMethod::Pow => "__pow"@,
            MetaMethod::Unm => "__unm"@,
            MetaMethod::IDiv => "__idiv"@,
            MetaMethod::BAnd => "__band"@,
            MetaMethod::BOr => "__bor"@,
            MetaMethod::BXor => "__bxor"@,
            MetaMethod::BNot => "__bnot"@,
            MetaMethod::Shl => "__shl"@,
            MetaMethod::Shr => "__shr"@,
            MetaMethod::Concat => "__concat"@,
            MetaMethod::Len => "__len"@,
            MetaMethod::Eq => "__eq"@,
            MetaMethod::Lt => "__lt"@,
            MetaMethod::Le => "__le"@,
            MetaMethod::Index => "__index"@,
            MetaMethod::NewIndex => "__newindex"@,
            MetaMethod::Call => "__call"@,
            MetaMethod::ToString => "__tostring"@,
            MetaMethod::Pairs => "__pairs"@,
            MetaMethod::IPairs => "__ipairs"@,
        }
    }

    /// The canonical wire name of the slot, used as the dispatch-table key in
    /// the engine's metatable store.
    pub fn name(self) -> (r: &'static str)
        ensures
            r@ == self.name_spec(),
    {
        match self {
            MetaMethod::Add => "__add",
            MetaMethod::Sub => "__sub",
            MetaMethod::Mul => "__mul",
            MetaMethod::Div => "__div",
            MetaMethod::Mod => "__mod",
            MetaMethod::Pow => "__pow",
            MetaMethod::Unm => "__unm",
            MetaMethod::IDiv => "__idiv",
            MetaMethod::BAnd => "__band",
            MetaMethod::BOr => "__bor",
            MetaMethod::BXor => "__bxor",
            MetaMethod::BNot => "__bnot",
            MetaMethod::Shl => "__shl",
            MetaMethod::Shr => "__shr",
            MetaMethod::Concat => "__concat",
            MetaMethod::Len => "__len",
            MetaMethod::Eq => "__eq",
            MetaMethod::Lt => "__lt",
            MetaMethod::Le => "__le",
            MetaMethod::Index => "__index",
            MetaMethod::NewIndex => "__newindex",
            MetaMethod::Call => "__call",
            MetaMethod::ToString => "__tostring",
            MetaMethod::Pairs => "__pairs",
            MetaMethod::IPairs => "__ipairs",
        }
    }

    /// Whether this slot exists under the given engine dialect.
    ///
    /// The floor-division and bitwise slots belong to the 5.3 dialect alone;
    /// the iteration hooks to 5.2 and 5.3.  Everything else is available
    /// everywhere.
    pub open spec fn available_spec(self, dialect: Dialect) -> bool {
        match self {
            MetaMethod::IDiv
            | MetaMethod::BAnd
            | MetaMethod::BOr
            | MetaMethod::BXor
            | MetaMethod::BNot
            | MetaMethod::Shl
            | MetaMethod::Shr => dialect is Lua53,
            MetaMethod::Pairs | MetaMethod::IPairs => dialect is Lua52 || dialect is Lua53,
            _ => true,
        }
    }

    /// Whether this slot exists under the given engine dialect.
    pub fn available(self, dialect: Dialect) -> (r: bool)
        ensures
            r == self.available_spec(dialect),
    {
        match self {
            MetaMethod::IDiv
            | MetaMethod::BAnd
            | MetaMethod::BOr
            | MetaMethod::BXor
            | MetaMethod::BNot
            | MetaMethod::Shl
            | MetaMethod::Shr => dialect == Dialect::Lua53,
            MetaMethod::Pairs | MetaMethod::IPairs => {
                dialect == Dialect::Lua52 || dialect == Dialect::Lua53
            },
            _ => true,
        }
    }
}

/// The slot-to-name mapping is injective: no two distinct slots share a wire
/// name, so a name identifies at most one slot in a dispatch table.
#[verifier::rlimit(100)]
pub proof fn lemma_meta_names_injective(a: MetaMethod, b: MetaMethod)
    requires
        a != b,
    ensures
        a.name_spec() != b.name_spec(),
{
    reveal_strlit("__add");
    reveal_strlit("__sub");
    reveal_strlit("__mul");
    reveal_strlit("__div");
    reveal_strlit("__mod");
    reveal_strlit("__pow");
    reveal_strlit("__unm");
    reveal_strlit("__idiv");
    reveal_strlit("__band");
    reveal_strlit("__bor");
    reveal_strlit("__bxor");
    reveal_strlit("__bnot");
    reveal_strlit("__shl");
    reveal_strlit("__shr");
    reveal_strlit("__concat");
    reveal_strlit("__len");
    reveal_strlit("__eq");
    reveal_strlit("__lt");
    reveal_strlit("__le");
    reveal_strlit("__index");
    reveal_strlit("__newindex");
    reveal_strlit("__call");
    reveal_strlit("__tostring");
    reveal_strlit("__pairs");
    reveal_strlit("__ipairs");
    assert("__add"@.len() == 5);
    assert("__add"@[2] == 'a');
    assert("__add"@[3] == 'd');
    assert("__add"@[4] == 'd');
    assert("__sub"@.len() == 5);
    assert("__sub"@[2] == 's');
    assert("__sub"@[3] == 'u');
    assert("__sub"@[4] == 'b');
    assert("__mul"@.len() == 5);
    assert("__mul"@[2] == 'm');
    assert("__mul"@[3] == 'u');
    assert("__mul"@[4] == 'l');
    assert("__div"@.len() == 5);
    assert("__div"@[2] == 'd');
    assert("__div"@[3] == 'i');
    assert("__div"@[4] == 'v');
    assert("__mod"@.len() == 5);
    assert("__mod"@[2] == 'm');
    assert("__mod"@[3] == 'o');
    assert("__mod"@[4] == 'd');
    assert("__pow"@.len() == 5);
    assert("__pow"@[2] == 'p');
    assert("__pow"@[3] == 'o');
    assert("__pow"@[4] == 'w');
    assert("__unm"@.len() == 5);
    assert("__unm"@[2] == 'u');
    assert("__unm"@[3] == 'n');
    assert("__unm"@[4] == 'm');
    assert("__idiv"@.len() == 6);
    assert("__idiv"@[2] == 'i');
    assert("__idiv"@[3] == 'd');
    assert("__idiv"@[4] == 'i');
    assert("__band"@.len() == 6);
    assert("__band"@[2] == 'b');
    assert("__band"@[3] == 'a');
    assert("__band"@[4] == 'n');
    assert("__bor"@.len() == 5);
    assert("__bor"@[2] == 'b');
    assert("__bor"@[3] == 'o');
    assert("__bor"@[4] == 'r');
    assert("__bxor"@.len() == 6);
    assert("__bxor"@[2] == 'b');
    assert("__bxor"@[3] == 'x');
    assert("__bxor"@[4] == 'o');
    assert("__bnot"@.len() == 6);
    assert("__bnot"@[2] == 'b');
    assert("__bnot"@[3] == 'n');
    assert("__bnot"@[4] == 'o');
    assert("__shl"@.len() == 5);
    assert("__shl"@[2] == 's');
    assert("__shl"@[3] == 'h');
    assert("__shl"@[4] == 'l');
    assert("__shr"@.len() == 5);
    assert("__shr"@[2] == 's');
    assert("__shr"@[3] == 'h');
    assert("__shr"@[4] == 'r');
    assert("__concat"@.len() == 8);
    assert("__concat"@[2] == 'c');
    assert("__concat"@[3] == 'o');
    assert("__concat"@[4] == 'n');
    assert("__len"@.len() == 5);
    assert("__len"@[2] == 'l');
    assert("__len"@[3] == 'e');
    assert("__len"@[4] == 'n');
    assert("__eq"@.len() == 4);
    assert("__eq"@[2] == 'e');
    assert("__eq"@[3] == 'q');
    assert("__lt"@.len() == 4);
    assert("__lt"@[2] == 'l');
    assert("__lt"@[3] == 't');
    assert("__le"@.len() == 4);
    assert("__le"@[2] == 'l');
    assert("__le"@[3] == 'e');
    assert("__index"@.len() == 7);
    assert("__index"@[2] == 'i');
    assert("__index"@[3] == 'n');
    assert("__index"@[4] == 'd');
    assert("__newindex"@.len() == 10);
    assert("__newindex"@[2] == 'n');
    assert("__newindex"@[3] == 'e');
    assert("__newindex"@[4] == 'w');
    assert("__call"@.len() == 6);
    assert("__call"@[2] == 'c');
    assert("__call"@[3] == 'a');
    assert("__call"@[4] == 'l');
    assert("__tostring"@.len() == 10);
    assert("__tostring"@[2] == 't');
    assert("__tostring"@[3] == 'o');
    assert("__tostring"@[4] == 's');
    assert("__pairs"@.len() == 7);
    assert("__pairs"@[2] == 'p');
    assert("__pairs"@[3] == 'a');
    assert("__pairs"@[4] == 'i');
    assert("__ipairs"@.len() == 8);
    assert("__ipairs"@[2] == 'i');
    assert("__ipairs"@[3] == 'p');
    assert("__ipairs"@[4] == 'a');
}


} // verus!
