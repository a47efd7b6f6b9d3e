//! The meta methods that a type can define, and their names in Lua.
use vstd::prelude::*;

verus! {

/// Kinds of meta methods that can be overridden.
#[derive(PartialEq, Eq, Structural, Clone, Copy, Debug, Hash)]
pub enum MetaMethod {
    /// The `+` operator.
    Add,
    /// The `-` operator.
    Sub,
    /// The `*` operator.
    Mul,
    /// The `/` operator.
    Div,
    /// The `%` operator.
    Mod,
    /// The `^` operator.
    Pow,
    /// The unary minus operator.
    Unm,
    /// The floor division `//` operator.
    IDiv,
    /// The bitwise AND operator.
    BAnd,
    /// The bitwise OR operator.
    BOr,
    /// The bitwise XOR operator.
    BXor,
    /// The bitwise NOT operator.
    BNot,
    /// The left shift operator.
    Shl,
    /// The right shift operator.
    Shr,
    /// The concatenation operator `..`.
    Concat,
    /// The length operator `#`.
    Len,
    /// The `==` operator.
    Eq,
    /// The `<` operator.
    Lt,
    /// The `<=` operator.
    Le,
    /// Index access `obj[key]`.
    Index,
    /// Index write access `obj[key] = value`.
    NewIndex,
    /// The call operator `obj(args)`.
    Call,
    /// Conversion to a string, as by `tostring`.
    ToString,
    /// Iteration by `pairs`.
    Pairs,
    /// Iteration by `ipairs`.
    IPairs,
    /// Leaving the scope of a to-be-closed variable.
    Close,
    /// Iteration (Luau).
    Iter,
    /// The `__name` entry, which Lua reads for the name of the type.
    Type,
}

/// The Lua name of a meta method.
pub open spec fn meta_name(m: MetaMethod) -> Seq<char> {
    match m {
        MetaMethod::Add => "__add"@,
        MetaMethod::Sub => "__sub"@,
        MetaMethod::Mul => "__mul"@,
        MetaMethod::Div => "__div"@,
        MetaMethod::Mod => "__mod"@,
        MetaMethod::Pow => "__pow"@,
        MetaMethod::Unm => "__unm"@,
        MetaMethod::IDiv => "__idiv"@,
        MetaMethod::BAnd => "__band"@,
        MetaMethod::BOr => "__bor"@,
        MetaMethod::BXor => "__bxor"@,
        MetaMethod::BNot => "__bnot"@,
        MetaMethod::Shl => "__shl"@,
        MetaMethod::Shr => "__shr"@,
        MetaMethod::Concat => "__concat"@,
        MetaMethod::Len => "__len"@,
        MetaMethod::Eq => "__eq"@,
        MetaMethod::Lt => "__lt"@,
        MetaMethod::Le => "__le"@,
        MetaMethod::Index => "__index"@,
        MetaMethod::NewIndex => "__newindex"@,
        MetaMethod::Call => "__call"@,
        MetaMethod::ToString => "__tostring"@,
        MetaMethod::Pairs => "__pairs"@,
        MetaMethod::IPairs => "__ipairs"@,
        MetaMethod::Close => "__close"@,
        MetaMethod::Iter => "__iter"@,
        MetaMethod::Type => "unknown"@,
    }
}

/// The key of a meta method in a metatable: its Teal name, but `__name` for [`MetaMethod::Type`].
pub open spec fn lua_name(m: MetaMethod) -> Seq<char> {
    match m {
        MetaMethod::Type => "__name"@,
        _ => meta_name(m),
    }
}

impl MetaMethod {
    /// The key of this meta method in a metatable.
    pub fn name(self) -> (r: &'static str)
        ensures
            r@ == lua_name(self),
    {
        match self {
            MetaMethod::Type => "__name",
            _ => get_meta_name(self),
        }
    }
}

/// The name under which a meta method is declared in Teal; `unknown` for one that Teal has no
/// name for.
pub fn get_meta_name(name: MetaMethod) -> (r: &'static str)
    ensures
        r@ == meta_name(name),
{
    match name {
        MetaMethod::Add => "__add",
        MetaMethod::Sub => "__sub",
        MetaMethod::Mul => "__mul",
        MetaMethod::Div => "__div",
        MetaMethod::Mod => "__mod",
        MetaMethod::Pow => "__pow",
        MetaMethod::Unm => "__unm",
        MetaMethod::IDiv => "__idiv",
        MetaMethod::BAnd => "__band",
        MetaMethod::BOr => "__bor",
        MetaMethod::BXor => "__bxor",
        MetaMethod::BNot => "__bnot",
        MetaMethod::Shl => "__shl",
        MetaMethod::Shr => "__shr",
        MetaMethod::Concat => "__concat",
        MetaMethod::Len => "__len",
        MetaMethod::Eq => "__eq",
        MetaMethod::Lt => "__lt",
        MetaMethod::Le => "__le",
        MetaMethod::Index => "__index",
        MetaMethod::NewIndex => "__newindex",
        MetaMethod::Call => "__call",
        MetaMethod::ToString => "__tostring",
        MetaMethod::Pairs => "__pairs",
        MetaMethod::IPairs => "__ipairs",
        MetaMethod::Close => "__close",
        MetaMethod::Iter => "__iter",
        MetaMethod::Type => "unknown",
    }
}

} // verus!
