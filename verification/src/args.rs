use vstd::prelude::*;

verus! {

/// One invocation argument as the host delivers it: either a fixed scalar
/// for the whole batch, or a per-row column. Only the shapes that the
/// validation distinguishes are modeled.
#[derive(Debug)]
pub enum ArgValue {
    /// A text scalar; `None` is a null scalar.
    TextScalar(Option<String>),
    /// A 64-bit integer scalar; `None` is a null scalar.
    IntScalar(Option<i64>),
    /// A scalar of any other type.
    OtherScalar,
    /// A text column, one optional value per row.
    TextColumn(Vec<Option<String>>),
    /// A column of any non-text type.
    OtherColumn,
}

/// Which fixed argument an error report refers to.
#[derive(Debug)]
pub enum ArgName {
    Pattern,
    Index,
}

} // verus!
