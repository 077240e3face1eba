use vstd::prelude::*;
use vstd::string::StringExecFns;
use crate::args::ArgName;
use crate::numtext::{dec_digits, int_text, push_i64, push_u64};

verus! {

/// Everything that can fail an invocation. Each variant renders to a
/// distinguishable message through [`ExtractError::message`].
#[allow(inconsistent_fields)]
#[derive(Debug)]
pub enum ExtractError {
    /// The argument count is not 3.
    Arity,
    /// The pattern or index argument is a null scalar.
    NullScalar { arg: ArgName },
    /// The pattern argument is a scalar of a non-text type, or the index
    /// argument a scalar of a non-integer type.
    WrongScalarType { arg: ArgName },
    /// The pattern or index argument varies per row.
    NotScalar { arg: ArgName },
    /// The index argument is negative.
    NegativeIndex { idx: i64 },
    /// The text argument is a scalar instead of a column.
    TextNotColumn,
    /// The text argument is a column of a non-text type.
    TextColumnNotUtf8,
    /// The pattern is not a valid regular expression; `detail` holds the
    /// compiler's diagnostic.
    PatternCompile { pattern: String, detail: String },
    /// The index exceeds the pattern's capture-group count (group 0, the
    /// whole match, excluded from `groups`).
    GroupIndexOutOfRange { idx: u64, groups: usize },
    /// The shared cache lock is unrecoverable.
    CacheUnavailable,
}

/// The name under which a fixed argument is reported.
pub open spec fn arg_text(a: ArgName) -> Seq<char> {
    match a {
        ArgName::Pattern => "pattern"@,
        ArgName::Index => "idx"@,
    }
}

fn arg_str(a: &ArgName) -> (r: &str)
    ensures
        r@ == arg_text(*a),
{
    match a {
        ArgName::Pattern => "pattern",
        ArgName::Index => "idx",
    }
}

impl ExtractError {
    /// The exact message text of this error.
    pub open spec fn spec_message(self) -> Seq<char> {
        match self {
            ExtractError::Arity => "regexp_extract expects 3 arguments: (str, pattern, idx)"@,
            ExtractError::NullScalar { arg } => arg_text(arg) + " must not be NULL"@,
            ExtractError::WrongScalarType { arg } => match arg {
                ArgName::Pattern => "pattern must be Utf8 scalar"@,
                ArgName::Index => "idx must be Int64 scalar"@,
            },
            ExtractError::NotScalar { arg } => arg_text(arg)
                + " must be a scalar in this implementation"@,
            ExtractError::NegativeIndex { idx } => {
                "regexp_extract group index must be non-negative, got "@ + int_text(idx as int)
            },
            ExtractError::TextNotColumn => "str must be an array in this implementation"@,
            ExtractError::TextColumnNotUtf8 => "str must be a Utf8 array in this implementation"@,
            ExtractError::PatternCompile { pattern, detail } => {
                "Invalid regex pattern: "@ + pattern@ + ": "@ + detail@
            },
            ExtractError::GroupIndexOutOfRange { idx, groups } => {
                "regexp_extract group index "@ + dec_digits(idx as nat)
                    + " out of range; pattern has "@ + dec_digits(groups as nat) + " groups"@
            },
            ExtractError::CacheUnavailable => "Regex cache mutex poisoned"@,
        }
    }

    /// Renders the message identifying this error and the offending values.
    pub fn message(&self) -> (r: String)
        ensures
            r@ == self.spec_message(),
    {
        let mut out = String::new();
        match self {
            ExtractError::Arity => {
                out.append("regexp_extract expects 3 arguments: (str, pattern, idx)");
            },
            ExtractError::NullScalar { arg } => {
                out.append(arg_str(arg));
                out.append(" must not be NULL");
            },
            ExtractError::WrongScalarType { arg } => {
                match arg {
                    ArgName::Pattern => out.append("pattern must be Utf8 scalar"),
                    ArgName::Index => out.append("idx must be Int64 scalar"),
                }
            },
            ExtractError::NotScalar { arg } => {
                out.append(arg_str(arg));
                out.append(" must be a scalar in this implementation");
            },
            ExtractError::NegativeIndex { idx } => {
                out.append("regexp_extract group index must be non-negative, got ");
                push_i64(&mut out, *idx);
            },
            ExtractError::TextNotColumn => {
                out.append("str must be an array in this implementation");
            },
            ExtractError::TextColumnNotUtf8 => {
                out.append("str must be a Utf8 array in this implementation");
            },
            ExtractError::PatternCompile { pattern, detail } => {
                out.append("Invalid regex pattern: ");
                out.append(pattern.as_str());
                out.append(": ");
                out.append(detail.as_str());
            },
            ExtractError::GroupIndexOutOfRange { idx, groups } => {
                out.append("regexp_extract group index ");
                push_u64(&mut out, *idx);
                out.append(" out of range; pattern has ");
                push_u64(&mut out, *groups as u64);
                out.append(" groups");
            },
            ExtractError::CacheUnavailable => {
                out.append("Regex cache mutex poisoned");
            },
        }
        proof {
            assert(out@ =~= self.spec_message());
        }
        out
    }
}

} // verus!
