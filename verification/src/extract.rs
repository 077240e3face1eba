use vstd::prelude::*;
use crate::args::{ArgName, ArgValue};
use crate::cache::PatternCache;
use crate::errors::ExtractError;
use crate::pattern::{
    extract_one, regex_caps_len, regex_compiles, row_matches, row_output, CompiledPattern,
};

verus! {

/// The validation state machine: the first failing check of the ordered
/// sequence arity, pattern shape, index shape, index sign, text shape
/// decides the error; when all pass, the fixed pattern text, the fixed
/// group index and the rows of the text column come out.
pub open spec fn spec_validate(args: Seq<ArgValue>) -> Result<
    (Seq<char>, i64, Seq<Option<String>>),
    ExtractError,
> {
    if args.len() != 3 {
        Err(ExtractError::Arity)
    } else {
        match args[1] {
            ArgValue::TextScalar(Some(p)) => match args[2] {
                ArgValue::IntScalar(Some(idx)) => if idx < 0 {
                    Err(ExtractError::NegativeIndex { idx })
                } else {
                    match args[0] {
                        ArgValue::TextColumn(rows) => Ok((p@, idx, rows@)),
                        ArgValue::OtherColumn => Err(ExtractError::TextColumnNotUtf8),
                        _ => Err(ExtractError::TextNotColumn),
                    }
                },
                ArgValue::IntScalar(None) => Err(
                    ExtractError::NullScalar { arg: ArgName::Index },
                ),
                ArgValue::TextScalar(_) | ArgValue::OtherScalar => Err(
                    ExtractError::WrongScalarType { arg: ArgName::Index },
                ),
                _ => Err(ExtractError::NotScalar { arg: ArgName::Index }),
            },
            ArgValue::TextScalar(None) => Err(
                ExtractError::NullScalar { arg: ArgName::Pattern },
            ),
            ArgValue::IntScalar(_) | ArgValue::OtherScalar => Err(
                ExtractError::WrongScalarType { arg: ArgName::Pattern },
            ),
            _ => Err(ExtractError::NotScalar { arg: ArgName::Pattern }),
        }
    }
}

/// Whether the batch aborts with `GroupIndexOutOfRange`: the index exceeds
/// the pattern's group count and some non-null row actually matches, so
/// the out-of-range check is reached.
pub open spec fn batch_aborts(p: Seq<char>, idx: i64, rows: Seq<Option<String>>) -> bool {
    idx >= regex_caps_len(p) && exists|i: int|
        0 <= i < rows.len() && (#[trigger] rows[i]) is Some && row_matches(p, rows[i]->0@)
}

/// The output column on success: same length as the input, null exactly
/// where the input is null, the extracted group text everywhere else.
pub open spec fn batch_output_ok(
    p: Seq<char>,
    idx: i64,
    rows: Seq<Option<String>>,
    out: Seq<Option<String>>,
) -> bool {
    &&& out.len() == rows.len()
    &&& forall|i: int|
        0 <= i < rows.len() ==> {
            &&& ((#[trigger] rows[i]) is None ==> out[i] is None)
            &&& (rows[i] is Some ==> out[i] is Some && out[i]->0@ == row_output(
                p,
                rows[i]->0@,
                idx as nat,
            ))
        }
}

/// What a result of [`regexp_extract`] looks like for given arguments:
/// the error of the first failing validation check, the compile error
/// naming the pattern, the out-of-range abort naming index and group
/// count, or the output column that `batch_output_ok` describes.
pub open spec fn batch_post(
    args: Seq<ArgValue>,
    r: Result<Vec<Option<String>>, ExtractError>,
) -> bool {
    match spec_validate(args) {
        Err(e) => r == Err::<Vec<Option<String>>, ExtractError>(e),
        Ok((p, idx, rows)) => {
            if !regex_compiles(p) {
                r matches Err(e) && (e matches ExtractError::PatternCompile { pattern, .. }
                    && pattern@ == p)
            } else if batch_aborts(p, idx, rows) {
                r == Err::<Vec<Option<String>>, ExtractError>(
                    ExtractError::GroupIndexOutOfRange {
                        idx: idx as u64,
                        groups: (regex_caps_len(p) - 1) as usize,
                    },
                )
            } else {
                r matches Ok(out) && batch_output_ok(p, idx, rows, out@)
            }
        },
    }
}

/// Runs the ordered validation checks on the three arguments, handing
/// back the fixed pattern text, the fixed group index and the rows of the
/// text column.
pub fn validate<'a>(args: &'a Vec<ArgValue>) -> (r: Result<
    (String, i64, &'a Vec<Option<String>>),
    ExtractError,
>)
    ensures
        match spec_validate(args@) {
            Ok(v) => r matches Ok(t) && t.0@ == v.0 && t.1 == v.1 && t.2@ == v.2,
            Err(e) => r matches Err(e2) && e2 == e,
        },
{
    if args.len() != 3 {
        return Err(ExtractError::Arity);
    }
    let p: &String = match &args[1] {
        ArgValue::TextScalar(Some(p)) => p,
        ArgValue::TextScalar(None) => {
            return Err(ExtractError::NullScalar { arg: ArgName::Pattern });
        },
        ArgValue::IntScalar(_) | ArgValue::OtherScalar => {
            return Err(ExtractError::WrongScalarType { arg: ArgName::Pattern });
        },
        _ => {
            return Err(ExtractError::NotScalar { arg: ArgName::Pattern });
        },
    };
    let idx: i64 = match &args[2] {
        ArgValue::IntScalar(Some(v)) => *v,
        ArgValue::IntScalar(None) => {
            return Err(ExtractError::NullScalar { arg: ArgName::Index });
        },
        ArgValue::TextScalar(_) | ArgValue::OtherScalar => {
            return Err(ExtractError::WrongScalarType { arg: ArgName::Index });
        },
        _ => {
            return Err(ExtractError::NotScalar { arg: ArgName::Index });
        },
    };
    if idx < 0 {
        return Err(ExtractError::NegativeIndex { idx });
    }
    let rows: &Vec<Option<String>> = match &args[0] {
        ArgValue::TextColumn(rows) => rows,
        ArgValue::OtherColumn => {
            return Err(ExtractError::TextColumnNotUtf8);
        },
        _ => {
            return Err(ExtractError::TextNotColumn);
        },
    };
    assert(spec_validate(args@) == Ok::<(Seq<char>, i64, Seq<Option<String>>), ExtractError>(
        (p@, idx, rows@),
    ));
    Ok((p.clone(), idx, rows))
}

/// Extracts group `idx` of the leftmost match of `c` from every non-null
/// row of the column, aborting the whole batch with `GroupIndexOutOfRange`
/// the first time a match would be asked for a group the pattern does not
/// have.
#[verifier::loop_isolation(false)]
pub fn extract_rows(c: &CompiledPattern, rows: &Vec<Option<String>>, idx: i64) -> (r: Result<
    Vec<Option<String>>,
    ExtractError,
>)
    requires
        regex_compiles(c@),
        idx >= 0,
    ensures
        batch_aborts(c@, idx, rows@) ==> r == Err::<Vec<Option<String>>, ExtractError>(
            ExtractError::GroupIndexOutOfRange {
                idx: idx as u64,
                groups: (regex_caps_len(c@) - 1) as usize,
            },
        ),
        !batch_aborts(c@, idx, rows@) ==> (r matches Ok(out) && batch_output_ok(
            c@,
            idx,
            rows@,
            out@,
        )),
{
    let idx_u: u64 = idx as u64;
    let mut out: Vec<Option<String>> = Vec::new();
    let n = rows.len();
    let mut i: usize = 0;
    while i < n
        invariant
            n == rows@.len(),
            0 <= i <= n,
            out@.len() == i,
            forall|j: int|
                0 <= j < i ==> {
                    &&& ((#[trigger] rows@[j]) is None ==> out@[j] is None)
                    &&& (rows@[j] is Some ==> out@[j] is Some && out@[j]->0@ == row_output(
                        c@,
                        rows@[j]->0@,
                        idx_u as nat,
                    ))
                },
            forall|j: int|
                0 <= j < i ==> ((#[trigger] rows@[j]) is Some && row_matches(c@, rows@[j]->0@)
                    ==> idx_u < regex_caps_len(c@)),
        decreases n - i,
    {
        match &rows[i] {
            Option::None => out.push(None),
            Option::Some(t) => {
                match extract_one(&c, t.as_str(), idx_u) {
                    Ok(s) => out.push(Some(s)),
                    Err(e) => {
                        assert(rows@[i as int] is Some && row_matches(c@, rows@[i as int]->0@));
                        assert(batch_aborts(c@, idx, rows@));
                        return Err(e);
                    },
                }
            },
        }
        i += 1;
    }
    assert(!batch_aborts(c@, idx, rows@));
    assert(batch_output_ok(c@, idx, rows@, out@));
    Ok(out)
}

/// One whole invocation: validates the three arguments, resolves the
/// compiled pattern through the cache, and extracts group `idx` of the
/// leftmost match from every non-null row of the text column.
///
/// The cache only grows; when the pattern is already cached the cache,
/// its compile counter included, is left exactly as it was.
pub fn regexp_extract(args: &Vec<ArgValue>, cache: &mut PatternCache) -> (r: Result<
    Vec<Option<String>>,
    ExtractError,
>)
    requires
        old(cache).wf(),
    ensures
        final(cache).wf(),
        batch_post(args@, r),
        forall|q: Seq<char>| old(cache).contains_pattern(q) ==> final(cache).contains_pattern(q),
        (spec_validate(args@) matches Ok(v) && old(cache).contains_pattern(v.0)) ==> *final(cache)
            == *old(cache),
        spec_validate(args@) is Err ==> *final(cache) == *old(cache),
{
    let (p, idx, rows) = match validate(args) {
        Ok(t) => t,
        Err(e) => {
            return Err(e);
        },
    };
    let c: CompiledPattern = match cache.get(p.as_str()) {
        Ok(c) => c,
        Err(e) => {
            return Err(e);
        },
    };
    extract_rows(&c, rows, idx)
}

} // verus!
