use vstd::prelude::*;
use crate::args::ArgValue;
use crate::errors::ExtractError;
use crate::extract::{batch_aborts, batch_output_ok, batch_post, spec_validate};
use crate::pattern::{regex_caps_len, regex_captures, regex_compiles, row_matches, row_output};

verus! {

/// A pattern that matches nowhere in a row's text yields the empty string
/// for that row, whatever the group index.
pub proof fn lemma_no_match_yields_empty(p: Seq<char>, t: Seq<char>, idx: nat)
    requires
        !row_matches(p, t),
    ensures
        row_output(p, t, idx) == Seq::<char>::empty(),
{
}

/// On a successful invocation a non-null input row always has a non-null
/// output row, the empty string and not null in particular when the
/// pattern matches nowhere in the row's text.
pub proof fn lemma_output_never_null(
    args: Seq<ArgValue>,
    r: Result<Vec<Option<String>>, ExtractError>,
    i: int,
)
    requires
        batch_post(args, r),
        r matches Ok(out),
        spec_validate(args) matches Ok(v) && 0 <= i < v.2.len() && v.2[i] is Some,
    ensures
        r->Ok_0@[i] is Some,
        !row_matches(spec_validate(args)->Ok_0.0, spec_validate(args)->Ok_0.2[i]->0@)
            ==> r->Ok_0@[i]->0@ == Seq::<char>::empty(),
{
}

/// Group index 0 names the implicit whole-match group: on a row whose
/// text the pattern matches, it yields exactly the full matched
/// substring. Group 0 always participates in a match, which the requires
/// records.
pub proof fn lemma_group_zero_is_whole_match(p: Seq<char>, t: Seq<char>)
    requires
        regex_captures(p, t) matches Some(gs) && gs[0] is Some,
    ensures
        row_output(p, t, 0) == regex_captures(p, t)->0[0]->0,
{
}

/// The group-index boundary, for a batch in which some non-null row
/// matches a pattern of `g` capture groups (so `regex_caps_len` is
/// `g + 1`): index `g + 1` fails the whole invocation with
/// `GroupIndexOutOfRange` naming the index and `g`, while any index up to
/// `g` yields an output column.
pub proof fn lemma_group_index_boundary(
    args: Seq<ArgValue>,
    r: Result<Vec<Option<String>>, ExtractError>,
    p: Seq<char>,
    idx: i64,
    rows: Seq<Option<String>>,
)
    requires
        batch_post(args, r),
        spec_validate(args) == Ok::<(Seq<char>, i64, Seq<Option<String>>), ExtractError>(
            (p, idx, rows),
        ),
        regex_compiles(p),
        exists|i: int|
            0 <= i < rows.len() && (#[trigger] rows[i]) is Some && row_matches(p, rows[i]->0@),
    ensures
        idx == regex_caps_len(p) ==> r == Err::<Vec<Option<String>>, ExtractError>(
            ExtractError::GroupIndexOutOfRange {
                idx: idx as u64,
                groups: (regex_caps_len(p) - 1) as usize,
            },
        ),
        idx < regex_caps_len(p) ==> r is Ok,
{
}

/// Idempotence: two invocations on identical arguments agree on success
/// versus failure, and on success their output columns are
/// element-for-element identical text.
pub proof fn lemma_idempotent(
    args: Seq<ArgValue>,
    r1: Result<Vec<Option<String>>, ExtractError>,
    r2: Result<Vec<Option<String>>, ExtractError>,
)
    requires
        batch_post(args, r1),
        batch_post(args, r2),
    ensures
        r1 is Ok <==> r2 is Ok,
        r1 is Ok && r2 is Ok ==> r1->Ok_0.deep_view() == r2->Ok_0.deep_view(),
{
    match spec_validate(args) {
        Err(e) => {},
        Ok((p, idx, rows)) => {
            if regex_compiles(p) && !batch_aborts(p, idx, rows) {
                let o1 = r1->Ok_0;
                let o2 = r2->Ok_0;
                assert(batch_output_ok(p, idx, rows, o1@));
                assert(batch_output_ok(p, idx, rows, o2@));
                assert forall|i: int| 0 <= i < o1.deep_view().len() implies o1.deep_view()[i]
                    == o2.deep_view()[i] by {
                    if rows[i] is Some {
                        assert(o1@[i]->0@ == row_output(p, rows[i]->0@, idx as nat));
                        assert(o2@[i]->0@ == row_output(p, rows[i]->0@, idx as nat));
                    } else {
                        assert(o1@[i] is None);
                        assert(o2@[i] is None);
                    }
                }
                assert(o1.deep_view() =~= o2.deep_view());
            }
        },
    }
}

} // verus!
