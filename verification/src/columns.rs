//! Extracting one column from every line of an input, in order, until a line
//! lacks it.

use crate::column::{column_of, parse_column};
use crate::delimiter::{accepted, Delimiter};
use crate::engine::views_of;
use crate::error::ParseError;
use vstd::prelude::*;

verus! {

/// How many lines at the front of `lines` have the column: the position of
/// the first line that lacks it, or the number of lines if none does.
pub open spec fn served(delimiter: Seq<char>, lines: Seq<Seq<char>>, column: nat) -> nat
    decreases lines.len(),
{
    if lines.len() == 0 || column_of(delimiter, lines[0], column) is None {
        0
    } else {
        1 + served(delimiter, lines.skip(1), column)
    }
}

/// The columns of the first `n` lines, in order.
pub open spec fn columns_of(delimiter: Seq<char>, lines: Seq<Seq<char>>, column: nat, n: nat) -> Seq<
    Seq<char>,
> {
    Seq::new(n, |i: int| column_of(delimiter, lines[i], column).unwrap())
}

/// What a pass over `lines` emits: the column of each line before the first
/// one that lacks it.
pub open spec fn emitted(delimiter: Seq<char>, lines: Seq<Seq<char>>, column: nat) -> Seq<Seq<char>> {
    columns_of(delimiter, lines, column, served(delimiter, lines, column))
}

/// `served` is the one position `n` such that every line before it has the
/// column and the line at it, if there is one, does not.
pub proof fn lemma_served_unique(delimiter: Seq<char>, lines: Seq<Seq<char>>, column: nat, n: nat)
    requires
        n <= lines.len(),
        forall|i: int| 0 <= i < n ==> column_of(delimiter, #[trigger] lines[i], column) is Some,
        n < lines.len() ==> column_of(delimiter, lines[n as int], column) is None,
    ensures
        served(delimiter, lines, column) == n,
    decreases lines.len(),
{
    if n > 0 {
        let rest = lines.skip(1);
        assert forall|i: int| 0 <= i < n - 1 implies column_of(
            delimiter,
            #[trigger] rest[i],
            column,
        ) is Some by {
            assert(rest[i] == lines[i + 1]);
        }
        if n < lines.len() {
            assert(rest[n - 1] == lines[n as int]);
        }
        lemma_served_unique(delimiter, rest, column, (n - 1) as nat);
    }
}

/// Every line before position `served` has the column, and the line at that
/// position, if there is one, lacks it.
pub proof fn lemma_served_bounds(delimiter: Seq<char>, lines: Seq<Seq<char>>, column: nat)
    ensures
        served(delimiter, lines, column) <= lines.len(),
        forall|i: int|
            0 <= i < served(delimiter, lines, column) ==> column_of(
                delimiter,
                #[trigger] lines[i],
                column,
            ) is Some,
        served(delimiter, lines, column) < lines.len() ==> column_of(
            delimiter,
            lines[served(delimiter, lines, column) as int],
            column,
        ) is None,
    decreases lines.len(),
{
    if lines.len() > 0 && column_of(delimiter, lines[0], column) is Some {
        let rest = lines.skip(1);
        let m = served(delimiter, rest, column);
        lemma_served_bounds(delimiter, rest, column);
        assert forall|i: int| 0 <= i < m + 1 implies column_of(
            delimiter,
            #[trigger] lines[i],
            column,
        ) is Some by {
            if i > 0 {
                assert(rest[i - 1] == lines[i]);
            }
        }
        if m + 1 < lines.len() {
            assert(rest[m as int] == lines[m as int + 1]);
        }
    }
}

/// When every line has the column, a pass emits one column per line, in the
/// order of the lines.
pub proof fn lemma_emitted_for_every_line(delimiter: Seq<char>, lines: Seq<Seq<char>>, column: nat)
    requires
        forall|i: int| 0 <= i < lines.len() ==> column_of(delimiter, #[trigger] lines[i], column) is Some,
    ensures
        emitted(delimiter, lines, column).len() == lines.len(),
        forall|i: int|
            0 <= i < lines.len() ==> column_of(delimiter, lines[i], column) == Some(
                #[trigger] emitted(delimiter, lines, column)[i],
            ),
{
    lemma_served_unique(delimiter, lines, column, lines.len());
}

/// When line `k` is the first that lacks the column, a pass emits the columns
/// of the `k` lines before it, in their order, and nothing for line `k` or
/// any line after it.
pub proof fn lemma_emitted_stops_at_overflow(
    delimiter: Seq<char>,
    lines: Seq<Seq<char>>,
    column: nat,
    k: nat,
)
    requires
        k < lines.len(),
        forall|i: int| 0 <= i < k ==> column_of(delimiter, #[trigger] lines[i], column) is Some,
        column_of(delimiter, lines[k as int], column) is None,
    ensures
        served(delimiter, lines, column) == k,
        emitted(delimiter, lines, column).len() == k,
        forall|i: int|
            0 <= i < k ==> column_of(delimiter, lines[i], column) == Some(
                #[trigger] emitted(delimiter, lines, column)[i],
            ),
{
    lemma_served_unique(delimiter, lines, column, k);
}

/// Extracts column `column` from each of `lines` in order and appends it to
/// `out`, stopping at the first line that lacks the column.
///
/// Appends exactly the columns of the lines before that one, and fails with
/// `ColumnOverflow` exactly when there is such a line; with column zero or
/// one there is none.
pub fn parse_lines<'a>(
    lines: &[&'a str],
    column: usize,
    delimiter: &Delimiter,
    out: &mut Vec<&'a str>,
) -> (r: Result<(), ParseError>)
    ensures
        final(out)@.len() == old(out)@.len() + served(delimiter@, views_of(lines@), column as nat),
        final(out)@.subrange(0, old(out)@.len() as int) == old(out)@,
        views_of(final(out)@) == views_of(old(out)@) + emitted(
            delimiter@,
            views_of(lines@),
            column as nat,
        ),
        r is Ok <==> served(delimiter@, views_of(lines@), column as nat) == lines@.len(),
        column <= 1 ==> r is Ok,
        r matches Err(e) ==> e is ColumnOverflow,
{
    let ghost texts = views_of(lines@);
    let mut i: usize = 0;
    while i < lines.len()
        invariant
            i <= lines@.len(),
            texts == views_of(lines@),
            forall|j: int|
                0 <= j < i ==> column_of(delimiter@, #[trigger] texts[j], column as nat) is Some,
            out@.len() == old(out)@.len() + i,
            out@.subrange(0, old(out)@.len() as int) == old(out)@,
            views_of(out@) == views_of(old(out)@) + columns_of(
                delimiter@,
                texts,
                column as nat,
                i as nat,
            ),
        decreases lines@.len() - i,
    {
        let ghost before = out@;
        match parse_column(lines[i], column, delimiter) {
            Ok(col) => {
                out.push(col);
                proof {
                    assert(texts[i as int] == lines@[i as int]@);
                    assert(out@.subrange(0, old(out)@.len() as int) =~= before.subrange(
                        0,
                        old(out)@.len() as int,
                    ));
                    assert(views_of(out@) =~= views_of(before).push(col@));
                    assert(columns_of(delimiter@, texts, column as nat, (i + 1) as nat)
                        =~= columns_of(delimiter@, texts, column as nat, i as nat).push(col@));
                }
            },
            Err(e) => {
                proof {
                    assert(texts[i as int] == lines@[i as int]@);
                    lemma_served_unique(delimiter@, texts, column as nat, i as nat);
                }
                return Err(e);
            },
        }
        i += 1;
    }
    proof {
        lemma_served_unique(delimiter@, texts, column as nat, i as nat);
    }
    Ok(())
}

/// Extracts column `column` from each of `lines`, split on runs of
/// `delimiter`, and appends it to `out`, stopping at the first line that
/// lacks the column.
///
/// Fails with `EmptyDelimiter` exactly when the delimiter is empty, and with
/// `InvalidDelimiter` exactly when it is not and its pattern does not
/// compile; `out` is then as it was. Otherwise appends the columns of the
/// lines before the first one that lacks the column, and fails with
/// `ColumnOverflow` exactly when there is such a line.
pub fn parse_columns<'a>(
    lines: &[&'a str],
    column: usize,
    delimiter: &str,
    out: &mut Vec<&'a str>,
) -> (r: Result<(), ParseError>)
    ensures
        delimiter@.len() == 0 ==> final(out)@ == old(out)@ && (r matches Err(e)
            && e is EmptyDelimiter),
        delimiter@.len() > 0 && !accepted(delimiter@) ==> final(out)@ == old(out)@ && (
        r matches Err(e) && e is InvalidDelimiter),
        accepted(delimiter@) ==> {
            let n = served(delimiter@, views_of(lines@), column as nat);
            &&& final(out)@.len() == old(out)@.len() + n
            &&& final(out)@.subrange(0, old(out)@.len() as int) == old(out)@
            &&& views_of(final(out)@) == views_of(old(out)@) + emitted(
                delimiter@,
                views_of(lines@),
                column as nat,
            )
            &&& r is Ok <==> n == lines@.len()
            &&& column <= 1 ==> r is Ok
            &&& r matches Err(e) ==> e is ColumnOverflow
        },
{
    match Delimiter::new(delimiter) {
        Ok(compiled) => parse_lines(lines, column, &compiled, out),
        Err(e) => Err(e),
    }
}

} // verus!
