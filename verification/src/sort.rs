//! Stable sorting for the process tables.
//!
//! Each record ranks under a sort column through a two-part key: a numeric
//! component and a textual component (the lowercased bytes of the name or
//! user for the text columns). The comparator orders by the numeric key,
//! then lexicographically by the text; descending order flips the
//! comparator whole, as the render layer's reversed comparison does.
//!
//! The sort is an insertion sort whose result equals the recursive
//! specification [`spec_sort_rows`]; the lemmas at the end show that this
//! specification is sorted, a permutation of its input, and stable: for
//! every key, the subsequence of records carrying that key is unchanged.

use vstd::prelude::*;

use crate::text::{lex_le, lex_le_bytes, lemma_lex_le_total, lemma_lex_le_trans, lower_bytes_of};
use crate::types::SortColumn;

verus! {

/// How a record ranks under a sort column: a numeric key and a text key.
pub trait SortRow: Sized {
    /// The numeric component of the record's key under `col`.
    spec fn sort_num(self, col: SortColumn) -> u64;

    /// The textual component of the record's key under `col`.
    spec fn sort_text(self, col: SortColumn) -> Seq<u8>;

    /// Compute the key of this record under `col`.
    fn sort_key(&self, col: SortColumn) -> (k: (u64, Vec<u8>))
        ensures
            k.0 == self.sort_num(col),
            k.1@ == self.sort_text(col),
    ;
}

/// Key order: numeric component first, text component second.
pub open spec fn key_le(a_num: u64, a_text: Seq<u8>, b_num: u64, b_text: Seq<u8>) -> bool {
    a_num < b_num || (a_num == b_num && lex_le(a_text, b_text))
}

/// Record order under a column and direction; descending flips the
/// comparator, which keeps ties ordered by input position either way.
pub open spec fn row_le<R: SortRow>(a: R, b: R, col: SortColumn, asc: bool) -> bool {
    if asc {
        key_le(a.sort_num(col), a.sort_text(col), b.sort_num(col), b.sort_text(col))
    } else {
        key_le(b.sort_num(col), b.sort_text(col), a.sort_num(col), a.sort_text(col))
    }
}

/// The order is total.
pub proof fn lemma_row_le_total<R: SortRow>(a: R, b: R, col: SortColumn, asc: bool)
    ensures
        row_le(a, b, col, asc) || row_le(b, a, col, asc),
{
    lemma_lex_le_total(a.sort_text(col), b.sort_text(col));
}

/// The order is transitive.
pub proof fn lemma_row_le_trans<R: SortRow>(a: R, b: R, c: R, col: SortColumn, asc: bool)
    requires
        row_le(a, b, col, asc),
        row_le(b, c, col, asc),
    ensures
        row_le(a, c, col, asc),
{
    if asc {
        if a.sort_num(col) == b.sort_num(col) && b.sort_num(col) == c.sort_num(col) {
            lemma_lex_le_trans(a.sort_text(col), b.sort_text(col), c.sort_text(col));
        }
    } else {
        if a.sort_num(col) == b.sort_num(col) && b.sort_num(col) == c.sort_num(col) {
            lemma_lex_le_trans(c.sort_text(col), b.sort_text(col), a.sort_text(col));
        }
    }
}

/// Stable insertion of `x` into `s`: after every element that is
/// less-or-equal, before the first that is strictly greater.
pub open spec fn spec_insert_row<R: SortRow>(s: Seq<R>, x: R, col: SortColumn, asc: bool) -> Seq<
    R,
>
    decreases s.len(),
{
    if s.len() == 0 {
        seq![x]
    } else if row_le(s[0], x, col, asc) {
        seq![s[0]] + spec_insert_row(s.drop_first(), x, col, asc)
    } else {
        seq![x] + s
    }
}

/// Stable sort: insert the records one by one, in input order.
pub open spec fn spec_sort_rows<R: SortRow>(s: Seq<R>, col: SortColumn, asc: bool) -> Seq<R>
    decreases s.len(),
{
    if s.len() == 0 {
        s
    } else {
        spec_insert_row(spec_sort_rows(s.drop_last(), col, asc), s.last(), col, asc)
    }
}

/// Pairwise sortedness under the record order.
pub open spec fn sorted_rows<R: SortRow>(s: Seq<R>, col: SortColumn, asc: bool) -> bool {
    forall|i: int, j: int| 0 <= i < j < s.len() ==> row_le(#[trigger] s[i], #[trigger] s[j], col, asc)
}

/// The class of records that carry one fixed key.
pub open spec fn key_class<R: SortRow>(col: SortColumn, num: u64, text: Seq<u8>) -> spec_fn(R) -> bool {
    |y: R| y.sort_num(col) == num && y.sort_text(col) == text
}

proof fn lemma_insert_row_len<R: SortRow>(s: Seq<R>, x: R, col: SortColumn, asc: bool)
    ensures
        spec_insert_row(s, x, col, asc).len() == s.len() + 1,
    decreases s.len(),
{
    if s.len() > 0 && row_le(s[0], x, col, asc) {
        lemma_insert_row_len(s.drop_first(), x, col, asc);
    }
}

proof fn lemma_insert_row_multiset<R: SortRow>(s: Seq<R>, x: R, col: SortColumn, asc: bool)
    ensures
        spec_insert_row(s, x, col, asc).to_multiset() =~= s.to_multiset().insert(x),
    decreases s.len(),
{
    broadcast use vstd::seq_lib::group_to_multiset_ensures;

    if s.len() == 0 {
        assert(seq![x] =~= Seq::<R>::empty().push(x));
        assert(Seq::<R>::empty().push(x).to_multiset() =~= Seq::<R>::empty().to_multiset().insert(
            x,
        ));
    } else if row_le(s[0], x, col, asc) {
        lemma_insert_row_multiset(s.drop_first(), x, col, asc);
        vstd::seq_lib::lemma_multiset_commutative(
            seq![s[0]],
            spec_insert_row(s.drop_first(), x, col, asc),
        );
        vstd::seq_lib::lemma_multiset_commutative(seq![s[0]], s.drop_first());
        assert(s =~= seq![s[0]] + s.drop_first());
    } else {
        vstd::seq_lib::lemma_multiset_commutative(seq![x], s);
        assert(seq![x].to_multiset() =~= vstd::multiset::Multiset::<R>::empty().insert(x));
    }
}

proof fn lemma_insert_row_sorted<R: SortRow>(s: Seq<R>, x: R, col: SortColumn, asc: bool)
    requires
        sorted_rows(s, col, asc),
    ensures
        sorted_rows(spec_insert_row(s, x, col, asc), col, asc),
    decreases s.len(),
{
    let out = spec_insert_row(s, x, col, asc);
    if s.len() == 0 {
    } else if row_le(s[0], x, col, asc) {
        let rest = spec_insert_row(s.drop_first(), x, col, asc);
        lemma_insert_row_sorted(s.drop_first(), x, col, asc);
        lemma_insert_row_len(s.drop_first(), x, col, asc);
        // s[0] is below x and, by transitivity through sortedness, below
        // every element of the inserted remainder.
        assert forall|j: int| 0 <= j < rest.len() implies row_le(s[0], rest[j], col, asc) by {
            lemma_insert_row_members(s.drop_first(), x, col, asc, j);
            if rest[j] == x {
            } else {
                let k = choose|k: int|
                    0 <= k < s.drop_first().len() && s.drop_first()[k] == rest[j];
                assert(row_le(s[0], s.drop_first()[k], col, asc));
            }
        }
        assert forall|i: int, j: int| 0 <= i < j < out.len() implies row_le(
            out[i],
            out[j],
            col,
            asc,
        ) by {
            if i > 0 {
                assert(out[i] == rest[i - 1]);
                assert(out[j] == rest[j - 1]);
            } else {
                assert(out[j] == rest[j - 1]);
            }
        }
    } else {
        // x goes first; by totality x is below s[0], and by transitivity
        // below everything in s.
        lemma_row_le_total(s[0], x, col, asc);
        assert forall|i: int, j: int| 0 <= i < j < out.len() implies row_le(
            out[i],
            out[j],
            col,
            asc,
        ) by {
            if i == 0 && j > 0 {
                assert(out[j] == s[j - 1]);
                if j - 1 > 0 {
                    lemma_row_le_trans(x, s[0], s[j - 1], col, asc);
                }
            }
        }
    }
}

/// Every element of an insertion result is `x` or an element of `s`.
proof fn lemma_insert_row_members<R: SortRow>(s: Seq<R>, x: R, col: SortColumn, asc: bool, j: int)
    requires
        0 <= j < spec_insert_row(s, x, col, asc).len(),
    ensures
        spec_insert_row(s, x, col, asc)[j] == x || exists|k: int|
            0 <= k < s.len() && s[k] == spec_insert_row(s, x, col, asc)[j],
    decreases s.len(),
{
    if s.len() == 0 {
    } else if row_le(s[0], x, col, asc) {
        if j == 0 {
            assert(s[0] == spec_insert_row(s, x, col, asc)[0]);
        } else {
            lemma_insert_row_members(s.drop_first(), x, col, asc, j - 1);
            let inner = spec_insert_row(s.drop_first(), x, col, asc);
            if inner[j - 1] != x {
                let k = choose|k: int|
                    0 <= k < s.drop_first().len() && s.drop_first()[k] == inner[j - 1];
                assert(s[k + 1] == inner[j - 1]);
            }
        }
    } else {
        if j > 0 {
            assert(spec_insert_row(s, x, col, asc)[j] == s[j - 1]);
        }
    }
}

/// Inserting into a sorted sequence appends to the key class of `x` and
/// leaves every other key class unchanged.
proof fn lemma_insert_row_stable<R: SortRow>(
    s: Seq<R>,
    x: R,
    col: SortColumn,
    asc: bool,
    num: u64,
    text: Seq<u8>,
)
    requires
        sorted_rows(s, col, asc),
    ensures
        spec_insert_row(s, x, col, asc).filter(key_class(col, num, text)) == if key_class::<R>(
            col,
            num,
            text,
        )(x) {
            s.filter(key_class(col, num, text)).push(x)
        } else {
            s.filter(key_class(col, num, text))
        },
    decreases s.len(),
{
    broadcast use vstd::seq_lib::group_seq_properties;

    let p = key_class::<R>(col, num, text);
    let out = spec_insert_row(s, x, col, asc);
    reveal(Seq::filter);
    if s.len() == 0 {
        assert(seq![x].drop_last() =~= Seq::<R>::empty());
        if p(x) {
            assert(out.filter(p) =~= s.filter(p).push(x));
        } else {
            assert(out.filter(p) =~= s.filter(p));
        }
    } else if row_le(s[0], x, col, asc) {
        lemma_insert_row_stable(s.drop_first(), x, col, asc, num, text);
        Seq::filter_distributes_over_add(seq![s[0]], spec_insert_row(s.drop_first(), x, col, asc), p);
        Seq::filter_distributes_over_add(seq![s[0]], s.drop_first(), p);
        assert(s =~= seq![s[0]] + s.drop_first());
        assert(seq![s[0]].drop_last() =~= Seq::<R>::empty());
        if p(x) {
            assert((seq![s[0]] + s.drop_first().filter(p)).push(x) =~= seq![s[0]] + s.drop_first()
                .filter(p).push(x));
            assert(out.filter(p) =~= s.filter(p).push(x));
        } else {
            assert(out.filter(p) =~= s.filter(p));
        }
    } else {
        // x is strictly below s[0], hence below the whole of s: no element
        // of s ties with x, so x's class in s is empty when p(x) holds.
        Seq::filter_distributes_over_add(seq![x], s, p);
        assert(seq![x].drop_last() =~= Seq::<R>::empty());
        assert(Seq::<R>::empty().filter(p) =~= Seq::<R>::empty());
        if p(x) {
            lemma_row_le_total(s[0], x, col, asc);
            assert(row_le(x, s[0], col, asc));
            assert forall|i: int| 0 <= i < s.len() implies !p(s[i]) by {
                if p(s[i]) {
                    // s[i] carries x's key, so the order treats it as x.
                    if i > 0 {
                        assert(row_le(s[0], s[i], col, asc));
                        assert(row_le(s[0], x, col, asc));
                    } else {
                        // s[0] itself carries x's key: x below s[0] reads
                        // back as s[0] below x.
                        assert(row_le(s[0], x, col, asc));
                    }
                }
            }
            lemma_filter_all_false(s, p);
            assert(seq![x].filter(p) =~= seq![x]);
            assert(out.filter(p) =~= s.filter(p).push(x));
        } else {
            assert(seq![x].filter(p) =~= Seq::<R>::empty());
            assert(out.filter(p) =~= s.filter(p));
        }
    }
}

proof fn lemma_filter_all_false<R>(s: Seq<R>, p: spec_fn(R) -> bool)
    requires
        forall|i: int| 0 <= i < s.len() ==> !p(s[i]),
    ensures
        s.filter(p) == Seq::<R>::empty(),
    decreases s.len(),
{
    reveal(Seq::filter);
    if s.len() > 0 {
        lemma_filter_all_false(s.drop_last(), p);
    }
}

/// The sorted sequence: same length, same records (as a multiset), pairwise
/// ordered under the chosen column and direction.
pub proof fn lemma_sort_rows_ensures<R: SortRow>(s: Seq<R>, col: SortColumn, asc: bool)
    ensures
        spec_sort_rows(s, col, asc).len() == s.len(),
        spec_sort_rows(s, col, asc).to_multiset() =~= s.to_multiset(),
        sorted_rows(spec_sort_rows(s, col, asc), col, asc),
    decreases s.len(),
{
    broadcast use vstd::seq_lib::group_to_multiset_ensures;

    if s.len() > 0 {
        lemma_sort_rows_ensures(s.drop_last(), col, asc);
        let prev = spec_sort_rows(s.drop_last(), col, asc);
        lemma_insert_row_len(prev, s.last(), col, asc);
        lemma_insert_row_multiset(prev, s.last(), col, asc);
        lemma_insert_row_sorted(prev, s.last(), col, asc);
        assert(s =~= s.drop_last().push(s.last()));
        assert(s.drop_last().push(s.last()).to_multiset() =~= s.drop_last().to_multiset().insert(
            s.last(),
        ));
    }
}

/// A stable sort leaves an already sorted sequence unchanged.
pub proof fn lemma_sort_rows_identity<R: SortRow>(s: Seq<R>, col: SortColumn, asc: bool)
    requires
        sorted_rows(s, col, asc),
    ensures
        spec_sort_rows(s, col, asc) == s,
    decreases s.len(),
{
    if s.len() > 0 {
        assert forall|i: int, j: int| 0 <= i < j < s.drop_last().len() implies row_le(
            #[trigger] s.drop_last()[i],
            #[trigger] s.drop_last()[j],
            col,
            asc,
        ) by {
            assert(s.drop_last()[i] == s[i]);
            assert(s.drop_last()[j] == s[j]);
        }
        lemma_sort_rows_identity(s.drop_last(), col, asc);
        assert forall|j: int| 0 <= j < s.drop_last().len() implies row_le(
            #[trigger] s.drop_last()[j],
            s.last(),
            col,
            asc,
        ) by {
            assert(s.drop_last()[j] == s[j]);
        }
        lemma_spec_insert_at(s.drop_last(), s.last(), col, asc, s.len() - 1);
        assert(s.drop_last().take(s.len() - 1) =~= s.drop_last());
        assert(s.drop_last().skip(s.len() - 1) =~= Seq::<R>::empty());
        assert(s.drop_last() + seq![s.last()] + Seq::<R>::empty() =~= s);
    }
}

/// Stability: sorting keeps, for every key, the subsequence of records that
/// carry that key in its original order.
pub proof fn lemma_sort_rows_stable<R: SortRow>(
    s: Seq<R>,
    col: SortColumn,
    asc: bool,
    num: u64,
    text: Seq<u8>,
)
    ensures
        spec_sort_rows(s, col, asc).filter(key_class(col, num, text)) == s.filter(
            key_class(col, num, text),
        ),
    decreases s.len(),
{
    let p = key_class::<R>(col, num, text);
    reveal(Seq::filter);
    if s.len() > 0 {
        lemma_sort_rows_stable(s.drop_last(), col, asc, num, text);
        lemma_sort_rows_ensures(s.drop_last(), col, asc);
        let prev = spec_sort_rows(s.drop_last(), col, asc);
        lemma_insert_row_stable(prev, s.last(), col, asc, num, text);
    }
}

fn key_le_exec(a_num: u64, a_text: &Vec<u8>, b_num: u64, b_text: &Vec<u8>) -> (r: bool)
    ensures
        r == key_le(a_num, a_text@, b_num, b_text@),
{
    if a_num < b_num {
        true
    } else if a_num == b_num {
        lex_le_bytes(a_text, b_text)
    } else {
        false
    }
}

/// Insert `x` into the sorted vector `out`, after all records that compare
/// less-or-equal to it.
fn insert_row<R: SortRow>(out: &mut Vec<R>, x: R, col: SortColumn, asc: bool)
    ensures
        final(out)@ == spec_insert_row(old(out)@, x, col, asc),
{
    let key = x.sort_key(col);
    let mut idx: usize = 0;
    let mut found = false;
    while !found && idx < out.len()
        invariant
            idx <= out@.len(),
            forall|j: int| 0 <= j < idx ==> row_le(#[trigger] out@[j], x, col, asc),
            found ==> idx < out@.len() && !row_le(out@[idx as int], x, col, asc),
            out == old(out),
            key.0 == x.sort_num(col),
            key.1@ == x.sort_text(col),
        decreases out@.len() - idx + (if found { 0int } else { 1int }),
    {
        let cur = out[idx].sort_key(col);
        let le = if asc {
            key_le_exec(cur.0, &cur.1, key.0, &key.1)
        } else {
            key_le_exec(key.0, &key.1, cur.0, &cur.1)
        };
        if !le {
            found = true;
        } else {
            idx += 1;
        }
    }
    proof {
        lemma_spec_insert_at(out@, x, col, asc, idx as int);
    }
    out.insert(idx, x);
    proof {
        assert(final(out)@ =~= old(out)@.take(idx as int) + seq![x] + old(out)@.skip(idx as int));
    }
}

/// Where the prefix is all less-or-equal and the next element (if any) is
/// not, the insertion splits the sequence exactly there.
proof fn lemma_spec_insert_at<R: SortRow>(s: Seq<R>, x: R, col: SortColumn, asc: bool, idx: int)
    requires
        0 <= idx <= s.len(),
        forall|j: int| 0 <= j < idx ==> row_le(#[trigger] s[j], x, col, asc),
        idx < s.len() ==> !row_le(s[idx], x, col, asc),
    ensures
        spec_insert_row(s, x, col, asc) == s.take(idx) + seq![x] + s.skip(idx),
    decreases idx,
{
    if idx == 0 {
        if s.len() == 0 {
            assert(spec_insert_row(s, x, col, asc) =~= s.take(0) + seq![x] + s.skip(0));
        } else {
            assert(spec_insert_row(s, x, col, asc) =~= s.take(0) + seq![x] + s.skip(0));
        }
    } else {
        lemma_spec_insert_at(s.drop_first(), x, col, asc, idx - 1);
        assert(spec_insert_row(s, x, col, asc) =~= seq![s[0]] + spec_insert_row(
            s.drop_first(),
            x,
            col,
            asc,
        ));
        assert(seq![s[0]] + (s.drop_first().take(idx - 1) + seq![x] + s.drop_first().skip(idx - 1))
            =~= s.take(idx) + seq![x] + s.skip(idx));
    }
}

/// Sort `rows` by `col` in the chosen direction, stably: the result is the
/// recursive insertion of each record in input order.
pub fn sort_rows<R: SortRow>(rows: Vec<R>, col: SortColumn, asc: bool) -> (r: Vec<R>)
    ensures
        r@ == spec_sort_rows(rows@, col, asc),
{
    let ghost all = rows@;
    let mut input = rows;
    let mut out: Vec<R> = Vec::new();
    let ghost mut k: int = 0;
    while input.len() > 0
        invariant
            0 <= k <= all.len(),
            input@ =~= all.skip(k),
            out@ == spec_sort_rows(all.take(k), col, asc),
        decreases input@.len(),
    {
        let x = input.remove(0);
        proof {
            assert(input@ =~= all.skip(k + 1));
            assert(all.take(k + 1).drop_last() =~= all.take(k));
            assert(all.take(k + 1).last() == all[k]);
        }
        insert_row(&mut out, x, col, asc);
        proof {
            k = k + 1;
        }
    }
    proof {
        assert(all.take(k) =~= all);
    }
    out
}

} // verus!
