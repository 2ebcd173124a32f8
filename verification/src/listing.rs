//! Backup listing: of the names found in the backups directory, keep the
//! archive files and return them newest first, which for timestamp-prefixed
//! names is descending lexicographic order.

use vstd::prelude::*;
use crate::text::{
    lex_le, ends_with, str_ends_with, str_lex_le, lemma_lex_total, lemma_lex_trans,
};

verus! {

broadcast use vstd::seq_lib::group_to_multiset_ensures;

/// A name the listing keeps: an archive by either accepted extension.
pub open spec fn is_archive_name(n: Seq<char>) -> bool {
    ends_with(n, ".rentikpro"@) || ends_with(n, ".zip"@)
}

/// The views of a vector of strings.
pub open spec fn views_of(v: Seq<String>) -> Seq<Seq<char>> {
    v.map_values(|x: String| x@)
}

/// The archive names of a listing, in order.
pub open spec fn archive_filter(s: Seq<Seq<char>>) -> Seq<Seq<char>> {
    s.filter(|n: Seq<char>| is_archive_name(n))
}

/// Descending lexicographic order.
pub open spec fn sorted_desc(s: Seq<Seq<char>>) -> bool {
    forall|i: int, j: int| 0 <= i < j < s.len() ==> lex_le(#[trigger] s[j], #[trigger] s[i])
}

/// Keeps the archive names, in their input order.
fn filter_archive_names(names: &Vec<String>) -> (r: Vec<String>)
    ensures
        views_of(r@) == archive_filter(views_of(names@)),
{
    let mut out: Vec<String> = Vec::new();
    let n = names.len();
    let mut i: usize = 0;
    proof {
        assert(views_of(names@.take(0)) =~= Seq::<Seq<char>>::empty());
        assert(views_of(out@) =~= archive_filter(views_of(names@.take(0))));
    }
    while i < n
        invariant
            i <= n,
            n == names@.len(),
            views_of(out@) == archive_filter(views_of(names@.take(i as int))),
        decreases n - i,
    {
        let keep = str_ends_with(names[i].as_str(), ".rentikpro") || str_ends_with(
            names[i].as_str(),
            ".zip",
        );
        let ghost prev = views_of(names@.take(i as int));
        proof {
            reveal(Seq::filter);
            assert(views_of(names@.take(i + 1)).drop_last() =~= prev);
            assert(views_of(names@.take(i + 1)).last() == names@[i as int]@);
            assert(views_of(names@.take(i + 1)).len() == i + 1);
            assert(archive_filter(views_of(names@.take(i + 1))) == (if is_archive_name(
                names@[i as int]@,
            ) {
                archive_filter(prev).push(names@[i as int]@)
            } else {
                archive_filter(prev)
            }));
        }
        if keep {
            out.push(names[i].clone());
            proof {
                assert(views_of(out@) =~= archive_filter(prev).push(names@[i as int]@));
            }
        }
        i += 1;
    }
    proof {
        assert(names@.take(n as int) =~= names@);
    }
    out
}

/// Sorts names in descending lexicographic order by repeatedly moving a
/// largest remaining name over; the output is a permutation of the input.
fn sort_names_desc(names: Vec<String>) -> (r: Vec<String>)
    ensures
        sorted_desc(views_of(r@)),
        views_of(r@).to_multiset() == views_of(names@).to_multiset(),
{
    let mut rest = names;
    let mut out: Vec<String> = Vec::new();
    let ghost orig = views_of(rest@).to_multiset();
    proof {
        assert(views_of(out@) =~= Seq::<Seq<char>>::empty());
        assert(views_of(out@).to_multiset().add(views_of(rest@).to_multiset()) =~= orig);
    }
    while rest.len() > 0
        invariant
            sorted_desc(views_of(out@)),
            views_of(out@).to_multiset().add(views_of(rest@).to_multiset()) == orig,
            forall|a: int, b: int|
                0 <= a < out@.len() && 0 <= b < rest@.len() ==> lex_le(
                    #[trigger] rest@[b]@,
                    #[trigger] out@[a]@,
                ),
        decreases rest@.len(),
    {
        let mut mi: usize = 0;
        let mut k: usize = 1;
        proof {
            lemma_lex_total(rest@[0]@, rest@[0]@);
        }
        while k < rest.len()
            invariant
                mi < k,
                k <= rest@.len() || k == 1,
                mi < rest@.len(),
                rest@.len() > 0,
                forall|j: int| 0 <= j < k && j < rest@.len() ==> lex_le(
                    #[trigger] rest@[j]@,
                    rest@[mi as int]@,
                ),
            decreases rest@.len() - k,
        {
            if str_lex_le(rest[mi].as_str(), rest[k].as_str()) {
                proof {
                    assert forall|j: int| 0 <= j < k + 1 implies lex_le(
                        #[trigger] rest@[j]@,
                        rest@[k as int]@,
                    ) by {
                        if j < k {
                            lemma_lex_trans(rest@[j]@, rest@[mi as int]@, rest@[k as int]@);
                        } else {
                            lemma_lex_total(rest@[j]@, rest@[j]@);
                        }
                    }
                }
                mi = k;
            } else {
                proof {
                    lemma_lex_total(rest@[mi as int]@, rest@[k as int]@);
                }
            }
            k += 1;
        }
        let ghost old_out = out@;
        let ghost old_rest = rest@;
        let picked = rest.remove(mi);
        out.push(picked);
        proof {
            assert(views_of(out@).drop_last() =~= views_of(old_out));
            assert(views_of(out@).last() == old_rest[mi as int]@);
            assert(views_of(out@) =~= views_of(old_out).push(old_rest[mi as int]@));
            assert(views_of(rest@) =~= views_of(old_rest).remove(mi as int));
            assert(views_of(old_rest)[mi as int] == old_rest[mi as int]@);
            assert(views_of(rest@).to_multiset() =~= views_of(old_rest).to_multiset().remove(
                old_rest[mi as int]@,
            ));
            assert(views_of(out@).to_multiset() =~= views_of(old_out).to_multiset().insert(
                old_rest[mi as int]@,
            ));
            assert(views_of(old_rest).to_multiset().count(old_rest[mi as int]@) > 0);
            assert(views_of(out@).to_multiset().add(views_of(rest@).to_multiset()) =~= orig);
            assert forall|i2: int, j2: int| 0 <= i2 < j2 < views_of(out@).len() implies lex_le(
                #[trigger] views_of(out@)[j2],
                #[trigger] views_of(out@)[i2],
            ) by {
                if j2 < views_of(out@).len() - 1 {
                    assert(views_of(out@)[i2] == old_out[i2]@);
                    assert(views_of(out@)[j2] == old_out[j2]@);
                } else {
                    assert(views_of(out@)[j2] == old_rest[mi as int]@);
                    assert(views_of(out@)[i2] == old_out[i2]@);
                }
            }
            assert forall|a: int, b: int|
                0 <= a < out@.len() && 0 <= b < rest@.len() implies lex_le(
                #[trigger] rest@[b]@,
                #[trigger] out@[a]@,
            ) by {
                let ob = if b < mi {
                    b
                } else {
                    b + 1
                };
                assert(rest@[b] == old_rest[ob]);
                assert(lex_le(old_rest[ob]@, old_rest[mi as int]@));
                if a < out@.len() - 1 {
                    assert(out@[a] == old_out[a]);
                    lemma_lex_trans(old_rest[ob]@, old_rest[mi as int]@, old_out[a]@);
                } else {
                    assert(out@[a] == old_rest[mi as int]);
                }
            }
        }
    }
    proof {
        assert(views_of(rest@) =~= Seq::<Seq<char>>::empty());
        assert(views_of(out@).to_multiset().add(views_of(rest@).to_multiset()) =~= views_of(
            out@,
        ).to_multiset());
    }
    out
}

/// The backup listing: the archive names among the directory's entries,
/// newest first. The result is a permutation of the archive names, in
/// descending lexicographic order.
pub fn list_backups_core(names: Vec<String>) -> (r: Vec<String>)
    ensures
        sorted_desc(views_of(r@)),
        views_of(r@).to_multiset() == archive_filter(views_of(names@)).to_multiset(),
{
    let kept = filter_archive_names(&names);
    sort_names_desc(kept)
}

} // verus!
