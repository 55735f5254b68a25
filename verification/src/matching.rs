//! Cross-instance matching: pairing a source issue with a destination
//! issue when their short reference identifiers are equal.

use vstd::prelude::*;
use crate::types::{Issue, IssueV, MatchedPair, MatchedPairV};

verus! {

/// Two issues match when both carry a short reference and the two are
/// equal, character for character. A missing reference on either side
/// never matches.
pub open spec fn refs_match(s: IssueV, d: IssueV) -> bool {
    s.short_ref is Some && d.short_ref is Some && s.short_ref == d.short_ref
}

/// Whether these two issues match, by their short references.
pub fn refs_match_exec(s: &Issue, d: &Issue) -> (b: bool)
    ensures
        b == refs_match(s.deep_view(), d.deep_view()),
{
    match (&s.references, &d.references) {
        (Some(sr), Some(dr)) => match (&sr.short, &dr.short) {
            (Some(a), Some(c)) => a.eq(c),
            _ => false,
        },
        _ => false,
    }
}

/// The first source entry whose issue matches `d`, scanning in order; the
/// entry carries its owning project's id.
pub open spec fn find_source(src: Seq<(i64, IssueV)>, d: IssueV) -> Option<(i64, IssueV)>
    decreases src.len(),
{
    if src.len() == 0 {
        None
    } else if refs_match(src[0].1, d) {
        Some(src[0])
    } else {
        find_source(src.drop_first(), d)
    }
}

/// Whether some source entry's issue matches `d`.
pub open spec fn has_match(src: Seq<(i64, IssueV)>, d: IssueV) -> bool {
    find_source(src, d) is Some
}

/// The pair built from a source entry and a destination entry.
pub open spec fn mk_pair(s: (i64, IssueV), d: (i64, IssueV)) -> MatchedPairV {
    MatchedPairV {
        source_project_id: s.0,
        source_issue: s.1,
        dest_project_id: d.0,
        dest_issue: d.1,
    }
}

/// The pairs the matcher yields: one per destination entry with a matching
/// source entry, in destination order, the first matching source entry
/// winning.
pub open spec fn match_spec(src: Seq<(i64, IssueV)>, dst: Seq<(i64, IssueV)>) -> Seq<MatchedPairV>
    decreases dst.len(),
{
    if dst.len() == 0 {
        Seq::empty()
    } else {
        let rest = match_spec(src, dst.drop_last());
        match find_source(src, dst.last().1) {
            Some(s) => rest.push(mk_pair(s, dst.last())),
            None => rest,
        }
    }
}

/// The first source entry matching `d`, as the matcher scans it.
fn find_source_issue(src: &Vec<(i64, Issue)>, d: &Issue) -> (r: Option<(i64, Issue)>)
    ensures
        r.deep_view() == find_source(src.deep_view(), d.deep_view()),
{
    let ghost srcv = src.deep_view();
    let ghost dv = d.deep_view();
    proof {
        assert(srcv.skip(0) =~= srcv);
    }
    let mut i: usize = 0;
    while i < src.len()
        invariant
            i <= src@.len(),
            srcv == src.deep_view(),
            dv == d.deep_view(),
            find_source(srcv, dv) == find_source(srcv.skip(i as int), dv),
        decreases src@.len() - i,
    {
        if refs_match_exec(&src[i].1, d) {
            let found = Some((src[i].0, src[i].1.clone()));
            proof {
                assert(srcv.skip(i as int)[0] == srcv[i as int]);
                assert(found.deep_view() =~= find_source(srcv, dv));
            }
            return found;
        }
        proof {
            assert(srcv.skip(i as int).drop_first() =~= srcv.skip(i as int + 1));
        }
        i = i + 1;
    }
    proof {
        assert(srcv.skip(src@.len() as int) =~= Seq::<(i64, IssueV)>::empty());
    }
    None
}

/// Pairs each destination entry with the first source entry whose short
/// reference equals its own. A destination entry with no equal source
/// reference yields nothing; one source entry may pair with several
/// destination entries.
pub fn match_issues(src: &Vec<(i64, Issue)>, dst: &Vec<(i64, Issue)>) -> (pairs: Vec<MatchedPair>)
    ensures
        pairs.deep_view() == match_spec(src.deep_view(), dst.deep_view()),
{
    let ghost srcv = src.deep_view();
    let ghost dstv = dst.deep_view();
    let mut pairs: Vec<MatchedPair> = Vec::new();
    let mut j: usize = 0;
    while j < dst.len()
        invariant
            j <= dst@.len(),
            srcv == src.deep_view(),
            dstv == dst.deep_view(),
            pairs.deep_view() == match_spec(srcv, dstv.take(j as int)),
        decreases dst@.len() - j,
    {
        let found = find_source_issue(src, &dst[j].1);
        match found {
            Some(p) => {
                let mp = MatchedPair {
                    source_project_id: p.0,
                    source_issue: p.1,
                    dest_project_id: dst[j].0,
                    dest_issue: dst[j].1.clone(),
                };
                pairs.push(mp);
            },
            None => {},
        }
        proof {
            assert(dstv.take(j as int + 1).drop_last() =~= dstv.take(j as int));
            assert(dstv.take(j as int + 1).last() == dstv[j as int]);
            assert(pairs.deep_view() =~= match_spec(srcv, dstv.take(j as int + 1)));
        }
        j = j + 1;
    }
    proof {
        assert(dstv.take(dst@.len() as int) =~= dstv);
    }
    pairs
}

/// Law: the matcher yields exactly one pair per destination entry whose
/// short reference equals some source entry's, in destination order, and a
/// destination entry with no equal source reference never appears; the
/// source half of each pair is the first matching source entry.
pub proof fn lemma_match_characterised(src: Seq<(i64, IssueV)>, dst: Seq<(i64, IssueV)>)
    ensures
        match_spec(src, dst) == dst.filter(|d: (i64, IssueV)| has_match(src, d.1)).map_values(
            |d: (i64, IssueV)| mk_pair(find_source(src, d.1).unwrap(), d),
        ),
    decreases dst.len(),
{
    reveal(Seq::filter);
    let keep = |d: (i64, IssueV)| has_match(src, d.1);
    let build = |d: (i64, IssueV)| mk_pair(find_source(src, d.1).unwrap(), d);
    if dst.len() == 0 {
        assert(match_spec(src, dst) =~= dst.filter(keep).map_values(build));
    } else {
        lemma_match_characterised(src, dst.drop_last());
        let front = dst.drop_last().filter(keep).map_values(build);
        if has_match(src, dst.last().1) {
            assert(dst.filter(keep) == dst.drop_last().filter(keep).push(dst.last()));
            assert(dst.filter(keep).map_values(build) =~= front.push(build(dst.last())));
        } else {
            assert(dst.filter(keep) == dst.drop_last().filter(keep));
        }
        assert(match_spec(src, dst) =~= dst.filter(keep).map_values(build));
    }
}

/// Law: matching is deterministic. The pairs are a function of the two
/// sequences alone: the same entries in the same order always yield the
/// same pairs in the same order.
pub proof fn lemma_match_deterministic(
    src1: Seq<(i64, IssueV)>,
    dst1: Seq<(i64, IssueV)>,
    src2: Seq<(i64, IssueV)>,
    dst2: Seq<(i64, IssueV)>,
)
    requires
        src1 == src2,
        dst1 == dst2,
    ensures
        match_spec(src1, dst1) == match_spec(src2, dst2),
{
}

} // verus!
