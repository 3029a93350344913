//! Turning the messages of the remote interface into visualization requests
//! and visualization results into reply messages.

use vstd::prelude::*;
use crate::proto::{self, FieldMask, VisualizeResponse};
use crate::response::{
    field_mask_name, lemma_field_mask_name_round_trip, mask_selects, parse_field_mask,
    InvalidFieldMask, OutputMask, Response, ResponseFieldMask,
};
use crate::platform::{distinct_paths, is_path_sorting, path_eq, path_lt, same_path, sort_by_path, takes_position};
use crate::visualize::{VisualizeContractsRequest, VisualizeStorageRequest};

verus! {

/// The paths of a field mask as texts.
pub open spec fn mask_paths_view(paths: Seq<String>) -> Seq<Seq<char>> {
    paths.map_values(|p: String| p@)
}

/// What a list of field-mask paths selects: the set of the field kinds they
/// name, or the first path, in order, that names none.
pub open spec fn parse_mask_paths(paths: Seq<Seq<char>>) -> Result<Set<ResponseFieldMask>, Seq<char>>
    decreases paths.len(),
{
    if paths.len() == 0 {
        Ok(Set::empty())
    } else {
        match parse_mask_paths(paths.drop_last()) {
            Err(v) => Err(v),
            Ok(kinds) => match parse_field_mask(paths.last()) {
                Ok(kind) => Ok(kinds.insert(kind)),
                Err(v) => Err(v),
            },
        }
    }
}

/// What an optional field mask selects: no mask selects nothing explicitly
/// (and so, as an empty mask, every kind).
pub open spec fn parse_output_mask(mask: Option<FieldMask>) -> Result<Set<ResponseFieldMask>, Seq<char>> {
    match mask {
        None => Ok(Set::empty()),
        Some(m) => parse_mask_paths(mask_paths_view(m.paths@)),
    }
}

/// The first kept entry whose path equals `key` as a path, if any.
pub open spec fn path_match(kept: Seq<(String, String)>, key: Seq<char>) -> Option<int>
    decreases kept.len(),
{
    if kept.len() == 0 {
        None
    } else {
        match path_match(kept.drop_last(), key) {
            Some(i) => Some(i),
            None => if path_eq(key, kept.last().0@) {
                Some(kept.len() - 1)
            } else {
                None
            },
        }
    }
}

/// Puts path-sorted entries into a map keyed by path, in order: an entry
/// whose path equals a kept one's as a path replaces that entry's content
/// and keeps its path text (as a map keeps the key it holds); any other
/// entry is added.
pub open spec fn merge_by_path(sorted: Seq<(String, String)>) -> Seq<(String, String)>
    decreases sorted.len(),
{
    if sorted.len() == 0 {
        Seq::empty()
    } else {
        let kept = merge_by_path(sorted.drop_last());
        let entry = sorted.last();
        match path_match(kept, entry.0@) {
            Some(i) => kept.update(i, (kept[i].0, entry.1)),
            None => kept.push(entry),
        }
    }
}

/// Some entry of `entries` has the path `path`, as text or as a path.
pub open spec fn keeps_path(entries: Seq<(String, String)>, path: String) -> bool {
    exists|i: int| 0 <= i < entries.len() && (entries[i].0 == path || path_eq(path@, entries[i].0@))
}

/// `output` is the map keyed by path that collecting `input` gives: the
/// entries sorted by path, stably, with entries of equal paths merged.
pub open spec fn merged_sources(input: Seq<(String, String)>, output: Seq<(String, String)>) -> bool {
    exists|sorted: Seq<(String, String)>|
        #[trigger] is_path_sorting(input, sorted) && output == merge_by_path(sorted)
}

/// No kept entry matches a path exactly when none equals it as a path; a
/// match is an entry whose path equals it.
pub proof fn lemma_path_match(kept: Seq<(String, String)>, key: Seq<char>)
    ensures
        path_match(kept, key) is None <==> forall|i: int|
            0 <= i < kept.len() ==> !path_eq(key, #[trigger] kept[i].0@),
        path_match(kept, key) matches Some(i) ==> 0 <= i < kept.len() && path_eq(key, kept[i].0@),
    decreases kept.len(),
{
    if kept.len() > 0 {
        lemma_path_match(kept.drop_last(), key);
        if path_match(kept, key) is None {
            assert forall|i: int| 0 <= i < kept.len() implies !path_eq(key, #[trigger] kept[i].0@) by {
                if i < kept.len() - 1 {
                    assert(kept.drop_last()[i] == kept[i]);
                }
            }
        } else {
            if path_match(kept.drop_last(), key) is None {
                assert(path_eq(key, kept[kept.len() - 1].0@));
            } else {
                let i = path_match(kept.drop_last(), key)->0;
                assert(kept.drop_last()[i] == kept[i]);
            }
        }
    }
}

/// The merged entries keep only paths of the sorted entries, in the order
/// of those entries: no path equals an earlier one as a path, and none
/// comes before an earlier one in path order.
pub proof fn lemma_merge_by_path(sorted: Seq<(String, String)>)
    requires
        forall|i: int, j: int|
            0 <= i < j < sorted.len() ==> !path_lt(#[trigger] sorted[j].0@, #[trigger] sorted[i].0@),
    ensures
        merge_by_path(sorted).len() <= sorted.len(),
        forall|i: int|
            0 <= i < merge_by_path(sorted).len() ==> exists|p: int|
                0 <= p < sorted.len() && #[trigger] merge_by_path(sorted)[i].0 == sorted[p].0,
        forall|i: int, j: int|
            0 <= i < j < merge_by_path(sorted).len() ==> !path_eq(
                #[trigger] merge_by_path(sorted)[j].0@,
                #[trigger] merge_by_path(sorted)[i].0@,
            ),
        forall|i: int, j: int|
            0 <= i < j < merge_by_path(sorted).len() ==> !path_lt(
                #[trigger] merge_by_path(sorted)[j].0@,
                #[trigger] merge_by_path(sorted)[i].0@,
            ),
        forall|p: int|
            0 <= p < sorted.len() ==> #[trigger] keeps_path(merge_by_path(sorted), sorted[p].0),
    decreases sorted.len(),
{
    if sorted.len() > 0 {
        let prefix = sorted.drop_last();
        assert forall|i: int, j: int| 0 <= i < j < prefix.len() implies !path_lt(
            #[trigger] prefix[j].0@,
            #[trigger] prefix[i].0@,
        ) by {
            assert(prefix[i] == sorted[i] && prefix[j] == sorted[j]);
        }
        lemma_merge_by_path(prefix);
        let kept = merge_by_path(prefix);
        let entry = sorted.last();
        let m = merge_by_path(sorted);
        lemma_path_match(kept, entry.0@);
        assert forall|i: int| 0 <= i < kept.len() implies !path_lt(
            entry.0@,
            #[trigger] kept[i].0@,
        ) by {
            let p = choose|p: int| 0 <= p < prefix.len() && kept[i].0 == prefix[p].0;
            assert(prefix[p] == sorted[p]);
            assert(sorted[sorted.len() - 1] == entry);
        }
        assert forall|i: int| 0 <= i < m.len() implies exists|p: int|
            0 <= p < sorted.len() && #[trigger] m[i].0 == sorted[p].0 by {
            if i < kept.len() {
                let p = choose|p: int| 0 <= p < prefix.len() && kept[i].0 == prefix[p].0;
                assert(prefix[p] == sorted[p]);
                assert(m[i].0 == kept[i].0);
            } else {
                assert(m[i] == entry);
                assert(sorted[sorted.len() - 1] == entry);
            }
        }
        assert forall|i: int, j: int| 0 <= i < j < m.len() implies !path_eq(
            #[trigger] m[j].0@,
            #[trigger] m[i].0@,
        ) && !path_lt(m[j].0@, m[i].0@) by {
            if j < kept.len() {
                assert(m[i].0 == kept[i].0 && m[j].0 == kept[j].0);
            } else {
                assert(m[j] == entry);
                assert(m[i] == kept[i]);
            }
        }
        assert forall|p: int| 0 <= p < sorted.len() implies #[trigger] keeps_path(m, sorted[p].0) by {
            if p < prefix.len() {
                assert(prefix[p] == sorted[p]);
                assert(keeps_path(kept, prefix[p].0));
                let i = choose|i: int|
                    0 <= i < kept.len() && (kept[i].0 == prefix[p].0 || path_eq(
                        prefix[p].0@,
                        kept[i].0@,
                    ));
                assert(m[i].0 == kept[i].0);
            } else {
                assert(sorted[p] == entry);
                match path_match(kept, entry.0@) {
                    Some(k) => {
                        assert(m[k].0 == kept[k].0);
                    },
                    None => {
                        assert(m[m.len() - 1] == entry);
                    },
                }
            }
        }
    }
}

/// Collects the source files of a request into a map keyed by path: the
/// entries are sorted by path, and entries whose paths are equal as paths
/// become one, under the first one's path text and with the last one's
/// content.
pub fn sources(entries: Vec<(String, String)>) -> (r: Vec<(String, String)>)
    ensures
        merged_sources(entries@, r@),
        forall|i: int, j: int|
            0 <= i < j < r@.len() ==> !path_eq(#[trigger] r@[j].0@, #[trigger] r@[i].0@),
        forall|i: int, j: int|
            0 <= i < j < r@.len() ==> !path_lt(#[trigger] r@[j].0@, #[trigger] r@[i].0@),
        forall|k: int| 0 <= k < entries@.len() ==> #[trigger] keeps_path(r@, entries@[k].0),
        forall|i: int, j: int|
            0 <= i < j < r@.len() ==> distinct_paths(#[trigger] r@[i].0@, #[trigger] r@[j].0@),
        forall|i: int|
            0 <= i < r@.len() ==> exists|k: int|
                0 <= k < entries@.len() && #[trigger] entries@[k].0 == (#[trigger] r@[i]).0,
        forall|i: int|
            0 <= i < r@.len() ==> exists|k: int, l: int|
                #![trigger entries@[k], entries@[l]]
                0 <= k < entries@.len() && 0 <= l < entries@.len() && (#[trigger] r@[i]).0
                    == entries@[k].0 && r@[i].1 == entries@[l].1 && (l == k || path_eq(
                    entries@[l].0@,
                    r@[i].0@,
                )),
{
    let mut sorted = entries;
    sort_by_path(&mut sorted);
    let ghost input = entries@;
    let mut kept: Vec<(String, String)> = Vec::new();
    let mut i: usize = 0;
    assert(sorted@.take(0) =~= Seq::<(String, String)>::empty());
    while i < sorted.len()
        invariant
            0 <= i <= sorted.len(),
            kept@ == merge_by_path(sorted@.take(i as int)),
            forall|x: int, y: int|
                0 <= x < y < kept@.len() ==> distinct_paths(#[trigger] kept@[x].0@, #[trigger] kept@[y].0@),
        decreases sorted.len() - i,
    {
        assert(sorted@.take(i + 1).drop_last() =~= sorted@.take(i as int));
        assert(sorted@.take(i + 1).last() == sorted@[i as int]);
        let ghost key = sorted@[i as int].0@;
        let mut j: usize = 0;
        let mut found = false;
        assert(kept@.take(0) =~= Seq::<(String, String)>::empty());
        while j < kept.len()
            invariant_except_break
                !found,
            invariant
                0 <= j <= kept.len(),
                kept@ == merge_by_path(sorted@.take(i as int)),
                0 <= i < sorted.len(),
                key == sorted@[i as int].0@,
                path_match(kept@.take(j as int), key) is None,
                forall|x: int| 0 <= x < j ==> distinct_paths(key, #[trigger] kept@[x].0@),
            ensures
                found ==> j < kept.len() && path_match(kept@, key) == Some(j as int),
                !found ==> j == kept.len(),
                forall|x: int| 0 <= x < j ==> distinct_paths(key, #[trigger] kept@[x].0@),
            decreases kept.len() - j,
        {
            if same_path(sorted[i].0.as_str(), kept[j].0.as_str()) {
                proof {
                    lemma_path_match_prefix(kept@, key, j as int);
                }
                found = true;
                break;
            }
            assert(kept@.take(j + 1).drop_last() =~= kept@.take(j as int));
            assert(distinct_paths(key, kept@[j as int].0@));
            j = j + 1;
        }
        let ghost before = kept@;
        if found {
            let path = kept[j].0.clone();
            let content = sorted[i].1.clone();
            kept.set(j, (path, content));
            assert forall|x: int| 0 <= x < kept@.len() implies #[trigger] kept@[x].0 == before[x].0 by {}
        } else {
            assert(kept@.take(kept.len() as int) =~= kept@);
            let path = sorted[i].0.clone();
            let content = sorted[i].1.clone();
            kept.push((path, content));
            assert forall|x: int| 0 <= x < before.len() implies #[trigger] kept@[x] == before[x] by {}
        }
        assert(kept@ == merge_by_path(sorted@.take(i + 1)));
        i = i + 1;
    }
    assert(sorted@.take(sorted.len() as int) =~= sorted@);
    proof {
        lemma_merge_by_path(sorted@);
        assert forall|k: int| 0 <= k < input.len() implies #[trigger] keeps_path(kept@, input[k].0) by {
            let idx = choose|idx: Seq<int>| {
                &&& #[trigger] idx.len() == input.len()
                &&& sorted@.len() == input.len()
                &&& forall|i: int| 0 <= i < idx.len() ==> 0 <= #[trigger] idx[i] < input.len()
                &&& forall|i: int| 0 <= i < idx.len() ==> #[trigger] sorted@[i] == input[idx[i]]
                &&& forall|i: int, j: int| 0 <= i < j < idx.len() ==> idx[i] != idx[j]
                &&& forall|k: int| 0 <= k < input.len() ==> #[trigger] takes_position(idx, k)
                &&& forall|i: int, j: int|
                    0 <= i < j < sorted@.len() ==> !path_lt(#[trigger] sorted@[j].0@, #[trigger] sorted@[i].0@)
                &&& forall|i: int, j: int|
                    0 <= i < j < sorted@.len() && !path_lt(sorted@[i].0@, sorted@[j].0@) && !path_lt(
                        sorted@[j].0@,
                        sorted@[i].0@,
                    ) ==> #[trigger] idx[i] < #[trigger] idx[j]
            };
            assert(takes_position(idx, k));
            let p = choose|i: int| 0 <= i < idx.len() && idx[i] == k;
            assert(sorted@[p] == input[k]);
            assert(keeps_path(merge_by_path(sorted@), sorted@[p].0));
        }
        lemma_merge_contents(sorted@);
        assert forall|i: int| 0 <= i < kept@.len() implies exists|k: int, l: int|
            #![trigger input[k], input[l]]
            0 <= k < input.len() && 0 <= l < input.len() && (#[trigger] kept@[i]).0 == input[k].0
                && kept@[i].1 == input[l].1 && (l == k || path_eq(input[l].0@, kept@[i].0@)) by {
            let idx = choose|idx: Seq<int>| {
                &&& #[trigger] idx.len() == input.len()
                &&& sorted@.len() == input.len()
                &&& forall|i: int| 0 <= i < idx.len() ==> 0 <= #[trigger] idx[i] < input.len()
                &&& forall|i: int| 0 <= i < idx.len() ==> #[trigger] sorted@[i] == input[idx[i]]
                &&& forall|i: int, j: int| 0 <= i < j < idx.len() ==> idx[i] != idx[j]
                &&& forall|k: int| 0 <= k < input.len() ==> #[trigger] takes_position(idx, k)
                &&& forall|i: int, j: int|
                    0 <= i < j < sorted@.len() ==> !path_lt(#[trigger] sorted@[j].0@, #[trigger] sorted@[i].0@)
                &&& forall|i: int, j: int|
                    0 <= i < j < sorted@.len() && !path_lt(sorted@[i].0@, sorted@[j].0@) && !path_lt(
                        sorted@[j].0@,
                        sorted@[i].0@,
                    ) ==> #[trigger] idx[i] < #[trigger] idx[j]
            };
            let m = merge_by_path(sorted@);
            assert(m[i] == kept@[i]);
            assert(has_content_source(sorted@, m, i));
            let (p, q) = choose|p: int, q: int| #[trigger] content_from(sorted@, m, i, p, q);
            assert(sorted@[p] == input[idx[p]]);
            assert(sorted@[q] == input[idx[q]]);
            assert(input[idx[p]] == input[idx[p]] && input[idx[q]] == input[idx[q]]);
        }
    }
    kept
}

/// Some merged entry before position `i` has a path that `key` equals as a
/// path.
pub open spec fn equals_earlier(m: Seq<(String, String)>, i: int, key: Seq<char>) -> bool {
    exists|k: int| 0 <= k < i && path_eq(key, #[trigger] m[k].0@)
}

/// Whether the merged entry `i` holds the path of sorted entry `p` and the
/// content of sorted entry `q`, which is `p` itself or a later entry whose
/// path equals that path, and whether every entry after `q` whose path
/// equals it went to an earlier merged entry instead.
pub open spec fn content_from(
    sorted: Seq<(String, String)>,
    m: Seq<(String, String)>,
    i: int,
    p: int,
    q: int,
) -> bool {
    &&& 0 <= p <= q < sorted.len()
    &&& m[i].0 == sorted[p].0
    &&& m[i].1 == sorted[q].1
    &&& (q == p || path_eq(sorted[q].0@, m[i].0@))
    &&& forall|r: int|
        q < r < sorted.len() && path_eq(#[trigger] sorted[r].0@, m[i].0@) ==> equals_earlier(
            m,
            i,
            sorted[r].0@,
        )
}

/// Some sorted entries give the merged entry `i` its path and its content,
/// as `content_from` says.
pub open spec fn has_content_source(
    sorted: Seq<(String, String)>,
    m: Seq<(String, String)>,
    i: int,
) -> bool {
    exists|p: int, q: int| #[trigger] content_from(sorted, m, i, p, q)
}

/// Each merged entry holds the path of one sorted entry and the content of
/// that same entry or of a later one whose path equals it, and that content
/// is the last one given for it: no content goes to a path it was not
/// given for, an entry whose path no later entry's equals keeps its own
/// content, and a later entry with an equal path replaces the content
/// (unless an earlier merged path already took it).
pub proof fn lemma_merge_contents(sorted: Seq<(String, String)>)
    ensures
        forall|i: int|
            0 <= i < merge_by_path(sorted).len() ==> #[trigger] has_content_source(
                sorted,
                merge_by_path(sorted),
                i,
            ),
    decreases sorted.len(),
{
    if sorted.len() > 0 {
        let prefix = sorted.drop_last();
        lemma_merge_contents(prefix);
        let kept = merge_by_path(prefix);
        let entry = sorted.last();
        let n = sorted.len() - 1;
        let m = merge_by_path(sorted);
        lemma_path_match(kept, entry.0@);
        lemma_path_match_first(kept, entry.0@);
        assert(sorted[n] == entry);
        assert forall|i: int| 0 <= i < m.len() implies #[trigger] has_content_source(sorted, m, i) by {
            if i < kept.len() {
                assert(has_content_source(prefix, kept, i));
                let (p, q) = choose|p: int, q: int| #[trigger] content_from(prefix, kept, i, p, q);
                assert(prefix[p] == sorted[p] && prefix[q] == sorted[q]);
                assert(m[i].0 == kept[i].0);
                assert forall|k: int| 0 <= k < kept.len() implies #[trigger] m[k].0 == kept[k].0 by {}
                let is_target = path_match(kept, entry.0@) == Some(i);
                if is_target {
                    assert(m[i].1 == sorted[n].1);
                    assert(path_eq(sorted[n].0@, m[i].0@));
                    assert(content_from(sorted, m, i, p, n));
                } else {
                    assert(m[i] == kept[i]);
                    assert forall|r: int|
                        q < r < sorted.len() && path_eq(#[trigger] sorted[r].0@, m[i].0@) implies equals_earlier(
                        m,
                        i,
                        sorted[r].0@,
                    ) by {
                        if r < n {
                            assert(sorted[r] == prefix[r]);
                            assert(equals_earlier(kept, i, prefix[r].0@));
                            let k = choose|k: int| 0 <= k < i && path_eq(prefix[r].0@, #[trigger] kept[k].0@);
                            assert(m[k].0 == kept[k].0);
                        } else {
                            let k = path_match(kept, entry.0@)->0;
                            assert(k < i);
                            assert(m[k].0 == kept[k].0);
                        }
                    }
                    assert(content_from(sorted, m, i, p, q));
                }
            } else {
                assert(m[i] == entry);
                assert(content_from(sorted, m, i, n, n));
            }
        }
    }
}

/// When no entry before position `j` matches and entry `j` does, the first
/// match is at `j`.
pub proof fn lemma_path_match_prefix(kept: Seq<(String, String)>, key: Seq<char>, j: int)
    requires
        0 <= j < kept.len(),
        path_match(kept.take(j), key) is None,
        path_eq(key, kept[j].0@),
    ensures
        path_match(kept, key) == Some(j),
    decreases kept.len() - j,
{
    assert(kept.take(j + 1).drop_last() =~= kept.take(j));
    if j + 1 == kept.len() {
        assert(kept.take(j + 1) =~= kept);
    } else {
        lemma_path_match_extends(kept, key, j + 1);
    }
}

/// A match in a prefix is the match of the whole sequence.
pub proof fn lemma_path_match_extends(kept: Seq<(String, String)>, key: Seq<char>, n: int)
    requires
        0 < n <= kept.len(),
        path_match(kept.take(n), key) is Some,
    ensures
        path_match(kept, key) == path_match(kept.take(n), key),
    decreases kept.len() - n,
{
    if n == kept.len() {
        assert(kept.take(n) =~= kept);
    } else {
        assert(kept.take(n + 1).drop_last() =~= kept.take(n));
        lemma_path_match_extends(kept, key, n + 1);
    }
}

/// Turns an optional field mask into an output mask: no mask gives the empty
/// mask; otherwise every path must name a field kind, and the first that does
/// not is refused.
#[verifier::loop_isolation(false)]
pub fn output_mask(mask: Option<FieldMask>) -> (r: Result<OutputMask, InvalidFieldMask>)
    ensures
        match parse_output_mask(mask) {
            Ok(kinds) => r matches Ok(m) && m@ == kinds && m.0@.no_duplicates(),
            Err(v) => r matches Err(e) && e.value@ == v,
        },
{
    match mask {
        None => {
            let m = OutputMask::default();
            Ok(m)
        },
        Some(mask) => {
            let ghost paths = mask_paths_view(mask.paths@);
            let mut kinds: Vec<ResponseFieldMask> = Vec::new();
            let mut i: usize = 0;
            assert(paths.take(0) =~= Seq::<Seq<char>>::empty());
            assert(kinds@.to_set() =~= Set::<ResponseFieldMask>::empty());
            while i < mask.paths.len()
                invariant
                    0 <= i <= mask.paths.len(),
                    paths == mask_paths_view(mask.paths@),
                    parse_mask_paths(paths.take(i as int)) == Ok::<
                        Set<ResponseFieldMask>,
                        Seq<char>,
                    >(kinds@.to_set()),
                    kinds@.no_duplicates(),
                decreases mask.paths.len() - i,
            {
                assert(paths.take(i + 1).drop_last() =~= paths.take(i as int));
                let parsed = ResponseFieldMask::try_from(mask.paths[i].clone());
                match parsed {
                    Err(e) => {
                        proof {
                            assert(paths[i as int] == mask.paths@[i as int]@);
                            assert(parse_mask_paths(paths.take(i + 1)) == Err::<
                                Set<ResponseFieldMask>,
                                Seq<char>,
                            >(paths[i as int]));
                            lemma_parse_error_propagates(paths, i as int + 1);
                        }
                        return Err(e);
                    },
                    Ok(kind) => {
                        let mut present = false;
                        let mut j: usize = 0;
                        while j < kinds.len()
                            invariant
                                0 <= j <= kinds.len(),
                                present <==> exists|k: int| 0 <= k < j && kinds@[k] == kind,
                            decreases kinds.len() - j,
                        {
                            if kinds[j] == kind {
                                present = true;
                            }
                            j = j + 1;
                        }
                        let ghost before = kinds@;
                        if !present {
                            kinds.push(kind);
                            proof {
                                before.lemma_push_to_set_commute(kind);
                                assert(!before.contains(kind));
                            }
                            assert(kinds@.to_set() =~= before.to_set().insert(kind));
                        } else {
                            assert(before.to_set().contains(kind));
                            assert(before.to_set().insert(kind) =~= before.to_set());
                        }
                    },
                }
                i = i + 1;
            }
            assert(paths.take(mask.paths.len() as int) =~= paths);
            Ok(OutputMask(kinds))
        },
    }
}

/// Once a prefix of the paths names no field kind, the whole list is refused
/// with that same path.
pub proof fn lemma_parse_error_propagates(paths: Seq<Seq<char>>, n: int)
    requires
        0 <= n <= paths.len(),
        parse_mask_paths(paths.take(n)) is Err,
    ensures
        parse_mask_paths(paths) == parse_mask_paths(paths.take(n)),
    decreases paths.len() - n,
{
    if n < paths.len() {
        assert(paths.take(n + 1).drop_last() =~= paths.take(n));
        lemma_parse_error_propagates(paths, n + 1);
    } else {
        assert(paths.take(n) =~= paths);
    }
}

/// A request without a field mask asks for every kind of drawing.
pub proof fn lemma_omitted_mask_selects_all(kind: ResponseFieldMask)
    ensures
        parse_output_mask(None) matches Ok(kinds) && mask_selects(kinds, kind),
{
}

/// A list of paths that is accepted selects exactly the kinds its paths
/// name.
pub proof fn lemma_accepted_mask_kinds(paths: Seq<Seq<char>>, kind: ResponseFieldMask)
    requires
        parse_mask_paths(paths) is Ok,
    ensures
        parse_mask_paths(paths)->Ok_0.contains(kind) <==> exists|i: int|
            0 <= i < paths.len() && parse_field_mask(#[trigger] paths[i]) == Ok::<
                ResponseFieldMask,
                Seq<char>,
            >(kind),
    decreases paths.len(),
{
    if paths.len() > 0 {
        let prefix = paths.drop_last();
        lemma_accepted_mask_kinds(prefix, kind);
        if parse_mask_paths(paths)->Ok_0.contains(kind) {
            if parse_field_mask(paths.last()) == Ok::<ResponseFieldMask, Seq<char>>(kind) {
                assert(paths[paths.len() - 1] == paths.last());
            } else {
                let i = choose|i: int|
                    0 <= i < prefix.len() && parse_field_mask(#[trigger] prefix[i]) == Ok::<
                        ResponseFieldMask,
                        Seq<char>,
                    >(kind);
                assert(paths[i] == prefix[i]);
            }
        }
        if exists|i: int|
            0 <= i < paths.len() && parse_field_mask(#[trigger] paths[i]) == Ok::<
                ResponseFieldMask,
                Seq<char>,
            >(kind) {
            let i = choose|i: int|
                0 <= i < paths.len() && parse_field_mask(#[trigger] paths[i]) == Ok::<
                    ResponseFieldMask,
                    Seq<char>,
                >(kind);
            if i < paths.len() - 1 {
                assert(prefix[i] == paths[i]);
            }
        }
    }
}

/// The names of some field kinds, used as mask paths, are accepted and
/// select exactly those kinds.
pub proof fn lemma_mask_of_names(kinds: Seq<ResponseFieldMask>)
    ensures
        parse_mask_paths(kinds.map_values(|k: ResponseFieldMask| field_mask_name(k))) == Ok::<
            Set<ResponseFieldMask>,
            Seq<char>,
        >(kinds.to_set()),
    decreases kinds.len(),
{
    let names = kinds.map_values(|k: ResponseFieldMask| field_mask_name(k));
    if kinds.len() == 0 {
        assert(kinds.to_set() =~= Set::<ResponseFieldMask>::empty());
    } else {
        let prefix = kinds.drop_last();
        lemma_mask_of_names(prefix);
        assert(names.drop_last() =~= prefix.map_values(|k: ResponseFieldMask| field_mask_name(k)));
        lemma_field_mask_name_round_trip(kinds.last());
        assert(kinds =~= prefix.push(kinds.last()));
        prefix.lemma_push_to_set_commute(kinds.last());
    }
}

impl VisualizeContractsRequest {
    /// Builds a class diagram request from its message; refused when the
    /// field mask names an unknown kind.
    pub fn try_from(request: proto::VisualizeContractsRequest) -> (r: Result<
        VisualizeContractsRequest,
        InvalidFieldMask,
    >)
        ensures
            match parse_output_mask(request.output_mask) {
                Ok(kinds) => r matches Ok(req) && req.output_mask@ == kinds && merged_sources(
                    request.sources@,
                    req.sources@,
                ),
                Err(v) => r matches Err(e) && e.value@ == v,
            },
    {
        let srcs = sources(request.sources);
        let mask = output_mask(request.output_mask)?;
        Ok(VisualizeContractsRequest { sources: srcs, output_mask: mask })
    }
}

impl VisualizeStorageRequest {
    /// Builds a storage layout request from its message; refused when the
    /// field mask names an unknown kind.
    pub fn try_from(request: proto::VisualizeStorageRequest) -> (r: Result<
        VisualizeStorageRequest,
        InvalidFieldMask,
    >)
        ensures
            match parse_output_mask(request.output_mask) {
                Ok(kinds) => r matches Ok(req) && req.output_mask@ == kinds && merged_sources(
                    request.sources@,
                    req.sources@,
                ) && req.file_path@ == request.file_name@
                    && req.contract_name@ == request.contract_name@,
                Err(v) => r matches Err(e) && e.value@ == v,
            },
    {
        let srcs = sources(request.sources);
        let mask = output_mask(request.output_mask)?;
        Ok(
            VisualizeStorageRequest {
                sources: srcs,
                file_path: request.file_name,
                contract_name: request.contract_name,
                output_mask: mask,
            },
        )
    }
}

impl From<Response> for VisualizeResponse {
    fn from(response: Response) -> (r: VisualizeResponse)
        ensures
            r.svg == response.svg,
            r.png == response.png,
    {
        VisualizeResponse { png: response.png, svg: response.svg }
    }
}

impl vstd::std_specs::convert::FromSpecImpl<Response> for VisualizeResponse {
    open spec fn obeys_from_spec() -> bool {
        true
    }

    open spec fn from_spec(response: Response) -> VisualizeResponse {
        VisualizeResponse { png: response.png, svg: response.svg }
    }
}

/// The reply carries each drawing of the visualization in its own field:
/// the SVG drawing in `svg`, the PNG drawing in `png`, unchanged.
pub proof fn lemma_reply_carries_drawings(response: Response)
    ensures
        <VisualizeResponse as vstd::std_specs::convert::FromSpec<Response>>::from_spec(response).svg
            == response.svg,
        <VisualizeResponse as vstd::std_specs::convert::FromSpec<Response>>::from_spec(response).png
            == response.png,
{
}

/// A refused list of mask paths is refused for its first path that names
/// no field kind: every path before it names one.
pub proof fn lemma_refused_mask_path(paths: Seq<Seq<char>>)
    ensures
        parse_mask_paths(paths) matches Err(v) ==> exists|k: int|
            0 <= k < paths.len() && #[trigger] paths[k] == v && parse_field_mask(v) is Err
                && forall|j: int| 0 <= j < k ==> parse_field_mask(#[trigger] paths[j]) is Ok,
    decreases paths.len(),
{
    if paths.len() > 0 {
        let prefix = paths.drop_last();
        lemma_refused_mask_path(prefix);
        if let Err(v) = parse_mask_paths(paths) {
            if parse_mask_paths(prefix) is Err {
                let k = choose|k: int|
                    0 <= k < prefix.len() && #[trigger] prefix[k] == v && parse_field_mask(v) is Err
                        && forall|j: int| 0 <= j < k ==> parse_field_mask(#[trigger] prefix[j]) is Ok;
                assert(paths[k] == prefix[k]);
                assert forall|j: int| 0 <= j < k implies parse_field_mask(#[trigger] paths[j]) is Ok by {
                    assert(paths[j] == prefix[j]);
                }
            } else {
                lemma_accepted_paths_parse(prefix);
                let k = paths.len() - 1;
                assert(paths[k] == paths.last());
                assert forall|j: int| 0 <= j < k implies parse_field_mask(#[trigger] paths[j]) is Ok by {
                    assert(paths[j] == prefix[j]);
                }
            }
        }
    }
}

/// Every path of an accepted list names a field kind.
pub proof fn lemma_accepted_paths_parse(paths: Seq<Seq<char>>)
    ensures
        parse_mask_paths(paths) is Ok ==> forall|j: int|
            0 <= j < paths.len() ==> parse_field_mask(#[trigger] paths[j]) is Ok,
    decreases paths.len(),
{
    if paths.len() > 0 {
        let prefix = paths.drop_last();
        lemma_accepted_paths_parse(prefix);
        if parse_mask_paths(paths) is Ok {
            assert forall|j: int| 0 <= j < paths.len() implies parse_field_mask(#[trigger] paths[j]) is Ok by {
                if j < paths.len() - 1 {
                    assert(paths[j] == prefix[j]);
                }
            }
        }
    }
}

/// The entry a path is merged into is the first kept entry whose path
/// equals it as a path.
pub proof fn lemma_path_match_first(kept: Seq<(String, String)>, key: Seq<char>)
    ensures
        path_match(kept, key) matches Some(i) ==> forall|j: int|
            0 <= j < i ==> !path_eq(key, #[trigger] kept[j].0@),
    decreases kept.len(),
{
    if kept.len() > 0 {
        let prefix = kept.drop_last();
        lemma_path_match_first(prefix, key);
        lemma_path_match(prefix, key);
        if let Some(i) = path_match(kept, key) {
            assert forall|j: int| 0 <= j < i implies !path_eq(key, #[trigger] kept[j].0@) by {
                assert(kept[j] == prefix[j]);
            }
        }
    }
}

} // verus!
