//! Mapping findings to the compliance standards they touch.
use vstd::prelude::*;
use vstd::hash_map::StringHashMap;
use crate::error::MsasError;
use crate::types::{Findings, FindingView, findings_view, strings_view};

verus! {

/// The mapping from finding ids to compliance identifiers, as character sequences.
pub open spec fn mapping_view(m: Map<Seq<char>, Vec<String>>) -> Map<Seq<char>, Seq<Seq<char>>> {
    m.map_values(|v: Vec<String>| strings_view(v@))
}

/// A finding after enrichment: the identifiers mapped to its id, where the
/// mapping has its id; otherwise the finding as it was.
pub open spec fn enriched(f: FindingView, m: Map<Seq<char>, Seq<Seq<char>>>) -> FindingView {
    if m.contains_key(f.id) {
        FindingView { compliance: Some(m[f.id]), ..f }
    } else {
        f
    }
}

/// The mapping that the pairs give, a later pair for an id replacing an
/// earlier one.
pub open spec fn pairs_mapping(pairs: Seq<(String, Vec<String>)>) -> Map<Seq<char>, Vec<String>>
    decreases pairs.len(),
{
    if pairs.len() == 0 {
        Map::empty()
    } else {
        pairs_mapping(pairs.drop_last()).insert(pairs.last().0@, pairs.last().1)
    }
}

/// Build the mapping from finding ids to compliance identifiers.
pub fn mapping_from_pairs(pairs: Vec<(String, Vec<String>)>) -> (r: StringHashMap<Vec<String>>)
    ensures
        r@ == pairs_mapping(pairs@),
{
    let ghost all = pairs@;
    let mut m: StringHashMap<Vec<String>> = StringHashMap::new();
    for p in it: pairs.into_iter()
        invariant
            it.seq() == all,
            m@ == pairs_mapping(all.take(it.index() as int)),
    {
        assert(all.take(it.index() + 1).drop_last() =~= all.take(it.index() as int));
        assert(all.take(it.index() + 1).last() == p);
        let (id, ids) = p;
        m.insert(id, ids);
    }
    assert(all.take(all.len() as int) =~= all);
    m
}

/// Attach the compliance identifiers that `mapping` lists for the finding's id.
pub fn enrich_finding(finding: Findings, mapping: &StringHashMap<Vec<String>>) -> (r: Result<Findings, MsasError>)
    ensures
        r matches Ok(g) && g@ == enriched(finding@, mapping_view(mapping@)),
{
    let mut finding = finding;
    match mapping.get(finding.id.as_str()) {
        Some(ids) => {
            let copy = ids.clone();
            proof {
                assert(copy@ =~= ids@);
                assert(strings_view(copy@) =~= strings_view(ids@));
            }
            finding.compliance = Some(copy);
        },
        None => {},
    }
    Ok(finding)
}

/// Enrich every finding, in order.
pub fn enrich_findings(findings: Vec<Findings>, mapping: &StringHashMap<Vec<String>>) -> (r: Result<Vec<Findings>, MsasError>)
    ensures
        r matches Ok(v) && findings_view(v@) == findings_view(findings@).map_values(
            |f: FindingView| enriched(f, mapping_view(mapping@)),
        ),
{
    let mut out: Vec<Findings> = Vec::new();
    let ghost all = findings@;
    for f in it: findings.into_iter()
        invariant
            it.seq() == all,
            out@.len() == it.index(),
            forall|j: int| 0 <= j < it.index() ==> #[trigger] out@[j]@ == enriched(all[j]@, mapping_view(mapping@)),
    {
        let g = match enrich_finding(f, mapping) {
            Ok(g) => g,
            Err(e) => {
                return Err(e);
            },
        };
        out.push(g);
    }
    assert(findings_view(out@) =~= findings_view(all).map_values(
        |f: FindingView| enriched(f, mapping_view(mapping@)),
    ));
    Ok(out)
}

/// Enrichment changes nothing but the compliance identifiers, and only for a
/// finding whose id the mapping has.
pub proof fn law_enrichment_only_sets_compliance(f: FindingView, m: Map<Seq<char>, Seq<Seq<char>>>)
    ensures
        enriched(f, m).id == f.id,
        enriched(f, m).title == f.title,
        enriched(f, m).severity == f.severity,
        enriched(f, m).affected_resource == f.affected_resource,
        enriched(f, m).remediation == f.remediation,
        m.contains_key(f.id) ==> enriched(f, m).compliance == Some(m[f.id]),
        !m.contains_key(f.id) ==> enriched(f, m) == f,
{
}

/// Enriching twice with the same mapping is enriching once.
pub proof fn law_enrichment_idempotent(f: FindingView, m: Map<Seq<char>, Seq<Seq<char>>>)
    ensures
        enriched(enriched(f, m), m) == enriched(f, m),
{
}

} // verus!
