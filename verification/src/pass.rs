//! Planning one polling pass: each site's URL is checked for parseability;
//! sites whose URLs parse are lined up for probing in configuration order,
//! and the others are set aside with the parse error, to be reported as
//! warnings instead of being probed.

use vstd::prelude::*;
use crate::site::SiteDescriptor;

verus! {

/// What `hyper`'s URI parser answers for a given string: `None` when the
/// string parses as a URI, otherwise the parse error's description.
pub uninterp spec fn uri_error(s: Seq<char>) -> Option<Seq<char>>;

/// A string is a usable URL exactly when `hyper`'s URI parser accepts it.
pub open spec fn uri_ok(s: Seq<char>) -> bool {
    uri_error(s) is None
}

/// A site's URL parses.
pub open spec fn site_ok(s: SiteDescriptor) -> bool {
    uri_ok(s.url@)
}

/// A site's URL does not parse.
pub open spec fn site_bad(s: SiteDescriptor) -> bool {
    !uri_ok(s.url@)
}

/// Relies on `hyper::Uri`'s `FromStr` impl, and on its error's `Display`:
/// whether a string parses as a URI, and the message reported when it does
/// not, depend on the string alone.
#[verifier::external_body]
fn check_url(s: &str) -> (r: Option<String>)
    ensures
        r is None <==> uri_error(s@) is None,
        r matches Some(m) ==> uri_error(s@) == Some(m@),
{
    match s.parse::<hyper::Uri>() {
        Ok(_) => None,
        Err(e) => Some(e.to_string()),
    }
}

/// A site left out of a pass because its URL does not parse.
pub struct SkippedSite {
    pub name: String,
    pub url: String,
    /// The URL parse error's description.
    pub detail: String,
}

/// The plan for one pass: the sites to probe, in configuration order, and
/// the sites skipped because their URLs do not parse.
pub struct PassPlan {
    pub probes: Vec<SiteDescriptor>,
    pub skipped: Vec<SkippedSite>,
}

/// Filtering a sequence extended by one element keeps the filtered prefix
/// and appends the new element exactly when it satisfies the predicate.
proof fn lemma_filter_push<A>(s: Seq<A>, pred: spec_fn(A) -> bool, x: A)
    ensures
        s.push(x).filter(pred) == if pred(x) {
            s.filter(pred).push(x)
        } else {
            s.filter(pred)
        },
{
    reveal(Seq::filter);
    assert(s.push(x).drop_last() =~= s);
    assert(s.push(x).last() == x);
}

/// Splits a list of sites into those whose URLs parse (to be probed, in
/// order) and those whose URLs do not (skipped, in order, each with the
/// parse error's description). Every site lands in exactly one of the two.
pub fn plan_pass(sites: Vec<SiteDescriptor>) -> (plan: PassPlan)
    ensures
        plan.probes@ == sites@.filter(|s: SiteDescriptor| site_ok(s)),
        plan.probes@.len() + plan.skipped@.len() == sites@.len(),
        plan.skipped@.map_values(|k: SkippedSite| (k.name, k.url)) == sites@.filter(
            |s: SiteDescriptor| site_bad(s),
        ).map_values(|s: SiteDescriptor| (s.name, s.url)),
        forall|j: int|
            0 <= j < plan.skipped@.len() ==> uri_error((#[trigger] plan.skipped@[j]).url@)
                == Some(plan.skipped@[j].detail@),
{
    let ghost orig = sites@;
    let mut rest = sites;
    let mut probes: Vec<SiteDescriptor> = Vec::new();
    let mut skipped: Vec<SkippedSite> = Vec::new();
    let ghost mut done: int = 0;
    while rest.len() > 0
        invariant
            0 <= done,
            done + rest@.len() == orig.len(),
            rest@ == orig.skip(done),
            probes@ == orig.take(done).filter(|s: SiteDescriptor| site_ok(s)),
            probes@.len() + skipped@.len() == done,
            skipped@.map_values(|k: SkippedSite| (k.name, k.url)) == orig.take(
                done,
            ).filter(|s: SiteDescriptor| site_bad(s)).map_values(
                |s: SiteDescriptor| (s.name, s.url),
            ),
            forall|j: int|
                0 <= j < skipped@.len() ==> uri_error((#[trigger] skipped@[j]).url@)
                    == Some(skipped@[j].detail@),
        decreases rest@.len(),
    {
        let site = rest.remove(0);
        proof {
            assert(site == orig[done]);
            assert(orig.take(done + 1) =~= orig.take(done).push(site));
            lemma_filter_push(orig.take(done), |s: SiteDescriptor| site_ok(s), site);
            lemma_filter_push(orig.take(done), |s: SiteDescriptor| site_bad(s), site);
        }
        let ghost old_skipped_pairs = skipped@.map_values(|k: SkippedSite| (k.name, k.url));
        match check_url(site.url.as_str()) {
            None => {
                probes.push(site);
            },
            Some(detail) => {
                let entry = SkippedSite { name: site.name, url: site.url, detail };
                skipped.push(entry);
                proof {
                    assert(skipped@.map_values(|k: SkippedSite| (k.name, k.url))
                        =~= old_skipped_pairs.push((skipped@.last().name, skipped@.last().url)));
                }
            },
        }
        proof {
            assert(orig.take(done).filter(|s: SiteDescriptor| site_bad(s)).push(
                site,
            ).map_values(|s: SiteDescriptor| (s.name, s.url)) =~= orig.take(
                done,
            ).filter(|s: SiteDescriptor| site_bad(s)).map_values(
                |s: SiteDescriptor| (s.name, s.url),
            ).push((site.name, site.url)));
            assert(rest@ =~= orig.skip(done + 1));
        }
        proof {
            done = done + 1;
        }
    }
    proof {
        assert(orig.take(done) =~= orig);
    }
    PassPlan { probes, skipped }
}

/// When every site's URL parses, nothing is skipped: the pass probes the
/// whole site list, unchanged and in order, and so yields one report entry
/// for each configured site.
pub proof fn lemma_all_parseable_all_probed(sites: Seq<SiteDescriptor>)
    requires
        forall|i: int| 0 <= i < sites.len() ==> site_ok(#[trigger] sites[i]),
    ensures
        sites.filter(|s: SiteDescriptor| site_ok(s)) == sites,
    decreases sites.len(),
{
    reveal(Seq::filter);
    if sites.len() > 0 {
        assert(site_ok(sites[sites.len() - 1]));
        lemma_all_parseable_all_probed(sites.drop_last());
        assert(sites.filter(|s: SiteDescriptor| site_ok(s)) =~= sites);
    }
}

} // verus!
