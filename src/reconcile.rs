//! Which catalog entries are installed: bidirectional containment between the
//! normalized match pattern and the case-folded package identifiers. Only the
//! identifier of an installed record takes part in matching.

use vstd::prelude::*;
use crate::model::{
    app_ids_unique, check_unique_app_ids, ids_unique, BloatwareApp, CatalogEntry, CatalogError, InstalledPackageRecord,
    ReconciledEntry, check_unique_ids,
};
use crate::text::{
    chars_of, contains_chars, is_substring, lower_of, lowercase, strip_wildcard_chars,
    strip_wildcards,
};

verus! {

/// A match pattern after case folding and removal of `*` wildcards.
pub open spec fn normalized_pattern(pattern: Seq<char>) -> Seq<char> {
    strip_wildcards(lower_of(pattern))
}

/// A normalized pattern and a case-folded identifier match when neither is
/// empty and one of them contains the other. An empty side would be contained
/// in everything, so it matches nothing.
pub open spec fn names_match(pattern: Seq<char>, identifier: Seq<char>) -> bool {
    &&& pattern.len() > 0
    &&& identifier.len() > 0
    &&& (is_substring(pattern, identifier) || is_substring(identifier, pattern))
}

/// Some installed record matches the (raw) match pattern.
pub open spec fn installed_by(pattern: Seq<char>, installed: Seq<InstalledPackageRecord>) -> bool {
    exists|k: int|
        0 <= k < installed.len() && #[trigger] names_match(
            normalized_pattern(pattern),
            lower_of(installed[k].identifier@),
        )
}

/// `result` is the reconciliation of `catalog` against `installed`: the same
/// entries in the same order, each with its installed status.
pub open spec fn reconciled(
    catalog: Seq<CatalogEntry>,
    installed: Seq<InstalledPackageRecord>,
    result: Seq<ReconciledEntry>,
) -> bool {
    &&& result.len() == catalog.len()
    &&& forall|i: int|
        0 <= i < catalog.len() ==> (#[trigger] result[i]).entry == catalog[i]
            && result[i].is_installed == installed_by(catalog[i].match_pattern@, installed)
}

/// Matching on already normalized text.
pub fn names_match_chars(pattern: &[char], identifier: &[char]) -> (r: bool)
    ensures
        r == names_match(pattern@, identifier@),
{
    if pattern.len() == 0 || identifier.len() == 0 {
        return false;
    }
    contains_chars(identifier, pattern) || contains_chars(pattern, identifier)
}

/// The normalized form of a match pattern.
pub fn normalize_pattern(pattern: &str) -> (r: Vec<char>)
    ensures
        r@ == normalized_pattern(pattern@),
{
    let lower = lowercase(pattern);
    let chars = chars_of(lower.as_str());
    strip_wildcard_chars(chars.as_slice())
}

/// Whether some installed record matches a normalized pattern.
pub fn any_record_matches(pattern: &[char], installed: &Vec<InstalledPackageRecord>) -> (r: bool)
    ensures
        r == exists|k: int|
            0 <= k < installed@.len() && #[trigger] names_match(
                pattern@,
                lower_of(installed@[k].identifier@),
            ),
{
    let mut k: usize = 0;
    while k < installed.len()
        invariant
            k <= installed@.len(),
            forall|t: int|
                0 <= t < k ==> !#[trigger] names_match(
                    pattern@,
                    lower_of(installed@[t].identifier@),
                ),
        decreases installed@.len() - k,
    {
        let lower = lowercase(installed[k].identifier.as_str());
        let identifier = chars_of(lower.as_str());
        if names_match_chars(pattern, identifier.as_slice()) {
            return true;
        }
        k = k + 1;
    }
    false
}

/// Whether an entry with this match pattern is installed.
pub fn pattern_installed(pattern: &str, installed: &Vec<InstalledPackageRecord>) -> (r: bool)
    ensures
        r == installed_by(pattern@, installed@),
{
    let normalized = normalize_pattern(pattern);
    any_record_matches(normalized.as_slice(), installed)
}

/// Marks each catalog entry installed or not, keeping the catalog's order.
/// A catalog with a repeated id is refused as a whole.
pub fn reconcile(catalog: &Vec<CatalogEntry>, installed: &Vec<InstalledPackageRecord>) -> (r: Result<
    Vec<ReconciledEntry>,
    CatalogError,
>)
    ensures
        r is Ok <==> ids_unique(catalog@),
        r matches Ok(v) ==> reconciled(catalog@, installed@, v@),
        r matches Err(CatalogError::DuplicateId(d)) ==> exists|i: int, j: int|
            0 <= i < j < catalog@.len() && catalog@[i].id@ == d@ && catalog@[j].id@ == d@,
{
    match check_unique_ids(catalog) {
        Err(e) => {
            return Err(e);
        },
        Ok(()) => {},
    }
    let mut out: Vec<ReconciledEntry> = Vec::new();
    let mut i: usize = 0;
    while i < catalog.len()
        invariant
            i <= catalog@.len(),
            out@.len() == i,
            forall|t: int|
                0 <= t < i ==> (#[trigger] out@[t]).entry == catalog@[t] && out@[t].is_installed
                    == installed_by(catalog@[t].match_pattern@, installed@),
        decreases catalog@.len() - i,
    {
        let is_installed = pattern_installed(catalog[i].match_pattern.as_str(), installed);
        out.push(ReconciledEntry { entry: catalog[i].copied(), is_installed });
        i = i + 1;
    }
    Ok(out)
}

/// `result` is `apps` with each installed flag recomputed against `installed`.
pub open spec fn apps_with_status(
    apps: Seq<BloatwareApp>,
    installed: Seq<InstalledPackageRecord>,
    result: Seq<BloatwareApp>,
) -> bool {
    &&& result.len() == apps.len()
    &&& forall|i: int|
        0 <= i < apps.len() ==> #[trigger] result[i] == (BloatwareApp {
            is_installed: installed_by(apps[i].package_pattern@, installed),
            ..apps[i]
        })
}

/// The application list with each application's installed status, keeping
/// the list's order. A list with a repeated id is refused as a whole.
pub fn bloatware_with_status(
    apps: &Vec<BloatwareApp>,
    installed: &Vec<InstalledPackageRecord>,
) -> (r: Result<Vec<BloatwareApp>, CatalogError>)
    ensures
        r is Ok <==> app_ids_unique(apps@),
        r matches Ok(v) ==> apps_with_status(apps@, installed@, v@),
        r matches Err(CatalogError::DuplicateId(d)) ==> exists|i: int, j: int|
            0 <= i < j < apps@.len() && apps@[i].id@ == d@ && apps@[j].id@ == d@,
{
    match check_unique_app_ids(apps) {
        Err(e) => {
            return Err(e);
        },
        Ok(()) => {},
    }
    let mut out: Vec<BloatwareApp> = Vec::new();
    let mut i: usize = 0;
    while i < apps.len()
        invariant
            i <= apps@.len(),
            out@.len() == i,
            forall|t: int|
                0 <= t < i ==> #[trigger] out@[t] == (BloatwareApp {
                    is_installed: installed_by(apps@[t].package_pattern@, installed@),
                    ..apps@[t]
                }),
        decreases apps@.len() - i,
    {
        let app = &apps[i];
        let is_installed = pattern_installed(app.package_pattern.as_str(), installed);
        out.push(
            BloatwareApp {
                id: app.id.clone(),
                name: app.name.clone(),
                description: app.description.clone(),
                safe: app.safe,
                package_pattern: app.package_pattern.clone(),
                is_installed,
            },
        );
        i = i + 1;
    }
    Ok(out)
}

/// Reconciliation is a function of its inputs: two results for the same
/// catalog and the same installed list are identical, installed flags
/// included.
pub proof fn reconcile_deterministic(
    catalog: Seq<CatalogEntry>,
    installed: Seq<InstalledPackageRecord>,
    first: Seq<ReconciledEntry>,
    second: Seq<ReconciledEntry>,
)
    requires
        reconciled(catalog, installed, first),
        reconciled(catalog, installed, second),
    ensures
        first == second,
{
    assert(first =~= second);
}

/// An entry whose pattern is empty once normalized is never reported
/// installed, whatever the installed list holds.
pub proof fn empty_pattern_never_installed(
    catalog: Seq<CatalogEntry>,
    installed: Seq<InstalledPackageRecord>,
    result: Seq<ReconciledEntry>,
)
    requires
        reconciled(catalog, installed, result),
    ensures
        forall|i: int|
            0 <= i < catalog.len() && normalized_pattern(catalog[i].match_pattern@).len() == 0
                ==> !#[trigger] result[i].is_installed,
{
}

/// Containment either way decides: an entry is installed exactly when some
/// installed identifier, case-folded, contains its normalized pattern or is
/// contained in it, neither side being empty.
pub proof fn containment_either_way(
    catalog: Seq<CatalogEntry>,
    installed: Seq<InstalledPackageRecord>,
    result: Seq<ReconciledEntry>,
    i: int,
)
    requires
        reconciled(catalog, installed, result),
        0 <= i < catalog.len(),
    ensures
        result[i].is_installed <==> exists|k: int|
            0 <= k < installed.len() && {
                let p = normalized_pattern(catalog[i].match_pattern@);
                let id = #[trigger] lower_of(installed[k].identifier@);
                p.len() > 0 && id.len() > 0 && (is_substring(p, id) || is_substring(id, p))
            },
{
    let p = normalized_pattern(catalog[i].match_pattern@);
    if result[i].is_installed {
        let k = choose|k: int|
            0 <= k < installed.len() && #[trigger] names_match(
                p,
                lower_of(installed[k].identifier@),
            );
        assert(names_match(p, lower_of(installed[k].identifier@)));
    } else {
        assert forall|k: int| 0 <= k < installed.len() implies !({
            let id = #[trigger] lower_of(installed[k].identifier@);
            p.len() > 0 && id.len() > 0 && (is_substring(p, id) || is_substring(id, p))
        }) by {
            assert(!names_match(p, lower_of(installed[k].identifier@)));
        }
    }
}

/// On the application list too, an application whose pattern is empty once
/// normalized is never reported installed.
pub proof fn empty_pattern_app_never_installed(
    apps: Seq<BloatwareApp>,
    installed: Seq<InstalledPackageRecord>,
    result: Seq<BloatwareApp>,
)
    requires
        apps_with_status(apps, installed, result),
    ensures
        forall|i: int|
            0 <= i < apps.len() && normalized_pattern(apps[i].package_pattern@).len() == 0
                ==> !#[trigger] result[i].is_installed,
{
    assert forall|i: int|
        0 <= i < apps.len() && normalized_pattern(apps[i].package_pattern@).len() == 0 implies !#[trigger] result[i].is_installed by {
        assert(result[i].is_installed == installed_by(apps[i].package_pattern@, installed));
    }
}

/// Against an empty installed list no entry is installed.
pub proof fn nothing_installed_on_empty_list(
    catalog: Seq<CatalogEntry>,
    installed: Seq<InstalledPackageRecord>,
    result: Seq<ReconciledEntry>,
)
    requires
        installed.len() == 0,
        reconciled(catalog, installed, result),
    ensures
        forall|i: int| 0 <= i < result.len() ==> !#[trigger] result[i].is_installed,
{
}

} // verus!
