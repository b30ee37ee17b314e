use vstd::prelude::*;

use crate::text::{ends_with, has_suffix};

verus! {

/// One downloadable file of a published release.
#[derive(Clone, Debug)]
pub struct Asset {
    pub name: String,
    pub browser_download_url: String,
}

/// The metadata of a published release: its tag and its files, in the
/// order the endpoint lists them.
#[derive(Clone, Debug)]
pub struct Release {
    pub tag_name: String,
    pub assets: Vec<Asset>,
}

/// The names of a list of assets.
pub open spec fn asset_names(assets: Seq<Asset>) -> Seq<Seq<char>> {
    assets.map_values(|a: Asset| a.name@)
}

/// The first index at or after `i` whose name ends with `suffix`.
pub open spec fn first_match_from(names: Seq<Seq<char>>, suffix: Seq<char>, i: int) -> Option<int>
    decreases names.len() - i,
{
    if i < 0 || i >= names.len() {
        None
    } else if has_suffix(names[i], suffix) {
        Some(i)
    } else {
        first_match_from(names, suffix, i + 1)
    }
}

/// The first index whose name ends with `suffix`.
pub open spec fn first_match(names: Seq<Seq<char>>, suffix: Seq<char>) -> Option<int> {
    first_match_from(names, suffix, 0)
}

/// Index of the first asset whose name ends with `suffix`, or `None` when
/// no asset does.
pub fn select_asset(assets: &Vec<Asset>, suffix: &str) -> (r: Option<usize>)
    ensures
        r matches Some(i) ==> i < assets@.len() && first_match(asset_names(assets@), suffix@) == Some(i as int),
        r is None ==> first_match(asset_names(assets@), suffix@) is None,
{
    let ghost names = asset_names(assets@);
    let mut i: usize = 0;
    while i < assets.len()
        invariant
            names == asset_names(assets@),
            i <= assets@.len(),
            first_match(names, suffix@) == first_match_from(names, suffix@, i as int),
        decreases assets@.len() - i,
    {
        if ends_with(assets[i].name.as_str(), suffix) {
            return Some(i);
        }
        i = i + 1;
    }
    None
}

/// The selected asset is the first in list order whose name ends with the
/// suffix; when none is selected, no name ends with it.
pub proof fn lemma_first_match(names: Seq<Seq<char>>, suffix: Seq<char>)
    ensures
        first_match(names, suffix) matches Some(i) ==> 0 <= i < names.len() && has_suffix(names[i], suffix)
            && forall|j: int| 0 <= j < i ==> !has_suffix(#[trigger] names[j], suffix),
        first_match(names, suffix) is None ==> forall|j: int|
            0 <= j < names.len() ==> !has_suffix(#[trigger] names[j], suffix),
{
    lemma_first_match_from(names, suffix, 0);
}

proof fn lemma_first_match_from(names: Seq<Seq<char>>, suffix: Seq<char>, k: int)
    requires
        0 <= k <= names.len(),
    ensures
        first_match_from(names, suffix, k) matches Some(i) ==> k <= i < names.len() && has_suffix(names[i], suffix)
            && forall|j: int| k <= j < i ==> !has_suffix(#[trigger] names[j], suffix),
        first_match_from(names, suffix, k) is None ==> forall|j: int|
            k <= j < names.len() ==> !has_suffix(#[trigger] names[j], suffix),
    decreases names.len() - k,
{
    if k < names.len() && !has_suffix(names[k], suffix) {
        lemma_first_match_from(names, suffix, k + 1);
    }
}

/// Selection is deterministic: two indices that are both a first suffix
/// match of the same list are the same index.
pub proof fn lemma_selection_deterministic(names: Seq<Seq<char>>, suffix: Seq<char>, i1: int, i2: int)
    requires
        0 <= i1 < names.len(),
        0 <= i2 < names.len(),
        has_suffix(names[i1], suffix),
        has_suffix(names[i2], suffix),
        forall|j: int| 0 <= j < i1 ==> !has_suffix(#[trigger] names[j], suffix),
        forall|j: int| 0 <= j < i2 ==> !has_suffix(#[trigger] names[j], suffix),
    ensures
        i1 == i2,
        first_match(names, suffix) == Some(i1),
{
    lemma_first_match(names, suffix);
}

} // verus!
