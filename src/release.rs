//! The release model, the API's wire records, and the mapping between them.
use vstd::prelude::*;
use vstd::std_specs::iter::IteratorSpec;
use crate::text::{contains, signed_decimal, str_contains, concat, i64_to_text};

verus! {

/// One downloadable artifact of a release.
#[derive(Debug)]
pub struct ReleaseAsset {
    pub name: String,
    pub download_url: String,
}

/// One published version.
#[derive(Debug)]
pub struct Release {
    pub name: String,
    pub version: String,
    pub date: String,
    pub body: Option<String>,
    pub assets: Vec<ReleaseAsset>,
}

/// The API's own record of a published binary.
#[derive(Debug)]
pub struct Soft {
    pub id: i64,
    pub binary_id: i64,
    pub name: Option<String>,
    pub hash: Option<String>,
    pub version: Option<String>,
    pub create_time: Option<String>,
}

/// The wrapper the API puts around every answer.
#[derive(Debug)]
pub struct NetResponse<T> {
    pub is_success: bool,
    pub content: T,
    pub error_mesg: Option<String>,
}

/// An asset as plain text.
pub struct AssetView {
    pub name: Seq<char>,
    pub download_url: Seq<char>,
}

/// A release as plain text.
pub struct ReleaseView {
    pub name: Seq<char>,
    pub version: Seq<char>,
    pub date: Seq<char>,
    pub body: Option<Seq<char>>,
    pub assets: Seq<AssetView>,
}

impl View for ReleaseAsset {
    type V = AssetView;

    open spec fn view(&self) -> AssetView {
        AssetView { name: self.name@, download_url: self.download_url@ }
    }
}

pub open spec fn opt_text(o: Option<String>) -> Option<Seq<char>> {
    match o {
        Some(s) => Some(s@),
        None => None,
    }
}

impl View for Release {
    type V = ReleaseView;

    open spec fn view(&self) -> ReleaseView {
        ReleaseView {
            name: self.name@,
            version: self.version@,
            date: self.date@,
            body: opt_text(self.body),
            assets: self.assets@.map_values(|a: ReleaseAsset| a@),
        }
    }
}

/// Some asset's name holds `target`.
pub open spec fn has_target(r: ReleaseView, target: Seq<char>) -> bool {
    exists|i: int| 0 <= i < r.assets.len() && contains(#[trigger] r.assets[i].name, target)
}

/// The releases of `rels` that have an asset for `target`, in order.
pub open spec fn keep_for_target(rels: Seq<ReleaseView>, target: Seq<char>) -> Seq<ReleaseView>
    decreases rels.len(),
{
    if rels.len() == 0 {
        Seq::empty()
    } else {
        let init = keep_for_target(rels.drop_last(), target);
        if has_target(rels.last(), target) {
            init.push(rels.last())
        } else {
            init
        }
    }
}

/// `rels` narrowed to `target` when one is given.
pub open spec fn filter_target(rels: Seq<ReleaseView>, target: Option<Seq<char>>) -> Seq<ReleaseView> {
    match target {
        Some(t) => keep_for_target(rels, t),
        None => rels,
    }
}

/// Where the API serves the binary with this id.
pub open spec fn download_url_for(root: Seq<char>, binary_id: i64) -> Seq<char> {
    root + "/api/binaryfile/download?id="@ + signed_decimal(binary_id as int)
}

/// The record names both the binary and its version.
pub open spec fn record_complete(s: Soft) -> bool {
    s.name is Some && s.version is Some
}

/// The release a complete record stands for.
pub open spec fn record_release(s: Soft, root: Seq<char>) -> ReleaseView {
    ReleaseView {
        name: s.name->Some_0@,
        version: s.version->Some_0@,
        date: match s.create_time {
            Some(t) => t@,
            None => Seq::empty(),
        },
        body: None,
        assets: seq![AssetView { name: s.name->Some_0@, download_url: download_url_for(root, s.binary_id) }],
    }
}

/// Every record of the batch is complete.
pub open spec fn all_complete(records: Seq<Soft>) -> bool {
    forall|i: int| 0 <= i < records.len() ==> record_complete(#[trigger] records[i])
}

/// The releases a batch of complete records stands for.
pub open spec fn records_releases(records: Seq<Soft>, root: Seq<char>) -> Seq<ReleaseView> {
    records.map_values(|s: Soft| record_release(s, root))
}

pub open spec fn releases_view(v: Seq<Release>) -> Seq<ReleaseView> {
    v.map_values(|r: Release| r@)
}

fn copy_text(s: &String) -> (r: String)
    ensures
        r@ == s@,
{
    s.clone()
}

impl Release {
    /// Whether some asset of this release is meant for `target`: its name
    /// holds `target`.
    pub fn has_target_asset(&self, target: &str) -> (r: bool)
        ensures
            r == has_target(self@, target@),
    {
        let mut i: usize = 0;
        while i < self.assets.len()
            invariant
                i <= self.assets.len(),
                forall|k: int| 0 <= k < i ==> !contains(#[trigger] self@.assets[k].name, target@),
            decreases self.assets.len() - i,
        {
            if str_contains(&self.assets[i].name, target) {
                assert(contains(self@.assets[i as int].name, target@));
                return true;
            }
            i = i + 1;
        }
        false
    }
}

/// Maps an API record into a release under the API root `root_url`; `None`
/// when the record lacks a name or a version.
pub fn from_cloud(soft: &Soft, root_url: &str) -> (r: Option<Release>)
    ensures
        r is Some <==> record_complete(*soft),
        r matches Some(rel) ==> rel@ == record_release(*soft, root_url@),
        r matches Some(rel) ==> rel.assets.len() == 1
            && rel.assets[0].download_url@ == download_url_for(root_url@, soft.binary_id),
{
    match (&soft.name, &soft.version) {
        (Some(name), Some(version)) => {
            let base = concat(root_url, "/api/binaryfile/download?id=");
            let id_text = i64_to_text(soft.binary_id);
            let url = concat(base.as_str(), id_text.as_str());
            let mut assets: Vec<ReleaseAsset> = Vec::new();
            assets.push(ReleaseAsset { name: copy_text(name), download_url: url });
            let date = match &soft.create_time {
                Some(t) => copy_text(t),
                None => String::new(),
            };
            let rel = Release {
                name: copy_text(name),
                version: copy_text(version),
                date,
                body: None,
                assets,
            };
            assert(rel@.assets =~= record_release(*soft, root_url@).assets);
            assert(rel@ =~= record_release(*soft, root_url@));
            Some(rel)
        },
        _ => None,
    }
}

/// Maps a whole batch of records under `root_url`, fail-fast: `None` as
/// soon as one record is incomplete.
pub fn map_records(records: &Vec<Soft>, root_url: &str) -> (r: Option<Vec<Release>>)
    ensures
        r is Some <==> all_complete(records@),
        r matches Some(v) ==> releases_view(v@) == records_releases(records@, root_url@),
{
    let mut out: Vec<Release> = Vec::new();
    let mut i: usize = 0;
    while i < records.len()
        invariant
            i <= records.len(),
            all_complete(records@.take(i as int)),
            releases_view(out@) == records_releases(records@.take(i as int), root_url@),
        decreases records.len() - i,
    {
        let ghost prev = records@.take(i as int);
        let ghost next = records@.take(i + 1);
        assert(records_releases(next, root_url@) =~= records_releases(prev, root_url@).push(
            record_release(records@[i as int], root_url@),
        ));
        match from_cloud(&records[i], root_url) {
            None => {
                assert(!all_complete(records@));
                return None;
            },
            Some(rel) => {
                let ghost old_out = out@;
                out.push(rel);
                assert(releases_view(out@) =~= releases_view(old_out).push(rel@));
                assert(all_complete(next));
            },
        }
        i = i + 1;
    }
    assert(records@.take(i as int) =~= records@);
    Some(out)
}

/// The releases that have an asset for `target`, in their order. No match
/// gives an empty list.
pub fn filter_by_target(releases: Vec<Release>, target: &str) -> (r: Vec<Release>)
    ensures
        releases_view(r@) == keep_for_target(releases_view(releases@), target@),
{
    let ghost all = releases@;
    let mut out: Vec<Release> = Vec::new();
    for rel in it: releases.into_iter()
        invariant
            it.seq() == all,
            releases_view(out@) == keep_for_target(releases_view(all.take(it.index())), target@),
    {
        let ghost prev = all.take(it.index());
        let ghost next = all.take(it.index() + 1);
        assert(releases_view(next).drop_last() =~= releases_view(prev));
        assert(releases_view(next).last() == rel@);
        let ghost old_out = out@;
        if rel.has_target_asset(target) {
            out.push(rel);
            assert(releases_view(out@) =~= releases_view(old_out).push(rel@));
        }
    }
    assert(all.take(all.len() as int) =~= all);
    out
}

} // verus!
