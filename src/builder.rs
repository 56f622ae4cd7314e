//! Record assembly for items of the build archive page.

use vstd::prelude::*;
use crate::dates::{builder_date_of, parse_builder_date};
use crate::platform::{builder_arch, builder_arch_of, builder_os, builder_os_of};
use crate::release::{
    view_opt, views_of, BlenderRelease, CustomBlenderReleaseList, ReleaseDate, ReleaseView,
};
use crate::text::{contains_str, has_substring};
use crate::version::{builder_version, builder_version_of};

verus! {

/// What the record assembler reads from one list item of the build archive.
/// A field is `None` where its element or attribute is absent.
#[derive(Clone, Debug)]
pub struct BuilderItem {
    /// Whether the item holds a build-details list.
    pub has_details: bool,
    /// `title` of the first entry of the build-details list.
    pub date_title: Option<String>,
    /// `href` of the item's first link.
    pub link: Option<String>,
    /// Text of the entry titled "File extension".
    pub file_extension: Option<String>,
    /// Text of the entry titled "File size".
    pub file_size: Option<String>,
    /// Text of the build-variant marker.
    pub tag: Option<String>,
    /// `href` of the checksum link.
    pub checksum: Option<String>,
    /// Analytics label of the build title link, lowercased.
    pub label: Option<String>,
    /// Architecture label of the build meta, lowercased.
    pub architecture: Option<String>,
}

/// The text of an optional string.
pub open spec fn opt_view(o: Option<String>) -> Option<Seq<char>> {
    match o {
        Some(s) => Some(s@),
        None => None,
    }
}

/// The text of an optional field, empty where it is absent.
pub open spec fn text_or_empty(o: Option<Seq<char>>) -> Seq<char> {
    match o {
        Some(s) => s,
        None => Seq::<char>::empty(),
    }
}

/// What a build-archive item holds, as sequences.
pub struct BuilderItemView {
    pub has_details: bool,
    pub date_title: Option<Seq<char>>,
    pub link: Option<Seq<char>>,
    pub file_extension: Option<Seq<char>>,
    pub file_size: Option<Seq<char>>,
    pub tag: Option<Seq<char>>,
    pub checksum: Option<Seq<char>>,
    pub label: Option<Seq<char>>,
    pub architecture: Option<Seq<char>>,
}

impl View for BuilderItem {
    type V = BuilderItemView;

    open spec fn view(&self) -> BuilderItemView {
        BuilderItemView {
            has_details: self.has_details,
            date_title: opt_view(self.date_title),
            link: opt_view(self.link),
            file_extension: opt_view(self.file_extension),
            file_size: opt_view(self.file_size),
            tag: opt_view(self.tag),
            checksum: opt_view(self.checksum),
            label: opt_view(self.label),
            architecture: opt_view(self.architecture),
        }
    }
}

/// The views of a sequence of items.
pub open spec fn item_views(items: Seq<BuilderItem>) -> Seq<BuilderItemView> {
    items.map_values(|i: BuilderItem| i@)
}

/// Whether an analytics label marks a hidden checksum-only entry.
pub open spec fn is_checksum_label(label: Seq<char>) -> bool {
    has_substring(label, "sha256"@)
}

/// The record that a build-archive item yields, given its parsed date; `None`
/// where a required field is missing or the item is a checksum-only entry.
pub open spec fn builder_record_with(item: BuilderItemView, date: Option<ReleaseDate>) -> Option<ReleaseView> {
    if item.has_details && item.link is Some && item.file_extension is Some && item.file_size is Some
        && builder_version_of(item.link->0) is Some && date is Some && item.label is Some
        && !is_checksum_label(item.label->0) {
        let version = builder_version_of(item.link->0)->0;
        Some(
            ReleaseView {
                version: version.0,
                version_detail: version.1,
                download_link: item.link->0,
                download_type: item.file_extension->0,
                download_size: item.file_size->0,
                release_date: date->0,
                tag: match item.tag {
                    Some(t) => t,
                    None => "Unknown"@,
                },
                os: builder_os_of(item.label->0),
                arch: builder_arch_of(text_or_empty(item.architecture)),
                sha256: text_or_empty(item.checksum),
                ga_label: item.label->0,
            },
        )
    } else {
        None
    }
}

/// The date that a build-archive item carries.
pub open spec fn builder_date_field(item: BuilderItemView) -> Option<ReleaseDate> {
    match item.date_title {
        Some(t) => builder_date_of(t),
        None => None,
    }
}

/// The record that a build-archive item yields.
pub open spec fn builder_record(item: BuilderItemView) -> Option<ReleaseView> {
    builder_record_with(item, builder_date_field(item))
}

/// The records of a sequence of items, in order, skipping those that yield none.
pub open spec fn collect_builder(items: Seq<BuilderItemView>) -> Seq<ReleaseView>
    decreases items.len(),
{
    if items.len() == 0 {
        Seq::<ReleaseView>::empty()
    } else {
        let prev = collect_builder(items.drop_last());
        match builder_record(items.last()) {
            Some(v) => prev.push(v),
            None => prev,
        }
    }
}

/// What holds of every record taken from the build archive.
pub open spec fn builder_record_ok(v: ReleaseView) -> bool {
    &&& v.version.len() == 3
    &&& !is_checksum_label(v.ga_label)
    &&& v.os == builder_os_of(v.ga_label)
    &&& (v.os == "windows"@ || v.os == "darwin"@ || v.os == "linux"@ || v.os == "unknown"@)
    &&& (v.arch == "x86_64"@ || v.arch == "arm64"@ || v.arch == "unknown"@)
}

fn text_or_empty_exec(o: &Option<String>) -> (r: String)
    ensures
        r@ == text_or_empty(opt_view(*o)),
{
    match o {
        Some(s) => s.clone(),
        None => String::new(),
    }
}

/// Assembles the record of a build-archive item from its fields and its
/// parsed date.
pub fn builder_release_with_date(item: &BuilderItem, date: Option<ReleaseDate>) -> (r: Option<BlenderRelease>)
    ensures
        view_opt(r) == builder_record_with(item@, date),
{
    if !item.has_details {
        return None;
    }
    let link = match &item.link {
        Some(l) => l,
        None => return None,
    };
    let extension = match &item.file_extension {
        Some(e) => e,
        None => return None,
    };
    let size = match &item.file_size {
        Some(s) => s,
        None => return None,
    };
    let (version, detail) = match builder_version(link.as_str()) {
        Some(p) => p,
        None => return None,
    };
    let release_date = match date {
        Some(d) => d,
        None => return None,
    };
    let label = match &item.label {
        Some(l) => l,
        None => return None,
    };
    if contains_str(label.as_str(), "sha256") {
        return None;
    }
    let tag = match &item.tag {
        Some(t) => t.clone(),
        None => String::from_str("Unknown"),
    };
    let architecture = text_or_empty_exec(&item.architecture);
    let os = builder_os(label.as_str());
    let arch = builder_arch(architecture.as_str());
    let sha256 = text_or_empty_exec(&item.checksum);
    let r = BlenderRelease::new(
        version,
        detail,
        link.clone(),
        extension.clone(),
        size.clone(),
        release_date,
        tag,
        os,
        arch,
        sha256,
        label.clone(),
    );
    Some(r)
}

/// Assembles the record of a build-archive item, parsing its date.
pub fn builder_release(item: &BuilderItem) -> (r: Option<BlenderRelease>)
    ensures
        view_opt(r) == builder_record(item@),
{
    let date = match &item.date_title {
        Some(t) => parse_builder_date(t.as_str()),
        None => None,
    };
    builder_release_with_date(item, date)
}

/// An item without a build-details list yields no record: the collection
/// of a sequence of items is the same with such an item appended.
pub proof fn lemma_missing_details_skipped(items: Seq<BuilderItemView>, item: BuilderItemView)
    requires
        !item.has_details,
    ensures
        builder_record(item) is None,
        collect_builder(items.push(item)) == collect_builder(items),
{
    assert(items.push(item).drop_last() =~= items);
}

/// An item whose analytics label contains "sha256" yields no record, whatever
/// its other fields hold.
pub proof fn lemma_checksum_entry_skipped(items: Seq<BuilderItemView>, item: BuilderItemView)
    requires
        item.label matches Some(l) && is_checksum_label(l),
    ensures
        builder_record(item) is None,
        collect_builder(items.push(item)) == collect_builder(items),
{
    assert(items.push(item).drop_last() =~= items);
}

/// Every record of a build-archive item has a version triple, a normalised
/// platform and architecture, and an analytics label that is no checksum marker.
pub proof fn lemma_builder_record_ok(item: BuilderItemView)
    ensures
        builder_record(item) matches Some(v) ==> builder_record_ok(v),
{
    reveal_strlit("windows");
    reveal_strlit("darwin");
    reveal_strlit("linux");
    reveal_strlit("unknown");
}

/// Every record collected from the build archive satisfies `builder_record_ok`.
pub proof fn lemma_collected_builder_ok(items: Seq<BuilderItemView>)
    ensures
        forall|i: int| 0 <= i < collect_builder(items).len() ==> builder_record_ok(
            #[trigger] collect_builder(items)[i],
        ),
    decreases items.len(),
{
    if items.len() > 0 {
        let prev = collect_builder(items.drop_last());
        lemma_collected_builder_ok(items.drop_last());
        lemma_builder_record_ok(items.last());
        assert forall|i: int| 0 <= i < collect_builder(items).len() implies builder_record_ok(
            #[trigger] collect_builder(items)[i],
        ) by {
            if i < prev.len() {
                assert(collect_builder(items)[i] == prev[i]);
            }
        }
    }
}

impl CustomBlenderReleaseList {
    /// The records of the given build-archive items, in order, skipping the
    /// items that yield none.
    pub fn from_items(items: &Vec<BuilderItem>) -> (r: CustomBlenderReleaseList)
        ensures
            views_of(r.0.releases@) == collect_builder(item_views(items@)),
    {
        let ghost all = item_views(items@);
        let mut list = CustomBlenderReleaseList::new();
        let mut i: usize = 0;
        while i < items.len()
            invariant
                i <= items@.len(),
                all == item_views(items@),
                views_of(list.0.releases@) == collect_builder(all.take(i as int)),
            decreases items@.len() - i,
        {
            assert(all.take(i + 1).drop_last() =~= all.take(i as int));
            assert(all.take(i + 1).last() == items@[i as int]@);
            let ghost before = list.0.releases@;
            match builder_release(&items[i]) {
                Some(r) => {
                    list.0.releases.push(r);
                    assert(views_of(list.0.releases@) =~= views_of(before).push(r@));
                },
                None => {},
            }
            i = i + 1;
        }
        assert(all.take(items@.len() as int) =~= all);
        list
    }
}

} // verus!
