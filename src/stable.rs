//! Record assembly for items of the stable download page, whose date and
//! checksum stand in a per-platform info panel elsewhere in the page.

use vstd::prelude::*;
use crate::builder::{opt_view, text_or_empty};
use crate::dates::{parse_stable_date, stable_date_of};
use crate::platform::{stable_arch, stable_arch_of, stable_os, stable_os_of};
use crate::release::{view_opt, views_of, BlenderRelease, BlenderReleaseList, CustomBlenderReleaseList, ReleaseDate, ReleaseView};
use crate::text::str_eq;
use crate::version::{stable_download_type, stable_download_type_of, stable_version, stable_version_of};

verus! {

/// What the record assembler reads from one platform item of the stable page.
#[derive(Clone, Debug)]
pub struct StableItem {
    /// Text of the size caption.
    pub size: Option<String>,
    /// `href` of the item's first link.
    pub link: Option<String>,
    /// The item's `class` attribute.
    pub classes: Option<String>,
    /// Text of the build caption.
    pub caption: Option<String>,
}

/// What one platform's info panel holds.
#[derive(Clone, Debug)]
pub struct InfoPanel {
    /// Text of the panel's first caption, the release sentence.
    pub released: Option<String>,
    /// `href` of the panel's second checksum link.
    pub checksum: Option<String>,
}

/// The info panels of the stable page, one per platform.
#[derive(Clone, Debug)]
pub struct StablePanels {
    pub windows: InfoPanel,
    pub linux: InfoPanel,
    pub macos: InfoPanel,
    pub apple_silicon: InfoPanel,
}

/// What a stable-page item holds, as sequences.
pub struct StableItemView {
    pub size: Option<Seq<char>>,
    pub link: Option<Seq<char>>,
    pub classes: Option<Seq<char>>,
    pub caption: Option<Seq<char>>,
}

impl View for StableItem {
    type V = StableItemView;

    open spec fn view(&self) -> StableItemView {
        StableItemView {
            size: opt_view(self.size),
            link: opt_view(self.link),
            classes: opt_view(self.classes),
            caption: opt_view(self.caption),
        }
    }
}

/// What an info panel holds, as sequences.
pub struct InfoPanelView {
    pub released: Option<Seq<char>>,
    pub checksum: Option<Seq<char>>,
}

impl View for InfoPanel {
    type V = InfoPanelView;

    open spec fn view(&self) -> InfoPanelView {
        InfoPanelView { released: opt_view(self.released), checksum: opt_view(self.checksum) }
    }
}

/// What the four info panels hold, as sequences.
pub struct StablePanelsView {
    pub windows: InfoPanelView,
    pub linux: InfoPanelView,
    pub macos: InfoPanelView,
    pub apple_silicon: InfoPanelView,
}

impl View for StablePanels {
    type V = StablePanelsView;

    open spec fn view(&self) -> StablePanelsView {
        StablePanelsView {
            windows: self.windows@,
            linux: self.linux@,
            macos: self.macos@,
            apple_silicon: self.apple_silicon@,
        }
    }
}

/// The views of a sequence of items.
pub open spec fn stable_item_views(items: Seq<StableItem>) -> Seq<StableItemView> {
    items.map_values(|i: StableItem| i@)
}

/// The panel that describes the platform of an item.
pub open spec fn panel_of(item: StableItemView, panels: StablePanelsView) -> InfoPanelView {
    let os = stable_os_of(text_or_empty(item.classes));
    if stable_arch_of(text_or_empty(item.caption)) == "arm64"@ {
        panels.apple_silicon
    } else if os == "linux"@ {
        panels.linux
    } else if os == "mac"@ {
        panels.macos
    } else {
        panels.windows
    }
}

/// The release date that a panel gives: `now` where it has no release
/// sentence, and nothing where its sentence does not parse.
pub open spec fn panel_date(panel: InfoPanelView, now: ReleaseDate) -> Option<ReleaseDate> {
    match panel.released {
        Some(t) => stable_date_of(t),
        None => Some(now),
    }
}

/// The record that a stable-page item yields with the given panel and date.
pub open spec fn stable_record_with(item: StableItemView, panel: InfoPanelView, date: Option<ReleaseDate>) -> Option<ReleaseView> {
    if item.size is Some && item.link is Some && stable_version_of(item.link->0) is Some
        && date is Some {
        Some(
            ReleaseView {
                version: stable_version_of(item.link->0)->0,
                version_detail: Seq::<char>::empty(),
                download_link: item.link->0,
                download_type: stable_download_type_of(item.link->0),
                download_size: item.size->0,
                release_date: date->0,
                tag: "current-stable"@,
                os: stable_os_of(text_or_empty(item.classes)),
                arch: stable_arch_of(text_or_empty(item.caption)),
                sha256: text_or_empty(panel.checksum),
                ga_label: Seq::<char>::empty(),
            },
        )
    } else {
        None
    }
}

/// The record that a stable-page item yields.
pub open spec fn stable_record(item: StableItemView, panels: StablePanelsView, now: ReleaseDate) -> Option<ReleaseView> {
    let panel = panel_of(item, panels);
    stable_record_with(item, panel, panel_date(panel, now))
}

/// The records of a sequence of stable-page items, in order.
pub open spec fn collect_stable(items: Seq<StableItemView>, panels: StablePanelsView, now: ReleaseDate) -> Seq<ReleaseView>
    decreases items.len(),
{
    if items.len() == 0 {
        Seq::<ReleaseView>::empty()
    } else {
        let prev = collect_stable(items.drop_last(), panels, now);
        match stable_record(items.last(), panels, now) {
            Some(v) => prev.push(v),
            None => prev,
        }
    }
}

fn text_or_empty_ref(o: &Option<String>) -> (r: &str)
    ensures
        r@ == text_or_empty(opt_view(*o)),
{
    match o {
        Some(s) => s.as_str(),
        None => {
            proof {
                reveal_strlit("");
            }
            ""
        },
    }
}

/// Picks the info panel that describes the platform of an item.
pub fn select_panel<'a>(item: &StableItem, panels: &'a StablePanels) -> (r: &'a InfoPanel)
    ensures
        r@ == panel_of(item@, panels@),
{
    let os = stable_os(text_or_empty_ref(&item.classes));
    let arch = stable_arch(text_or_empty_ref(&item.caption));
    if str_eq(arch.as_str(), "arm64") {
        &panels.apple_silicon
    } else if str_eq(os.as_str(), "linux") {
        &panels.linux
    } else if str_eq(os.as_str(), "mac") {
        &panels.macos
    } else {
        &panels.windows
    }
}

/// Assembles the record of a stable-page item from its fields, its panel,
/// and the date that the panel gives.
pub fn stable_release_with_date(item: &StableItem, panel: &InfoPanel, date: Option<ReleaseDate>) -> (r: Option<BlenderRelease>)
    ensures
        view_opt(r) == stable_record_with(item@, panel@, date),
{
    let size = match &item.size {
        Some(s) => s,
        None => return None,
    };
    let link = match &item.link {
        Some(l) => l,
        None => return None,
    };
    let version = match stable_version(link.as_str()) {
        Some(v) => v,
        None => return None,
    };
    let release_date = match date {
        Some(d) => d,
        None => return None,
    };
    let os = stable_os(text_or_empty_ref(&item.classes));
    let arch = stable_arch(text_or_empty_ref(&item.caption));
    let sha256 = text_or_empty_ref(&panel.checksum).to_owned();
    Some(
        BlenderRelease::new(
            version,
            String::new(),
            link.clone(),
            stable_download_type(link.as_str()),
            size.clone(),
            release_date,
            String::from_str("current-stable"),
            os,
            arch,
            sha256,
            String::new(),
        ),
    )
}

/// Assembles the record of a stable-page item, reading the date from the
/// panel of its platform, or taking `now` where the panel has none.
pub fn stable_release(item: &StableItem, panels: &StablePanels, now: ReleaseDate) -> (r: Option<BlenderRelease>)
    ensures
        view_opt(r) == stable_record(item@, panels@, now),
{
    let panel = select_panel(item, panels);
    let date = match &panel.released {
        Some(t) => parse_stable_date(t.as_str()),
        None => Some(now),
    };
    stable_release_with_date(item, panel, date)
}

/// The records of the given stable-page items, in order.
pub fn stable_releases(items: &Vec<StableItem>, panels: &StablePanels, now: ReleaseDate) -> (r: CustomBlenderReleaseList)
    ensures
        views_of(r.0.releases@) == collect_stable(stable_item_views(items@), panels@, now),
{
    let ghost all = stable_item_views(items@);
    let mut releases: Vec<BlenderRelease> = Vec::new();
    let mut i: usize = 0;
    while i < items.len()
        invariant
            i <= items@.len(),
            all == stable_item_views(items@),
            views_of(releases@) == collect_stable(all.take(i as int), panels@, now),
        decreases items@.len() - i,
    {
        assert(all.take(i + 1).drop_last() =~= all.take(i as int));
        assert(all.take(i + 1).last() == items@[i as int]@);
        let ghost before = releases@;
        match stable_release(&items[i], panels, now) {
            Some(r) => {
                releases.push(r);
                assert(views_of(releases@) =~= views_of(before).push(r@));
            },
            None => {},
        }
        i = i + 1;
    }
    assert(all.take(items@.len() as int) =~= all);
    CustomBlenderReleaseList(BlenderReleaseList { releases })
}

} // verus!

verus! {

/// What holds of every record taken from the stable page.
pub open spec fn stable_record_ok(v: ReleaseView) -> bool {
    &&& v.version.len() == 3
    &&& v.tag == "current-stable"@
    &&& v.ga_label.len() == 0
    &&& (v.os == "windows"@ || v.os == "linux"@ || v.os == "mac"@ || v.os == "unknown"@)
    &&& (v.arch == "x86_64"@ || v.arch == "arm64"@)
}

/// Every record of a stable-page item satisfies `stable_record_ok`.
pub proof fn lemma_stable_record_ok(item: StableItemView, panels: StablePanelsView, now: ReleaseDate)
    ensures
        stable_record(item, panels, now) matches Some(v) ==> stable_record_ok(v),
{
}

/// Every record collected from the stable page satisfies `stable_record_ok`.
pub proof fn lemma_collected_stable_ok(items: Seq<StableItemView>, panels: StablePanelsView, now: ReleaseDate)
    ensures
        forall|i: int| 0 <= i < collect_stable(items, panels, now).len() ==> stable_record_ok(
            #[trigger] collect_stable(items, panels, now)[i],
        ),
    decreases items.len(),
{
    if items.len() > 0 {
        let prev = collect_stable(items.drop_last(), panels, now);
        lemma_collected_stable_ok(items.drop_last(), panels, now);
        lemma_stable_record_ok(items.last(), panels, now);
        assert forall|i: int| 0 <= i < collect_stable(items, panels, now).len() implies stable_record_ok(
            #[trigger] collect_stable(items, panels, now)[i],
        ) by {
            if i < prev.len() {
                assert(collect_stable(items, panels, now)[i] == prev[i]);
            }
        }
    }
}

} // verus!
