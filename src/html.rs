//! Reading the two download pages. The document tree and its selector engine
//! come from scraper, behind wrappers that take the page text and the
//! selectors and return plain values; which selectors are asked, and how their
//! answers become items, is verified here.

use vstd::prelude::*;
use scraper::{Html, Selector};
use crate::builder::{
    builder_record_ok, collect_builder, item_views, lemma_collected_builder_ok, opt_view,
    BuilderItem, BuilderItemView,
};
use crate::dates::now_utc;
use crate::release::{views_of, CustomBlenderReleaseList, ReleaseDate};
use crate::stable::{
    collect_stable, lemma_collected_stable_ok, stable_item_views, stable_record_ok,
    stable_releases, InfoPanel, InfoPanelView, StableItem, StableItemView, StablePanels,
    StablePanelsView,
};

verus! {

/// What `str::to_lowercase` makes of a text.
pub uninterp spec fn lower_of(s: Seq<char>) -> Seq<char>;

/// How many elements of the page match `item_css`.
pub uninterp spec fn item_count_of(page: Seq<char>, item_css: Seq<char>) -> nat;

/// For each element matching `item_css`, the text of its first descendant
/// matching `field_css`.
pub uninterp spec fn item_texts_of(page: Seq<char>, item_css: Seq<char>, field_css: Seq<char>) -> Seq<Option<Seq<char>>>;

/// For each element matching `item_css`, the attribute `attr` of its first
/// descendant matching `field_css`.
pub uninterp spec fn item_attrs_of(
    page: Seq<char>,
    item_css: Seq<char>,
    field_css: Seq<char>,
    attr: Seq<char>,
) -> Seq<Option<Seq<char>>>;

/// For each element matching `item_css`, its own attribute `attr`.
pub uninterp spec fn own_attrs_of(page: Seq<char>, item_css: Seq<char>, attr: Seq<char>) -> Seq<Option<Seq<char>>>;

/// For each element matching `item_css`: `None` where it has no descendant
/// matching `outer_css`; else the attribute `attr` of the first descendant
/// matching `inner_css` inside the first such descendant.
pub uninterp spec fn nested_attrs_of(
    page: Seq<char>,
    item_css: Seq<char>,
    outer_css: Seq<char>,
    inner_css: Seq<char>,
    attr: Seq<char>,
) -> Seq<Option<Option<Seq<char>>>>;

/// The texts of the elements of the page that match `css`, in document order.
pub uninterp spec fn page_texts_of(page: Seq<char>, css: Seq<char>) -> Seq<Seq<char>>;

/// The attribute `attr` of each element of the page that matches `css`.
pub uninterp spec fn page_attrs_of(page: Seq<char>, css: Seq<char>, attr: Seq<char>) -> Seq<Option<Seq<char>>>;

/// The texts of a sequence of optional strings.
pub open spec fn opt_views(s: Seq<Option<String>>) -> Seq<Option<Seq<char>>> {
    s.map_values(|o: Option<String>| opt_view(o))
}

/// The texts of a sequence of doubly optional strings.
pub open spec fn nested_views(s: Seq<Option<Option<String>>>) -> Seq<Option<Option<Seq<char>>>> {
    s.map_values(
        |o: Option<Option<String>>|
            match o {
                Some(x) => Some(opt_view(x)),
                None => None,
            },
    )
}

/// Relies on `str::to_lowercase`: the result depends on the characters alone.
#[verifier::external_body]
fn lowercase(s: &str) -> (r: String)
    ensures
        r@ == lower_of(s@),
{
    s.to_lowercase()
}

/// Relies on scraper: `Html::parse_document`, `Html::select` (document order),
/// `ElementRef::select` and `ElementRef::text`. A selector that
/// `Selector::parse` refuses matches nothing.
#[verifier::external_body]
fn item_texts(page: &str, item_css: &str, field_css: &str) -> (r: Vec<Option<String>>)
    ensures
        r@.len() == item_count_of(page@, item_css@),
        opt_views(r@) == item_texts_of(page@, item_css@, field_css@),
{
    let doc = Html::parse_document(page);
    let field = Selector::parse(field_css).ok();
    let mut out = Vec::new();
    if let Ok(items) = Selector::parse(item_css) {
        for e in doc.select(&items) {
            let found = match &field { Some(f) => e.select(f).next(), None => None };
            out.push(found.map(|f| f.text().collect::<String>()));
        }
    }
    out
}

/// Relies on scraper: `Html::parse_document`, `Html::select` (document order),
/// `ElementRef::select` and `ElementRef::attr`. A selector that
/// `Selector::parse` refuses matches nothing.
#[verifier::external_body]
fn item_attrs(page: &str, item_css: &str, field_css: &str, attr: &str) -> (r: Vec<Option<String>>)
    ensures
        r@.len() == item_count_of(page@, item_css@),
        opt_views(r@) == item_attrs_of(page@, item_css@, field_css@, attr@),
{
    let doc = Html::parse_document(page);
    let field = Selector::parse(field_css).ok();
    let mut out = Vec::new();
    if let Ok(items) = Selector::parse(item_css) {
        for e in doc.select(&items) {
            let found = match &field { Some(f) => e.select(f).next(), None => None };
            out.push(found.and_then(|f| f.attr(attr)).map(|v| v.to_string()));
        }
    }
    out
}

/// Relies on scraper: `Html::parse_document`, `Html::select` (document order)
/// and `ElementRef::attr`. A selector that `Selector::parse` refuses matches
/// nothing.
#[verifier::external_body]
fn own_attrs(page: &str, item_css: &str, attr: &str) -> (r: Vec<Option<String>>)
    ensures
        r@.len() == item_count_of(page@, item_css@),
        opt_views(r@) == own_attrs_of(page@, item_css@, attr@),
{
    let doc = Html::parse_document(page);
    let mut out = Vec::new();
    if let Ok(items) = Selector::parse(item_css) {
        for e in doc.select(&items) {
            out.push(e.attr(attr).map(|v| v.to_string()));
        }
    }
    out
}

/// Relies on scraper: `Html::parse_document`, `Html::select` (document order),
/// `ElementRef::select` and `ElementRef::attr`. A selector that
/// `Selector::parse` refuses matches nothing.
#[verifier::external_body]
fn nested_attrs(page: &str, item_css: &str, outer_css: &str, inner_css: &str, attr: &str) -> (r: Vec<Option<Option<String>>>)
    ensures
        r@.len() == item_count_of(page@, item_css@),
        nested_views(r@) == nested_attrs_of(page@, item_css@, outer_css@, inner_css@, attr@),
{
    let doc = Html::parse_document(page);
    let (outer, inner) = (Selector::parse(outer_css).ok(), Selector::parse(inner_css).ok());
    let mut out = Vec::new();
    if let Ok(items) = Selector::parse(item_css) {
        for e in doc.select(&items) {
            let o = match &outer { Some(s) => e.select(s).next(), None => None };
            let i = o.and_then(|o| match &inner { Some(s) => o.select(s).next(), None => None });
            out.push(o.map(|_| i.and_then(|i| i.attr(attr)).map(|v| v.to_string())));
        }
    }
    out
}

/// Relies on scraper: `Html::parse_document`, `Html::select` (document order)
/// and `ElementRef::text`. A selector that `Selector::parse` refuses matches
/// nothing.
#[verifier::external_body]
fn page_texts(page: &str, css: &str) -> (r: Vec<String>)
    ensures
        r@.map_values(|t: String| t@) == page_texts_of(page@, css@),
{
    let doc = Html::parse_document(page);
    let mut out = Vec::new();
    if let Ok(sel) = Selector::parse(css) {
        for e in doc.select(&sel) {
            out.push(e.text().collect::<String>());
        }
    }
    out
}

/// Relies on scraper: `Html::parse_document`, `Html::select` (document order)
/// and `ElementRef::attr`. A selector that `Selector::parse` refuses matches
/// nothing.
#[verifier::external_body]
fn page_attrs(page: &str, css: &str, attr: &str) -> (r: Vec<Option<String>>)
    ensures
        opt_views(r@) == page_attrs_of(page@, css@, attr@),
{
    let doc = Html::parse_document(page);
    let mut out = Vec::new();
    if let Ok(sel) = Selector::parse(css) {
        for e in doc.select(&sel) {
            out.push(e.attr(attr).map(|v| v.to_string()));
        }
    }
    out
}

/// The lowercase form of an optional text.
pub open spec fn lower_opt(o: Option<Seq<char>>) -> Option<Seq<char>> {
    match o {
        Some(s) => Some(lower_of(s)),
        None => None,
    }
}

/// The items of a build archive page: its `.builds-list > li` elements, in
/// document order, each read through the item selectors.
pub open spec fn builder_items_of(page: Seq<char>) -> Seq<BuilderItemView> {
    let item = ".builds-list > li"@;
    let details = nested_attrs_of(page, item, "ul.build-details"@, "li:first-child"@, "title"@);
    Seq::new(
        item_count_of(page, item),
        |i: int|
            BuilderItemView {
                has_details: details[i] is Some,
                date_title: match details[i] {
                    Some(t) => t,
                    None => None,
                },
                link: item_attrs_of(page, item, "a:first-child"@, "href"@)[i],
                file_extension: item_texts_of(page, item, "li[title='File extension']"@)[i],
                file_size: item_texts_of(page, item, "li[title='File size']"@)[i],
                tag: item_texts_of(page, item, ".build-var"@)[i],
                checksum: item_attrs_of(page, item, "a.sha"@, "href"@)[i],
                label: lower_opt(item_attrs_of(page, item, "a.build-title"@, "ga_label"@)[i]),
                architecture: lower_opt(
                    item_texts_of(page, item, ".build-meta span.build-architecture[title='Architecture']"@)[i],
                ),
            },
    )
}

/// The platform items of the stable page: its `#menu-other-platforms li.os`
/// elements, in document order.
pub open spec fn stable_items_of(page: Seq<char>) -> Seq<StableItemView> {
    let item = "#menu-other-platforms li.os"@;
    Seq::new(
        item_count_of(page, item),
        |i: int|
            StableItemView {
                size: item_texts_of(page, item, "span.size"@)[i],
                link: item_attrs_of(page, item, "a"@, "href"@)[i],
                classes: own_attrs_of(page, item, "class"@)[i],
                caption: item_texts_of(page, item, "span.build"@)[i],
            },
    )
}

/// One info panel of the stable page: the text of the first element matching
/// `caption_css`, and the target of the second element matching `checksum_css`.
pub open spec fn panel_of_page(page: Seq<char>, caption_css: Seq<char>, checksum_css: Seq<char>) -> InfoPanelView {
    let captions = page_texts_of(page, caption_css);
    let sums = page_attrs_of(page, checksum_css, "href"@);
    InfoPanelView {
        released: if captions.len() > 0 {
            Some(captions[0])
        } else {
            None
        },
        checksum: if sums.len() > 1 {
            sums[1]
        } else {
            None
        },
    }
}

/// The four info panels of the stable page.
pub open spec fn stable_panels_of(page: Seq<char>) -> StablePanelsView {
    StablePanelsView {
        windows: panel_of_page(page, "#menu-info-windows > small"@, "#menu-info-windows > small.checksum a"@),
        linux: panel_of_page(page, "#menu-info-linux > small"@, "#menu-info-linux > small.checksum a"@),
        macos: panel_of_page(page, "#menu-info-macos > small"@, "#menu-info-macos > small.checksum a"@),
        apple_silicon: panel_of_page(
            page,
            "#menu-info-macos-apple-silicon > small"@,
            "#menu-info-macos-apple-silicon > small.checksum a"@,
        ),
    }
}

fn clone_opt(o: &Option<String>) -> (r: Option<String>)
    ensures
        opt_view(r) == opt_view(*o),
{
    match o {
        Some(s) => Some(s.clone()),
        None => None,
    }
}

fn lowercase_opt(o: &Option<String>) -> (r: Option<String>)
    ensures
        opt_view(r) == lower_opt(opt_view(*o)),
{
    match o {
        Some(s) => Some(lowercase(s.as_str())),
        None => None,
    }
}

/// Reads the items of a build archive page.
pub fn builder_items(page: &str) -> (r: Vec<BuilderItem>)
    ensures
        item_views(r@) == builder_items_of(page@),
{
    let item = ".builds-list > li";
    let details = nested_attrs(page, item, "ul.build-details", "li:first-child", "title");
    let links = item_attrs(page, item, "a:first-child", "href");
    let extensions = item_texts(page, item, "li[title='File extension']");
    let sizes = item_texts(page, item, "li[title='File size']");
    let tags = item_texts(page, item, ".build-var");
    let sums = item_attrs(page, item, "a.sha", "href");
    let labels = item_attrs(page, item, "a.build-title", "ga_label");
    let archs = item_texts(page, item, ".build-meta span.build-architecture[title='Architecture']");
    let ghost want = builder_items_of(page@);
    let n = links.len();
    let mut out: Vec<BuilderItem> = Vec::new();
    let mut i: usize = 0;
    while i < n
        invariant
            n == want.len(),
            want == builder_items_of(page@),
            details@.len() == n && links@.len() == n && extensions@.len() == n,
            sizes@.len() == n && tags@.len() == n && sums@.len() == n,
            labels@.len() == n && archs@.len() == n,
            nested_views(details@) == nested_attrs_of(page@, item@, "ul.build-details"@, "li:first-child"@, "title"@),
            opt_views(links@) == item_attrs_of(page@, item@, "a:first-child"@, "href"@),
            opt_views(extensions@) == item_texts_of(page@, item@, "li[title='File extension']"@),
            opt_views(sizes@) == item_texts_of(page@, item@, "li[title='File size']"@),
            opt_views(tags@) == item_texts_of(page@, item@, ".build-var"@),
            opt_views(sums@) == item_attrs_of(page@, item@, "a.sha"@, "href"@),
            opt_views(labels@) == item_attrs_of(page@, item@, "a.build-title"@, "ga_label"@),
            opt_views(archs@) == item_texts_of(page@, item@, ".build-meta span.build-architecture[title='Architecture']"@),
            item@ == ".builds-list > li"@,
            i <= n,
            out@.len() == i,
            forall|j: int| 0 <= j < i ==> #[trigger] out@[j]@ == want[j],
        decreases n - i,
    {
        let (has_details, date_title) = match &details[i] {
            Some(t) => (true, clone_opt(t)),
            None => (false, None),
        };
        let b = BuilderItem {
            has_details,
            date_title,
            link: clone_opt(&links[i]),
            file_extension: clone_opt(&extensions[i]),
            file_size: clone_opt(&sizes[i]),
            tag: clone_opt(&tags[i]),
            checksum: clone_opt(&sums[i]),
            label: lowercase_opt(&labels[i]),
            architecture: lowercase_opt(&archs[i]),
        };
        assert(nested_views(details@)[i as int] == nested_attrs_of(page@, item@, "ul.build-details"@, "li:first-child"@, "title"@)[i as int]);
        assert(opt_views(links@)[i as int] == opt_view(links@[i as int]));
        assert(opt_views(extensions@)[i as int] == opt_view(extensions@[i as int]));
        assert(opt_views(sizes@)[i as int] == opt_view(sizes@[i as int]));
        assert(opt_views(tags@)[i as int] == opt_view(tags@[i as int]));
        assert(opt_views(sums@)[i as int] == opt_view(sums@[i as int]));
        assert(opt_views(labels@)[i as int] == opt_view(labels@[i as int]));
        assert(opt_views(archs@)[i as int] == opt_view(archs@[i as int]));
        assert(b@ == want[i as int]);
        out.push(b);
        i = i + 1;
    }
    assert(item_views(out@) =~= want);
    out
}

/// Reads the platform items of the stable page.
pub fn stable_items(page: &str) -> (r: Vec<StableItem>)
    ensures
        stable_item_views(r@) == stable_items_of(page@),
{
    let item = "#menu-other-platforms li.os";
    let sizes = item_texts(page, item, "span.size");
    let links = item_attrs(page, item, "a", "href");
    let classes = own_attrs(page, item, "class");
    let captions = item_texts(page, item, "span.build");
    let ghost want = stable_items_of(page@);
    let n = sizes.len();
    let mut out: Vec<StableItem> = Vec::new();
    let mut i: usize = 0;
    while i < n
        invariant
            n == want.len(),
            want == stable_items_of(page@),
            sizes@.len() == n && links@.len() == n && classes@.len() == n && captions@.len() == n,
            opt_views(sizes@) == item_texts_of(page@, item@, "span.size"@),
            opt_views(links@) == item_attrs_of(page@, item@, "a"@, "href"@),
            opt_views(classes@) == own_attrs_of(page@, item@, "class"@),
            opt_views(captions@) == item_texts_of(page@, item@, "span.build"@),
            item@ == "#menu-other-platforms li.os"@,
            i <= n,
            out@.len() == i,
            forall|j: int| 0 <= j < i ==> #[trigger] out@[j]@ == want[j],
        decreases n - i,
    {
        let s = StableItem {
            size: clone_opt(&sizes[i]),
            link: clone_opt(&links[i]),
            classes: clone_opt(&classes[i]),
            caption: clone_opt(&captions[i]),
        };
        assert(opt_views(sizes@)[i as int] == opt_view(sizes@[i as int]));
        assert(opt_views(links@)[i as int] == opt_view(links@[i as int]));
        assert(opt_views(classes@)[i as int] == opt_view(classes@[i as int]));
        assert(opt_views(captions@)[i as int] == opt_view(captions@[i as int]));
        assert(s@ == want[i as int]);
        out.push(s);
        i = i + 1;
    }
    assert(stable_item_views(out@) =~= want);
    out
}

/// Reads one platform's info panel: the text of its first caption and the
/// target of its second checksum link.
pub fn read_panel(page: &str, caption_css: &str, checksum_css: &str) -> (r: InfoPanel)
    ensures
        r@ == panel_of_page(page@, caption_css@, checksum_css@),
{
    let captions = page_texts(page, caption_css);
    let sums = page_attrs(page, checksum_css, "href");
    let ghost caption_views = captions@.map_values(|t: String| t@);
    let released = if captions.len() > 0 {
        assert(caption_views[0] == captions@[0]@);
        Some(captions[0].clone())
    } else {
        None
    };
    let checksum = if sums.len() > 1 {
        assert(opt_views(sums@)[1] == opt_view(sums@[1]));
        clone_opt(&sums[1])
    } else {
        None
    };
    InfoPanel { released, checksum }
}

/// Reads the four info panels of the stable page.
pub fn stable_panels(page: &str) -> (r: StablePanels)
    ensures
        r@ == stable_panels_of(page@),
{
    StablePanels {
        windows: read_panel(page, "#menu-info-windows > small", "#menu-info-windows > small.checksum a"),
        linux: read_panel(page, "#menu-info-linux > small", "#menu-info-linux > small.checksum a"),
        macos: read_panel(page, "#menu-info-macos > small", "#menu-info-macos > small.checksum a"),
        apple_silicon: read_panel(
            page,
            "#menu-info-macos-apple-silicon > small",
            "#menu-info-macos-apple-silicon > small.checksum a",
        ),
    }
}

/// Collects the records of a build archive page (daily, experimental or
/// patch channel), given its HTML: those of its `.builds-list > li` items,
/// in document order. Items that lack a required field, and hidden
/// checksum-only entries, are skipped.
pub fn scrape(page: &str) -> (r: CustomBlenderReleaseList)
    ensures
        views_of(r.0.releases@) == collect_builder(builder_items_of(page@)),
        forall|i: int| 0 <= i < r.0.releases@.len() ==> builder_record_ok(#[trigger] r.0.releases@[i]@),
{
    let items = builder_items(page);
    let r = CustomBlenderReleaseList::from_items(&items);
    proof {
        lemma_collected_builder_ok(item_views(items@));
        assert forall|i: int| 0 <= i < r.0.releases@.len() implies builder_record_ok(
            #[trigger] r.0.releases@[i]@,
        ) by {
            assert(r.0.releases@[i]@ == views_of(r.0.releases@)[i]);
        }
    }
    r
}

/// Collects the records of the stable download page, given its HTML. The
/// date and checksum of each item come from its platform's info panel; where
/// the panel has no release sentence the date is the current time.
pub fn scrape_stable(page: &str) -> (r: CustomBlenderReleaseList)
    ensures
        exists|now: ReleaseDate|
            now.wf() && views_of(r.0.releases@) == collect_stable(
                stable_items_of(page@),
                stable_panels_of(page@),
                now,
            ),
        forall|i: int| 0 <= i < r.0.releases@.len() ==> stable_record_ok(#[trigger] r.0.releases@[i]@),
{
    let panels = stable_panels(page);
    let items = stable_items(page);
    let now = now_utc();
    let r = stable_releases(&items, &panels, now);
    proof {
        lemma_collected_stable_ok(stable_item_views(items@), panels@, now);
        assert forall|i: int| 0 <= i < r.0.releases@.len() implies stable_record_ok(
            #[trigger] r.0.releases@[i]@,
        ) by {
            assert(r.0.releases@[i]@ == views_of(r.0.releases@)[i]);
        }
    }
    r
}

} // verus!
