use blender_beans_scraper::{builder_items, scrape, scrape_stable, stable_items, stable_panels, BlenderRelease, ReleaseDate};

const DAILY_LINK: &str = "https://builder.blender.org/download/daily/blender-4.2.0-alpha+main.abc123-windows.amd64-release.zip";

fn builder_item(link: &str, label: &str, arch: &str, size: Option<&str>) -> String {
    let size_entry = match size {
        Some(s) => format!("<li title=\"File size\">{}</li>", s),
        None => String::new(),
    };
    format!(
        "<li class=\"t-row build\">\
         <a class=\"build-title\" href=\"{link}\" ga_label=\"{label}\">Blender 4.2.0</a>\
         <span class=\"build-var\">daily</span>\
         <ul class=\"build-details\"><li title=\"2024-03-05T10:20:30+0000\">March 5</li><li>main</li></ul>\
         <div class=\"build-meta\">\
         <ul><li title=\"File extension\">zip</li>{size_entry}</ul>\
         <span class=\"build-architecture\" title=\"Architecture\">{arch}</span>\
         <a class=\"sha\" href=\"{link}.sha256\">SHA256</a>\
         </div></li>"
    )
}

fn builder_page(items: &[String]) -> String {
    format!(
        "<!DOCTYPE html><html><head><title>Builds</title></head><body>\
         <ul class=\"builds-list\">{}</ul></body></html>",
        items.concat()
    )
}

#[test]
fn scrape_daily_fixture() {
    let page = builder_page(&[
        builder_item(DAILY_LINK, "Blender-Windows-Daily", "Windows x64", Some("310.5 MB")),
        builder_item(
            "https://builder.blender.org/download/daily/blender-4.2.0-alpha+main.abc123-linux.x86_64-release.tar.xz",
            "Blender-Linux-Daily",
            "Linux x64",
            None,
        ),
    ]);
    let list = scrape(&page);
    let expected = BlenderRelease::new(
        vec![4, 2, 0],
        "alpha+main.abc123".to_string(),
        DAILY_LINK.to_string(),
        "zip".to_string(),
        "310.5 MB".to_string(),
        ReleaseDate { year: 2024, month: 3, day: 5, hour: 10, minute: 20, second: 30 },
        "daily".to_string(),
        "windows".to_string(),
        "x86_64".to_string(),
        format!("{}.sha256", DAILY_LINK),
        "blender-windows-daily".to_string(),
    );
    assert_eq!(list.0.releases, vec![expected]);
}

#[test]
fn scrape_skips_checksum_entries() {
    let page = builder_page(&[
        builder_item(DAILY_LINK, "Blender-Windows-SHA256", "Windows x64", Some("1 KB")),
        builder_item(DAILY_LINK, "Blender-Darwin-Daily", "macOS Apple Silicon", Some("290 MB")),
    ]);
    let list = scrape(&page);
    assert_eq!(list.0.releases.len(), 1);
    assert_eq!(list.0.releases[0].os, "darwin");
    assert_eq!(list.0.releases[0].arch, "arm64");
    assert_eq!(list.0.releases[0].ga_label, "blender-darwin-daily");
}

#[test]
fn scrape_empty_and_foreign_pages() {
    assert_eq!(scrape("").0.releases.len(), 0);
    assert_eq!(scrape("<html><body><p>maintenance</p></body></html>").0.releases.len(), 0);
    let no_details = builder_page(&["<li><a class=\"build-title\" href=\"x\" ga_label=\"y\">z</a></li>".to_string()]);
    assert_eq!(scrape(&no_details).0.releases.len(), 0);
}

fn stable_page() -> String {
    "<html><body>\
     <ul id=\"menu-other-platforms\">\
     <li class=\"os windows\"><a href=\"https://www.blender.org/download/release/Blender4.1/blender-4.1.1-windows-x64.msi/\">Windows</a><span class=\"build\">Installer</span><span class=\"size\">312MB</span></li>\
     <li class=\"os macos\"><a href=\"https://www.blender.org/download/release/Blender4.1/blender-4.1.1-macos-arm64.dmg/\">macOS</a><span class=\"build\">Apple Silicon</span><span class=\"size\">280MB</span></li>\
     <li class=\"os linux\"><a href=\"https://www.blender.org/download/release/Blender4.1/blender-4.1.1-linux-x64.tar.xz/\">Linux</a><span class=\"build\">64 bit</span><span class=\"size\">330MB</span></li>\
     <li class=\"os linux\"><a href=\"https://www.blender.org/download/release/Blender4.1/blender-4.1.1-linux-arm.tar.xz/\">Linux</a></li>\
     </ul>\
     <div id=\"menu-info-windows\"><small>Released on March 25, 2024 · </small><small class=\"checksum\"><a href=\"win.md5\">MD5</a><a href=\"win.sha256\">SHA256</a></small></div>\
     <div id=\"menu-info-macos-apple-silicon\"><small>Released on March 26, 2024 · </small><small class=\"checksum\"><a href=\"arm.md5\">MD5</a><a href=\"arm.sha256\">SHA256</a></small></div>\
     </body></html>"
        .to_string()
}

#[test]
fn scrape_stable_fixture() {
    let list = scrape_stable(&stable_page());
    let r = &list.0.releases;
    assert_eq!(r.len(), 3);

    assert_eq!(r[0].os, "windows");
    assert_eq!(r[0].arch, "x86_64");
    assert_eq!(r[0].version, vec![4, 1, 1]);
    assert_eq!(r[0].download_type, "msi");
    assert_eq!(r[0].download_size, "312MB");
    assert_eq!(r[0].sha256, "win.sha256");
    assert_eq!(r[0].release_date, ReleaseDate { year: 2024, month: 3, day: 25, hour: 0, minute: 0, second: 0 });
    assert_eq!(r[0].tag, "current-stable");
    assert_eq!(r[0].ga_label, "");
    assert_eq!(r[0].version_detail, "");

    assert_eq!(r[1].os, "mac");
    assert_eq!(r[1].arch, "arm64");
    assert_eq!(r[1].download_type, "dmg");
    assert_eq!(r[1].sha256, "arm.sha256");
    assert_eq!(r[1].release_date, ReleaseDate { year: 2024, month: 3, day: 26, hour: 0, minute: 0, second: 0 });

    assert_eq!(r[2].os, "linux");
    assert_eq!(r[2].arch, "x86_64");
    assert_eq!(r[2].download_type, "xz");
    assert_eq!(r[2].sha256, "");
    assert!(r[2].release_date.year >= 2024);
}

#[test]
fn scrape_reads_only_builds_list_items() {
    let complete = builder_item(DAILY_LINK, "Blender-Windows-Daily", "Windows x64", Some("310.5 MB"));
    let page = format!(
        "<html><body><ul class=\"builds-list\">{}</ul><ul class=\"other\">{}</ul>\
         <div class=\"builds-list\"><div>{}</div></div></body></html>",
        complete, complete, complete
    );
    assert_eq!(scrape(&page).0.releases.len(), 1);
}

#[test]
fn scrape_is_deterministic() {
    let page = builder_page(&[
        builder_item(DAILY_LINK, "Blender-Windows-Daily", "Windows x64", Some("310.5 MB")),
        builder_item(DAILY_LINK, "Blender-Linux-Daily", "Linux x64", Some("300 MB")),
    ]);
    assert_eq!(scrape(&page).0.releases, scrape(&page).0.releases);
}

#[test]
fn page_readers() {
    let page = builder_page(&[
        builder_item(DAILY_LINK, "Blender-Windows-Daily", "Windows x64", Some("310.5 MB")),
        builder_item(DAILY_LINK, "Blender-Linux-Daily", "Linux x64", None),
    ]);
    let items = builder_items(&page);
    assert_eq!(items.len(), 2);
    assert!(items[0].has_details);
    assert_eq!(items[0].date_title, Some("2024-03-05T10:20:30+0000".to_string()));
    assert_eq!(items[0].label, Some("blender-windows-daily".to_string()));
    assert_eq!(items[0].architecture, Some("windows x64".to_string()));
    assert_eq!(items[0].file_size, Some("310.5 MB".to_string()));
    assert_eq!(items[1].file_size, None);
    assert_eq!(items[1].file_extension, Some("zip".to_string()));

    let stable = stable_items(&stable_page());
    assert_eq!(stable.len(), 4);
    assert_eq!(stable[0].classes, Some("os windows".to_string()));
    assert_eq!(stable[1].caption, Some("Apple Silicon".to_string()));
    assert_eq!(stable[3].size, None);
    let panels = stable_panels(&stable_page());
    assert_eq!(panels.windows.released, Some("Released on March 25, 2024 · ".to_string()));
    assert_eq!(panels.windows.checksum, Some("win.sha256".to_string()));
    assert_eq!(panels.linux.released, None);
    assert_eq!(panels.linux.checksum, None);
}
