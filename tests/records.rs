use blender_beans_scraper::{
    builder_release, builder_release_with_date, select_panel, stable_release, stable_release_with_date,
    stable_releases, BlenderRelease, BuilderItem, CustomBlenderReleaseList, InfoPanel, ReleaseDate,
    StableItem, StablePanels,
};

const LINK: &str = "https://builder.blender.org/download/daily/blender-4.2.0-alpha+main.abc123-windows.amd64-release.zip";

fn s(text: &str) -> Option<String> {
    Some(text.to_string())
}

fn date(year: i32, month: u32, day: u32, hour: u32, minute: u32, second: u32) -> ReleaseDate {
    ReleaseDate { year, month, day, hour, minute, second }
}

fn complete_item() -> BuilderItem {
    BuilderItem {
        has_details: true,
        date_title: s("2024-03-05T10:20:30+0000"),
        link: s(LINK),
        file_extension: s("zip"),
        file_size: s("310.5 MB"),
        tag: s("daily"),
        checksum: s("https://builder.blender.org/download/daily/sha.sha256"),
        label: s("blender-windows-daily"),
        architecture: s("windows x64"),
    }
}

fn expected_record() -> BlenderRelease {
    BlenderRelease::new(
        vec![4, 2, 0],
        "alpha+main.abc123".to_string(),
        LINK.to_string(),
        "zip".to_string(),
        "310.5 MB".to_string(),
        date(2024, 3, 5, 10, 20, 30),
        "daily".to_string(),
        "windows".to_string(),
        "x86_64".to_string(),
        "https://builder.blender.org/download/daily/sha.sha256".to_string(),
        "blender-windows-daily".to_string(),
    )
}

#[test]
fn complete_builder_item() {
    let d = date(2024, 3, 5, 10, 20, 30);
    assert_eq!(builder_release_with_date(&complete_item(), Some(d)), Some(expected_record()));
}

#[test]
fn builder_date_is_parsed() {
    assert_eq!(builder_release(&complete_item()), Some(expected_record()));
    let mut item = complete_item();
    item.date_title = s("2024-03-05T10:20:30+02:00");
    assert_eq!(builder_release(&item).unwrap().release_date, date(2024, 3, 5, 10, 20, 30));
}

#[test]
fn malformed_builder_date_skips() {
    let mut item = complete_item();
    item.date_title = s("5 March 2024");
    assert_eq!(builder_release(&item), None);
    item.date_title = None;
    assert_eq!(builder_release(&item), None);
    assert_eq!(builder_release_with_date(&complete_item(), None), None);
}

#[test]
fn missing_details_skips() {
    let mut item = complete_item();
    item.has_details = false;
    let d = date(2024, 3, 5, 10, 20, 30);
    assert_eq!(builder_release_with_date(&item, Some(d)), None);
    let list = CustomBlenderReleaseList::from_items(&vec![complete_item(), item]);
    assert_eq!(list.0.releases.len(), 1);
}

#[test]
fn checksum_label_skips() {
    let mut item = complete_item();
    item.label = s("blender-windows-sha256");
    let d = date(2024, 3, 5, 10, 20, 30);
    assert_eq!(builder_release_with_date(&item, Some(d)), None);
}

#[test]
fn required_builder_fields() {
    let d = Some(date(2024, 3, 5, 10, 20, 30));
    let mut a = complete_item();
    a.link = None;
    assert_eq!(builder_release_with_date(&a, d), None);
    let mut b = complete_item();
    b.file_extension = None;
    assert_eq!(builder_release_with_date(&b, d), None);
    let mut c = complete_item();
    c.file_size = None;
    assert_eq!(builder_release_with_date(&c, d), None);
    let mut e = complete_item();
    e.label = None;
    assert_eq!(builder_release_with_date(&e, d), None);
    let mut f = complete_item();
    f.link = s("https://builder.blender.org/download/daily/blender.zip");
    assert_eq!(builder_release_with_date(&f, d), None);
}

#[test]
fn optional_builder_fields_default() {
    let mut item = complete_item();
    item.tag = None;
    item.checksum = None;
    item.architecture = None;
    let r = builder_release_with_date(&item, Some(date(2024, 3, 5, 10, 20, 30))).unwrap();
    assert_eq!(r.tag, "Unknown");
    assert_eq!(r.sha256, "");
    assert_eq!(r.arch, "unknown");
    assert_eq!(r.os, "windows");
}

#[test]
fn builder_list_keeps_order() {
    let mut second = complete_item();
    second.label = s("blender-linux-daily");
    second.architecture = s("linux x64");
    let list = CustomBlenderReleaseList::from_items(&vec![complete_item(), second]);
    assert_eq!(list.0.releases.len(), 2);
    assert_eq!(list.0.releases[0].os, "windows");
    assert_eq!(list.0.releases[1].os, "linux");
    let empty = CustomBlenderReleaseList::from_items(&vec![]);
    assert_eq!(empty.0.releases.len(), 0);
}

fn panel(released: Option<String>, checksum: Option<String>) -> InfoPanel {
    InfoPanel { released, checksum }
}

fn panels() -> StablePanels {
    StablePanels {
        windows: panel(s("Released on March 25, 2024 · "), s("sha-windows")),
        linux: panel(None, s("sha-linux")),
        macos: panel(s("Released on March 26, 2024 · "), s("sha-macos")),
        apple_silicon: panel(s("Released on March 27, 2024 · "), None),
    }
}

fn stable_item(classes: &str, caption: &str, file: &str) -> StableItem {
    StableItem {
        size: s("300 MB"),
        link: Some(format!("https://www.blender.org/download/release/Blender4.1/{}/", file)),
        classes: s(classes),
        caption: s(caption),
    }
}

#[test]
fn stable_panel_choice() {
    let p = panels();
    let win = stable_item("os windows", "Intel", "blender-4.1.1-windows-x64.msi");
    assert_eq!(select_panel(&win, &p).checksum, s("sha-windows"));
    let linux = stable_item("os linux", "Intel", "blender-4.1.1-linux-x64.tar.xz");
    assert_eq!(select_panel(&linux, &p).checksum, s("sha-linux"));
    let mac = stable_item("os macos", "Intel", "blender-4.1.1-macos-x64.dmg");
    assert_eq!(select_panel(&mac, &p).checksum, s("sha-macos"));
    let arm = stable_item("os macos", "Apple Silicon", "blender-4.1.1-macos-arm64.dmg");
    assert_eq!(select_panel(&arm, &p).checksum, None);
}

#[test]
fn complete_stable_item() {
    let item = stable_item("os windows", "Intel", "blender-4.1.1-windows-x64.msi");
    let p = panels();
    let d = date(2024, 3, 25, 0, 0, 0);
    let expected = BlenderRelease::new(
        vec![4, 1, 1],
        String::new(),
        "https://www.blender.org/download/release/Blender4.1/blender-4.1.1-windows-x64.msi/".to_string(),
        "msi".to_string(),
        "300 MB".to_string(),
        d,
        "current-stable".to_string(),
        "windows".to_string(),
        "x86_64".to_string(),
        "sha-windows".to_string(),
        String::new(),
    );
    assert_eq!(stable_release_with_date(&item, &p.windows, Some(d)), Some(expected.clone()));
    let now = date(2030, 1, 1, 12, 0, 0);
    assert_eq!(stable_release(&item, &p, now), Some(expected));
}

#[test]
fn stable_date_falls_back_to_now() {
    let item = stable_item("os linux", "Intel", "blender-4.1.1-linux-x64.tar.xz");
    let now = date(2030, 1, 1, 12, 0, 0);
    let r = stable_release(&item, &panels(), now).unwrap();
    assert_eq!(r.release_date, now);
    assert_eq!(r.sha256, "sha-linux");
    assert_eq!(r.download_type, "xz");
    assert_eq!(r.os, "linux");
}

#[test]
fn stable_apple_silicon_item() {
    let item = stable_item("os macos", "Apple Silicon", "blender-4.1.1-macos-arm64.dmg");
    let r = stable_release(&item, &panels(), date(2030, 1, 1, 12, 0, 0)).unwrap();
    assert_eq!(r.arch, "arm64");
    assert_eq!(r.os, "mac");
    assert_eq!(r.release_date, date(2024, 3, 27, 0, 0, 0));
    assert_eq!(r.sha256, "");
}

#[test]
fn stable_malformed_date_skips() {
    let item = stable_item("os windows", "Intel", "blender-4.1.1-windows-x64.msi");
    let mut p = panels();
    p.windows.released = s("Released sometime");
    assert_eq!(stable_release(&item, &p, date(2030, 1, 1, 12, 0, 0)), None);
    assert_eq!(stable_release_with_date(&item, &p.windows, None), None);
}

#[test]
fn stable_required_fields() {
    let d = Some(date(2024, 3, 25, 0, 0, 0));
    let p = panels();
    let mut a = stable_item("os windows", "Intel", "blender-4.1.1-windows-x64.msi");
    a.size = None;
    assert_eq!(stable_release_with_date(&a, &p.windows, d), None);
    let mut b = stable_item("os windows", "Intel", "blender-4.1.1-windows-x64.msi");
    b.link = None;
    assert_eq!(stable_release_with_date(&b, &p.windows, d), None);
    let c = stable_item("os windows", "Intel", "blender.msi");
    assert_eq!(stable_release_with_date(&c, &p.windows, d), None);
    let items = vec![a, stable_item("os linux", "Intel", "blender-4.1.1-linux-x64.tar.xz")];
    let list = stable_releases(&items, &p, date(2030, 1, 1, 12, 0, 0));
    assert_eq!(list.0.releases.len(), 1);
    assert_eq!(list.0.releases[0].os, "linux");
}
