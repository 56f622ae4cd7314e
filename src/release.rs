//! The release record, its mathematical view, and the collections of records.

use vstd::prelude::*;

verus! {

/// A calendar date and time of day, as plain numbers.
#[derive(Clone, Copy, Debug, PartialEq, Eq, Structural)]
pub struct ReleaseDate {
    pub year: i32,
    pub month: u32,
    pub day: u32,
    pub hour: u32,
    pub minute: u32,
    pub second: u32,
}

impl ReleaseDate {
    /// Every field lies in its calendar range.
    pub open spec fn wf(&self) -> bool {
        &&& 1 <= self.month <= 12
        &&& 1 <= self.day <= 31
        &&& self.hour < 24
        &&& self.minute < 60
        &&& self.second < 60
    }
}

/// One build artifact of the distribution.
#[derive(Clone, Debug, PartialEq)]
pub struct BlenderRelease {
    pub version: Vec<i8>,
    pub version_detail: String,
    pub download_link: String,
    pub download_type: String,
    pub download_size: String,
    pub release_date: ReleaseDate,
    pub tag: String,
    pub os: String,
    pub arch: String,
    pub sha256: String,
    pub ga_label: String,
}

/// What a release record holds, as sequences.
pub struct ReleaseView {
    pub version: Seq<i8>,
    pub version_detail: Seq<char>,
    pub download_link: Seq<char>,
    pub download_type: Seq<char>,
    pub download_size: Seq<char>,
    pub release_date: ReleaseDate,
    pub tag: Seq<char>,
    pub os: Seq<char>,
    pub arch: Seq<char>,
    pub sha256: Seq<char>,
    pub ga_label: Seq<char>,
}

impl View for BlenderRelease {
    type V = ReleaseView;

    open spec fn view(&self) -> ReleaseView {
        ReleaseView {
            version: self.version@,
            version_detail: self.version_detail@,
            download_link: self.download_link@,
            download_type: self.download_type@,
            download_size: self.download_size@,
            release_date: self.release_date,
            tag: self.tag@,
            os: self.os@,
            arch: self.arch@,
            sha256: self.sha256@,
            ga_label: self.ga_label@,
        }
    }
}

/// The view of an optional record.
pub open spec fn view_opt(r: Option<BlenderRelease>) -> Option<ReleaseView> {
    match r {
        Some(x) => Some(x@),
        None => None,
    }
}

/// The views of a sequence of records, in order.
pub open spec fn views_of(s: Seq<BlenderRelease>) -> Seq<ReleaseView> {
    s.map_values(|x: BlenderRelease| x@)
}

impl BlenderRelease {
    pub fn new(
        version: Vec<i8>,
        version_detail: String,
        download_link: String,
        download_type: String,
        download_size: String,
        release_date: ReleaseDate,
        tag: String,
        os: String,
        arch: String,
        sha256: String,
        ga_label: String,
    ) -> (r: BlenderRelease)
        ensures
            r == (BlenderRelease {
                version,
                version_detail,
                download_link,
                download_type,
                download_size,
                release_date,
                tag,
                os,
                arch,
                sha256,
                ga_label,
            }),
    {
        BlenderRelease {
            version,
            version_detail,
            download_link,
            download_type,
            download_size,
            release_date,
            tag,
            os,
            arch,
            sha256,
            ga_label,
        }
    }
}

/// An ordered collection of records, in document order.
#[derive(Debug)]
pub struct BlenderReleaseList {
    pub releases: Vec<BlenderRelease>,
}

impl BlenderReleaseList {
    pub fn new() -> (r: BlenderReleaseList)
        ensures
            r.releases@.len() == 0,
    {
        BlenderReleaseList { releases: Vec::new() }
    }
}

/// The collection that one channel of the download pages yields.
#[derive(Debug)]
pub struct CustomBlenderReleaseList(pub BlenderReleaseList);

impl CustomBlenderReleaseList {
    pub fn new() -> (r: CustomBlenderReleaseList)
        ensures
            r.0.releases@.len() == 0,
    {
        CustomBlenderReleaseList(BlenderReleaseList::new())
    }
}

} // verus!
