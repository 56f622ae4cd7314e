//! Extraction of release metadata from the download pages of a software
//! distribution: per-item field extraction, platform normalisation and record
//! assembly, each proved against a contract over plain values.

pub mod builder;
pub mod dates;
pub mod html;
pub mod platform;
pub mod release;
pub mod stable;
pub mod text;
pub mod version;

pub use builder::{builder_release, builder_release_with_date, BuilderItem};
pub use html::{builder_items, read_panel, scrape, scrape_stable, stable_items, stable_panels};
pub use platform::{builder_arch, builder_os, stable_arch, stable_os};
pub use release::{BlenderRelease, BlenderReleaseList, CustomBlenderReleaseList, ReleaseDate};
pub use stable::{select_panel, stable_release, stable_release_with_date, stable_releases, InfoPanel, StableItem, StablePanels};
pub use text::{contains_str, parse_component, split_str, str_eq};
pub use version::{builder_version, parse_version, stable_download_type, stable_version};
