//! Mapping of free-text platform signals onto the closed vocabularies of
//! operating systems and architectures. Each page has its own scheme.

use vstd::prelude::*;
use crate::text::{contains_str, has_substring, str_eq};

verus! {

/// Operating system named by a lowercase analytics label of the build archive.
pub open spec fn builder_os_of(label: Seq<char>) -> Seq<char> {
    if has_substring(label, "windows"@) {
        "windows"@
    } else if has_substring(label, "darwin"@) {
        "darwin"@
    } else if has_substring(label, "linux"@) {
        "linux"@
    } else {
        "unknown"@
    }
}

/// Architecture named by the lowercase architecture label of the build archive.
pub open spec fn builder_arch_of(label: Seq<char>) -> Seq<char> {
    if label == "windows x64"@ || label == "macos intel"@ || label == "linux x64"@ {
        "x86_64"@
    } else if label == "macos apple silicon"@ {
        "arm64"@
    } else {
        "unknown"@
    }
}

/// Operating system named by the class list of a stable-page item.
pub open spec fn stable_os_of(classes: Seq<char>) -> Seq<char> {
    if has_substring(classes, "windows"@) {
        "windows"@
    } else if has_substring(classes, "linux"@) {
        "linux"@
    } else if has_substring(classes, "mac"@) {
        "mac"@
    } else {
        "unknown"@
    }
}

/// Architecture named by the build caption of a stable-page item.
pub open spec fn stable_arch_of(caption: Seq<char>) -> Seq<char> {
    if caption == "Apple Silicon"@ {
        "arm64"@
    } else {
        "x86_64"@
    }
}

/// Normalises the operating system of a build-archive item from its analytics label.
pub fn builder_os(label: &str) -> (r: String)
    ensures
        r@ == builder_os_of(label@),
{
    if contains_str(label, "windows") {
        String::from_str("windows")
    } else if contains_str(label, "darwin") {
        String::from_str("darwin")
    } else if contains_str(label, "linux") {
        String::from_str("linux")
    } else {
        String::from_str("unknown")
    }
}

/// Normalises the architecture of a build-archive item from its architecture label.
pub fn builder_arch(label: &str) -> (r: String)
    ensures
        r@ == builder_arch_of(label@),
{
    if str_eq(label, "windows x64") || str_eq(label, "macos intel") || str_eq(label, "linux x64") {
        String::from_str("x86_64")
    } else if str_eq(label, "macos apple silicon") {
        String::from_str("arm64")
    } else {
        String::from_str("unknown")
    }
}

/// Normalises the operating system of a stable-page item from its class list.
pub fn stable_os(classes: &str) -> (r: String)
    ensures
        r@ == stable_os_of(classes@),
{
    if contains_str(classes, "windows") {
        String::from_str("windows")
    } else if contains_str(classes, "linux") {
        String::from_str("linux")
    } else if contains_str(classes, "mac") {
        String::from_str("mac")
    } else {
        String::from_str("unknown")
    }
}

/// Normalises the architecture of a stable-page item from its build caption:
/// only the exact caption "Apple Silicon" means arm64, anything else x86_64.
pub fn stable_arch(caption: &str) -> (r: String)
    ensures
        r@ == stable_arch_of(caption@),
        caption@ == "Apple Silicon"@ ==> r@ == "arm64"@,
        caption@ != "Apple Silicon"@ ==> r@ == "x86_64"@,
{
    if str_eq(caption, "Apple Silicon") {
        String::from_str("arm64")
    } else {
        String::from_str("x86_64")
    }
}

} // verus!
