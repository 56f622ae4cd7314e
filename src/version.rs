//! Fields derived from a download link: the version triple, the build detail,
//! and the archive format.

use vstd::prelude::*;
use crate::text::{component_of, lemma_split_nonempty, parse_component, split_seq, split_str};

verus! {

/// A dotted version token made of exactly three components.
pub open spec fn version_of(token: Seq<char>) -> Option<Seq<i8>> {
    let parts = split_seq(token, '.');
    if parts.len() == 3 && component_of(parts[0]) is Some && component_of(parts[1]) is Some
        && component_of(parts[2]) is Some {
        Some(seq![component_of(parts[0])->0, component_of(parts[1])->0, component_of(parts[2])->0])
    } else {
        None
    }
}

/// The last path segment of a link.
pub open spec fn file_name_of(link: Seq<char>) -> Seq<char> {
    split_seq(link, '/').last()
}

/// The build detail: the third dash-separated token of a file name, without
/// the file extension when that token ends the name.
pub open spec fn detail_of(tokens: Seq<Seq<char>>) -> Seq<char> {
    if tokens.len() == 3 {
        split_seq(tokens[2], '.')[0]
    } else {
        tokens[2]
    }
}

/// Version triple and build detail of a build-archive download link.
pub open spec fn builder_version_of(link: Seq<char>) -> Option<(Seq<i8>, Seq<char>)> {
    let tokens = split_seq(file_name_of(link), '-');
    if tokens.len() >= 3 && version_of(tokens[1]) is Some {
        Some((version_of(tokens[1])->0, detail_of(tokens)))
    } else {
        None
    }
}

/// Version triple of a stable-page download link, whose file name is the
/// segment before the trailing slash.
pub open spec fn stable_version_of(link: Seq<char>) -> Option<Seq<i8>> {
    let segments = split_seq(link, '/');
    if segments.len() >= 2 {
        let tokens = split_seq(segments[segments.len() - 2], '-');
        if tokens.len() >= 2 {
            version_of(tokens[1])
        } else {
            None
        }
    } else {
        None
    }
}

/// Archive format of a stable-page download link: what follows its last dot,
/// without a trailing slash.
pub open spec fn stable_download_type_of(link: Seq<char>) -> Seq<char> {
    let last = split_seq(link, '.').last();
    if last.len() > 0 && last.last() == '/' {
        last.drop_last()
    } else {
        last
    }
}

/// Reads a dotted version token of exactly three components.
pub fn parse_version(token: &str) -> (r: Option<Vec<i8>>)
    ensures
        r matches Some(v) ==> version_of(token@) == Some(v@),
        r is None ==> version_of(token@) is None,
{
    let parts = split_str(token, '.');
    let ghost views = parts@.map_values(|t: String| t@);
    if parts.len() != 3 {
        return None;
    }
    assert(views[0] == parts[0]@ && views[1] == parts[1]@ && views[2] == parts[2]@);
    let major = match parse_component(parts[0].as_str()) {
        Some(c) => c,
        None => return None,
    };
    let minor = match parse_component(parts[1].as_str()) {
        Some(c) => c,
        None => return None,
    };
    let patch = match parse_component(parts[2].as_str()) {
        Some(c) => c,
        None => return None,
    };
    let v = vec![major, minor, patch];
    assert(v@ =~= version_of(token@)->0);
    Some(v)
}

/// Version triple and build detail of a build-archive download link.
pub fn builder_version(link: &str) -> (r: Option<(Vec<i8>, String)>)
    ensures
        r matches Some(p) ==> builder_version_of(link@) == Some((p.0@, p.1@)),
        r is None ==> builder_version_of(link@) is None,
{
    let segments = split_str(link, '/');
    proof {
        lemma_split_nonempty(link@, '/');
    }
    let ghost seg_views = segments@.map_values(|t: String| t@);
    let name = &segments[segments.len() - 1];
    assert(name@ == file_name_of(link@));
    let tokens = split_str(name.as_str(), '-');
    let ghost views = tokens@.map_values(|t: String| t@);
    if tokens.len() < 3 {
        return None;
    }
    assert(views[1] == tokens[1]@ && views[2] == tokens[2]@);
    let version = match parse_version(tokens[1].as_str()) {
        Some(v) => v,
        None => return None,
    };
    let detail = if tokens.len() == 3 {
        let pieces = split_str(tokens[2].as_str(), '.');
        proof {
            lemma_split_nonempty(tokens[2]@, '.');
        }
        let ghost piece_views = pieces@.map_values(|t: String| t@);
        assert(piece_views[0] == pieces[0]@);
        pieces[0].clone()
    } else {
        tokens[2].clone()
    };
    Some((version, detail))
}

/// Version triple of a stable-page download link.
pub fn stable_version(link: &str) -> (r: Option<Vec<i8>>)
    ensures
        r matches Some(v) ==> stable_version_of(link@) == Some(v@),
        r is None ==> stable_version_of(link@) is None,
{
    let segments = split_str(link, '/');
    let ghost seg_views = segments@.map_values(|t: String| t@);
    if segments.len() < 2 {
        return None;
    }
    let name = &segments[segments.len() - 2];
    assert(name@ == seg_views[seg_views.len() - 2]);
    let tokens = split_str(name.as_str(), '-');
    let ghost views = tokens@.map_values(|t: String| t@);
    if tokens.len() < 2 {
        return None;
    }
    assert(views[1] == tokens[1]@);
    parse_version(tokens[1].as_str())
}

/// Archive format of a stable-page download link.
pub fn stable_download_type(link: &str) -> (r: String)
    ensures
        r@ == stable_download_type_of(link@),
{
    let pieces = split_str(link, '.');
    proof {
        lemma_split_nonempty(link@, '.');
    }
    let ghost views = pieces@.map_values(|t: String| t@);
    let last = pieces[pieces.len() - 1].as_str();
    assert(last@ == views.last());
    let n = last.unicode_len();
    if n > 0 && last.get_char(n - 1) == '/' {
        last.substring_char(0, n - 1).to_owned()
    } else {
        last.to_owned()
    }
}

} // verus!
