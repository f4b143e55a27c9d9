//! Asset references: the parts derived from one, and the names under which
//! it is fetched and stored.

use vstd::prelude::*;
use vstd::string::*;
use crate::text::{after_last, chars_of, rfind_from};

verus! {

/// Host that serves the media files.
pub const MEDIA_HOST: &'static str = "https://video.candfans.jp";

/// The final path segment of a reference: what follows its last `/`.
pub open spec fn spec_file_segment(reference: Seq<char>) -> Option<Seq<char>> {
    after_last(reference, '/')
}

/// The extension of a reference: what follows the last `.` of its final
/// path segment.
pub open spec fn spec_extension(reference: Seq<char>) -> Option<Seq<char>> {
    match spec_file_segment(reference) {
        Some(segment) => after_last(segment, '.'),
        None => None,
    }
}

/// The extensions of a wanted list, as character sequences.
pub open spec fn extension_views(wanted: Seq<String>) -> Seq<Seq<char>> {
    wanted.map_values(|e: String| e@)
}

/// Whether `extension` is, character for character, one of `wanted`.
pub open spec fn spec_is_wanted(extension: Seq<char>, wanted: Seq<Seq<char>>) -> bool {
    wanted.contains(extension)
}

/// The name under which a reference is stored: the reference with every
/// path separator replaced by an underscore.
pub open spec fn spec_flat_name(reference: Seq<char>) -> Seq<char> {
    reference.map_values(
        |c: char|
            if c == '/' {
                '_'
            } else {
                c
            },
    )
}

/// The address from which a reference is fetched: the media host with the
/// reference appended.
pub open spec fn spec_media_url(reference: Seq<char>) -> Seq<char> {
    MEDIA_HOST@ + reference
}

/// The final path segment of `reference`, or `None` where it has no `/`.
pub fn file_segment<'a>(reference: &'a str) -> (segment: Option<&'a str>)
    ensures
        match segment {
            Some(s) => spec_file_segment(reference@) == Some(s@),
            None => spec_file_segment(reference@) is None,
        },
{
    let chars = chars_of(reference);
    assert(chars@.subrange(0, chars.len() as int) == chars@);
    match rfind_from(&chars, 0, '/') {
        Some(slash) => Some(reference.substring_char(slash + 1, chars.len())),
        None => None,
    }
}

/// The extension of `reference`, or `None` where it has no `/` or its final
/// segment has no `.`.
pub fn extension<'a>(reference: &'a str) -> (ext: Option<&'a str>)
    ensures
        match ext {
            Some(e) => spec_extension(reference@) == Some(e@),
            None => spec_extension(reference@) is None,
        },
{
    match file_segment(reference) {
        Some(segment) => {
            let chars = chars_of(segment);
            assert(chars@.subrange(0, chars.len() as int) == chars@);
            match rfind_from(&chars, 0, '.') {
                Some(dot) => Some(segment.substring_char(dot + 1, chars.len())),
                None => None,
            }
        },
        None => None,
    }
}

/// Whether `extension` is one of `wanted`. The comparison is exact and
/// case-sensitive.
pub fn is_wanted(extension: &str, wanted: &[String]) -> (yes: bool)
    ensures
        yes == spec_is_wanted(extension@, extension_views(wanted@)),
{
    let owned = String::from_str(extension);
    let mut i: usize = 0;
    while i < wanted.len()
        invariant
            i <= wanted.len(),
            owned@ == extension@,
            forall|j: int| 0 <= j < i ==> extension_views(wanted@)[j] != extension@,
        decreases wanted.len() - i,
    {
        if wanted[i] == owned {
            assert(extension_views(wanted@)[i as int] == extension@);
            return true;
        }
        i = i + 1;
    }
    false
}

/// The file name for `reference` inside the target directory.
pub fn flat_name(reference: &str) -> (name: String)
    ensures
        name@ == spec_flat_name(reference@),
{
    let chars = chars_of(reference);
    let mut name = String::new();
    let mut start: usize = 0;
    let mut i: usize = 0;
    proof {
        reveal_strlit("_");
    }
    assert(reference@.take(0) =~= Seq::<char>::empty());
    while i < chars.len()
        invariant
            start <= i <= chars.len(),
            chars@ == reference@,
            "_"@ =~= seq!['_'],
            name@ =~= spec_flat_name(reference@.take(start as int)),
            forall|j: int| start <= j < i ==> chars[j] != '/',
        decreases chars.len() - i,
    {
        if chars[i] == '/' {
            name.append(reference.substring_char(start, i));
            name.append("_");
            assert(name@ =~= spec_flat_name(reference@.take(i + 1)));
            start = i + 1;
        }
        i = i + 1;
    }
    name.append(reference.substring_char(start, i));
    assert(reference@.take(i as int) =~= reference@);
    assert(name@ =~= spec_flat_name(reference@));
    name
}

/// The address from which `reference` is fetched.
pub fn media_url(reference: &str) -> (url: String)
    ensures
        url@ == spec_media_url(reference@),
{
    String::from_str(MEDIA_HOST).concat(reference)
}

/// Two references are stored under one name only where they differ in
/// nothing but `/` against `_`: references without an underscore never
/// collide, whatever their directories.
pub proof fn lemma_flat_name_collisions(a: Seq<char>, b: Seq<char>)
    requires
        spec_flat_name(a) == spec_flat_name(b),
    ensures
        a.len() == b.len(),
        forall|i: int|
            0 <= i < a.len() ==> a[i] == b[i] || (a[i] == '/' && b[i] == '_') || (a[i] == '_'
                && b[i] == '/'),
        !a.contains('_') && !b.contains('_') ==> a == b,
{
    assert(spec_flat_name(a).len() == a.len());
    assert(spec_flat_name(b).len() == b.len());
    assert forall|i: int| 0 <= i < a.len() implies a[i] == b[i] || (a[i] == '/' && b[i] == '_')
        || (a[i] == '_' && b[i] == '/') by {
        assert(spec_flat_name(a)[i] == if a[i] == '/' {
            '_'
        } else {
            a[i]
        });
        assert(spec_flat_name(b)[i] == if b[i] == '/' {
            '_'
        } else {
            b[i]
        });
    }
    if !a.contains('_') && !b.contains('_') {
        assert forall|i: int| 0 <= i < a.len() implies a[i] == b[i] by {
            assert(a.contains(a[i]));
            assert(b.contains(b[i]));
        }
        assert(a =~= b);
    }
}

/// The stored name holds no path separator, so the file lies directly in
/// the target directory.
pub proof fn lemma_flat_name_has_no_separator(reference: Seq<char>)
    ensures
        spec_flat_name(reference).len() == reference.len(),
        !spec_flat_name(reference).contains('/'),
{
}

} // verus!
