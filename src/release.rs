//! Release records, the tag carried by a release, and the tag scraped from
//! the public release page.
use vstd::prelude::*;
use vstd::string::*;
use crate::text::{chars_of, find_from, find_in};

verus! {

/// Metadata of one published release.
#[derive(Debug, Clone)]
pub struct GitHubRelease {
    pub tag_name: String,
    pub html_url: String,
    pub name: String,
    pub body: String,
}

/// The path that precedes a release tag in links of the release page.
pub open spec fn tag_marker() -> Seq<char> {
    "/Godi13/mirror/releases/tag/"@
}

/// The address of the page of the release tagged `tag`.
pub open spec fn release_page_url(tag: Seq<char>) -> Seq<char> {
    "https://github.com/Godi13/mirror/releases/tag/"@ + tag
}

/// The version that a tag names: the tag without one leading `v`.
pub open spec fn normalized_tag(tag: Seq<char>) -> Seq<char> {
    if tag.len() > 0 && tag[0] == 'v' {
        tag.skip(1)
    } else {
        tag
    }
}

/// The tag linked first from the page: the text after the first occurrence
/// of the tag path, up to the next `"`, when that text is not empty.
pub open spec fn scraped_tag(html: Seq<char>) -> Option<Seq<char>> {
    let s = find_from(html, tag_marker(), 0);
    if s < 0 {
        None
    } else {
        let rest = html.skip(s + tag_marker().len());
        let e = find_from(rest, seq!['"'], 0);
        if e <= 0 {
            None
        } else {
            Some(rest.take(e))
        }
    }
}

impl GitHubRelease {
    /// A field-by-field copy, equal to `self`.
    pub fn duplicate(&self) -> (r: GitHubRelease)
        ensures
            r == *self,
    {
        GitHubRelease {
            tag_name: self.tag_name.clone(),
            html_url: self.html_url.clone(),
            name: self.name.clone(),
            body: self.body.clone(),
        }
    }

    /// `self` is the record made for a tag read from the release page.
    pub open spec fn is_scraped_from(self, tag: Seq<char>) -> bool {
        &&& self.tag_name@ == tag
        &&& self.html_url@ == release_page_url(tag)
        &&& self.name@ == "Mirror "@ + tag
        &&& self.body@ == "Retrieved from releases page"@
    }

    /// The record for a tag read from the release page, with a page address
    /// built from the tag and a placeholder title and notes.
    pub fn from_scraped_tag(tag: &str) -> (r: GitHubRelease)
        ensures
            r.is_scraped_from(tag@),
    {
        GitHubRelease {
            tag_name: tag.to_string(),
            html_url: String::from_str("https://github.com/Godi13/mirror/releases/tag/").concat(
                tag,
            ),
            name: String::from_str("Mirror ").concat(tag),
            body: String::from_str("Retrieved from releases page"),
        }
    }

    /// The version this release names.
    pub fn version(&self) -> (r: String)
        ensures
            r@ == normalized_tag(self.tag_name@),
    {
        normalize_tag(self.tag_name.as_str())
    }
}

/// Strips one leading `v` from a tag.
pub fn normalize_tag(tag: &str) -> (r: String)
    ensures
        r@ == normalized_tag(tag@),
{
    let n = tag.unicode_len();
    if n > 0 && tag.get_char(0) == 'v' {
        String::from_str(tag.substring_char(1, n))
    } else {
        tag.to_string()
    }
}

/// The tag that the release page links first, if any.
pub fn extract_version_from_html(html: &str) -> (r: Option<String>)
    ensures
        match r {
            Some(t) => scraped_tag(html@) == Some(t@),
            None => scraped_tag(html@) is None,
        },
{
    let h = chars_of(html);
    let marker = chars_of("/Godi13/mirror/releases/tag/");
    match find_in(&h, &marker, 0) {
        None => None,
        Some(s) => {
            let from = s + marker.len();
            let rest_text = html.substring_char(from, h.len());
            let rest = chars_of(rest_text);
            let quote = chars_of("\"");
            proof {
                reveal_strlit("\"");
                assert(quote@ =~= seq!['"']);
                assert(rest@ =~= h@.skip(from as int));
            }
            match find_in(&rest, &quote, 0) {
                None => None,
                Some(e) => {
                    if e == 0 {
                        None
                    } else {
                        let tag = rest_text.substring_char(0, e);
                        proof {
                            assert(tag@ =~= rest@.take(e as int));
                        }
                        Some(tag.to_string())
                    }
                },
            }
        },
    }
}

} // verus!
