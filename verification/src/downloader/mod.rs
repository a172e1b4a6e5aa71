//! Downloading the page images of a chapter: the client, and the names the
//! files are given.

use vstd::prelude::*;
use crate::text::{chars_of, dec, opt_view, pad_zeros, string_of, trim, trim_chars, zero_padded};

pub mod client;

use crate::downloader::client::{BrowserClient, browser_client};

verus! {


/// The characters that may not stand in a file or folder name.
pub open spec fn is_forbidden_in_name(c: char) -> bool {
    c == '/' || c == '\\' || c == ':' || c == '*' || c == '?' || c == '"' || c == '<' || c == '>'
        || c == '|' || c == '\0'
}

/// `name` with each forbidden character replaced by `_`.
pub open spec fn replace_forbidden(name: Seq<char>) -> Seq<char> {
    name.map_values(|c: char| if is_forbidden_in_name(c) { '_' } else { c })
}

/// A name safe for the file system: forbidden characters replaced by `_`,
/// whitespace trimmed, and `untitled` where nothing is left.
pub open spec fn safe_name(name: Seq<char>) -> Seq<char> {
    let t = trim(replace_forbidden(name));
    if t.len() == 0 {
        "untitled"@
    } else {
        t
    }
}

/// The file a page image is saved to: its index in four digits, `.png`.
pub open spec fn page_file(index: nat) -> Seq<char> {
    pad_zeros(dec(index), 4) + ".png"@
}

/// The `Referer` sent with a page request to `host`.
pub open spec fn referer_of(host: Seq<char>) -> Seq<char> {
    "https://"@ + host + "/"@
}

/// The host of a URL as the `url` crate reads it (`Url::parse`, then
/// `host_str`): `None` where the text is no URL or has no host.
pub uninterp spec fn url_host(url: Seq<char>) -> Option<Seq<char>>;

/// Reads the host of a URL with `reqwest::Url::parse(..)` and `host_str`.
/// Claimed: the result is `url_host` of the text.
#[verifier::external_body]
fn host_of(url: &str) -> (r: Option<String>)
    ensures
        opt_view(r) == url_host(url@),
{
    reqwest::Url::parse(url).ok().and_then(|u| u.host_str().map(|h| h.to_string()))
}

/// How page requests present themselves: as a desktop browser.
pub const BROWSER_USER_AGENT: &'static str = "Mozilla/5.0 (Macintosh; Intel Mac OS X 10_15_7) AppleWebKit/537.36 (KHTML, like Gecko) Chrome/130.0.0.0 Safari/537.36";


/// Downloads the pages of chapters, a bounded number at a time.
pub struct ChapterDownloader {
    pub client: BrowserClient,
    pub concurrency: usize,
}

impl ChapterDownloader {
    /// A downloader that runs at most `concurrency` downloads at a time (at
    /// least one), whose requests present themselves as a desktop browser
    /// (`BROWSER_USER_AGENT`); `None` where no HTTP client can be built on
    /// this machine.
    pub fn new(concurrency: usize) -> (r: Option<ChapterDownloader>)
        ensures
            r matches Some(d) ==> d.concurrency == (if concurrency > 1 { concurrency } else { 1 })
                && d.client.agent() == Some(BROWSER_USER_AGENT@),
    {
        match browser_client(BROWSER_USER_AGENT) {
            Some(client) => Some(ChapterDownloader { client, concurrency: if concurrency > 1 { concurrency } else { 1 } }),
            None => None,
        }
    }

    /// A name safe for the file system.
    pub fn sanitize_name(name: &str) -> (r: String)
        ensures
            r@ == safe_name(name@),
    {
        let v = chars_of(name);
        let mut out: Vec<char> = Vec::new();
        let mut i: usize = 0;
        while i < v.len()
            invariant
                i <= v@.len(),
                out@ == replace_forbidden(v@.subrange(0, i as int)),
            decreases v@.len() - i,
        {
            let c = v[i];
            let bad = c == '/' || c == '\\' || c == ':' || c == '*' || c == '?' || c == '"' || c
                == '<' || c == '>' || c == '|' || c == '\0';
            out.push(if bad { '_' } else { c });
            i = i + 1;
            assert(out@ =~= replace_forbidden(v@.subrange(0, i as int)));
        }
        assert(v@.subrange(0, v@.len() as int) =~= v@);
        let t = trim_chars(&out);
        if t.len() == 0 {
            String::from_str("untitled")
        } else {
            string_of(t.as_slice())
        }
    }

    /// The file a page image is saved to: `0007.png` for index 7.
    pub fn page_file_name(index: usize) -> (r: String)
        ensures
            r@ == page_file(index as nat),
    {
        let mut s = zero_padded(index as u64, 4);
        s.append(".png");
        s
    }

    /// The `Referer` sent with the request of a page at `url`: the site of
    /// its host, none where the URL has no host.
    pub fn page_referer(url: &str) -> (r: Option<String>)
        ensures
            match url_host(url@) {
                Some(h) => r matches Some(s) && s@ == referer_of(h),
                None => r is None,
            },
    {
        match host_of(url) {
            Some(h) => Some(Self::referer(h.as_str())),
            None => None,
        }
    }

    /// The `Referer` sent with a page request to `host`.
    pub fn referer(host: &str) -> (r: String)
        ensures
            r@ == referer_of(host@),
    {
        let mut s = String::from_str("https://");
        s.append(host);
        s.append("/");
        s
    }
}

} // verus!

verus! {

/// A safe name is never empty and holds no forbidden character; making a
/// safe name safe again changes nothing.
pub proof fn lemma_safe_name(name: Seq<char>)
    ensures
        safe_name(name).len() > 0,
        forall|i: int|
            0 <= i < safe_name(name).len() ==> !is_forbidden_in_name(#[trigger] safe_name(name)[i]),
        safe_name(safe_name(name)) == safe_name(name),
{
    reveal_strlit("untitled");
    let r = replace_forbidden(name);
    let t = trim(r);
    crate::text::lemma_trim_props(r);
    let a = crate::text::trim_offset(r);
    assert forall|i: int| 0 <= i < t.len() implies !is_forbidden_in_name(#[trigger] t[i]) by {
        assert(t[i] == r[a + i]);
    }
    let s = safe_name(name);
    assert forall|i: int| 0 <= i < s.len() implies !is_forbidden_in_name(#[trigger] s[i]) by {
        if t.len() == 0 {
            assert(s == "untitled"@);
        }
    }
    assert(replace_forbidden(s) =~= s);
    assert(s.len() > 0 ==> !crate::text::is_ws(s[0]) && !crate::text::is_ws(s.last()));
    crate::text::lemma_trim_of_trimmed(s);
}

} // verus!
