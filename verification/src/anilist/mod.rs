//! AniList synchronisation: the GraphQL requests sent and how their replies
//! are read.

use vstd::prelude::*;
use crate::text::{contains_char, occurs_at, chars_of, dec, decimal, opt_view, string_of, trim, trim_str};

verus! {

/// The GraphQL endpoint of AniList.
pub const GRAPHQL_URL: &'static str = "https://graphql.anilist.co";

/// What a GraphQL reply holds that the client reads: the first error's
/// message where there are errors (`Some(None)` where it has none), the
/// viewer's name, and the found series' id.
pub struct Reply {
    pub errors: Option<Option<String>>,
    pub viewer_name: Option<String>,
    pub media_id: Option<i64>,
}

/// The fields of a reply.
pub struct ReplyView {
    pub errors: Option<Option<Seq<char>>>,
    pub viewer_name: Option<Seq<char>>,
    pub media_id: Option<i64>,
}

impl View for Reply {
    type V = ReplyView;

    open spec fn view(&self) -> ReplyView {
        ReplyView {
            errors: match self.errors {
                Some(m) => Some(opt_view(m)),
                None => None,
            },
            viewer_name: opt_view(self.viewer_name),
            media_id: self.media_id,
        }
    }
}

/// What `serde_json` reads of a reply body: `errors[0].message` where
/// `errors` is present, `data.Viewer.name` and `data.Media.id`; `None`
/// where the body is not JSON.
pub uninterp spec fn parsed_reply(body: Seq<char>) -> Option<ReplyView>;

/// Reads a reply body with `serde_json::from_str::<serde_json::Value>` and
/// picks its fields. Claimed: the result is `parsed_reply` of the body.
#[verifier::external_body]
fn parse_reply(body: &str) -> (r: Option<Reply>)
    ensures
        match r {
            Some(reply) => parsed_reply(body@) == Some(reply@),
            None => parsed_reply(body@) is None,
        },
{
    let v: serde_json::Value = serde_json::from_str(body).ok()?;
    Some(Reply {
        errors: v.get("errors").map(|e| e[0]["message"].as_str().map(|s| s.to_string())),
        viewer_name: v["data"]["Viewer"]["name"].as_str().map(|s| s.to_string()),
        media_id: v["data"]["Media"]["id"].as_i64(),
    })
}

/// A lower-case hexadecimal digit.
pub open spec fn hex_digit(d: nat) -> char {
    if d < 10 {
        (48 + d) as char
    } else {
        (87 + d) as char
    }
}

/// How a character stands inside a JSON string literal: `"` and `\`
/// behind a backslash; backspace, tab, line feed, form feed and carriage
/// return as `\b`, `\t`, `\n`, `\f`, `\r`; any other character below
/// U+0020 as `\u00` and two lower-case hex digits; anything else as itself.
pub open spec fn json_char(c: char) -> Seq<char> {
    let u = c as u32;
    if c == '"' {
        seq!['\\', '"']
    } else if c == '\\' {
        seq!['\\', '\\']
    } else if u == 8 {
        seq!['\\', 'b']
    } else if u == 9 {
        seq!['\\', 't']
    } else if u == 10 {
        seq!['\\', 'n']
    } else if u == 12 {
        seq!['\\', 'f']
    } else if u == 13 {
        seq!['\\', 'r']
    } else if u < 32 {
        seq!['\\', 'u', '0', '0', hex_digit((u / 16) as nat), hex_digit((u % 16) as nat)]
    } else {
        seq![c]
    }
}

/// The characters of `s`, each as it stands inside a JSON string literal.
pub open spec fn json_escaped(s: Seq<char>) -> Seq<char>
    decreases s.len(),
{
    if s.len() == 0 {
        Seq::empty()
    } else {
        json_escaped(s.drop_last()) + json_char(s.last())
    }
}

/// A string as a JSON literal: quoted and escaped, as `serde_json` writes
/// it.
pub open spec fn json_literal(s: Seq<char>) -> Seq<char> {
    seq!['"'] + json_escaped(s) + seq!['"']
}

fn hex_digit_exec(d: u32) -> (r: char)
    requires
        d < 16,
    ensures
        r == hex_digit(d as nat),
{
    if d < 10 {
        let b: u8 = (48 + d) as u8;
        b as char
    } else {
        let b: u8 = (87 + d) as u8;
        b as char
    }
}

/// A string as a JSON literal: quoted and escaped, as `serde_json`
/// writes it.
fn to_json_literal(s: &str) -> (r: String)
    ensures
        r@ == json_literal(s@),
{
    let v = chars_of(s);
    let mut out: Vec<char> = Vec::new();
    out.push('"');
    let mut i: usize = 0;
    while i < v.len()
        invariant
            i <= v@.len(),
            out@ == seq!['"'] + json_escaped(v@.subrange(0, i as int)),
        decreases v@.len() - i,
    {
        let c = v[i];
        let u = c as u32;
        let ghost before = out@;
        if c == '"' {
            out.push('\\');
            out.push('"');
        } else if c == '\\' {
            out.push('\\');
            out.push('\\');
        } else if u == 8 {
            out.push('\\');
            out.push('b');
        } else if u == 9 {
            out.push('\\');
            out.push('t');
        } else if u == 10 {
            out.push('\\');
            out.push('n');
        } else if u == 12 {
            out.push('\\');
            out.push('f');
        } else if u == 13 {
            out.push('\\');
            out.push('r');
        } else if u < 32 {
            out.push('\\');
            out.push('u');
            out.push('0');
            out.push('0');
            out.push(hex_digit_exec(u / 16));
            out.push(hex_digit_exec(u % 16));
        } else {
            out.push(c);
        }
        proof {
            assert(v@.subrange(0, i + 1).drop_last() =~= v@.subrange(0, i as int));
            assert(v@.subrange(0, i + 1).last() == c);
            assert(out@ =~= before + json_char(c));
        }
        i = i + 1;
    }
    out.push('"');
    assert(v@.subrange(0, v@.len() as int) =~= v@);
    assert(out@ =~= json_literal(s@));
    string_of(out.as_slice())
}

/// The decimal text of a signed number.
pub open spec fn signed_text(x: int) -> Seq<char> {
    if x < 0 {
        "-"@ + dec((-x) as nat)
    } else {
        dec(x as nat)
    }
}

/// The decimal text of a signed number.
pub fn signed_decimal(x: i64) -> (r: String)
    ensures
        r@ == signed_text(x as int),
{
    if x < 0 {
        let mut s = String::from_str("-");
        let m: u64 = if x == i64::MIN {
            9223372036854775808u64
        } else {
            (-x) as u64
        };
        s.append(decimal(m).as_str());
        s
    } else {
        decimal(x as u64)
    }
}

/// The query that asks who owns a token.
pub open spec fn viewer_query() -> Seq<char> {
    "{\"query\":\"query { Viewer { id name } }\"}"@
}

/// The query that searches a series by title.
pub open spec fn search_query(title: Seq<char>) -> Seq<char> {
    "{\"query\":\"query ($search: String) { Media (search: $search, type: MANGA) { id title { romaji english } chapters } }\",\"variables\":{\"search\":"@
        + json_literal(title) + "}}"@
}

/// The mutation that saves reading progress.
pub open spec fn progress_mutation(media_id: int, progress: int) -> Seq<char> {
    "{\"query\":\"mutation ($ID: Int, $progress: Int) { SaveMediaListEntry (mediaId: $ID, progress: $progress, status: CURRENT) { id progress status } }\",\"variables\":{\"ID\":"@
        + signed_text(media_id) + ",\"progress\":"@ + signed_text(progress) + "}}"@
}

/// The AniList client.
pub struct AnilistClient;

impl AnilistClient {
    /// The `Authorization` header value for a token.
    pub fn bearer(token: &str) -> (r: String)
        ensures
            r@ == "Bearer "@ + trim(token@),
    {
        let mut s = String::from_str("Bearer ");
        s.append(trim_str(token).as_str());
        s
    }

    /// The body of the request that asks who owns a token.
    pub fn viewer_body() -> (r: String)
        ensures
            r@ == viewer_query(),
    {
        String::from_str("{\"query\":\"query { Viewer { id name } }\"}")
    }

    /// The body of the request that searches a series by title.
    pub fn search_body(title: &str) -> (r: String)
        ensures
            r@ == search_query(title@),
    {
        let mut s = String::from_str(
            "{\"query\":\"query ($search: String) { Media (search: $search, type: MANGA) { id title { romaji english } chapters } }\",\"variables\":{\"search\":",
        );
        s.append(to_json_literal(title).as_str());
        s.append("}}");
        s
    }

    /// The body of the request that saves reading progress.
    pub fn progress_body(media_id: i64, progress: i32) -> (r: String)
        ensures
            r@ == progress_mutation(media_id as int, progress as int),
    {
        let mut s = String::from_str(
            "{\"query\":\"mutation ($ID: Int, $progress: Int) { SaveMediaListEntry (mediaId: $ID, progress: $progress, status: CURRENT) { id progress status } }\",\"variables\":{\"ID\":",
        );
        s.append(signed_decimal(media_id).as_str());
        s.append(",\"progress\":");
        s.append(signed_decimal(progress as i64).as_str());
        s.append("}}");
        s
    }

    /// What checking a token gives, from the reply: the viewer's name, or
    /// the error reported.
    pub fn viewer_outcome(reply: &Reply) -> (r: Result<String, String>)
        ensures
            match reply@.errors {
                Some(m) => r matches Err(e) && e@ == "AniList auth failed: "@ + match m {
                    Some(t) => t,
                    None => "Unauthorized"@,
                },
                None => match reply@.viewer_name {
                    Some(n) => r matches Ok(x) && x@ == n,
                    None => r matches Err(e) && e@ == "Failed to parse AniList username"@,
                },
            },
    {
        match &reply.errors {
            Some(m) => {
                let mut e = String::from_str("AniList auth failed: ");
                match m {
                    Some(t) => e.append(t.as_str()),
                    None => e.append("Unauthorized"),
                }
                Err(e)
            },
            None => match &reply.viewer_name {
                Some(n) => Ok(n.clone()),
                None => Err(String::from_str("Failed to parse AniList username")),
            },
        }
    }

    /// What saving progress gives, from the reply: done, or the error reported.
    pub fn update_outcome(reply: &Reply) -> (r: Result<(), String>)
        ensures
            match reply@.errors {
                Some(m) => r matches Err(e) && e@ == "AniList mutation error: "@ + match m {
                    Some(t) => t,
                    None => "Failed to save progress"@,
                },
                None => r is Ok,
            },
    {
        match &reply.errors {
            Some(m) => {
                let mut e = String::from_str("AniList mutation error: ");
                match m {
                    Some(t) => e.append(t.as_str()),
                    None => e.append("Failed to save progress"),
                }
                Err(e)
            },
            None => Ok(()),
        }
    }

    /// The viewer's name read from a reply body, or the error it reports;
    /// `None` where the body is not JSON.
    pub fn viewer_from_body(body: &str) -> (r: Option<Result<String, String>>)
        ensures
            match parsed_reply(body@) {
                Some(reply) => r matches Some(out) && match reply.errors {
                    Some(m) => out matches Err(e) && e@ == "AniList auth failed: "@ + match m {
                        Some(t) => t,
                        None => "Unauthorized"@,
                    },
                    None => match reply.viewer_name {
                        Some(n) => out matches Ok(x) && x@ == n,
                        None => out matches Err(e) && e@ == "Failed to parse AniList username"@,
                    },
                },
                None => r is None,
            },
    {
        match parse_reply(body) {
            Some(reply) => Some(Self::viewer_outcome(&reply)),
            None => None,
        }
    }

    /// The id of the series found, read from a reply body; `None` where
    /// the body is not JSON.
    pub fn media_id_from_body(body: &str) -> (r: Option<Option<i64>>)
        ensures
            match parsed_reply(body@) {
                Some(reply) => r == Some(reply.media_id),
                None => r is None,
            },
    {
        match parse_reply(body) {
            Some(reply) => Some(reply.media_id),
            None => None,
        }
    }

    /// Whether saving progress worked, read from a reply body; `None` where
    /// the body is not JSON.
    pub fn update_from_body(body: &str) -> (r: Option<Result<(), String>>)
        ensures
            match parsed_reply(body@) {
                Some(reply) => r matches Some(out) && match reply.errors {
                    Some(m) => out matches Err(e) && e@ == "AniList mutation error: "@ + match m {
                        Some(t) => t,
                        None => "Failed to save progress"@,
                    },
                    None => out is Ok,
                },
                None => r is None,
            },
    {
        match parse_reply(body) {
            Some(reply) => Some(Self::update_outcome(&reply)),
            None => None,
        }
    }

    /// The message of a failed HTTP request of the given kind.
    pub fn http_error(what: &str, status: &str) -> (r: String)
        ensures
            r@ == what@ + status@,
    {
        let mut s = String::from_str(what);
        s.append(status);
        s
    }
}


/// Reading progress is saved as "reading": the request body is one JSON
/// object whose query saves the list entry with `status: CURRENT` (naming
/// no status before it and assigning no field after it), and whose
/// variables are `ID`, the series' id, and `progress`, the chapter read.
pub proof fn lemma_progress_saves_reading(media_id: int, progress: int)
    ensures
        exists|pre: Seq<char>, post: Seq<char>|
            {
                &&& progress_mutation(media_id, progress) == "{\"query\":\""@ + pre
                    + "SaveMediaListEntry (mediaId: $ID, progress: $progress, status: CURRENT)"@ + post + "\",\"variables\":{\"ID\":"@
                    + signed_text(media_id) + ",\"progress\":"@ + signed_text(progress) + "}}"@
                &&& forall|i: int| !occurs_at(pre, "status"@, i)
                &&& !contains_char(post, ':')
                &&& !contains_char(pre, '"')
                &&& !contains_char(post, '"')
            },
{
    let pre = "mutation ($ID: Int, $progress: Int) { "@;
    let post = " { id progress status } }"@;
    let entry = "SaveMediaListEntry (mediaId: $ID, progress: $progress, status: CURRENT)"@;
    let head = "{\"query\":\""@;
    let tail = "\",\"variables\":{\"ID\":"@;
    let whole = "{\"query\":\"mutation ($ID: Int, $progress: Int) { SaveMediaListEntry (mediaId: $ID, progress: $progress, status: CURRENT) { id progress status } }\",\"variables\":{\"ID\":"@;
    reveal_strlit("mutation ($ID: Int, $progress: Int) { ");
    reveal_strlit(" { id progress status } }");
    reveal_strlit("SaveMediaListEntry (mediaId: $ID, progress: $progress, status: CURRENT)");
    reveal_strlit("{\"query\":\"");
    reveal_strlit("\",\"variables\":{\"ID\":");
    reveal_strlit("{\"query\":\"mutation ($ID: Int, $progress: Int) { SaveMediaListEntry (mediaId: $ID, progress: $progress, status: CURRENT) { id progress status } }\",\"variables\":{\"ID\":");
    reveal_strlit("status");
    assert(whole =~= head + pre + entry + post + tail);
    assert forall|i: int| !occurs_at(pre, "status"@, i) by {
        if occurs_at(pre, "status"@, i) {
            if i == 0 {
                assert(pre.subrange(i, i + 6)[0] == pre[0]);
                assert(pre[0] != "status"@[0]);
            } else if i == 1 {
                assert(pre.subrange(i, i + 6)[0] == pre[1]);
                assert(pre[1] != "status"@[0]);
            } else if i == 2 {
                assert(pre.subrange(i, i + 6)[0] == pre[2]);
                assert(pre[2] != "status"@[0]);
            } else if i == 3 {
                assert(pre.subrange(i, i + 6)[0] == pre[3]);
                assert(pre[3] != "status"@[0]);
            } else if i == 4 {
                assert(pre.subrange(i, i + 6)[0] == pre[4]);
                assert(pre[4] != "status"@[0]);
            } else if i == 5 {
                assert(pre.subrange(i, i + 6)[0] == pre[5]);
                assert(pre[5] != "status"@[0]);
            } else if i == 6 {
                assert(pre.subrange(i, i + 6)[0] == pre[6]);
                assert(pre[6] != "status"@[0]);
            } else if i == 7 {
                assert(pre.subrange(i, i + 6)[0] == pre[7]);
                assert(pre[7] != "status"@[0]);
            } else if i == 8 {
                assert(pre.subrange(i, i + 6)[0] == pre[8]);
                assert(pre[8] != "status"@[0]);
            } else if i == 9 {
                assert(pre.subrange(i, i + 6)[0] == pre[9]);
                assert(pre[9] != "status"@[0]);
            } else if i == 10 {
                assert(pre.subrange(i, i + 6)[0] == pre[10]);
                assert(pre[10] != "status"@[0]);
            } else if i == 11 {
                assert(pre.subrange(i, i + 6)[0] == pre[11]);
                assert(pre[11] != "status"@[0]);
            } else if i == 12 {
                assert(pre.subrange(i, i + 6)[0] == pre[12]);
                assert(pre[12] != "status"@[0]);
            } else if i == 13 {
                assert(pre.subrange(i, i + 6)[0] == pre[13]);
                assert(pre[13] != "status"@[0]);
            } else if i == 14 {
                assert(pre.subrange(i, i + 6)[0] == pre[14]);
                assert(pre[14] != "status"@[0]);
            } else if i == 15 {
                assert(pre.subrange(i, i + 6)[0] == pre[15]);
                assert(pre[15] != "status"@[0]);
            } else if i == 16 {
                assert(pre.subrange(i, i + 6)[0] == pre[16]);
                assert(pre[16] != "status"@[0]);
            } else if i == 17 {
                assert(pre.subrange(i, i + 6)[0] == pre[17]);
                assert(pre[17] != "status"@[0]);
            } else if i == 18 {
                assert(pre.subrange(i, i + 6)[0] == pre[18]);
                assert(pre[18] != "status"@[0]);
            } else if i == 19 {
                assert(pre.subrange(i, i + 6)[0] == pre[19]);
                assert(pre[19] != "status"@[0]);
            } else if i == 20 {
                assert(pre.subrange(i, i + 6)[0] == pre[20]);
                assert(pre[20] != "status"@[0]);
            } else if i == 21 {
                assert(pre.subrange(i, i + 6)[0] == pre[21]);
                assert(pre[21] != "status"@[0]);
            } else if i == 22 {
                assert(pre.subrange(i, i + 6)[0] == pre[22]);
                assert(pre[22] != "status"@[0]);
            } else if i == 23 {
                assert(pre.subrange(i, i + 6)[0] == pre[23]);
                assert(pre[23] != "status"@[0]);
            } else if i == 24 {
                assert(pre.subrange(i, i + 6)[0] == pre[24]);
                assert(pre[24] != "status"@[0]);
            } else if i == 25 {
                assert(pre.subrange(i, i + 6)[0] == pre[25]);
                assert(pre[25] != "status"@[0]);
            } else if i == 26 {
                assert(pre.subrange(i, i + 6)[0] == pre[26]);
                assert(pre[26] != "status"@[0]);
            } else if i == 27 {
                assert(pre.subrange(i, i + 6)[1] == pre[28]);
                assert(pre[28] != "status"@[1]);
            } else if i == 28 {
                assert(pre.subrange(i, i + 6)[1] == pre[29]);
                assert(pre[29] != "status"@[1]);
            } else if i == 29 {
                assert(pre.subrange(i, i + 6)[0] == pre[29]);
                assert(pre[29] != "status"@[0]);
            } else if i == 30 {
                assert(pre.subrange(i, i + 6)[0] == pre[30]);
                assert(pre[30] != "status"@[0]);
            } else if i == 31 {
                assert(pre.subrange(i, i + 6)[0] == pre[31]);
                assert(pre[31] != "status"@[0]);
            } else if i == 32 {
                assert(pre.subrange(i, i + 6)[0] == pre[32]);
                assert(pre[32] != "status"@[0]);
            }
        }
    }
    assert forall|i: int| 0 <= i < post.len() implies post[i] != ':' by {
            if i == 0 {
                assert(post[0] != ':');
            } else if i == 1 {
                assert(post[1] != ':');
            } else if i == 2 {
                assert(post[2] != ':');
            } else if i == 3 {
                assert(post[3] != ':');
            } else if i == 4 {
                assert(post[4] != ':');
            } else if i == 5 {
                assert(post[5] != ':');
            } else if i == 6 {
                assert(post[6] != ':');
            } else if i == 7 {
                assert(post[7] != ':');
            } else if i == 8 {
                assert(post[8] != ':');
            } else if i == 9 {
                assert(post[9] != ':');
            } else if i == 10 {
                assert(post[10] != ':');
            } else if i == 11 {
                assert(post[11] != ':');
            } else if i == 12 {
                assert(post[12] != ':');
            } else if i == 13 {
                assert(post[13] != ':');
            } else if i == 14 {
                assert(post[14] != ':');
            } else if i == 15 {
                assert(post[15] != ':');
            } else if i == 16 {
                assert(post[16] != ':');
            } else if i == 17 {
                assert(post[17] != ':');
            } else if i == 18 {
                assert(post[18] != ':');
            } else if i == 19 {
                assert(post[19] != ':');
            } else if i == 20 {
                assert(post[20] != ':');
            } else if i == 21 {
                assert(post[21] != ':');
            } else if i == 22 {
                assert(post[22] != ':');
            } else if i == 23 {
                assert(post[23] != ':');
            } else if i == 24 {
                assert(post[24] != ':');
            }
    }
    assert forall|i: int| 0 <= i < post.len() implies post[i] != '"' by {
            if i == 0 {
                assert(post[0] != '"');
            } else if i == 1 {
                assert(post[1] != '"');
            } else if i == 2 {
                assert(post[2] != '"');
            } else if i == 3 {
                assert(post[3] != '"');
            } else if i == 4 {
                assert(post[4] != '"');
            } else if i == 5 {
                assert(post[5] != '"');
            } else if i == 6 {
                assert(post[6] != '"');
            } else if i == 7 {
                assert(post[7] != '"');
            } else if i == 8 {
                assert(post[8] != '"');
            } else if i == 9 {
                assert(post[9] != '"');
            } else if i == 10 {
                assert(post[10] != '"');
            } else if i == 11 {
                assert(post[11] != '"');
            } else if i == 12 {
                assert(post[12] != '"');
            } else if i == 13 {
                assert(post[13] != '"');
            } else if i == 14 {
                assert(post[14] != '"');
            } else if i == 15 {
                assert(post[15] != '"');
            } else if i == 16 {
                assert(post[16] != '"');
            } else if i == 17 {
                assert(post[17] != '"');
            } else if i == 18 {
                assert(post[18] != '"');
            } else if i == 19 {
                assert(post[19] != '"');
            } else if i == 20 {
                assert(post[20] != '"');
            } else if i == 21 {
                assert(post[21] != '"');
            } else if i == 22 {
                assert(post[22] != '"');
            } else if i == 23 {
                assert(post[23] != '"');
            } else if i == 24 {
                assert(post[24] != '"');
            }
    }
    assert forall|i: int| 0 <= i < pre.len() implies pre[i] != '"' by {
            if i == 0 {
                assert(pre[0] != '"');
            } else if i == 1 {
                assert(pre[1] != '"');
            } else if i == 2 {
                assert(pre[2] != '"');
            } else if i == 3 {
                assert(pre[3] != '"');
            } else if i == 4 {
                assert(pre[4] != '"');
            } else if i == 5 {
                assert(pre[5] != '"');
            } else if i == 6 {
                assert(pre[6] != '"');
            } else if i == 7 {
                assert(pre[7] != '"');
            } else if i == 8 {
                assert(pre[8] != '"');
            } else if i == 9 {
                assert(pre[9] != '"');
            } else if i == 10 {
                assert(pre[10] != '"');
            } else if i == 11 {
                assert(pre[11] != '"');
            } else if i == 12 {
                assert(pre[12] != '"');
            } else if i == 13 {
                assert(pre[13] != '"');
            } else if i == 14 {
                assert(pre[14] != '"');
            } else if i == 15 {
                assert(pre[15] != '"');
            } else if i == 16 {
                assert(pre[16] != '"');
            } else if i == 17 {
                assert(pre[17] != '"');
            } else if i == 18 {
                assert(pre[18] != '"');
            } else if i == 19 {
                assert(pre[19] != '"');
            } else if i == 20 {
                assert(pre[20] != '"');
            } else if i == 21 {
                assert(pre[21] != '"');
            } else if i == 22 {
                assert(pre[22] != '"');
            } else if i == 23 {
                assert(pre[23] != '"');
            } else if i == 24 {
                assert(pre[24] != '"');
            } else if i == 25 {
                assert(pre[25] != '"');
            } else if i == 26 {
                assert(pre[26] != '"');
            } else if i == 27 {
                assert(pre[27] != '"');
            } else if i == 28 {
                assert(pre[28] != '"');
            } else if i == 29 {
                assert(pre[29] != '"');
            } else if i == 30 {
                assert(pre[30] != '"');
            } else if i == 31 {
                assert(pre[31] != '"');
            } else if i == 32 {
                assert(pre[32] != '"');
            } else if i == 33 {
                assert(pre[33] != '"');
            } else if i == 34 {
                assert(pre[34] != '"');
            } else if i == 35 {
                assert(pre[35] != '"');
            } else if i == 36 {
                assert(pre[36] != '"');
            } else if i == 37 {
                assert(pre[37] != '"');
            }
    }
    assert(progress_mutation(media_id, progress) == head + pre + entry + post + tail
        + signed_text(media_id) + ",\"progress\":"@ + signed_text(progress) + "}}"@);
}

} // verus!
