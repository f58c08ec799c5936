//! Mail in and out: the topic and the message id of a note that came in,
//! and the welcome message that goes out to a new author.

use crate::encoding::{
    key_text, path_segment_encoded, percent_encode_path_segment, percent_encode_query,
    query_encoded, uuid_to_string,
};
use vstd::prelude::*;
use vstd::string::*;

verus! {

/// Whether `s` begins with a reply mark: `re: `, in either case.
pub open spec fn has_reply_mark(s: Seq<char>) -> bool {
    &&& s.len() >= 4
    &&& s[0] == 'r' || s[0] == 'R'
    &&& s[1] == 'e' || s[1] == 'E'
    &&& s[2] == ':'
    &&& s[3] == ' '
}

/// `s` without the reply marks that it begins with.
pub open spec fn without_reply_marks(s: Seq<char>) -> Seq<char>
    decreases s.len(),
{
    if has_reply_mark(s) {
        without_reply_marks(s.skip(4))
    } else {
        s
    }
}

/// The topic of a note: its subject line without the reply marks that it
/// begins with, so that a reply goes to the topic it answers.
pub fn topic_of(subject: &str) -> (topic: String)
    ensures
        topic@ == without_reply_marks(subject@),
{
    let n = subject.unicode_len();
    let mut start: usize = 0;
    let mut marked = true;
    assert(subject@.skip(0) =~= subject@);
    while marked && n - start >= 4
        invariant
            start <= n,
            n == subject@.len(),
            without_reply_marks(subject@) == without_reply_marks(subject@.skip(start as int)),
            !marked ==> !has_reply_mark(subject@.skip(start as int)),
        decreases n - start + (if marked { 1int } else { 0int }),
    {
        let r = subject.get_char(start);
        let e = subject.get_char(start + 1);
        let colon = subject.get_char(start + 2);
        let space = subject.get_char(start + 3);
        let ghost rest = subject@.skip(start as int);
        assert(rest.len() >= 4 && rest[0] == r && rest[1] == e && rest[2] == colon && rest[3]
            == space);
        if (r == 'r' || r == 'R') && (e == 'e' || e == 'E') && colon == ':' && space == ' ' {
            assert(has_reply_mark(rest));
            assert(rest.skip(4) =~= subject@.skip(start + 4));
            start += 4;
        } else {
            assert(!has_reply_mark(rest));
            marked = false;
        }
    }
    assert(subject@.skip(start as int) =~= subject@.subrange(start as int, n as int));
    String::from_str(subject.substring_char(start, n))
}

/// Whether `needle` stands in `hay` at place `i`.
pub open spec fn occurs_at(hay: Seq<char>, needle: Seq<char>, i: int) -> bool {
    &&& 0 <= i
    &&& i + needle.len() <= hay.len()
    &&& hay.subrange(i, i + needle.len()) == needle
}

/// The first place at or after `from` at which `needle` stands in `hay`;
/// -1 if there is none.
pub open spec fn first_occurrence(hay: Seq<char>, needle: Seq<char>, from: int) -> int
    decreases hay.len() - from + 1,
{
    if from < 0 || from + needle.len() > hay.len() {
        -1
    } else if occurs_at(hay, needle, from) {
        from
    } else {
        first_occurrence(hay, needle, from + 1)
    }
}

/// What `first_occurrence` finds: `needle` stands at the place it
/// returns and at no place from `from` up to there; it returns -1 only if
/// `needle` stands nowhere from `from` on.
pub proof fn lemma_first_occurrence(hay: Seq<char>, needle: Seq<char>, from: int)
    requires
        0 <= from,
    ensures
        first_occurrence(hay, needle, from) == -1 || (from <= first_occurrence(hay, needle, from)
            && occurs_at(hay, needle, first_occurrence(hay, needle, from))),
        forall|i: int|
            from <= i && (i < first_occurrence(hay, needle, from) || first_occurrence(
                hay,
                needle,
                from,
            ) == -1) ==> !occurs_at(hay, needle, i),
    decreases hay.len() - from + 1,
{
    if from + needle.len() <= hay.len() && !occurs_at(hay, needle, from) {
        lemma_first_occurrence(hay, needle, from + 1);
    }
}

/// Whether `needle`, of `m` characters, stands in `hay` at place `i`.
fn stands_at(hay: &str, needle: &str, m: usize, i: usize) -> (yes: bool)
    requires
        m == needle@.len(),
        i + m <= hay@.len() <= usize::MAX,
    ensures
        yes == occurs_at(hay@, needle@, i as int),
{
    let mut k: usize = 0;
    while k < m
        invariant
            k <= m,
            m == needle@.len(),
            i + m <= hay@.len() <= usize::MAX,
            forall|j: int| 0 <= j < k ==> hay@[i + j] == needle@[j],
        decreases m - k,
    {
        if hay.get_char(i + k) != needle.get_char(k) {
            assert(hay@.subrange(i as int, i + m)[k as int] == hay@[i + k]);
            return false;
        }
        k += 1;
    }
    assert(hay@.subrange(i as int, i + m) =~= needle@);
    true
}

/// The first place at or after `from` at which `needle` stands in `hay`.
pub fn find_from(hay: &str, needle: &str, from: usize) -> (place: Option<usize>)
    ensures
        match place {
            Some(p) => p == first_occurrence(hay@, needle@, from as int) && p + needle@.len()
                <= hay@.len() <= usize::MAX,
            None => first_occurrence(hay@, needle@, from as int) == -1,
        },
{
    let n = hay.unicode_len();
    let m = needle.unicode_len();
    if m > n || from > n - m {
        return None;
    }
    let mut i: usize = from;
    loop
        invariant
            from <= i <= n - m,
            m <= n,
            n == hay@.len(),
            m == needle@.len(),
            first_occurrence(hay@, needle@, from as int) == first_occurrence(
                hay@,
                needle@,
                i as int,
            ),
        decreases n - i,
    {
        if stands_at(hay, needle, m, i) {
            return Some(i);
        }
        if i == n - m {
            assert(first_occurrence(hay@, needle@, i + 1) == -1);
            return None;
        }
        i += 1;
    }
}

/// The mark in front of the message id in the headers as they come in: a
/// list of pairs, each written `["name", "value"]`.
pub open spec fn message_id_mark() -> Seq<char> {
    "[\"Message-Id\", \"<"@
}

/// The message id in `headers`, in its angle brackets: what stands from
/// the `<` of the first message id mark up to the first `>` after it.
/// None where there is no such mark, or no `>` after it.
pub open spec fn message_id(headers: Seq<char>) -> Option<Seq<char>> {
    let start = first_occurrence(headers, message_id_mark(), 0);
    let end = first_occurrence(headers, seq!['>'], start);
    if start < 0 || end < 0 {
        None
    } else {
        Some(headers.subrange(start + 16, end + 1))
    }
}

/// The message id of a note that came in, in its angle brackets, so that
/// an answer can refer to it.
pub fn message_id_of(headers: &str) -> (id: Option<String>)
    ensures
        match id {
            Some(text) => message_id(headers@) == Some(text@),
            None => message_id(headers@) is None,
        },
{
    proof {
        reveal_strlit("[\"Message-Id\", \"<");
        reveal_strlit(">");
        assert(">"@ =~= seq!['>']);
    }
    match find_from(headers, "[\"Message-Id\", \"<", 0) {
        None => None,
        Some(start) => match find_from(headers, ">", start) {
            None => None,
            Some(end) => {
                proof {
                    lemma_first_occurrence(headers@, message_id_mark(), 0);
                    lemma_first_occurrence(headers@, seq!['>'], start as int);
                    // the mark holds no `>`, so the first one stands behind it
                    assert forall|j: int| start <= j < start + 17 implies !occurs_at(
                        headers@,
                        seq!['>'],
                        j,
                    ) by {
                        assert(headers@.subrange(start as int, start + 17)[j - start] == headers@[j]);
                        if occurs_at(headers@, seq!['>'], j) {
                            assert(headers@.subrange(j, j + 1)[0] == '>');
                        }
                    }
                }
                Some(String::from_str(headers.substring_char(start + 16, end + 1)))
            },
        },
    }
}

/// A request to the mail service: where to post, and the form to post.
#[derive(Debug, PartialEq, Eq)]
pub struct Outgoing {
    pub url: String,
    pub payload: String,
}

/// The address at which the mail service takes messages for `domain`.
pub open spec fn messages_url(domain: Seq<char>) -> Seq<char> {
    "https://api.mailgun.net/v3/"@ + domain + "/messages"@
}

/// The link to everything that an author has posted.
pub open spec fn author_link(domain: Seq<char>, user_key: u128) -> Seq<char> {
    path_segment_encoded(domain) + "/"@ + path_segment_encoded(key_text(user_key))
}

/// The link to a topic.
pub open spec fn thread_link(domain: Seq<char>, topic_key: u128) -> Seq<char> {
    path_segment_encoded(domain) + "/t/"@ + path_segment_encoded(key_text(topic_key))
}

/// The welcome message: a page that links to the first note and to the
/// author's notes, and says how to post more on the topic.
pub open spec fn welcome_page(thread: Seq<char>, author: Seq<char>, topic: Seq<char>) -> Seq<
    char,
> {
    "<!DOCTYPE html PUBLIC \"-//W3C//DTD XHTML 1.0 Transitional//EN\" \"http://www.w3.org/TR/xhtml1/DTD/xhtml1-transitional.dtd\"><html xmlns=\"http://www.w3.org/1999/xhtml\"><head><meta http-equiv=\"Content-Type\" content=\"text/html; charset=UTF-8\" /><title>Welcome to write-only 🌘</title><meta name=\"viewport\" content=\"width=device-width, initial-scale=1.0\" /></head><body style=\"margin: 0; padding: 0;\"><table border=\"0\" cellpadding=\"0\" cellspacing=\"0\" width=\"400\"><tr><td style=\"padding: 1.5em 1em 1em 1em; text-align: center; font-size: 18px\" bgcolor=\"#000000\"><a href=\"http://write-only.space\" style=\"color: #ffff00; text-decoration:none\">write-only☄space</a></td></tr><tr><td bgcolor=\"#003344\" style=\"color: #ffffff; padding: 1em 1em 1em 1em; font-size: 18px\"><b style=\"font-size: 24px; padding: 1em 0 1em 0;\">Welcome to write-only 🌘</b><p>You just posted <a href=\""@
        + thread
        + "\" style=\"font-weight: bold; color: #ffff00; text-decoration:none\">your first note</a> – awesome!</p><p>Everything you post to write-only is <em>unlisted</em>, which means only people with the link can find it. Here is the special link that shows everything posted from your email address:</p><p><a href=\""@
        + author + "\" style=\"font-weight: bold; color: ffff00; text-decoration:none\">"@ + author
        + "</a></p><p>Your notes are grouped by the email's subject line, so you can post more about <b>"@
        + topic
        + "</b> by simply replying to this email, or sending new emails with the same subject.</p><p>That's it!</p><p>Happy writing ✎</p></td></tr></table></body></html>"@
}

/// What follows the form's fields where the welcome answers a message:
/// the headers that refer to it, with its id as it is.
pub open spec fn reply_headers(message_id: Option<Seq<char>>) -> Seq<char> {
    match message_id {
        Some(id) => "&h:In-Reply-To="@ + id + "&h:References="@ + id,
        None => Seq::empty(),
    }
}

/// The form that asks the mail service to send the welcome: sender,
/// recipient, the topic as subject and the page as body, each
/// percent-encoded for a query string, and a tag.
pub open spec fn welcome_payload(
    to: Seq<char>,
    topic: Seq<char>,
    page: Seq<char>,
    message_id: Option<Seq<char>>,
) -> Seq<char> {
    "from="@ + query_encoded("write-only <note@write-only.space>"@) + "&to="@ + query_encoded(to)
        + "&subject="@ + query_encoded(topic) + "&html="@ + query_encoded(page)
        + "&o:tag=welcome"@ + reply_headers(message_id)
}

/// The message id as a sequence of characters.
pub open spec fn id_view(message_id: Option<&str>) -> Option<Seq<char>> {
    match message_id {
        Some(id) => Some(id@),
        None => None,
    }
}

/// The request that sends the welcome message to a new author at `to`,
/// who has just posted a first note on `topic`. `domain` is the mail
/// domain of the service; `message_id`, where there is one, is that of the
/// author's message, to which the welcome is then an answer.
pub fn welcome(
    domain: &str,
    to: &str,
    topic: &str,
    topic_key: u128,
    user_key: u128,
    message_id: Option<&str>,
) -> (request: Outgoing)
    ensures
        request.url@ == messages_url(domain@),
        request.payload@ == welcome_payload(
            to@,
            topic@,
            welcome_page(thread_link(domain@, topic_key), author_link(domain@, user_key), topic@),
            id_view(message_id),
        ),
{
    let place = percent_encode_path_segment(domain);
    let mut author = place.clone();
    author.append("/");
    author.append(percent_encode_path_segment(uuid_to_string(user_key).as_str()).as_str());
    let mut thread = place;
    thread.append("/t/");
    thread.append(percent_encode_path_segment(uuid_to_string(topic_key).as_str()).as_str());

    let mut page = String::from_str(
        "<!DOCTYPE html PUBLIC \"-//W3C//DTD XHTML 1.0 Transitional//EN\" \"http://www.w3.org/TR/xhtml1/DTD/xhtml1-transitional.dtd\"><html xmlns=\"http://www.w3.org/1999/xhtml\"><head><meta http-equiv=\"Content-Type\" content=\"text/html; charset=UTF-8\" /><title>Welcome to write-only 🌘</title><meta name=\"viewport\" content=\"width=device-width, initial-scale=1.0\" /></head><body style=\"margin: 0; padding: 0;\"><table border=\"0\" cellpadding=\"0\" cellspacing=\"0\" width=\"400\"><tr><td style=\"padding: 1.5em 1em 1em 1em; text-align: center; font-size: 18px\" bgcolor=\"#000000\"><a href=\"http://write-only.space\" style=\"color: #ffff00; text-decoration:none\">write-only☄space</a></td></tr><tr><td bgcolor=\"#003344\" style=\"color: #ffffff; padding: 1em 1em 1em 1em; font-size: 18px\"><b style=\"font-size: 24px; padding: 1em 0 1em 0;\">Welcome to write-only 🌘</b><p>You just posted <a href=\"",
    );
    page.append(thread.as_str());
    page.append(
        "\" style=\"font-weight: bold; color: #ffff00; text-decoration:none\">your first note</a> – awesome!</p><p>Everything you post to write-only is <em>unlisted</em>, which means only people with the link can find it. Here is the special link that shows everything posted from your email address:</p><p><a href=\"",
    );
    page.append(author.as_str());
    page.append("\" style=\"font-weight: bold; color: ffff00; text-decoration:none\">");
    page.append(author.as_str());
    page.append(
        "</a></p><p>Your notes are grouped by the email's subject line, so you can post more about <b>",
    );
    page.append(topic);
    page.append(
        "</b> by simply replying to this email, or sending new emails with the same subject.</p><p>That's it!</p><p>Happy writing ✎</p></td></tr></table></body></html>",
    );

    let mut payload = String::from_str("from=");
    payload.append(percent_encode_query("write-only <note@write-only.space>").as_str());
    payload.append("&to=");
    payload.append(percent_encode_query(to).as_str());
    payload.append("&subject=");
    payload.append(percent_encode_query(topic).as_str());
    payload.append("&html=");
    payload.append(percent_encode_query(page.as_str()).as_str());
    payload.append("&o:tag=welcome");
    match message_id {
        Some(id) => {
            payload.append("&h:In-Reply-To=");
            payload.append(id);
            payload.append("&h:References=");
            payload.append(id);
        },
        None => {},
    }

    let mut url = String::from_str("https://api.mailgun.net/v3/");
    url.append(domain);
    url.append("/messages");
    Outgoing { url, payload }
}

} // verus!
