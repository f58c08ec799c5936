//! The pages of the service: their titles, the frame that every page
//! stands in, and the lists that the pages show.

use crate::encoding::{
    key_text, path_segment_encoded, percent_encode_path_segment, uuid_to_string,
};
use crate::html::{concat, tag_text};
use crate::moment::{
    date_text, date_time_text, days_ago, days_between, days_text, Timestamp,
};
use vstd::prelude::*;
use vstd::string::*;

verus! {

/// What a page says about the document's title: nothing, a part to put in
/// front of the title so far, or a title to put in its place.
#[derive(Debug, PartialEq, Eq)]
pub enum Title {
    Nothing,
    Add(String),
    Replace(String),
}

/// A [`Title`] with its text as a sequence of characters.
pub enum TitleView {
    Nothing,
    Add(Seq<char>),
    Replace(Seq<char>),
}

impl View for Title {
    type V = TitleView;

    open spec fn view(&self) -> TitleView {
        match self {
            Title::Nothing => TitleView::Nothing,
            Title::Add(s) => TitleView::Add(s@),
            Title::Replace(s) => TitleView::Replace(s@),
        }
    }
}

/// `child`, a space, `sep`, a space, and `base`.
pub open spec fn joined(child: Seq<char>, sep: Seq<char>, base: Seq<char>) -> Seq<char> {
    child + seq![' '] + sep + seq![' '] + base
}

impl TitleView {
    /// The title of a page whose title so far is `self` and whose inner
    /// part says `child`. A child that adds goes in front, with `sep`
    /// between; a child that replaces takes the place of the text. Whether
    /// the result adds or replaces is what `self` does, or what the child
    /// does where `self` is nothing.
    pub open spec fn add(self, child: TitleView, sep: Seq<char>) -> TitleView {
        match (self, child) {
            (TitleView::Nothing, _) => child,
            (_, TitleView::Nothing) => self,
            (TitleView::Add(s), TitleView::Add(c)) => TitleView::Add(joined(c, sep, s)),
            (TitleView::Add(_), TitleView::Replace(c)) => TitleView::Add(c),
            (TitleView::Replace(s), TitleView::Add(c)) => TitleView::Replace(joined(c, sep, s)),
            (TitleView::Replace(_), TitleView::Replace(c)) => TitleView::Replace(c),
        }
    }

    /// The title as the document shows it: a moon, a space, and the text,
    /// if there is any.
    pub open spec fn text(self) -> Seq<char> {
        match self {
            TitleView::Nothing => seq!['🌘', ' '],
            TitleView::Add(s) => seq!['🌘', ' '] + s,
            TitleView::Replace(s) => seq!['🌘', ' '] + s,
        }
    }
}

/// `child`, a space, `sep`, a space, and `base`.
fn join_titles(child: String, sep: &str, base: String) -> (text: String)
    ensures
        text@ == joined(child@, sep@, base@),
{
    let mut text = child;
    text.append(" ");
    text.append(sep);
    text.append(" ");
    text.append(base.as_str());
    proof {
        reveal_strlit(" ");
        assert(text@ =~= joined(child@, sep@, base@));
    }
    text
}

impl Title {
    /// The title of a page whose title so far is `self` and whose inner
    /// part says `child`.
    pub fn add(self, child: Title, sep: &str) -> (title: Title)
        ensures
            title@ == self@.add(child@, sep@),
    {
        match (self, child) {
            (Title::Nothing, Title::Nothing) => Title::Nothing,
            (Title::Nothing, child) => child,
            (title, Title::Nothing) => title,
            (Title::Add(s), Title::Add(c)) => Title::Add(join_titles(c, sep, s)),
            (Title::Add(_), Title::Replace(c)) => Title::Add(c),
            (Title::Replace(s), Title::Add(c)) => Title::Replace(join_titles(c, sep, s)),
            (Title::Replace(_), Title::Replace(c)) => Title::Replace(c),
        }
    }

    /// The title as the document shows it.
    pub fn to_text(&self) -> (text: String)
        ensures
            text@ == self@.text(),
    {
        let mut text = String::from_str("🌘 ");
        proof {
            reveal_strlit("🌘 ");
            assert("🌘 "@ =~= seq!['🌘', ' ']);
        }
        match self {
            Title::Nothing => {},
            Title::Add(s) => {
                text.append(s.as_str());
            },
            Title::Replace(s) => {
                text.append(s.as_str());
            },
        }
        text
    }
}

/// The frame of a bare page, up to where the content begins.
pub open spec fn base_head() -> Seq<char> {
    "<!doctype html>\n        <html>\n            <head>\n                <title>write-only.space</title>\n            </head>\n            <body>\n                "@
}

/// The frame of a bare page, from where the content ends.
pub open spec fn base_tail() -> Seq<char> {
    "\n            </body>\n        </html>\n        "@
}

/// A bare page around `content`: the doctype, a head with the site's
/// name as title, and a body that holds the content as it is.
pub fn base(content: &str) -> (page: String)
    ensures
        page@ == base_head() + content@ + base_tail(),
{
    let mut page = String::from_str(
        "<!doctype html>\n        <html>\n            <head>\n                <title>write-only.space</title>\n            </head>\n            <body>\n                ",
    );
    page.append(content);
    page.append("\n            </body>\n        </html>\n        ");
    page
}

/// A note as the bare page lists it.
#[derive(Debug, PartialEq, Eq)]
pub struct Entry {
    /// When it came in.
    pub timestamp: Timestamp,
    /// Who sent it.
    pub sender: String,
    /// The subject line it came under.
    pub thread: String,
    /// Its markup, shown as it is.
    pub body: String,
}

/// An [`Entry`] with its texts as sequences of characters.
pub struct EntryView {
    pub timestamp: (i64, u32),
    pub sender: Seq<char>,
    pub thread: Seq<char>,
    pub body: Seq<char>,
}

impl View for Entry {
    type V = EntryView;

    open spec fn view(&self) -> EntryView {
        EntryView {
            timestamp: self.timestamp@,
            sender: self.sender@,
            thread: self.thread@,
            body: self.body@,
        }
    }
}

impl DeepView for Entry {
    type V = EntryView;

    open spec fn deep_view(&self) -> EntryView {
        self@
    }
}

/// One note in the list of the bare page: sender and thread as heading,
/// with the date and time in small, then the body.
pub open spec fn entry_text(entry: EntryView) -> Seq<char> {
    "\n                <li>\n                    <h3>"@ + entry.sender + "/"@ + entry.thread
        + " <small>"@ + date_time_text(entry.timestamp.0, entry.timestamp.1)
        + "</small></h3>\n                    <p>"@ + entry.body
        + "</p>\n                </li>\n                "@
}

/// The notes of the bare page's list, one after the other.
pub open spec fn entries_text(entries: Seq<EntryView>) -> Seq<char> {
    concat(Seq::new(entries.len(), |i: int| entry_text(entries[i])))
}

/// The bare page that lists the latest notes.
pub open spec fn latest_posts_text(entries: Seq<EntryView>) -> Seq<char> {
    base_head() + ("\n        <h1>write-only.space</h1>\n        <h2>latest posts</h2>\n        <ul>\n            "@
        + entries_text(entries) + "\n        </ul>\n        "@) + base_tail()
}

/// The bare page that lists `entries` in the order given. Nothing is
/// escaped.
pub fn latest_posts(entries: &Vec<Entry>) -> (page: String)
    ensures
        page@ == latest_posts_text(entries.deep_view()),
{
    let ghost views = entries.deep_view();
    let ghost shown = Seq::new(views.len(), |i: int| entry_text(views[i]));
    let mut list = String::from_str(
        "\n        <h1>write-only.space</h1>\n        <h2>latest posts</h2>\n        <ul>\n            ",
    );
    let ghost start = list@;
    let mut i: usize = 0;
    assert(shown.take(0) =~= Seq::empty());
    assert(start + Seq::<char>::empty() =~= start);
    while i < entries.len()
        invariant
            i <= entries.len(),
            views == entries.deep_view(),
            shown == Seq::new(views.len(), |i: int| entry_text(views[i])),
            list@ == start + concat(shown.take(i as int)),
        decreases entries.len() - i,
    {
        let entry = &entries[i];
        let ghost sofar = list@;
        list.append("\n                <li>\n                    <h3>");
        list.append(entry.sender.as_str());
        list.append("/");
        list.append(entry.thread.as_str());
        list.append(" <small>");
        list.append(entry.timestamp.date_time().as_str());
        list.append("</small></h3>\n                    <p>");
        list.append(entry.body.as_str());
        list.append("</p>\n                </li>\n                ");
        proof {
            assert(views[i as int] == entry@);
            assert(list@ =~= sofar + entry_text(entry@));
            assert(shown.take(i + 1).drop_last() =~= shown.take(i as int));
            assert(list@ =~= start + concat(shown.take(i + 1)));
        }
        i += 1;
    }
    assert(shown.take(i as int) =~= shown);
    list.append("\n        </ul>\n        ");
    base(list.as_str())
}

/// One item of a list: `<li>` around its text.
pub open spec fn li_text(item: Seq<char>) -> Seq<char> {
    tag_text(seq!['l', 'i'], Seq::empty(), seq![item])
}

/// A list: `<ul>` around its items, each in `<li>`, in the order given.
pub open spec fn ul_text(items: Seq<Seq<char>>) -> Seq<char> {
    tag_text(
        seq!['u', 'l'],
        Seq::empty(),
        seq![concat(Seq::new(items.len(), |i: int| li_text(items[i])))],
    )
}

/// The texts of `shown`.
pub open spec fn views_of(shown: Seq<String>) -> Seq<Seq<char>> {
    Seq::new(shown.len(), |i: int| shown[i]@)
}

/// A list of `items`, each shown as `format_item` shows it, in the order
/// given.
pub fn ul<T, F: Fn(&T) -> String>(items: Vec<T>, format_item: F) -> (list: String)
    requires
        forall|i: int| 0 <= i < items.len() ==> call_requires(format_item, (&#[trigger] items[i],)),
    ensures
        exists|shown: Seq<String>|
            {
                &&& shown.len() == items.len()
                &&& forall|i: int|
                    0 <= i < items.len() ==> call_ensures(
                        format_item,
                        (&items[i],),
                        #[trigger] shown[i],
                    )
                &&& list@ == ul_text(views_of(shown))
            },
{
    let ghost mut shown: Seq<String> = Seq::empty();
    let mut inner = String::new();
    let mut i: usize = 0;
    proof {
        reveal_strlit("<ul>");
        reveal_strlit("</ul>");
        reveal_strlit("<li>");
        reveal_strlit("</li>");
        assert(Seq::new(0, |k: int| li_text(views_of(shown)[k])) =~= Seq::<Seq<char>>::empty());
    }
    while i < items.len()
        invariant
            i <= items.len(),
            shown.len() == i,
            forall|k: int|
                0 <= k < items.len() ==> call_requires(format_item, (&#[trigger] items[k],)),
            forall|k: int|
                0 <= k < i ==> call_ensures(format_item, (&items[k],), #[trigger] shown[k]),
            inner@ == concat(Seq::new(i as nat, |k: int| li_text(views_of(shown)[k]))),
            "<li>"@ == seq!['<', 'l', 'i', '>'],
            "</li>"@ == seq!['<', '/', 'l', 'i', '>'],
        decreases items.len() - i,
    {
        let item = format_item(&items[i]);
        let ghost before = shown;
        inner.append("<li>");
        inner.append(item.as_str());
        inner.append("</li>");
        proof {
            shown = shown.push(item);
            let old_lines = Seq::new(i as nat, |k: int| li_text(views_of(before)[k]));
            let lines = Seq::new((i + 1) as nat, |k: int| li_text(views_of(shown)[k]));
            assert(lines.drop_last() =~= old_lines);
            assert(concat(seq![item@]) =~= item@) by {
                assert(seq![item@].drop_last() =~= Seq::<Seq<char>>::empty());
                assert(concat(seq![item@].drop_last()) =~= Seq::<char>::empty());
            }
            assert(lines.last() =~= seq!['<', 'l', 'i', '>'] + item@ + seq![
                '<',
                '/',
                'l',
                'i',
                '>',
            ]);
            assert(inner@ =~= concat(old_lines) + lines.last());
        }
        i += 1;
    }
    let mut list = String::from_str("<ul>");
    list.append(inner.as_str());
    list.append("</ul>");
    proof {
        let lines = Seq::new(items.len() as nat, |k: int| li_text(views_of(shown)[k]));
        assert(Seq::new(views_of(shown).len(), |k: int| li_text(views_of(shown)[k])) =~= lines);
        assert(concat(seq![inner@]) =~= inner@) by {
            assert(seq![inner@].drop_last() =~= Seq::<Seq<char>>::empty());
            assert(concat(seq![inner@].drop_last()) =~= Seq::<char>::empty());
        }
        assert(list@ =~= ul_text(views_of(shown)));
    }
    list
}

/// A topic that an author has written notes on.
#[derive(Debug, PartialEq, Eq)]
pub struct Topic {
    /// The key by which the topic's page is found.
    pub key: u128,
    /// The subject line that the notes share.
    pub topic: String,
    /// When the latest note on it was posted.
    pub latest: Timestamp,
}

/// A [`Topic`] with its text as a sequence of characters.
pub struct TopicView {
    pub key: u128,
    pub topic: Seq<char>,
    pub latest: (i64, u32),
}

impl View for Topic {
    type V = TopicView;

    open spec fn view(&self) -> TopicView {
        TopicView { key: self.key, topic: self.topic@, latest: self.latest@ }
    }
}

impl DeepView for Topic {
    type V = TopicView;

    open spec fn deep_view(&self) -> TopicView {
        self@
    }
}

/// One note.
#[derive(Debug, PartialEq, Eq)]
pub struct Post {
    /// The note's markup, shown as it is.
    pub body: String,
    /// When it was posted.
    pub timestamp: Timestamp,
}

/// A [`Post`] with its text as a sequence of characters.
pub struct PostView {
    pub body: Seq<char>,
    pub timestamp: (i64, u32),
}

impl View for Post {
    type V = PostView;

    open spec fn view(&self) -> PostView {
        PostView { body: self.body@, timestamp: self.timestamp@ }
    }
}

impl DeepView for Post {
    type V = PostView;

    open spec fn deep_view(&self) -> PostView {
        self@
    }
}

/// The address of a topic's page: `/t/` and the key, percent-encoded for
/// a path segment.
pub open spec fn topic_address(key: u128) -> Seq<char> {
    "/t/"@ + path_segment_encoded(key_text(key))
}

/// A link to a topic's page, with the topic as its text.
pub open spec fn link_topic_text(topic: TopicView) -> Seq<char> {
    "<a href=\""@ + topic_address(topic.key) + "\" title=\""@ + ("Notes on "@ + topic.topic)
        + "\">"@ + topic.topic + "</a>"@
}

/// A link to a topic's page and how long ago its latest note was posted.
pub open spec fn link_topic_latest_text(topic: TopicView, now: (i64, u32)) -> Seq<char> {
    "<p>"@ + link_topic_text(topic) + " "@ + days_text(
        days_between(topic.latest.0, topic.latest.1, now.0, now.1) as int,
    ) + "</p>"@
}

/// A note: its date as a heading, then its body.
pub open spec fn show_post_text(post: PostView) -> Seq<char> {
    "<article><h3>"@ + date_text(post.timestamp.0, post.timestamp.1) + "</h3>"@ + post.body
        + "</article>"@
}

/// A link to the page of `topic`, with the topic as its text. Neither
/// the topic nor the title is escaped.
pub fn link_topic(topic: &Topic) -> (link: String)
    ensures
        link@ == link_topic_text(topic@),
{
    let key = uuid_to_string(topic.key);
    let encoded = percent_encode_path_segment(key.as_str());
    let mut link = String::from_str("<a href=\"");
    link.append("/t/");
    link.append(encoded.as_str());
    link.append("\" title=\"");
    link.append("Notes on ");
    link.append(topic.topic.as_str());
    link.append("\">");
    link.append(topic.topic.as_str());
    link.append("</a>");
    link
}

/// A link to the page of `topic`, and how its latest note reads at the
/// moment `now`.
pub fn link_topic_latest(topic: &Topic, now: &Timestamp) -> (line: String)
    ensures
        line@ == link_topic_latest_text(topic@, now@),
{
    let mut line = String::from_str("<p>");
    line.append(link_topic(topic).as_str());
    line.append(" ");
    line.append(days_ago(&topic.latest, now).as_str());
    line.append("</p>");
    line
}

/// A note as the page of its topic shows it.
pub fn show_post(post: &Post) -> (article: String)
    ensures
        article@ == show_post_text(post@),
{
    let mut article = String::from_str("<article><h3>");
    article.append(post.timestamp.date().as_str());
    article.append("</h3>");
    article.append(post.body.as_str());
    article.append("</article>");
    article
}

/// How a page is answered.
#[derive(Clone, Copy, Debug, PartialEq, Eq, Structural)]
pub enum Status {
    Success,
    NotFound,
}

impl Status {
    /// The status code: 200 or 404.
    pub fn code(&self) -> (code: u16)
        ensures
            code == (match *self {
                Status::Success => 200u16,
                Status::NotFound => 404u16,
            }),
    {
        match self {
            Status::Success => 200,
            Status::NotFound => 404,
        }
    }
}

/// One line of the front page's list: that something was posted, and how
/// long ago.
pub open spec fn posted_text(when: (i64, u32), now: (i64, u32)) -> Seq<char> {
    "<p>posted "@ + days_text(days_between(when.0, when.1, now.0, now.1) as int) + "</p>"@
}

/// The front page: what the site is, and when each author last posted.
pub open spec fn home_page_text(times: Seq<(i64, u32)>, now: (i64, u32)) -> (
    TitleView,
    Status,
    Seq<char>,
) {
    (
        TitleView::Replace("Write like nobody's reading on write-only.space"@),
        Status::Success,
        "<main><h1>Write like nobody's reading</h1><p>write-only is a tiny island in cyberspace where no one visits. You can write notes by emailing them to <a href=\"mailto:note@write-only.space\">note@write-only.space</a> &ndash; no signup required, just email a note to start. <strong>Tip:</strong> use the subject line as note's topic.</p><p>Notes here are <strong>public but unlisted: </strong>they won't show up in search engine results, and you need a special link to see them. Anyone with the link can see the the notes.</p><h2>Recent activity:</h2>"@
            + ul_text(Seq::new(times.len(), |i: int| posted_text(times[i], now))) + "</main>"@,
    )
}

/// The front page, read at the moment `now`: always found, with a title
/// of its own.
pub fn home_page(author_post_times: Vec<Timestamp>, now: &Timestamp) -> (page: (
    Title,
    Status,
    String,
))
    ensures
        (page.0@, page.1, page.2@) == home_page_text(author_post_times.deep_view(), now@),
{
    let ghost times = author_post_times.deep_view();
    let posted = |when: &Timestamp| -> (line: String)
        ensures
            line@ == posted_text(when@, now@),
        {
            let mut line = String::from_str("<p>posted ");
            line.append(days_ago(when, now).as_str());
            line.append("</p>");
            line
        };
    let list = ul(author_post_times, posted);
    proof {
        let shown = choose|shown: Seq<String>|
            {
                &&& shown.len() == author_post_times.len()
                &&& forall|i: int|
                    0 <= i < author_post_times.len() ==> call_ensures(
                        posted,
                        (&author_post_times[i],),
                        #[trigger] shown[i],
                    )
                &&& list@ == ul_text(views_of(shown))
            };
        assert(views_of(shown) =~= Seq::new(times.len(), |i: int| posted_text(times[i], now@)));
    }
    let mut content = String::from_str(
        "<main><h1>Write like nobody's reading</h1><p>write-only is a tiny island in cyberspace where no one visits. You can write notes by emailing them to <a href=\"mailto:note@write-only.space\">note@write-only.space</a> &ndash; no signup required, just email a note to start. <strong>Tip:</strong> use the subject line as note's topic.</p><p>Notes here are <strong>public but unlisted: </strong>they won't show up in search engine results, and you need a special link to see them. Anyone with the link can see the the notes.</p><h2>Recent activity:</h2>",
    );
    content.append(list.as_str());
    content.append("</main>");
    (
        Title::Replace(String::from_str("Write like nobody's reading on write-only.space")),
        Status::Success,
        content,
    )
}

/// The page of an author: a link to each topic, or that there is none.
pub open spec fn topics_page_text(author: Seq<char>, topics: Seq<TopicView>, now: (i64, u32)) -> (
    TitleView,
    Status,
    Seq<char>,
) {
    if topics.len() > 0 {
        (
            TitleView::Add(author),
            Status::Success,
            "<h1>Notes by "@ + author
                + "</h1><p>write-only is a tiny island in cyberspace where no one visits. It's intended for writing freely, without the pressure of an audience or Internet Points. It's not for sharing.</p><p>So avoid linking to notes, especially on aggregation sites like reddit. If you're not sure, contact "@
                + author + " first and ask.</p><main><h2>Topics</h2>"@ + ul_text(
                Seq::new(topics.len(), |i: int| link_topic_latest_text(topics[i], now)),
            ) + "</main>"@,
        )
    } else {
        (
            TitleView::Nothing,
            Status::NotFound,
            "<main><h2>No notes by "@ + author
                + "</h2><p>Create notes by emailing <a href=\"mailto:note@write-only.space\">note@write-only.space</a> if "@
                + author
                + " is your email address.</p><p>Notes are grouped into threads by the email subject.</p></main>"@,
        )
    }
}

/// The page of an author, read at the moment `now`: found, with the
/// author added to the title, where the author has topics; not found
/// where not. The author's name is not escaped.
pub fn topics_page(author: String, topics: Vec<Topic>, now: &Timestamp) -> (page: (
    Title,
    Status,
    String,
))
    ensures
        (page.0@, page.1, page.2@) == topics_page_text(author@, topics.deep_view(), now@),
{
    if topics.len() > 0 {
        let ghost views = topics.deep_view();
        let linked = |topic: &Topic| -> (line: String)
            ensures
                line@ == link_topic_latest_text(topic@, now@),
            { link_topic_latest(topic, now) };
        let list = ul(topics, linked);
        proof {
            let shown = choose|shown: Seq<String>|
                {
                    &&& shown.len() == topics.len()
                    &&& forall|i: int|
                        0 <= i < topics.len() ==> call_ensures(
                            linked,
                            (&topics[i],),
                            #[trigger] shown[i],
                        )
                    &&& list@ == ul_text(views_of(shown))
                };
            assert(views_of(shown) =~= Seq::new(
                views.len(),
                |i: int| link_topic_latest_text(views[i], now@),
            ));
        }
        let mut content = String::from_str("<h1>Notes by ");
        content.append(author.as_str());
        content.append(
            "</h1><p>write-only is a tiny island in cyberspace where no one visits. It's intended for writing freely, without the pressure of an audience or Internet Points. It's not for sharing.</p><p>So avoid linking to notes, especially on aggregation sites like reddit. If you're not sure, contact ",
        );
        content.append(author.as_str());
        content.append(" first and ask.</p><main><h2>Topics</h2>");
        content.append(list.as_str());
        content.append("</main>");
        (Title::Add(author), Status::Success, content)
    } else {
        let mut content = String::from_str("<main><h2>No notes by ");
        content.append(author.as_str());
        content.append(
            "</h2><p>Create notes by emailing <a href=\"mailto:note@write-only.space\">note@write-only.space</a> if ",
        );
        content.append(author.as_str());
        content.append(
            " is your email address.</p><p>Notes are grouped into threads by the email subject.</p></main>",
        );
        (Title::Nothing, Status::NotFound, content)
    }
}

/// The address to write to for a note on `topic`: the service's mail
/// address with the topic, percent-encoded, as the subject.
pub open spec fn mailto_text(topic: Seq<char>) -> Seq<char> {
    "mailto:note@write-only.space?subject="@ + path_segment_encoded(topic)
}

/// The page of a topic: its notes, or that there is none.
pub open spec fn posts_page_text(author: Seq<char>, topic: TopicView, posts: Seq<PostView>) -> (
    TitleView,
    Status,
    Seq<char>,
) {
    if posts.len() > 0 {
        (
            TitleView::Add(topic.topic),
            Status::Success,
            "<p class=\"heads-up\"><strong>Heads up:</strong> write-only is a tiny island in cyberspace where no one visits. It's intended for writing freely, without the pressure of an audience or Internet Points. You can read these notes, but they're not for you. Ask before you share!.</p><main><h1>"@
                + topic.topic + "</h1><h2 class=\"subtitle\"> by "@ + author + "</h2>"@ + ul_text(
                Seq::new(posts.len(), |i: int| show_post_text(posts[i])),
            ) + "</main>"@,
        )
    } else {
        (
            TitleView::Nothing,
            Status::NotFound,
            "<main><h2>No notes on "@ + topic.topic + " by "@ + author
                + "</h2><p><strong>Are you "@ + author
                + "?</strong></p><p>Post notes here by emailing them to <a href=\""@
                + mailto_text(topic.topic) + "\">note@write-only.space</a> with <strong>"@
                + topic.topic + "</strong> as the subject line.</p></main>"@,
        )
    }
}

/// The page of a topic: found, with the topic added to the title, where
/// it has notes; not found where not. Neither the topic nor the author's
/// name is escaped.
pub fn posts_page(author: String, topic: Topic, posts: Vec<Post>) -> (page: (
    Title,
    Status,
    String,
))
    ensures
        (page.0@, page.1, page.2@) == posts_page_text(author@, topic@, posts.deep_view()),
{
    if posts.len() > 0 {
        let ghost views = posts.deep_view();
        let shown_post = |post: &Post| -> (article: String)
            ensures
                article@ == show_post_text(post@),
            { show_post(post) };
        let list = ul(posts, shown_post);
        proof {
            let shown = choose|shown: Seq<String>|
                {
                    &&& shown.len() == posts.len()
                    &&& forall|i: int|
                        0 <= i < posts.len() ==> call_ensures(
                            shown_post,
                            (&posts[i],),
                            #[trigger] shown[i],
                        )
                    &&& list@ == ul_text(views_of(shown))
                };
            assert(views_of(shown) =~= Seq::new(views.len(), |i: int| show_post_text(views[i])));
        }
        let mut content = String::from_str(
            "<p class=\"heads-up\"><strong>Heads up:</strong> write-only is a tiny island in cyberspace where no one visits. It's intended for writing freely, without the pressure of an audience or Internet Points. You can read these notes, but they're not for you. Ask before you share!.</p><main><h1>",
        );
        content.append(topic.topic.as_str());
        content.append("</h1><h2 class=\"subtitle\"> by ");
        content.append(author.as_str());
        content.append("</h2>");
        content.append(list.as_str());
        content.append("</main>");
        (Title::Add(topic.topic), Status::Success, content)
    } else {
        let subject = percent_encode_path_segment(topic.topic.as_str());
        let mut content = String::from_str("<main><h2>No notes on ");
        content.append(topic.topic.as_str());
        content.append(" by ");
        content.append(author.as_str());
        content.append("</h2><p><strong>Are you ");
        content.append(author.as_str());
        content.append("?</strong></p><p>Post notes here by emailing them to <a href=\"");
        content.append("mailto:note@write-only.space?subject=");
        content.append(subject.as_str());
        content.append("\">note@write-only.space</a> with <strong>");
        content.append(topic.topic.as_str());
        content.append("</strong> as the subject line.</p></main>");
        (Title::Nothing, Status::NotFound, content)
    }
}

/// The page for what is not there.
pub open spec fn not_found_text() -> (TitleView, Status, Seq<char>) {
    (
        TitleView::Replace("404"@),
        Status::NotFound,
        "<main><h1>Nothing here</h1><p>nothing at all...</p></main>"@,
    )
}

/// The page for what is not there: not found, titled `404`.
pub fn not_found() -> (page: (Title, Status, String))
    ensures
        (page.0@, page.1, page.2@) == not_found_text(),
{
    (
        Title::Replace(String::from_str("404")),
        Status::NotFound,
        String::from_str("<main><h1>Nothing here</h1><p>nothing at all...</p></main>"),
    )
}

/// What a page is to show.
#[derive(Debug, PartialEq, Eq)]
pub enum PageContent {
    Home { author_post_times: Vec<Timestamp> },
    Topics { author: String, topics: Vec<Topic> },
    Posts { author: String, topic: Topic, posts: Vec<Post> },
    NotFound,
}

/// A [`PageContent`] with its texts as sequences of characters.
pub enum PageContentView {
    Home { author_post_times: Seq<(i64, u32)> },
    Topics { author: Seq<char>, topics: Seq<TopicView> },
    Posts { author: Seq<char>, topic: TopicView, posts: Seq<PostView> },
    NotFound,
}

impl View for PageContent {
    type V = PageContentView;

    open spec fn view(&self) -> PageContentView {
        match self {
            PageContent::Home { author_post_times } => PageContentView::Home {
                author_post_times: author_post_times.deep_view(),
            },
            PageContent::Topics { author, topics } => PageContentView::Topics {
                author: author@,
                topics: topics.deep_view(),
            },
            PageContent::Posts { author, topic, posts } => PageContentView::Posts {
                author: author@,
                topic: topic@,
                posts: posts.deep_view(),
            },
            PageContent::NotFound => PageContentView::NotFound,
        }
    }
}

/// The title, the status and the markup of what a page is to show.
pub open spec fn page_text(page: PageContentView, now: (i64, u32)) -> (
    TitleView,
    Status,
    Seq<char>,
) {
    match page {
        PageContentView::Home { author_post_times } => home_page_text(author_post_times, now),
        PageContentView::Topics { author, topics } => topics_page_text(author, topics, now),
        PageContentView::Posts { author, topic, posts } => posts_page_text(author, topic, posts),
        PageContentView::NotFound => not_found_text(),
    }
}

/// The document around a page: a head with the title, which starts from
/// the site's name, and with the style sheet; a body with a link home and
/// the page's markup.
pub open spec fn document_text(title: TitleView, style: Seq<char>, content: Seq<char>) -> Seq<
    char,
> {
    "<!doctype html><html><head><meta charset=\"utf-8\" /><title>"@ + TitleView::Add(
        "write-only☄space"@,
    ).add(title, "|"@).text()
        + "</title><meta name=\"viewport\" content=\"width=device-width, initial-scale=1\" /><meta name=\"description\" content=\"write-only is a tiny island in cyberspace where no one visits.\" /><meta property=\"og:title\" content=\"🌘 Write like nobody's reading\" /><meta property=\"og:type\" content=\"website\" /><meta property=\"og:site_name\" content=\"write-only\" /><meta name=\"theme-color\" content=\"#034\" /><style>"@
        + style
        + "</style></head><body><header><a href=\"/\" title=\"Home\">write-only☄space</a></header><section id=\"content\">"@
        + content + "</section></body></html>"@
}

/// The document for `page`, read at the moment `now`, with `style` as its
/// style sheet: the status to answer with, and the markup.
pub fn render(page: PageContent, now: &Timestamp, style: &str) -> (answer: (Status, String))
    ensures
        answer.0 == page_text(page@, now@).1,
        answer.1@ == document_text(page_text(page@, now@).0, style@, page_text(page@, now@).2),
{
    let (title, status, content) = match page {
        PageContent::Home { author_post_times } => home_page(author_post_times, now),
        PageContent::Topics { author, topics } => topics_page(author, topics, now),
        PageContent::Posts { author, topic, posts } => posts_page(author, topic, posts),
        PageContent::NotFound => not_found(),
    };
    let title = Title::Add(String::from_str("write-only☄space")).add(title, "|");
    let mut html = String::from_str(
        "<!doctype html><html><head><meta charset=\"utf-8\" /><title>",
    );
    html.append(title.to_text().as_str());
    html.append(
        "</title><meta name=\"viewport\" content=\"width=device-width, initial-scale=1\" /><meta name=\"description\" content=\"write-only is a tiny island in cyberspace where no one visits.\" /><meta property=\"og:title\" content=\"🌘 Write like nobody's reading\" /><meta property=\"og:type\" content=\"website\" /><meta property=\"og:site_name\" content=\"write-only\" /><meta name=\"theme-color\" content=\"#034\" /><style>",
    );
    html.append(style);
    html.append(
        "</style></head><body><header><a href=\"/\" title=\"Home\">write-only☄space</a></header><section id=\"content\">",
    );
    html.append(content.as_str());
    html.append("</section></body></html>");
    (status, html)
}

} // verus!
