//! Markup as text: elements, their attributes and their content, put
//! together from pieces of text.

use vstd::prelude::*;
use vstd::string::*;

verus! {

/// The pieces of `parts` as sequences of characters.
pub open spec fn texts_of(parts: Seq<&str>) -> Seq<Seq<char>> {
    Seq::new(parts.len(), |i: int| parts[i]@)
}

/// The attributes of `attrs`, each as a pair of its name and its value.
pub open spec fn pairs_of(attrs: Seq<(&str, &str)>) -> Seq<(Seq<char>, Seq<char>)> {
    Seq::new(attrs.len(), |i: int| (attrs[i].0@, attrs[i].1@))
}

/// The pieces of `parts` one after the other.
pub open spec fn concat(parts: Seq<Seq<char>>) -> Seq<char>
    decreases parts.len(),
{
    if parts.len() == 0 {
        Seq::empty()
    } else {
        concat(parts.drop_last()) + parts.last()
    }
}

/// The pieces of `parts` one after the other, with `sep` between each two.
pub open spec fn concat_with(sep: Seq<char>, parts: Seq<Seq<char>>) -> Seq<char>
    decreases parts.len(),
{
    if parts.len() == 0 {
        Seq::empty()
    } else if parts.len() == 1 {
        parts[0]
    } else {
        concat_with(sep, parts.drop_last()) + sep + parts.last()
    }
}

/// One attribute as it stands in a tag: the name, `=`, and the value in
/// double quotes. Neither is escaped.
pub open spec fn attr_text(attr: (Seq<char>, Seq<char>)) -> Seq<char> {
    attr.0 + seq!['=', '"'] + attr.1 + seq!['"']
}

/// The attributes as they stand in a tag, with a space between each two.
pub open spec fn attrs_text(attrs: Seq<(Seq<char>, Seq<char>)>) -> Seq<char> {
    concat_with(seq![' '], Seq::new(attrs.len(), |i: int| attr_text(attrs[i])))
}

/// What stands between `<` and the end of an opening tag: the name, then
/// a space and the attributes if there are any.
pub open spec fn opening(name: Seq<char>, attrs: Seq<(Seq<char>, Seq<char>)>) -> Seq<char> {
    if attrs.len() == 0 {
        name
    } else {
        name + seq![' '] + attrs_text(attrs)
    }
}

/// An element without content: `<name />`, or `<name a="b" />`.
pub open spec fn void_tag_text(name: Seq<char>, attrs: Seq<(Seq<char>, Seq<char>)>) -> Seq<
    char,
> {
    seq!['<'] + opening(name, attrs) + seq![' ', '/', '>']
}

/// An element with content: `<name>content</name>`, or
/// `<name a="b">content</name>`, the content being the children one after
/// the other.
pub open spec fn tag_text(
    name: Seq<char>,
    attrs: Seq<(Seq<char>, Seq<char>)>,
    children: Seq<Seq<char>>,
) -> Seq<char> {
    seq!['<'] + opening(name, attrs) + seq!['>'] + concat(children) + seq!['<', '/'] + name
        + seq!['>']
}

/// The pieces of `parts` one after the other.
pub fn join(parts: &[&str]) -> (text: String)
    ensures
        text@ == concat(texts_of(parts@)),
{
    let ghost all = texts_of(parts@);
    let mut text = String::new();
    let mut i: usize = 0;
    assert(all.take(0) =~= Seq::empty());
    while i < parts.len()
        invariant
            i <= parts.len(),
            all == texts_of(parts@),
            text@ == concat(all.take(i as int)),
        decreases parts.len() - i,
    {
        text.append(parts[i]);
        assert(all.take(i + 1).drop_last() =~= all.take(i as int));
        i += 1;
    }
    assert(all.take(i as int) =~= all);
    text
}

/// The pieces of `parts` one after the other, with `sep` between each two.
pub fn join_with(sep: &str, parts: &[&str]) -> (text: String)
    ensures
        text@ == concat_with(sep@, texts_of(parts@)),
{
    let ghost all = texts_of(parts@);
    let mut text = String::new();
    let mut i: usize = 0;
    assert(all.take(0) =~= Seq::empty());
    while i < parts.len()
        invariant
            i <= parts.len(),
            all == texts_of(parts@),
            text@ == concat_with(sep@, all.take(i as int)),
        decreases parts.len() - i,
    {
        if i > 0 {
            text.append(sep);
        }
        text.append(parts[i]);
        assert(all.take(i + 1).drop_last() =~= all.take(i as int));
        assert(Seq::<char>::empty() + all[i as int] =~= all[i as int]);
        i += 1;
    }
    assert(all.take(i as int) =~= all);
    text
}

/// Appends to `text` what stands between `<` and the end of an opening
/// tag.
fn append_opening(text: &mut String, name: &str, attrs: &[(&str, &str)])
    ensures
        final(text)@ == old(text)@ + opening(name@, pairs_of(attrs@)),
{
    let ghost before = text@;
    let ghost pairs = pairs_of(attrs@);
    let ghost shown = Seq::new(pairs.len(), |i: int| attr_text(pairs[i]));
    text.append(name);
    if attrs.len() == 0 {
        return ;
    }
    text.append(" ");
    let ghost start = text@;
    let mut i: usize = 0;
    proof {
        reveal_strlit(" ");
        reveal_strlit("=\"");
        reveal_strlit("\"");
        assert(" "@ =~= seq![' ']);
        assert("=\""@ =~= seq!['=', '"']);
        assert("\""@ =~= seq!['"']);
        assert(shown.take(0) =~= Seq::empty());
        assert(start + Seq::<char>::empty() =~= start);
    }
    while i < attrs.len()
        invariant
            i <= attrs.len(),
            pairs == pairs_of(attrs@),
            shown == Seq::new(pairs.len(), |i: int| attr_text(pairs[i])),
            text@ == start + concat_with(seq![' '], shown.take(i as int)),
            " "@ == seq![' '],
            "=\""@ == seq!['=', '"'],
            "\""@ == seq!['"'],
        decreases attrs.len() - i,
    {
        let ghost sofar = text@;
        if i > 0 {
            text.append(" ");
        }
        text.append(attrs[i].0);
        text.append("=\"");
        text.append(attrs[i].1);
        text.append("\"");
        proof {
            let next = shown.take(i + 1);
            assert(next.drop_last() =~= shown.take(i as int));
            assert(next.last() == attr_text(pairs[i as int]));
            assert(pairs[i as int] == (attrs[i as int].0@, attrs[i as int].1@));
            if i > 0 {
                assert(text@ =~= sofar + seq![' '] + attr_text(pairs[i as int]));
                assert(text@ =~= start + (concat_with(seq![' '], shown.take(i as int)) + seq![
                    ' ',
                ] + next.last()));
            } else {
                assert(text@ =~= sofar + attr_text(pairs[i as int]));
                assert(shown.take(0) =~= Seq::empty());
                assert(text@ =~= start + next[0]);
            }
        }
        i += 1;
    }
    proof {
        assert(shown.take(i as int) =~= shown);
        assert(text@ =~= before + (name@ + seq![' '] + attrs_text(pairs)));
    }
}

/// An element without content: `<name />`, or `<name a="b" />` where
/// there are attributes. Attributes are name and value, in the order
/// given; nothing is escaped.
pub fn void_tag(name: &str, attrs: &[(&str, &str)]) -> (text: String)
    ensures
        text@ == void_tag_text(name@, pairs_of(attrs@)),
{
    let mut text = String::new();
    text.append("<");
    append_opening(&mut text, name, attrs);
    text.append(" />");
    proof {
        reveal_strlit("<");
        reveal_strlit(" />");
        assert(text@ =~= void_tag_text(name@, pairs_of(attrs@)));
    }
    text
}

/// An element with content: `<name>content</name>`, or
/// `<name a="b">content</name>` where there are attributes. The content
/// is the children one after the other; nothing is escaped.
pub fn tag(name: &str, attrs: &[(&str, &str)], children: &[&str]) -> (text: String)
    ensures
        text@ == tag_text(name@, pairs_of(attrs@), texts_of(children@)),
{
    let content = join(children);
    let mut text = String::new();
    text.append("<");
    append_opening(&mut text, name, attrs);
    text.append(">");
    text.append(content.as_str());
    text.append("</");
    text.append(name);
    text.append(">");
    proof {
        reveal_strlit("<");
        reveal_strlit(">");
        reveal_strlit("</");
        assert(text@ =~= tag_text(name@, pairs_of(attrs@), texts_of(children@)));
    }
    text
}

} // verus!
