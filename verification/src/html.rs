//! The document tree and its compiler.
//!
//! `HTML` is the tree that programs build. `Node` is what such a tree is:
//! the same shape over mathematical sequences. `render` says, node kind by
//! node kind, which markup a tree stands for under a theme, and
//! `HTML::compile` produces exactly that text.

use vstd::prelude::*;
use crate::{Color, Direction, HorizontalAlignment, VerticalAlignment};
use crate::text::{decimal, escape, escaped, join, lemma_join_step, push_decimal};
use crate::text::hex_color;
use crate::theme::Theme;

verus! {

/// A document tree as a mathematical value.
pub enum Node {
    Document(Seq<Node>),
    Container(Seq<Node>),
    Aligned(Box<Node>, HorizontalAlignment, VerticalAlignment),
    Row(Seq<Node>),
    Column(Seq<Node>),
    Text(Seq<char>),
    Title(Seq<char>),
    SectionTitle(Seq<char>),
    OrderedList(Seq<Node>),
    UnorderedList(Seq<Node>),
    PercentBar(u32, Seq<char>),
    Rectangle(Box<Node>, u32, Color),
    Section(Box<Node>),
    Italics(Box<Node>),
    Bold(Box<Node>),
    Link(Box<Node>, Seq<char>),
    ColoredForeground(Box<Node>, Color),
    ColoredBackground(Box<Node>, Color),
    FadeIn(Direction),
}

/// A document tree: content and layout, with colours by name only.
#[derive(Debug, PartialEq, Eq, PartialOrd, Ord)]
pub enum HTML {
    /// The whole page.
    Document(Vec<Self>),
    /// A fixed-width box around its children.
    Container(Vec<Self>),
    /// One child, placed within the space it is given.
    Aligned(Box<Self>, HorizontalAlignment, VerticalAlignment),
    /// Children side by side, one column cell each.
    Row(Vec<Self>),
    /// Children one below the other, one row cell each.
    Column(Vec<Self>),
    /// A paragraph. The text is markup: it is emitted as it is.
    Text(String),
    /// The page's heading.
    Title(String),
    /// The heading of a part of the page.
    SectionTitle(String),
    /// A numbered list, one item per child.
    OrderedList(Vec<Self>),
    /// A bulleted list, one item per child.
    UnorderedList(Vec<Self>),
    /// A progress bar filled to the given percentage, showing the label.
    PercentBar(u32, String),
    /// A coloured panel with corners rounded by the given percentage.
    Rectangle(Box<Self>, u32, Color),
    /// A card, drawn as the theme draws cards.
    Section(Box<Self>),
    Italics(Box<Self>),
    Bold(Box<Self>),
    /// A hyperlink to the given address, which is emitted as it is.
    Link(Box<Self>, String),
    ColoredForeground(Box<Self>, Color),
    ColoredBackground(Box<Self>, Color),
    /// An animation hook. No markup is defined for it: a tree that holds
    /// one cannot be compiled.
    FadeIn(Direction),
}

/// The trees that `items` stand for, in order.
pub open spec fn views(items: Seq<HTML>) -> Seq<Node>
    decreases items,
{
    Seq::new(
        items.len(),
        |i: int|
            if 0 <= i < items.len() {
                items[i].node()
            } else {
                Node::Text(Seq::empty())
            },
    )
}

impl HTML {
    /// The tree that `self` stands for.
    pub open spec fn node(&self) -> Node
        decreases self,
    {
        match self {
            HTML::Document(items) => Node::Document(views(items@)),
            HTML::Container(items) => Node::Container(views(items@)),
            HTML::Aligned(child, h, v) => Node::Aligned(Box::new(child.node()), *h, *v),
            HTML::Row(items) => Node::Row(views(items@)),
            HTML::Column(items) => Node::Column(views(items@)),
            HTML::Text(text) => Node::Text(text@),
            HTML::Title(text) => Node::Title(text@),
            HTML::SectionTitle(text) => Node::SectionTitle(text@),
            HTML::OrderedList(items) => Node::OrderedList(views(items@)),
            HTML::UnorderedList(items) => Node::UnorderedList(views(items@)),
            HTML::PercentBar(percent, label) => Node::PercentBar(*percent, label@),
            HTML::Rectangle(child, radius, color) => Node::Rectangle(
                Box::new(child.node()),
                *radius,
                *color,
            ),
            HTML::Section(child) => Node::Section(Box::new(child.node())),
            HTML::Italics(child) => Node::Italics(Box::new(child.node())),
            HTML::Bold(child) => Node::Bold(Box::new(child.node())),
            HTML::Link(child, url) => Node::Link(Box::new(child.node()), url@),
            HTML::ColoredForeground(child, color) => Node::ColoredForeground(
                Box::new(child.node()),
                *color,
            ),
            HTML::ColoredBackground(child, color) => Node::ColoredBackground(
                Box::new(child.node()),
                *color,
            ),
            HTML::FadeIn(direction) => Node::FadeIn(*direction),
        }
    }
}

impl View for HTML {
    type V = Node;

    open spec fn view(&self) -> Node {
        self.node()
    }
}

/// The placement rule for the horizontal axis; none where the parent's
/// placement is kept.
pub open spec fn horizontal_rule(h: HorizontalAlignment) -> Seq<char> {
    match h {
        HorizontalAlignment::Left => "justify-content: left;"@,
        HorizontalAlignment::Right => "justify-content: right;"@,
        HorizontalAlignment::Center => "justify-content: center;"@,
        HorizontalAlignment::SameAsParent => ""@,
    }
}

/// The placement rule for the vertical axis; none where the parent's
/// placement is kept.
pub open spec fn vertical_rule(v: VerticalAlignment) -> Seq<char> {
    match v {
        VerticalAlignment::Top => "align-items: flex-start;"@,
        VerticalAlignment::Center => "align-items: center;"@,
        VerticalAlignment::Bottom => "align-items: flex-end;"@,
        VerticalAlignment::SameAsParent => ""@,
    }
}

/// Each piece of `parts` between `open` and `close`.
pub open spec fn wrap_each(parts: Seq<Seq<char>>, open: Seq<char>, close: Seq<char>) -> Seq<
    Seq<char>,
> {
    Seq::new(parts.len(), |i: int| open + parts[i] + close)
}

/// The whole page: the fixed head with the theme's stylesheet and the two
/// default colours in it, then `body` between the fixed margins.
pub open spec fn page(css: Seq<char>, fg: Seq<char>, bg: Seq<char>, body: Seq<char>) -> Seq<char> {
    "<!DOCTYPE html5><html><head><meta content=\"text/html;charset=utf-8\" http-equiv=\"Content-Type\"><meta content=\"utf-8\" http-equiv=\"encoding\"><link rel=\"stylesheet\" href=\"https://stackpath.bootstrapcdn.com/bootstrap/4.3.1/css/bootstrap.min.css\" integrity=\"sha384-ggOyR0iXCbMQv3Xipma34MD+dH/1fQ784/j6cY/iJTQUOhcWr7x9JvoRxT2MZw1T\" crossorigin=\"anonymous\"><script src=\"https://code.jquery.com/jquery-3.3.1.slim.min.js\" integrity=\"sha384-q8i/X+965DzO0rT7abK41JStQIAqVgRVzpbzo5smXKp4YfRvH+8abtTE1Pi6jizo\" crossorigin=\"anonymous\"></script><script src=\"https://cdnjs.cloudflare.com/ajax/libs/popper.js/1.14.7/umd/popper.min.js\" integrity=\"sha384-UO2eT0CpHqdSJQ6hJty5KVphtPhzWj9WO1clHTMGa3JDZwrnQq4sF86dIHNDz0W1\" crossorigin=\"anonymous\"></script><script src=\"https://stackpath.bootstrapcdn.com/bootstrap/4.3.1/js/bootstrap.min.js\" integrity=\"sha384-JjSmVgyd0p3pXB1rRibZUAYoIIy6OrQ6VrjIEaFf/nJGzIxFDsf4x0xIM+B07jRM\" crossorigin=\"anonymous\"></script><style>"@
        + css + "\nbody, div { color: "@ + fg + "; background-color: "@ + bg
        + "; }</style></head><body><br><br><br><br><br><br>"@ + body
        + "<br><br><br><br><br><br></body></html>"@
}

/// A progress bar filled to `percent` per cent that shows `label`. The
/// number is written as it is given.
pub open spec fn percent_bar(percent: u32, label: Seq<char>) -> Seq<char> {
    "<div class=\"progress\"><div class=\"progress-bar\" role=\"progressbar\" style=\"width:"@
        + decimal(percent as nat) + "%\"  aria-valuenow=\""@ + decimal(percent as nat)
        + "\" aria-valuemin=\""@ + decimal(percent as nat) + "\" aria-valuemax=\"100\">"@ + label
        + "</div></div>"@
}

/// The markup of each of `items` under `theme`, in order.
pub open spec fn render_each<T: Theme + ?Sized>(items: Seq<Node>, theme: &T) -> Seq<Seq<char>>
    decreases items,
{
    Seq::new(
        items.len(),
        |i: int|
            if 0 <= i < items.len() {
                render(items[i], theme)
            } else {
                Seq::empty()
            },
    )
}

/// The markup that `node` stands for under `theme`.
///
/// Children are rendered each by itself and in order; where a node has
/// several, their markup is joined by line breaks. For a tree that holds
/// a `FadeIn` node no markup is defined: see `supported`.
pub open spec fn render<T: Theme + ?Sized>(node: Node, theme: &T) -> Seq<char>
    decreases node,
{
    match node {
        Node::Document(items) => page(
            theme.document_css(),
            hex_color(theme.color_rgb(Color::DefaultForeground)),
            hex_color(theme.color_rgb(Color::DefaultBackground)),
            join(render_each(items, theme), "\n"@),
        ),
        Node::Container(items) => "<div class=\"container\">"@ + join(
            render_each(items, theme),
            "\n"@,
        ) + "</div>"@,
        Node::Aligned(child, h, v) =>
            "<div style=\"height:100%; width:100%; display: flex; flex-grow: 1; "@
            + horizontal_rule(h) + vertical_rule(v) + "\">"@ + render(*child, theme) + "</div>"@,
        Node::Row(items) => "<div class=\"row no-gutters\">"@ + join(
            wrap_each(render_each(items, theme), "<div class=\"col no-gutters\">"@, "</div>"@),
            "\n"@,
        ) + "</div>"@,
        Node::Column(items) => "<div class=\"col no-gutters\">"@ + join(
            wrap_each(render_each(items, theme), "<div class=\"row no-gutters\">"@, "</div>"@),
            "\n"@,
        ) + "</div>"@,
        Node::Text(text) => "<p>"@ + text + "</p>"@,
        Node::Title(text) => "<h1>"@ + text + "</h1>"@,
        Node::SectionTitle(text) => "<h4>"@ + text + "</h4>"@,
        Node::OrderedList(items) => "<ol style=\"width:100%\">"@ + join(
            wrap_each(render_each(items, theme), "<li>"@, "</li>"@),
            "\n"@,
        ) + "</ol>"@,
        Node::UnorderedList(items) => "<ul style=\"width:100%\">"@ + join(
            wrap_each(render_each(items, theme), "<li>"@, "</li>"@),
            "\n"@,
        ) + "</ul>"@,
        Node::PercentBar(percent, label) => percent_bar(percent, label),
        Node::Rectangle(child, radius, color) => "<div style=\"height:100%; border-radius: "@
            + decimal(radius as nat) + "%; background-color:"@ + hex_color(theme.color_rgb(color))
            + "\">"@ + render(*child, theme) + "</div>"@,
        Node::Section(child) => theme.section_html(render(*child, theme)),
        Node::Italics(child) => "<i>"@ + render(*child, theme) + "</i>"@,
        Node::Bold(child) => "<b>"@ + render(*child, theme) + "</b>"@,
        Node::Link(child, url) => "<a href=\""@ + url + "\">"@ + render(*child, theme) + "</a>"@,
        Node::ColoredForeground(child, color) => "<div style=\"color: "@ + hex_color(
            theme.color_rgb(color),
        ) + ";\">"@ + render(*child, theme) + "</div>"@,
        Node::ColoredBackground(child, color) => "<div style=\"background-color: "@ + hex_color(
            theme.color_rgb(color),
        ) + ";\">"@ + render(*child, theme) + "</div>"@,
        Node::FadeIn(_) => Seq::empty(),
    }
}

/// Every bar among `items` or below them is filled to at most 100 per cent.
pub open spec fn all_bars_in_range(items: Seq<Node>) -> bool
    decreases items,
{
    forall|i: int| 0 <= i < items.len() ==> bars_in_range(#[trigger] items[i])
}

/// Every progress bar in `node` is filled to at most 100 per cent. The
/// compiler writes the number as it is given, so a tree with a bar out of
/// range has markup with that number in it.
pub open spec fn bars_in_range(node: Node) -> bool
    decreases node,
{
    match node {
        Node::Document(items) => all_bars_in_range(items),
        Node::Container(items) => all_bars_in_range(items),
        Node::Row(items) => all_bars_in_range(items),
        Node::Column(items) => all_bars_in_range(items),
        Node::OrderedList(items) => all_bars_in_range(items),
        Node::UnorderedList(items) => all_bars_in_range(items),
        Node::Aligned(child, _, _) => bars_in_range(*child),
        Node::Rectangle(child, _, _) => bars_in_range(*child),
        Node::Section(child) => bars_in_range(*child),
        Node::Italics(child) => bars_in_range(*child),
        Node::Bold(child) => bars_in_range(*child),
        Node::Link(child, _) => bars_in_range(*child),
        Node::ColoredForeground(child, _) => bars_in_range(*child),
        Node::ColoredBackground(child, _) => bars_in_range(*child),
        Node::PercentBar(percent, _) => percent <= 100,
        Node::Text(_) => true,
        Node::Title(_) => true,
        Node::SectionTitle(_) => true,
        Node::FadeIn(_) => true,
    }
}

/// Every one of `items` is supported.
pub open spec fn all_supported(items: Seq<Node>) -> bool
    decreases items,
{
    forall|i: int| 0 <= i < items.len() ==> supported(#[trigger] items[i])
}

/// `node` can be compiled: neither it nor any node below it is a `FadeIn`.
pub open spec fn supported(node: Node) -> bool
    decreases node,
{
    match node {
        Node::Document(items) => all_supported(items),
        Node::Container(items) => all_supported(items),
        Node::Row(items) => all_supported(items),
        Node::Column(items) => all_supported(items),
        Node::OrderedList(items) => all_supported(items),
        Node::UnorderedList(items) => all_supported(items),
        Node::Aligned(child, _, _) => supported(*child),
        Node::Rectangle(child, _, _) => supported(*child),
        Node::Section(child) => supported(*child),
        Node::Italics(child) => supported(*child),
        Node::Bold(child) => supported(*child),
        Node::Link(child, _) => supported(*child),
        Node::ColoredForeground(child, _) => supported(*child),
        Node::ColoredBackground(child, _) => supported(*child),
        Node::Text(_) => true,
        Node::Title(_) => true,
        Node::SectionTitle(_) => true,
        Node::PercentBar(_, _) => true,
        Node::FadeIn(_) => false,
    }
}

/// Copies of `items`, in order.
fn clone_items(items: &Vec<HTML>) -> (copy: Vec<HTML>)
    ensures
        views(copy@) == views(items@),
    decreases items,
{
    let mut copy: Vec<HTML> = Vec::new();
    let mut i: usize = 0;
    while i < items.len()
        invariant
            i <= items.len(),
            views(copy@) =~= views(items@).take(i as int),
        decreases items.len() - i,
    {
        let item = items[i].clone();
        let ghost before = views(copy@);
        copy.push(item);
        proof {
            assert(views(copy@) =~= before.push(views(items@)[i as int]));
            assert(views(items@).take(i + 1) =~= views(items@).take(i as int).push(
                views(items@)[i as int],
            ));
        }
        i += 1;
    }
    assert(views(items@).take(i as int) =~= views(items@));
    copy
}

impl Clone for HTML {
    /// A copy that stands for the same tree.
    fn clone(&self) -> (copy: Self)
        ensures
            copy@ == self@,
        decreases self,
    {
        match self {
            HTML::Document(items) => HTML::Document(clone_items(items)),
            HTML::Container(items) => HTML::Container(clone_items(items)),
            HTML::Aligned(child, h, v) => HTML::Aligned(Box::new((&**child).clone()), *h, *v),
            HTML::Row(items) => HTML::Row(clone_items(items)),
            HTML::Column(items) => HTML::Column(clone_items(items)),
            HTML::Text(text) => HTML::Text(text.clone()),
            HTML::Title(text) => HTML::Title(text.clone()),
            HTML::SectionTitle(text) => HTML::SectionTitle(text.clone()),
            HTML::OrderedList(items) => HTML::OrderedList(clone_items(items)),
            HTML::UnorderedList(items) => HTML::UnorderedList(clone_items(items)),
            HTML::PercentBar(percent, label) => HTML::PercentBar(*percent, label.clone()),
            HTML::Rectangle(child, radius, color) => HTML::Rectangle(
                Box::new((&**child).clone()),
                *radius,
                *color,
            ),
            HTML::Section(child) => HTML::Section(Box::new((&**child).clone())),
            HTML::Italics(child) => HTML::Italics(Box::new((&**child).clone())),
            HTML::Bold(child) => HTML::Bold(Box::new((&**child).clone())),
            HTML::Link(child, url) => HTML::Link(Box::new((&**child).clone()), url.clone()),
            HTML::ColoredForeground(child, color) => HTML::ColoredForeground(
                Box::new((&**child).clone()),
                *color,
            ),
            HTML::ColoredBackground(child, color) => HTML::ColoredBackground(
                Box::new((&**child).clone()),
                *color,
            ),
            HTML::FadeIn(direction) => HTML::FadeIn(*direction),
        }
    }
}

impl From<String> for HTML {
    /// A string by itself is a paragraph.
    fn from(s: String) -> (tree: Self) {
        HTML::Text(s)
    }
}

impl vstd::std_specs::convert::FromSpecImpl<String> for HTML {
    open spec fn obeys_from_spec() -> bool {
        true
    }

    open spec fn from_spec(s: String) -> Self {
        HTML::Text(s)
    }
}

/// Why a tree could not be compiled.
#[derive(Clone, Copy, Debug, PartialEq, Eq)]
pub enum CompileError {
    /// The tree holds a node kind for which no markup is defined.
    UnsupportedNode,
}

/// `open`, `inner` and `close` in one string.
fn wrap(open: &str, inner: &str, close: &str) -> (out: String)
    ensures
        out@ == open@ + inner@ + close@,
{
    let mut out = String::from_str(open);
    out.append(inner);
    out.append(close);
    out
}

/// Whether every one of `items` can be compiled.
fn all_items_supported(items: &Vec<HTML>) -> (ok: bool)
    ensures
        ok == all_supported(views(items@)),
    decreases items,
{
    let mut i: usize = 0;
    while i < items.len()
        invariant
            i <= items.len(),
            forall|k: int| 0 <= k < i ==> supported(#[trigger] views(items@)[k]),
        decreases items.len() - i,
    {
        if !items[i].is_supported() {
            assert(!supported(views(items@)[i as int]));
            return false;
        }
        i += 1;
    }
    true
}

/// The markup of `items`, each between `open` and `close`, joined by line
/// breaks.
fn compile_items<T: Theme + ?Sized>(items: &Vec<HTML>, theme: &T, open: &str, close: &str) -> (out:
    String)
    requires
        all_supported(views(items@)),
    ensures
        out@ == join(wrap_each(render_each(views(items@), theme), open@, close@), "\n"@),
    decreases items,
{
    let ghost parts = wrap_each(render_each(views(items@), theme), open@, close@);
    let mut out = String::new();
    let mut i: usize = 0;
    while i < items.len()
        invariant
            i <= items.len(),
            all_supported(views(items@)),
            parts == wrap_each(render_each(views(items@), theme), open@, close@),
            out@ == join(parts.take(i as int), "\n"@),
        decreases items.len() - i,
    {
        assert(supported(views(items@)[i as int]));
        let child = items[i].compile(theme);
        if i > 0 {
            out.append("\n");
        }
        out.append(open);
        out.append(child.as_str());
        out.append(close);
        proof {
            lemma_join_step(parts, "\n"@, i as int);
            assert(parts[i as int] == open@ + child@ + close@);
            assert(out@ =~= join(parts.take(i + 1), "\n"@));
        }
        i += 1;
    }
    assert(parts.take(items.len() as int) =~= parts);
    out
}

/// Wrapping in nothing changes nothing.
proof fn lemma_wrap_each_empty(parts: Seq<Seq<char>>)
    ensures
        wrap_each(parts, ""@, ""@) == parts,
{
    reveal_strlit("");
    assert forall|i: int| 0 <= i < parts.len() implies wrap_each(parts, ""@, ""@)[i]
        == parts[i] by {
        assert(""@ + parts[i] + ""@ =~= parts[i]);
    }
    assert(wrap_each(parts, ""@, ""@) =~= parts);
}

impl HTML {
    pub fn html(contents: Vec<Self>) -> (tree: Self)
        ensures
            tree@ == Node::Document(views(contents@)),
    {
        HTML::Document(contents)
    }

    pub fn aligned(contents: Self, hori: HorizontalAlignment, vert: VerticalAlignment) -> (tree:
        Self)
        ensures
            tree@ == Node::Aligned(Box::new(contents@), hori, vert),
    {
        HTML::Aligned(Box::new(contents), hori, vert)
    }

    pub fn title(title: &str) -> (tree: Self)
        ensures
            tree@ == Node::Title(title@),
    {
        HTML::Title(String::from_str(title))
    }

    pub fn section_title(title: &str) -> (tree: Self)
        ensures
            tree@ == Node::SectionTitle(title@),
    {
        HTML::SectionTitle(String::from_str(title))
    }

    pub fn text(text: &str) -> (tree: Self)
        ensures
            tree@ == Node::Text(text@),
    {
        HTML::Text(String::from_str(text))
    }

    /// A paragraph that shows `text` as it is written: what would be
    /// markup in it is escaped.
    pub fn escaped_text(text: &str) -> (tree: Self)
        ensures
            tree@ == Node::Text(escaped(text@)),
    {
        HTML::Text(escape(text))
    }

    /// A progress bar filled to `percent` per cent that shows `label`, if
    /// `percent` is at most 100. The variant itself takes any number.
    pub fn percent_bar(percent: u32, label: &str) -> (tree: Option<Self>)
        ensures
            percent <= 100 ==> tree is Some && tree->Some_0@ == Node::PercentBar(percent, label@),
            percent > 100 ==> tree is None,
    {
        if percent <= 100 {
            Some(HTML::PercentBar(percent, String::from_str(label)))
        } else {
            None
        }
    }

    pub fn rect(content: Self, border_radius: u32, color: Color) -> (tree: Self)
        ensures
            tree@ == Node::Rectangle(Box::new(content@), border_radius, color),
    {
        HTML::Rectangle(Box::new(content), border_radius, color)
    }

    pub fn section(content: Self) -> (tree: Self)
        ensures
            tree@ == Node::Section(Box::new(content@)),
    {
        HTML::Section(Box::new(content))
    }

    pub fn italics(content: Self) -> (tree: Self)
        ensures
            tree@ == Node::Italics(Box::new(content@)),
    {
        HTML::Italics(Box::new(content))
    }

    pub fn bold(content: Self) -> (tree: Self)
        ensures
            tree@ == Node::Bold(Box::new(content@)),
    {
        HTML::Bold(Box::new(content))
    }

    pub fn link(content: Self, link: &str) -> (tree: Self)
        ensures
            tree@ == Node::Link(Box::new(content@), link@),
    {
        HTML::Link(Box::new(content), String::from_str(link))
    }

    pub fn fg(content: Self, color: Color) -> (tree: Self)
        ensures
            tree@ == Node::ColoredForeground(Box::new(content@), color),
    {
        HTML::ColoredForeground(Box::new(content), color)
    }

    pub fn bg(content: Self, color: Color) -> (tree: Self)
        ensures
            tree@ == Node::ColoredBackground(Box::new(content@), color),
    {
        HTML::ColoredBackground(Box::new(content), color)
    }

    pub fn row(items: Vec<Self>) -> (tree: Self)
        ensures
            tree@ == Node::Row(views(items@)),
    {
        HTML::Row(items)
    }

    pub fn col(items: Vec<Self>) -> (tree: Self)
        ensures
            tree@ == Node::Column(views(items@)),
    {
        HTML::Column(items)
    }

    pub fn container(items: Vec<Self>) -> (tree: Self)
        ensures
            tree@ == Node::Container(views(items@)),
    {
        HTML::Container(items)
    }

    pub fn ol(items: Vec<Self>) -> (tree: Self)
        ensures
            tree@ == Node::OrderedList(views(items@)),
    {
        HTML::OrderedList(items)
    }

    pub fn ul(items: Vec<Self>) -> (tree: Self)
        ensures
            tree@ == Node::UnorderedList(views(items@)),
    {
        HTML::UnorderedList(items)
    }

    /// Whether this tree can be compiled, that is, holds no `FadeIn` node.
    pub fn is_supported(&self) -> (ok: bool)
        ensures
            ok == supported(self@),
        decreases self,
    {
        match self {
            HTML::Document(items) => all_items_supported(items),
            HTML::Container(items) => all_items_supported(items),
            HTML::Row(items) => all_items_supported(items),
            HTML::Column(items) => all_items_supported(items),
            HTML::OrderedList(items) => all_items_supported(items),
            HTML::UnorderedList(items) => all_items_supported(items),
            HTML::Aligned(child, _, _) => child.is_supported(),
            HTML::Rectangle(child, _, _) => child.is_supported(),
            HTML::Section(child) => child.is_supported(),
            HTML::Italics(child) => child.is_supported(),
            HTML::Bold(child) => child.is_supported(),
            HTML::Link(child, _) => child.is_supported(),
            HTML::ColoredForeground(child, _) => child.is_supported(),
            HTML::ColoredBackground(child, _) => child.is_supported(),
            HTML::Text(_) => true,
            HTML::Title(_) => true,
            HTML::SectionTitle(_) => true,
            HTML::PercentBar(_, _) => true,
            HTML::FadeIn(_) => false,
        }
    }

    /// The markup of this tree under `theme`.
    ///
    /// The tree is walked afresh on every call, depth first, and nothing but
    /// the tree and the theme's answers goes into the text. A tree that
    /// holds a `FadeIn` node has no markup and is not accepted here:
    /// `try_compile` reports it.
    pub fn compile<T: Theme + ?Sized>(&self, theme: &T) -> (out: String)
        requires
            supported(self@),
        ensures
            out@ == render(self@, theme),
        decreases self,
    {
        match self {
            HTML::Document(items) => {
                let body = compile_items(items, theme, "", "");
                proof {
                    lemma_wrap_each_empty(render_each(views(items@), theme));
                }
                let mut out = String::from_str(
                    "<!DOCTYPE html5><html><head><meta content=\"text/html;charset=utf-8\" http-equiv=\"Content-Type\"><meta content=\"utf-8\" http-equiv=\"encoding\"><link rel=\"stylesheet\" href=\"https://stackpath.bootstrapcdn.com/bootstrap/4.3.1/css/bootstrap.min.css\" integrity=\"sha384-ggOyR0iXCbMQv3Xipma34MD+dH/1fQ784/j6cY/iJTQUOhcWr7x9JvoRxT2MZw1T\" crossorigin=\"anonymous\"><script src=\"https://code.jquery.com/jquery-3.3.1.slim.min.js\" integrity=\"sha384-q8i/X+965DzO0rT7abK41JStQIAqVgRVzpbzo5smXKp4YfRvH+8abtTE1Pi6jizo\" crossorigin=\"anonymous\"></script><script src=\"https://cdnjs.cloudflare.com/ajax/libs/popper.js/1.14.7/umd/popper.min.js\" integrity=\"sha384-UO2eT0CpHqdSJQ6hJty5KVphtPhzWj9WO1clHTMGa3JDZwrnQq4sF86dIHNDz0W1\" crossorigin=\"anonymous\"></script><script src=\"https://stackpath.bootstrapcdn.com/bootstrap/4.3.1/js/bootstrap.min.js\" integrity=\"sha384-JjSmVgyd0p3pXB1rRibZUAYoIIy6OrQ6VrjIEaFf/nJGzIxFDsf4x0xIM+B07jRM\" crossorigin=\"anonymous\"></script><style>",
                );
                out.append(theme.get_document_css().as_str());
                out.append("\nbody, div { color: ");
                out.append(theme.get_color_hex(Color::DefaultForeground).as_str());
                out.append("; background-color: ");
                out.append(theme.get_color_hex(Color::DefaultBackground).as_str());
                out.append("; }</style></head><body><br><br><br><br><br><br>");
                out.append(body.as_str());
                out.append("<br><br><br><br><br><br></body></html>");
                out
            },
            HTML::Container(items) => {
                let body = compile_items(items, theme, "", "");
                proof {
                    lemma_wrap_each_empty(render_each(views(items@), theme));
                }
                wrap("<div class=\"container\">", body.as_str(), "</div>")
            },
            HTML::Aligned(child, h, v) => {
                let inner = child.compile(theme);
                let mut out = String::from_str(
                    "<div style=\"height:100%; width:100%; display: flex; flex-grow: 1; ",
                );
                out.append(
                    match h {
                        HorizontalAlignment::Left => "justify-content: left;",
                        HorizontalAlignment::Right => "justify-content: right;",
                        HorizontalAlignment::Center => "justify-content: center;",
                        HorizontalAlignment::SameAsParent => "",
                    },
                );
                out.append(
                    match v {
                        VerticalAlignment::Top => "align-items: flex-start;",
                        VerticalAlignment::Center => "align-items: center;",
                        VerticalAlignment::Bottom => "align-items: flex-end;",
                        VerticalAlignment::SameAsParent => "",
                    },
                );
                out.append("\">");
                out.append(inner.as_str());
                out.append("</div>");
                out
            },
            HTML::Row(items) => {
                let cells = compile_items(items, theme, "<div class=\"col no-gutters\">", "</div>");
                wrap("<div class=\"row no-gutters\">", cells.as_str(), "</div>")
            },
            HTML::Column(items) => {
                let cells = compile_items(items, theme, "<div class=\"row no-gutters\">", "</div>");
                wrap("<div class=\"col no-gutters\">", cells.as_str(), "</div>")
            },
            HTML::Text(text) => wrap("<p>", text.as_str(), "</p>"),
            HTML::Title(text) => wrap("<h1>", text.as_str(), "</h1>"),
            HTML::SectionTitle(text) => wrap("<h4>", text.as_str(), "</h4>"),
            HTML::OrderedList(items) => {
                let list = compile_items(items, theme, "<li>", "</li>");
                wrap("<ol style=\"width:100%\">", list.as_str(), "</ol>")
            },
            HTML::UnorderedList(items) => {
                let list = compile_items(items, theme, "<li>", "</li>");
                wrap("<ul style=\"width:100%\">", list.as_str(), "</ul>")
            },
            HTML::PercentBar(percent, label) => {
                let mut out = String::from_str(
                    "<div class=\"progress\"><div class=\"progress-bar\" role=\"progressbar\" style=\"width:",
                );
                push_decimal(&mut out, *percent);
                out.append("%\"  aria-valuenow=\"");
                push_decimal(&mut out, *percent);
                out.append("\" aria-valuemin=\"");
                push_decimal(&mut out, *percent);
                out.append("\" aria-valuemax=\"100\">");
                out.append(label.as_str());
                out.append("</div></div>");
                out
            },
            HTML::Rectangle(child, radius, color) => {
                let inner = child.compile(theme);
                let mut out = String::from_str("<div style=\"height:100%; border-radius: ");
                push_decimal(&mut out, *radius);
                out.append("%; background-color:");
                out.append(theme.get_color_hex(*color).as_str());
                out.append("\">");
                out.append(inner.as_str());
                out.append("</div>");
                out
            },
            HTML::Section(child) => theme.compile_section_html(child.compile(theme)),
            HTML::Italics(child) => wrap("<i>", child.compile(theme).as_str(), "</i>"),
            HTML::Bold(child) => wrap("<b>", child.compile(theme).as_str(), "</b>"),
            HTML::Link(child, url) => {
                let inner = child.compile(theme);
                let mut out = String::from_str("<a href=\"");
                out.append(url.as_str());
                out.append("\">");
                out.append(inner.as_str());
                out.append("</a>");
                out
            },
            HTML::ColoredForeground(child, color) => {
                let inner = child.compile(theme);
                let mut out = String::from_str("<div style=\"color: ");
                out.append(theme.get_color_hex(*color).as_str());
                out.append(";\">");
                out.append(inner.as_str());
                out.append("</div>");
                out
            },
            HTML::ColoredBackground(child, color) => {
                let inner = child.compile(theme);
                let mut out = String::from_str("<div style=\"background-color: ");
                out.append(theme.get_color_hex(*color).as_str());
                out.append(";\">");
                out.append(inner.as_str());
                out.append("</div>");
                out
            },
            HTML::FadeIn(_) => String::new(),
        }
    }

    /// The markup of this tree under `theme`, or the reason why it has
    /// none: a `FadeIn` node somewhere in it.
    pub fn try_compile<T: Theme + ?Sized>(&self, theme: &T) -> (result: Result<
        String,
        CompileError,
    >)
        ensures
            supported(self@) ==> result is Ok && result->Ok_0@ == render(self@, theme),
            !supported(self@) ==> result == Err::<String, CompileError>(
                CompileError::UnsupportedNode,
            ),
    {
        if self.is_supported() {
            Ok(self.compile(theme))
        } else {
            Err(CompileError::UnsupportedNode)
        }
    }
}

} // verus!
