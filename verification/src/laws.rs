//! What holds of every tree, every theme and every resume.

use vstd::prelude::*;
use crate::html::{all_supported, render, render_each, supported, wrap_each, Node, HTML};
use crate::resume::Resume;
use crate::text::{
    hex_color, is_hex_color, join, lemma_hex_color_shape, lemma_join_len, lemma_join_piece_at,
    piece_offset,
};
use crate::theme::Theme;
use crate::{Color, Direction};

verus! {

/// Under every theme, the notation of every colour name is `#` and exactly
/// six lowercase hexadecimal digits.
pub proof fn lemma_theme_hex_shape<T: Theme + ?Sized>(theme: &T, color: Color)
    ensures
        is_hex_color(hex_color(theme.color_rgb(color))),
        hex_color(theme.color_rgb(color)).len() == 7,
{
    lemma_hex_color_shape(theme.color_rgb(color));
}

/// The nodes directly below `node`, in order.
pub open spec fn children(node: Node) -> Seq<Node> {
    match node {
        Node::Document(items) => items,
        Node::Container(items) => items,
        Node::Row(items) => items,
        Node::Column(items) => items,
        Node::OrderedList(items) => items,
        Node::UnorderedList(items) => items,
        Node::Aligned(child, _, _) => seq![*child],
        Node::Rectangle(child, _, _) => seq![*child],
        Node::Section(child) => seq![*child],
        Node::Italics(child) => seq![*child],
        Node::Bold(child) => seq![*child],
        Node::Link(child, _) => seq![*child],
        Node::ColoredForeground(child, _) => seq![*child],
        Node::ColoredBackground(child, _) => seq![*child],
        Node::Text(_) => Seq::empty(),
        Node::Title(_) => Seq::empty(),
        Node::SectionTitle(_) => Seq::empty(),
        Node::PercentBar(_, _) => Seq::empty(),
        Node::FadeIn(_) => Seq::empty(),
    }
}

/// `inner` is `node` itself or stands somewhere below it, at any depth.
pub open spec fn occurs_in(inner: Node, node: Node) -> bool
    decreases node,
{
    inner == node || exists|i: int|
        0 <= i < children(node).len() && occurs_in(inner, #[trigger] children(node)[i])
}

/// A node is supported exactly if it is no `FadeIn` and all nodes directly
/// below it are supported.
pub proof fn lemma_supported_by_children(node: Node)
    ensures
        supported(node) <==> !(node is FadeIn) && forall|i: int|
            0 <= i < children(node).len() ==> supported(#[trigger] children(node)[i]),
{
    match node {
        Node::Document(items)
        | Node::Container(items)
        | Node::Row(items)
        | Node::Column(items)
        | Node::OrderedList(items)
        | Node::UnorderedList(items) => {
            assert(children(node) == items);
            assert(supported(node) == all_supported(items));
        },
        Node::Aligned(child, _, _)
        | Node::Rectangle(child, _, _)
        | Node::Section(child)
        | Node::Italics(child)
        | Node::Bold(child)
        | Node::Link(child, _)
        | Node::ColoredForeground(child, _)
        | Node::ColoredBackground(child, _) => {
            assert(children(node) =~= seq![*child]);
            assert(children(node)[0] == *child);
            assert(supported(node) == supported(*child));
        },
        Node::Text(_) | Node::Title(_) | Node::SectionTitle(_) | Node::PercentBar(_, _) => {
            assert(supported(node));
        },
        Node::FadeIn(_) => {},
    }
}

/// A `FadeIn` node makes the tree unsupported wherever it stands: at the
/// root, among the children, or at any depth below them.
pub proof fn lemma_fade_in_anywhere(node: Node, direction: Direction)
    requires
        occurs_in(Node::FadeIn(direction), node),
    ensures
        !supported(node),
    decreases node,
{
    if Node::FadeIn(direction) != node {
        let i = choose|i: int|
            0 <= i < children(node).len() && occurs_in(
                Node::FadeIn(direction),
                #[trigger] children(node)[i],
            );
        lemma_fade_in_anywhere(children(node)[i], direction);
        lemma_supported_by_children(node);
    }
}

/// Only a `FadeIn` node makes a tree unsupported: an unsupported tree holds
/// one.
pub proof fn lemma_unsupported_holds_fade_in(node: Node)
    requires
        !supported(node),
    ensures
        exists|direction: Direction| occurs_in(Node::FadeIn(direction), node),
    decreases node,
{
    match node {
        Node::FadeIn(direction) => {
            assert(occurs_in(Node::FadeIn(direction), node));
        },
        _ => {
            lemma_supported_by_children(node);
            let i = choose|i: int|
                0 <= i < children(node).len() && !supported(#[trigger] children(node)[i]);
            lemma_unsupported_holds_fade_in(children(node)[i]);
            let direction = choose|direction: Direction|
                occurs_in(Node::FadeIn(direction), children(node)[i]);
            assert(occurs_in(Node::FadeIn(direction), node));
        },
    }
}

/// Rendering looks at nothing but the tree and the theme: two trees of the
/// same shape and content have the same markup under one theme.
pub proof fn lemma_render_deterministic<T: Theme + ?Sized>(a: HTML, b: HTML, theme: &T)
    requires
        a@ == b@,
    ensures
        render(a@, theme) == render(b@, theme),
        supported(a@) == supported(b@),
{
}

/// Projecting looks at nothing but the record: two records with the same
/// content have the same page, and the page has the same markup.
pub proof fn lemma_document_deterministic<T: Theme + ?Sized>(a: Resume, b: Resume, theme: &T)
    requires
        a@ == b@,
    ensures
        a@.document() == b@.document(),
        render(a@.document(), theme) == render(b@.document(), theme),
{
}

/// The children of a node that wraps each child, as wrapped pieces: there
/// are as many pieces as children; piece `k` is the markup of child `k`,
/// rendered by itself, between `open` and `close`; and in the joined text
/// the pieces stand whole and in the order of the children, each one line
/// break behind the one before it.
pub proof fn lemma_wrapped_children<T: Theme + ?Sized>(
    items: Seq<Node>,
    theme: &T,
    open: Seq<char>,
    close: Seq<char>,
)
    ensures
        ({
            let pieces = wrap_each(render_each(items, theme), open, close);
            let body = join(pieces, "\n"@);
            &&& pieces.len() == items.len()
            &&& forall|k: int|
                0 <= k < items.len() ==> {
                    let at = piece_offset(pieces, "\n"@, k);
                    &&& #[trigger] pieces[k] == open + render(items[k], theme) + close
                    &&& 0 <= at
                    &&& at + pieces[k].len() <= body.len()
                    &&& body.subrange(at, at + pieces[k].len()) == pieces[k]
                    &&& k > 0 ==> at == piece_offset(pieces, "\n"@, k - 1) + pieces[k - 1].len()
                        + 1
                }
            &&& items.len() > 0 ==> body.len() == piece_offset(pieces, "\n"@, items.len() - 1)
                + pieces.last().len()
        }),
{
    reveal_strlit("\n");
    let pieces = wrap_each(render_each(items, theme), open, close);
    let body = join(pieces, "\n"@);
    assert forall|k: int| 0 <= k < items.len() implies {
        let at = piece_offset(pieces, "\n"@, k);
        &&& #[trigger] pieces[k] == open + render(items[k], theme) + close
        &&& 0 <= at
        &&& at + pieces[k].len() <= body.len()
        &&& body.subrange(at, at + pieces[k].len()) == pieces[k]
        &&& k > 0 ==> at == piece_offset(pieces, "\n"@, k - 1) + pieces[k - 1].len() + 1
    } by {
        lemma_join_piece_at(pieces, "\n"@, k);
    }
    if items.len() > 0 {
        lemma_join_len(pieces, "\n"@);
    }
}

/// A list with N children has exactly N items, in the order of the
/// children: its markup is the list's tags around the N pieces
/// `<li>`child`</li>`, of which `lemma_wrapped_children` says where each
/// stands.
pub proof fn lemma_list_items<T: Theme + ?Sized>(items: Seq<Node>, theme: &T)
    ensures
        ({
            let pieces = wrap_each(render_each(items, theme), "<li>"@, "</li>"@);
            &&& pieces.len() == items.len()
            &&& forall|k: int|
                0 <= k < items.len() ==> #[trigger] pieces[k] == "<li>"@ + render(items[k], theme)
                    + "</li>"@
            &&& render(Node::OrderedList(items), theme) == "<ol style=\"width:100%\">"@ + join(
                pieces,
                "\n"@,
            ) + "</ol>"@
            &&& render(Node::UnorderedList(items), theme) == "<ul style=\"width:100%\">"@ + join(
                pieces,
                "\n"@,
            ) + "</ul>"@
        }),
{
    lemma_wrapped_children(items, theme, "<li>"@, "</li>"@);
}

/// A row with N children has exactly N column cells and a column with N
/// children exactly N row cells, in the order of the children, each cell
/// around the markup of its child rendered by itself;
/// `lemma_wrapped_children` says where each stands.
pub proof fn lemma_layout_cells<T: Theme + ?Sized>(items: Seq<Node>, theme: &T)
    ensures
        ({
            let columns = wrap_each(
                render_each(items, theme),
                "<div class=\"col no-gutters\">"@,
                "</div>"@,
            );
            let rows = wrap_each(
                render_each(items, theme),
                "<div class=\"row no-gutters\">"@,
                "</div>"@,
            );
            &&& columns.len() == items.len()
            &&& rows.len() == items.len()
            &&& forall|k: int|
                0 <= k < items.len() ==> #[trigger] columns[k] == "<div class=\"col no-gutters\">"@
                    + render(items[k], theme) + "</div>"@
            &&& forall|k: int|
                0 <= k < items.len() ==> #[trigger] rows[k] == "<div class=\"row no-gutters\">"@
                    + render(items[k], theme) + "</div>"@
            &&& render(Node::Row(items), theme) == "<div class=\"row no-gutters\">"@ + join(
                columns,
                "\n"@,
            ) + "</div>"@
            &&& render(Node::Column(items), theme) == "<div class=\"col no-gutters\">"@ + join(
                rows,
                "\n"@,
            ) + "</div>"@
        }),
{
    lemma_wrapped_children(items, theme, "<div class=\"col no-gutters\">"@, "</div>"@);
    lemma_wrapped_children(items, theme, "<div class=\"row no-gutters\">"@, "</div>"@);
}

} // verus!
