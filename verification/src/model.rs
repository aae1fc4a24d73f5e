//! The document tree as the renderer sees it, and the classification rule.

use vstd::prelude::*;

verus! {

/// Classification carried between steps of the fold: how the chapter
/// before the current node was rendered. The initial state, before any
/// node has been seen, is `Prefix`.
#[derive(Debug, Copy, Clone, PartialEq, Eq, Structural)]
pub enum Class {
    Prefix,
    Numbered,
    Suffix,
    Draft,
}

/// A chapter of the document tree: a display name, an optional
/// hierarchical number (the sequence of section components, e.g. 2.1),
/// the rendered content body (used only for unnumbered chapters), and an
/// optional content-source path. A chapter without a source path is a
/// draft and is never rendered.
#[derive(Debug, Clone)]
pub struct ChapterNode {
    pub name: String,
    pub number: Option<Vec<u64>>,
    pub content: String,
    pub path: Option<String>,
}

/// A node of the ordered document tree.
#[derive(Debug, Clone)]
pub enum Node {
    Chapter(ChapterNode),
    Separator,
    PartTitle(String),
}

/// Mathematical model of a chapter: every string as a sequence of
/// characters, the number as a sequence of components.
pub struct ChapterView {
    pub name: Seq<char>,
    pub number: Option<Seq<u64>>,
    pub content: Seq<char>,
    pub path: Option<Seq<char>>,
}

/// Mathematical model of a node.
pub enum NodeView {
    Chapter(ChapterView),
    Separator,
    PartTitle(Seq<char>),
}

impl View for ChapterNode {
    type V = ChapterView;

    open spec fn view(&self) -> ChapterView {
        ChapterView {
            name: self.name@,
            number: self.number.deep_view(),
            content: self.content@,
            path: self.path.deep_view(),
        }
    }
}

impl DeepView for ChapterNode {
    type V = ChapterView;

    open spec fn deep_view(&self) -> ChapterView {
        self.view()
    }
}

impl View for Node {
    type V = NodeView;

    open spec fn view(&self) -> NodeView {
        match self {
            Node::Chapter(ch) => NodeView::Chapter(ch@),
            Node::Separator => NodeView::Separator,
            Node::PartTitle(t) => NodeView::PartTitle(t@),
        }
    }
}

impl DeepView for Node {
    type V = NodeView;

    open spec fn deep_view(&self) -> NodeView {
        self.view()
    }
}

/// Classify a chapter from its own shape and the previous classification
/// alone: a chapter with no backing source path is a draft, whatever else
/// holds; one with a hierarchical number is numbered; an unnumbered one
/// is a suffix right after a numbered run and front matter otherwise.
pub open spec fn classify_chapter(has_number: bool, has_path: bool, prev: Class) -> Class {
    if !has_path {
        Class::Draft
    } else if has_number {
        Class::Numbered
    } else if prev == Class::Numbered {
        Class::Suffix
    } else {
        Class::Prefix
    }
}

/// The classification of a chapter node.
pub open spec fn chapter_class(ch: ChapterView, prev: Class) -> Class {
    classify_chapter(ch.number is Some, ch.path is Some, prev)
}

/// The classification carried past a node: only chapters set it; a
/// separator or a part title leaves it as it was.
pub open spec fn next_class(node: NodeView, prev: Class) -> Class {
    match node {
        NodeView::Chapter(ch) => chapter_class(ch, prev),
        NodeView::Separator => prev,
        NodeView::PartTitle(_) => prev,
    }
}

/// A hierarchical number, where present, has at least one component, and
/// its indentation width fits the machine.
pub open spec fn chapter_wf(ch: ChapterView) -> bool {
    ch.number matches Some(ns) ==> 1 <= ns.len() && (ns.len() - 1) * 2 <= usize::MAX
}

pub open spec fn node_wf(node: NodeView) -> bool {
    match node {
        NodeView::Chapter(ch) => chapter_wf(ch),
        NodeView::Separator => true,
        NodeView::PartTitle(_) => true,
    }
}

pub open spec fn nodes_wf(nodes: Seq<NodeView>) -> bool {
    forall|i: int| 0 <= i < nodes.len() ==> #[trigger] node_wf(nodes[i])
}

/// Executable form of [`classify_chapter`].
pub fn classify(has_number: bool, has_path: bool, prev: Class) -> (c: Class)
    ensures
        c == classify_chapter(has_number, has_path, prev),
{
    if !has_path {
        Class::Draft
    } else if has_number {
        Class::Numbered
    } else if prev == Class::Numbered {
        Class::Suffix
    } else {
        Class::Prefix
    }
}

} // verus!
