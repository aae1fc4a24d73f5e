//! Emission: what each node contributes to the output, and the fold that
//! renders a whole node sequence.
//!
//! The output is modelled as a sequence of lines, each a sequence of
//! characters; writing the file is appending a newline to each line in
//! order.

use vstd::prelude::*;
use vstd::string::StrSliceExecFns;
use vstd::string::StringExecFns;

use crate::model::ChapterNode;
use crate::model::ChapterView;
use crate::model::Class;
use crate::model::Node;
use crate::model::NodeView;
use crate::model::chapter_class;
use crate::model::chapter_wf;
use crate::model::classify;
use crate::model::next_class;
use crate::model::node_wf;
use crate::model::nodes_wf;

verus! {

/// A blank output line.
pub open spec fn empty_line() -> Seq<char> {
    Seq::<char>::empty()
}

/// `n` space characters (none when `n` is not positive).
pub open spec fn spaces(n: int) -> Seq<char> {
    Seq::new(if n >= 0 { n as nat } else { 0 }, |i: int| ' ')
}

/// The link target of a numbered chapter: the root path joined with the
/// chapter's source path, as a path join displays it. An absolute source
/// path stands alone; otherwise the two are joined with exactly one
/// separator between them.
pub open spec fn join_spec(root: Seq<char>, path: Seq<char>) -> Seq<char> {
    if path.len() > 0 && path[0] == '/' {
        path
    } else if root.len() == 0 {
        path
    } else if root[root.len() - 1] == '/' {
        root + path
    } else {
        root + "/"@ + path
    }
}

/// The single list-item line of a numbered chapter: indentation by
/// numbering depth, a `-` marker, then the name linked to the target.
pub open spec fn numbered_line(name: Seq<char>, depth: nat, target: Seq<char>) -> Seq<char> {
    spaces((depth - 1) * 2) + "- ["@ + name + "]("@ + target + ")"@
}

/// The lines a chapter node emits, given the previous classification: a
/// separating blank line when a suffix closes a numbered run, then the
/// chapter's own rendering (content and a blank line for front and back
/// matter, one list item for a numbered chapter, nothing for a draft).
pub open spec fn chapter_lines(ch: ChapterView, prev: Class, root: Seq<char>) -> Seq<Seq<char>> {
    let cur = chapter_class(ch, prev);
    let gap: Seq<Seq<char>> = if prev == Class::Numbered && cur == Class::Suffix {
        seq![empty_line()]
    } else {
        Seq::<Seq<char>>::empty()
    };
    gap + (match cur {
        Class::Prefix => seq![ch.content, empty_line()],
        Class::Suffix => seq![ch.content, empty_line()],
        Class::Draft => Seq::<Seq<char>>::empty(),
        Class::Numbered => seq![
            numbered_line(ch.name, ch.number->0.len(), join_spec(root, ch.path->0)),
        ],
    })
}

/// The lines a separator emits: a horizontal rule and a blank line, with
/// a separating blank line first when it follows a numbered run.
pub open spec fn separator_lines(prev: Class) -> Seq<Seq<char>> {
    let gap: Seq<Seq<char>> = if prev == Class::Numbered {
        seq![empty_line()]
    } else {
        Seq::<Seq<char>>::empty()
    };
    gap + seq!["---"@, empty_line()]
}

/// The lines a part title emits: a heading and a blank line, with a
/// separating blank line first when it follows a numbered run.
pub open spec fn part_title_lines(title: Seq<char>, prev: Class) -> Seq<Seq<char>> {
    let gap: Seq<Seq<char>> = if prev == Class::Numbered {
        seq![empty_line()]
    } else {
        Seq::<Seq<char>>::empty()
    };
    gap + seq![("# ")@ + title, empty_line()]
}

/// The lines one node emits, given the previous classification.
pub open spec fn node_lines(node: NodeView, prev: Class, root: Seq<char>) -> Seq<Seq<char>> {
    match node {
        NodeView::Chapter(ch) => chapter_lines(ch, prev, root),
        NodeView::Separator => separator_lines(prev),
        NodeView::PartTitle(t) => part_title_lines(t, prev),
    }
}

/// The whole output of a node sequence, folded left to right from the
/// carried classification `prev`.
pub open spec fn render_from(nodes: Seq<NodeView>, prev: Class, root: Seq<char>) -> Seq<Seq<char>>
    decreases nodes.len(),
{
    if nodes.len() == 0 {
        Seq::<Seq<char>>::empty()
    } else {
        node_lines(nodes[0], prev, root) + render_from(
            nodes.drop_first(),
            next_class(nodes[0], prev),
            root,
        )
    }
}

/// The classification carried past a whole node sequence.
pub open spec fn class_after(nodes: Seq<NodeView>, prev: Class) -> Class
    decreases nodes.len(),
{
    if nodes.len() == 0 {
        prev
    } else {
        class_after(nodes.drop_first(), next_class(nodes[0], prev))
    }
}

/// The whole output of a node sequence, from the initial classification.
pub open spec fn render_spec(nodes: Seq<NodeView>, root: Seq<char>) -> Seq<Seq<char>> {
    render_from(nodes, Class::Prefix, root)
}

fn push_line(out: &mut Vec<String>, s: String)
    ensures
        final(out).deep_view() == old(out).deep_view().push(s@),
{
    let ghost sv = s@;
    out.push(s);
    proof {
        assert(out.deep_view() =~= old(out).deep_view().push(sv));
    }
}

/// A string of `n` space characters.
fn make_spaces(n: usize) -> (s: String)
    ensures
        s@ == spaces(n as int),
{
    let mut s = String::new();
    proof {
        assert(s@ =~= spaces(0));
    }
    let mut i: usize = 0;
    while i < n
        invariant
            i <= n,
            s@ == spaces(i as int),
        decreases n - i,
    {
        s.append(" ");
        proof {
            reveal_strlit(" ");
            assert(s@ =~= spaces(i as int + 1));
        }
        i = i + 1;
    }
    s
}

/// Join the root path with a chapter's source path, as a path join
/// displays it.
pub fn join_path(root: &str, path: &str) -> (r: String)
    ensures
        r@ == join_spec(root@, path@),
{
    let path_abs = if path.is_empty() {
        false
    } else {
        path.get_char(0) == '/'
    };
    if path_abs {
        path.to_owned()
    } else if root.is_empty() {
        path.to_owned()
    } else {
        let rlen = root.unicode_len();
        if root.get_char(rlen - 1) == '/' {
            root.to_owned().concat(path)
        } else {
            let r = root.to_owned().concat("/").concat(path);
            proof {
                assert(r@ =~= root@ + "/"@ + path@);
            }
            r
        }
    }
}

/// Emit one chapter node onto `out`; the result is the classification it
/// carries forward.
pub fn chapter_step(ch: &ChapterNode, prev: Class, root: &str, out: &mut Vec<String>) -> (c: Class)
    requires
        chapter_wf(ch@),
    ensures
        c == chapter_class(ch@, prev),
        final(out).deep_view() == old(out).deep_view() + chapter_lines(ch@, prev, root@),
{
    let cur = classify(ch.number.is_some(), ch.path.is_some(), prev);
    if prev == Class::Numbered && cur == Class::Suffix {
        push_line(out, String::new());
    }
    match cur {
        Class::Prefix | Class::Suffix => {
            push_line(out, ch.content.clone());
            push_line(out, String::new());
        },
        Class::Draft => {},
        Class::Numbered => {
            let depth: usize = match &ch.number {
                Some(ns) => ns.len(),
                None => unreached(),
            };
            let path: &String = match &ch.path {
                Some(p) => p,
                None => unreached(),
            };
            let mut line = make_spaces((depth - 1) * 2);
            line.append("- [");
            line.append(ch.name.as_str());
            line.append("](");
            let target = join_path(root, path.as_str());
            line.append(target.as_str());
            line.append(")");
            push_line(out, line);
        },
    }
    proof {
        assert(out.deep_view() =~= old(out).deep_view() + chapter_lines(ch@, prev, root@));
    }
    cur
}

/// Emit a separator onto `out`; the carried classification is unchanged.
pub fn separator_step(prev: Class, out: &mut Vec<String>)
    ensures
        final(out).deep_view() == old(out).deep_view() + separator_lines(prev),
{
    if prev == Class::Numbered {
        push_line(out, String::new());
    }
    push_line(out, String::from_str("---"));
    push_line(out, String::new());
    proof {
        assert(out.deep_view() =~= old(out).deep_view() + separator_lines(prev));
    }
}

/// Emit a part title onto `out`; the carried classification is unchanged.
pub fn part_title_step(title: &String, prev: Class, out: &mut Vec<String>)
    ensures
        final(out).deep_view() == old(out).deep_view() + part_title_lines(title@, prev),
{
    if prev == Class::Numbered {
        push_line(out, String::new());
    }
    push_line(out, String::from_str("# ").concat(title.as_str()));
    push_line(out, String::new());
    proof {
        assert(out.deep_view() =~= old(out).deep_view() + part_title_lines(title@, prev));
    }
}

/// Emit one node onto `out`; the result is the classification carried to
/// the next node.
pub fn step(node: &Node, prev: Class, root: &str, out: &mut Vec<String>) -> (c: Class)
    requires
        node_wf(node@),
    ensures
        c == next_class(node@, prev),
        final(out).deep_view() == old(out).deep_view() + node_lines(node@, prev, root@),
{
    match node {
        Node::Chapter(ch) => chapter_step(ch, prev, root, out),
        Node::Separator => {
            separator_step(prev, out);
            prev
        },
        Node::PartTitle(t) => {
            part_title_step(t, prev, out);
            prev
        },
    }
}

/// Appending one node to a sequence appends that node's lines to the
/// output, from the classification the sequence carries.
pub proof fn lemma_render_from_snoc(s: Seq<NodeView>, x: NodeView, prev: Class, root: Seq<char>)
    ensures
        render_from(s.push(x), prev, root) == render_from(s, prev, root) + node_lines(
            x,
            class_after(s, prev),
            root,
        ),
        class_after(s.push(x), prev) == next_class(x, class_after(s, prev)),
    decreases s.len(),
{
    if s.len() == 0 {
        let e = Seq::<NodeView>::empty();
        assert(s =~= e);
        assert(s.push(x).drop_first() =~= e);
        assert(s.push(x)[0] == x);
        assert(render_from(e, next_class(x, prev), root) == Seq::<Seq<char>>::empty());
        assert(render_from(e, prev, root) == Seq::<Seq<char>>::empty());
        assert(class_after(e, next_class(x, prev)) == next_class(x, prev));
        assert(class_after(e, prev) == prev);
        assert(render_from(s.push(x), prev, root) =~= node_lines(x, prev, root));
        assert(render_from(s, prev, root) + node_lines(x, class_after(s, prev), root)
            =~= node_lines(x, prev, root));
    } else {
        assert(s.push(x).drop_first() =~= s.drop_first().push(x));
        assert(s.push(x)[0] == s[0]);
        lemma_render_from_snoc(s.drop_first(), x, next_class(s[0], prev), root);
        assert(render_from(s.push(x), prev, root) =~= render_from(s, prev, root) + node_lines(
            x,
            class_after(s, prev),
            root,
        ));
    }
}

/// Render a whole node sequence from the initial classification; the
/// output is exactly the fold of the per-node emissions.
pub fn render(nodes: &Vec<Node>, root: &str) -> (out: Vec<String>)
    requires
        nodes_wf(nodes.deep_view()),
    ensures
        out.deep_view() == render_spec(nodes.deep_view(), root@),
{
    let mut out: Vec<String> = Vec::new();
    let mut cls = Class::Prefix;
    proof {
        assert(out.deep_view() =~= render_from(
            nodes.deep_view().take(0),
            Class::Prefix,
            root@,
        ));
        assert(nodes.deep_view().take(0) =~= Seq::<NodeView>::empty());
    }
    let n = nodes.len();
    let mut i: usize = 0;
    while i < n
        invariant
            n == nodes@.len(),
            i <= n,
            nodes_wf(nodes.deep_view()),
            cls == class_after(nodes.deep_view().take(i as int), Class::Prefix),
            out.deep_view() == render_from(nodes.deep_view().take(i as int), Class::Prefix, root@),
        decreases n - i,
    {
        let node = &nodes[i];
        proof {
            assert(node@ == nodes.deep_view()[i as int]);
            assert(node_wf(node@));
            lemma_render_from_snoc(
                nodes.deep_view().take(i as int),
                node@,
                Class::Prefix,
                root@,
            );
            assert(nodes.deep_view().take(i as int).push(node@) =~= nodes.deep_view().take(
                i as int + 1,
            ));
        }
        cls = step(node, cls, root, &mut out);
        i = i + 1;
    }
    proof {
        assert(nodes.deep_view().take(n as int) =~= nodes.deep_view());
    }
    out
}

} // verus!
