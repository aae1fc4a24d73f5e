//! Properties of the renderer, stated and proved over the same spec
//! functions that the executable functions' contracts use.

use vstd::prelude::*;

use crate::model::ChapterView;
use crate::model::Class;
use crate::model::NodeView;
use crate::model::chapter_class;
use crate::model::next_class;
use crate::render::chapter_lines;
use crate::render::class_after;
use crate::render::empty_line;
use crate::render::join_spec;
use crate::render::node_lines;
use crate::render::numbered_line;
use crate::render::part_title_lines;
use crate::render::render_from;
use crate::render::separator_lines;

verus! {

/// The output is a left fold: what a run of nodes emits, and the
/// classification it carries forward, depend only on those nodes and the
/// classification before them, never on what comes after. Splitting the
/// sequence anywhere splits the output at the same place.
pub proof fn lemma_downstream_independent(
    s1: Seq<NodeView>,
    s2: Seq<NodeView>,
    prev: Class,
    root: Seq<char>,
)
    ensures
        render_from(s1 + s2, prev, root) == render_from(s1, prev, root) + render_from(
            s2,
            class_after(s1, prev),
            root,
        ),
        class_after(s1 + s2, prev) == class_after(s2, class_after(s1, prev)),
    decreases s1.len(),
{
    if s1.len() == 0 {
        assert(s1 + s2 =~= s2);
        assert(render_from(s1, prev, root) + render_from(s2, prev, root) =~= render_from(
            s2,
            prev,
            root,
        ));
    } else {
        assert((s1 + s2).drop_first() =~= s1.drop_first() + s2);
        assert((s1 + s2)[0] == s1[0]);
        lemma_downstream_independent(s1.drop_first(), s2, next_class(s1[0], prev), root);
        assert(render_from(s1 + s2, prev, root) =~= render_from(s1, prev, root) + render_from(
            s2,
            class_after(s1, prev),
            root,
        ));
    }
}

/// A numbered chapter of depth `d` emits exactly one line, indented by
/// exactly `(d - 1) * 2` space characters before its `-` marker.
pub proof fn lemma_numbered_indent(ch: ChapterView, prev: Class, root: Seq<char>)
    requires
        ch.number matches Some(ns) && ns.len() >= 1,
        ch.path is Some,
    ensures
        chapter_lines(ch, prev, root).len() == 1,
        ({
            let line = chapter_lines(ch, prev, root)[0];
            let ind = (ch.number->0.len() - 1) * 2;
            &&& line.len() > ind
            &&& forall|j: int| 0 <= j < ind ==> line[j] == ' '
            &&& line[ind] == '-'
        }),
{
    reveal_strlit("- [");
    reveal_strlit("](");
    reveal_strlit(")");
    assert(chapter_class(ch, prev) == Class::Numbered);
    let line = numbered_line(ch.name, ch.number->0.len(), join_spec(root, ch.path->0));
    assert(chapter_lines(ch, prev, root) =~= seq![line]);
    let ind = (ch.number->0.len() - 1) * 2;
    assert(forall|j: int| 0 <= j < ind ==> line[j] == ' ');
    assert(line[ind] == '-');
}

/// A draft chapter (one without a source path) emits nothing, whatever
/// its number and whatever came before it.
pub proof fn lemma_draft_emits_nothing(ch: ChapterView, prev: Class, root: Seq<char>)
    requires
        ch.path is None,
    ensures
        chapter_class(ch, prev) == Class::Draft,
        chapter_lines(ch, prev, root) == Seq::<Seq<char>>::empty(),
{
    assert(chapter_lines(ch, prev, root) =~= Seq::<Seq<char>>::empty());
}

/// A numbered chapter followed by an unnumbered, non-draft chapter emits
/// the list item, then exactly one blank line, then the suffix content
/// and its trailing blank line. The list-item line itself is never
/// blank, so exactly one blank line stands between the numbered run and
/// the suffix content.
pub proof fn lemma_suffix_blank_line(
    c1: ChapterView,
    c2: ChapterView,
    prev: Class,
    root: Seq<char>,
)
    requires
        c1.number is Some,
        c1.path is Some,
        c2.number is None,
        c2.path is Some,
    ensures
        ({
            let item = numbered_line(c1.name, c1.number->0.len(), join_spec(root, c1.path->0));
            &&& render_from(
                seq![NodeView::Chapter(c1), NodeView::Chapter(c2)],
                prev,
                root,
            ) == seq![item, empty_line(), c2.content, empty_line()]
            &&& item.len() > 0
        }),
{
    reveal_strlit("- [");
    let s = seq![NodeView::Chapter(c1), NodeView::Chapter(c2)];
    let item = numbered_line(c1.name, c1.number->0.len(), join_spec(root, c1.path->0));
    assert(chapter_class(c1, prev) == Class::Numbered);
    assert(chapter_class(c2, Class::Numbered) == Class::Suffix);
    assert(s.drop_first() =~= seq![NodeView::Chapter(c2)]);
    assert(s.drop_first().drop_first() =~= Seq::<NodeView>::empty());
    assert(render_from(Seq::<NodeView>::empty(), Class::Suffix, root)
        == Seq::<Seq<char>>::empty());
    assert(chapter_lines(c1, prev, root) =~= seq![item]);
    assert(chapter_lines(c2, Class::Numbered, root) =~= seq![
        empty_line(),
        c2.content,
        empty_line(),
    ]);
    assert(render_from(seq![NodeView::Chapter(c2)], Class::Numbered, root) =~= seq![
        empty_line(),
        c2.content,
        empty_line(),
    ]);
    assert(render_from(s, prev, root) =~= seq![item, empty_line(), c2.content, empty_line()]);
    assert(item.len() >= ("- [")@.len());
}

/// A separator right after a numbered run emits exactly one blank line,
/// then the (never blank) horizontal rule, then a blank line; anywhere
/// else it emits no leading blank line.
pub proof fn lemma_separator_blank_line(prev: Class)
    ensures
        separator_lines(Class::Numbered) == seq![empty_line(), "---"@, empty_line()],
        ("---")@.len() > 0,
        prev != Class::Numbered ==> separator_lines(prev) == seq!["---"@, empty_line()],
{
    reveal_strlit("---");
    assert(separator_lines(Class::Numbered) =~= seq![empty_line(), "---"@, empty_line()]);
    if prev != Class::Numbered {
        assert(separator_lines(prev) =~= seq!["---"@, empty_line()]);
    }
}

/// A part title right after a numbered run emits exactly one blank line,
/// then the (never blank) heading line, then a blank line; anywhere else
/// it emits no leading blank line.
pub proof fn lemma_part_title_blank_line(title: Seq<char>, prev: Class)
    ensures
        part_title_lines(title, Class::Numbered) == seq![
            empty_line(),
            ("# ")@ + title,
            empty_line(),
        ],
        (("# ")@ + title).len() > 0,
        prev != Class::Numbered ==> part_title_lines(title, prev) == seq![
            ("# ")@ + title,
            empty_line(),
        ],
{
    reveal_strlit("# ");
    assert(part_title_lines(title, Class::Numbered) =~= seq![
        empty_line(),
        ("# ")@ + title,
        empty_line(),
    ]);
    if prev != Class::Numbered {
        assert(part_title_lines(title, prev) =~= seq![("# ")@ + title, empty_line()]);
    }
}

} // verus!
