//! Properties that relate several operations of the library.
use vstd::prelude::*;
use crate::data::models::{Difficulty, MemoryQuality, Quality, SessionParams, difficulty_from_label, difficulty_label,
    memory_quality_from_label, memory_quality_label, quality_from_label, quality_label};
use crate::gui::theme::{AppTheme, next_theme, theme_name};
use crate::gui::tree_view::TreeView;
use crate::learning::timer_machine::TimerStateMachine;
use crate::timer::TimerState as Stopwatch;
use crate::learning::category_tree::{CategoryForest, any_node, collect, collect_seq, leaf_node, learning_node,
    lemma_collect_has_leaf, lemma_collect_seq_filter};
use crate::data::ics::join_with;
use crate::tabs::{has_group, toggled};
use crate::text::{decimal, has_suffix, is_ws, words};
use crate::data::export::{md_session_lines, md_session_row};
use crate::data::models::Session;
use crate::data::stamps::day_minute_text;
use crate::display::hms_text;

verus! {

/// Every memory quality reads back from its label.
pub proof fn law_memory_quality_label_roundtrip(q: MemoryQuality)
    ensures
        memory_quality_from_label(memory_quality_label(q)) == Some(q),
{
    reveal_strlit("重学");
    assert("重学"@ =~= seq!['重', '学']);
    reveal_strlit("困难");
    assert("困难"@ =~= seq!['困', '难']);
    reveal_strlit("好");
    assert("好"@ =~= seq!['好']);
    reveal_strlit("简单");
    assert("简单"@ =~= seq!['简', '单']);
    assert("重学"@[0] != "困难"@[0]);
    assert("重学"@.len() != "好"@.len());
    assert("重学"@[0] != "简单"@[0]);
    assert("困难"@.len() != "好"@.len());
    assert("困难"@[0] != "简单"@[0]);
    assert("好"@.len() != "简单"@.len());
}

/// Every quality reads back from its label.
pub proof fn law_quality_label_roundtrip(q: Quality)
    ensures
        quality_from_label(quality_label(q)) == Some(q),
{
    reveal_strlit("极低");
    assert("极低"@ =~= seq!['极', '低']);
    reveal_strlit("低");
    assert("低"@ =~= seq!['低']);
    reveal_strlit("中");
    assert("中"@ =~= seq!['中']);
    reveal_strlit("高");
    assert("高"@ =~= seq!['高']);
    reveal_strlit("完整");
    assert("完整"@ =~= seq!['完', '整']);
    assert("极低"@.len() != "低"@.len());
    assert("极低"@.len() != "中"@.len());
    assert("极低"@.len() != "高"@.len());
    assert("极低"@[0] != "完整"@[0]);
    assert("低"@[0] != "中"@[0]);
    assert("低"@[0] != "高"@[0]);
    assert("低"@.len() != "完整"@.len());
    assert("中"@[0] != "高"@[0]);
    assert("中"@.len() != "完整"@.len());
    assert("高"@.len() != "完整"@.len());
}

/// Every difficulty reads back from its label.
pub proof fn law_difficulty_label_roundtrip(d: Difficulty)
    ensures
        difficulty_from_label(difficulty_label(d)) == Some(d),
{
    reveal_strlit("极易");
    assert("极易"@ =~= seq!['极', '易']);
    reveal_strlit("易");
    assert("易"@ =~= seq!['易']);
    reveal_strlit("中");
    assert("中"@ =~= seq!['中']);
    reveal_strlit("难");
    assert("难"@ =~= seq!['难']);
    reveal_strlit("极难");
    assert("极难"@ =~= seq!['极', '难']);
    assert("极易"@.len() != "易"@.len());
    assert("极易"@.len() != "中"@.len());
    assert("极易"@.len() != "难"@.len());
    assert("极易"@[1] != "极难"@[1]);
    assert("易"@[0] != "中"@[0]);
    assert("易"@[0] != "难"@[0]);
    assert("易"@.len() != "极难"@.len());
    assert("中"@[0] != "难"@[0]);
    assert("中"@.len() != "极难"@.len());
    assert("难"@.len() != "极难"@.len());
}

/// A theme's stored name reads back as that theme, and toggling three times
/// comes back to the start.
pub proof fn law_theme_roundtrip(t: AppTheme)
    ensures
        (if theme_name(t) == "light"@ {
            AppTheme::Light
        } else if theme_name(t) == "dark"@ {
            AppTheme::Dark
        } else {
            AppTheme::Transparent
        }) == t,
        next_theme(next_theme(next_theme(t))) == t,
{
    reveal_strlit("light");
    assert("light"@ =~= seq!['l', 'i', 'g', 'h', 't']);
    reveal_strlit("dark");
    assert("dark"@ =~= seq!['d', 'a', 'r', 'k']);
    reveal_strlit("transparent");
    assert("transparent"@ =~= seq!['t', 'r', 'a', 'n', 's', 'p', 'a', 'r', 'e', 'n', 't']);
    assert("light"@.len() != "dark"@.len());
    assert("light"@.len() != "transparent"@.len());
    assert("dark"@.len() != "transparent"@.len());
}

/// Toggling a folder twice leaves it showing as it did.
pub proof fn law_toggle_twice(v: TreeView, path: Seq<char>)
    ensures
        ({
            let once = v@.insert(path, !v.shows_expanded(path));
            let twice = once.insert(path, !(!once.contains_key(path) || once[path]));
            twice.contains_key(path) && twice[path] == v.shows_expanded(path)
        }),
{
}

/// While the study timer is paused, the seconds it shows stand still.
pub proof fn law_paused_timer_steady(m: TimerStateMachine, t1: i64, t2: i64)
    requires
        m.state is Paused,
    ensures
        m.effective_at(t1) == m.effective_at(t2),
{
}

/// A paused stopwatch shows the same count whenever it is read.
pub proof fn law_paused_stopwatch_frozen(s: Stopwatch, t1: i64, t2: i64)
    requires
        s is Paused,
    ensures
        s.elapsed_at(t1) == s.elapsed_at(t2),
{
}

} // verus!

verus! {

/// The global session defaults read back as they were saved.
pub proof fn law_global_params_roundtrip(p: SessionParams)
    ensures
        crate::learning::params::stored_quality(Some(quality_label(p.quality))) == p.quality,
        crate::learning::params::stored_difficulty(Some(difficulty_label(p.understanding_difficulty))) == p.understanding_difficulty,
        crate::learning::params::stored_difficulty(Some(difficulty_label(p.memory_difficulty))) == p.memory_difficulty,
        crate::learning::params::stored_rate(Some(crate::text::decimal(p.completion_rate as int))) == p.completion_rate,
{
    law_quality_label_roundtrip(p.quality);
    law_difficulty_label_roundtrip(p.understanding_difficulty);
    law_difficulty_label_roundtrip(p.memory_difficulty);
    let v = p.completion_rate as nat;
    crate::learning::params::lemma_digits_roundtrip(v);
    let s = crate::text::digits(v);
    assert(s[0] != '+') by {
        assert(crate::learning::params::is_digit(s[0]));
    }
    assert(crate::learning::params::sign_stripped(s) == s);
}


/// Opening and closing a card form's group twice gives back the groups
/// that were open.
pub proof fn law_group_toggle_twice(a: Seq<String>, b: Seq<String>, c: Seq<String>, g: Seq<char>)
    requires
        toggled(b, a, g),
        toggled(c, b, g),
    ensures
        forall|h: Seq<char>| #[trigger] has_group(c, h) == has_group(a, h),
{
    assert forall|h: Seq<char>| #[trigger] has_group(c, h) == has_group(a, h) by {
        assert(has_group(c, h) == (if h == g { !has_group(b, g) } else { has_group(b, h) }));
        assert(has_group(b, h) == (if h == g { !has_group(a, g) } else { has_group(a, h) }));
        assert(has_group(b, g) == !has_group(a, g));
    }
}

/// A word: some characters, none of them whitespace.
pub open spec fn is_word(w: Seq<char>) -> bool {
    w.len() > 0 && forall|i: int| 0 <= i < w.len() ==> !is_ws(#[trigger] w[i])
}

proof fn lemma_words_then_word(s: Seq<char>, w: Seq<char>)
    requires
        is_word(w),
        s.len() == 0 || is_ws(s.last()),
    ensures
        words(s + w) == words(s).push(w),
    decreases w.len(),
{
    let t = s + w;
    assert(t.drop_last() =~= s + w.drop_last());
    assert(t.last() == w.last());
    if w.len() == 1 {
        assert(s + w.drop_last() =~= s);
        if t.len() >= 2 {
            assert(t[t.len() - 2] == s.last());
        }
        assert(seq![w.last()] =~= w);
    } else {
        let v = w.drop_last();
        assert(is_word(v)) by {
            assert forall|i: int| 0 <= i < v.len() implies !is_ws(#[trigger] v[i]) by {
                assert(v[i] == w[i]);
            }
        }
        lemma_words_then_word(s, v);
        assert(t[t.len() - 2] == w[w.len() - 2]);
        assert(words(s).push(v).update(words(s).len() as int, v.push(w.last())) =~= words(s).push(w)) by {
            assert(v.push(w.last()) =~= w);
        }
    }
}

/// Editing a to-do item and saving it unchanged keeps its tags: the form
/// shows them space-separated and saving reads the words back, provided
/// no tag is empty or holds whitespace.
pub proof fn law_todo_tags_roundtrip(tags: Seq<Seq<char>>)
    requires
        forall|i: int| 0 <= i < tags.len() ==> is_word(#[trigger] tags[i]),
    ensures
        words(join_with(tags, ' ')) == tags,
    decreases tags.len(),
{
    if tags.len() == 0 {
    } else if tags.len() == 1 {
        assert(is_word(tags[0]));
        lemma_words_then_word(Seq::empty(), tags[0]);
        assert(Seq::<char>::empty() + tags[0] =~= tags[0]);
        assert(Seq::<Seq<char>>::empty().push(tags[0]) =~= tags);
    } else {
        let rest = tags.drop_last();
        assert forall|i: int| 0 <= i < rest.len() implies is_word(#[trigger] rest[i]) by {
            assert(rest[i] == tags[i]);
        }
        law_todo_tags_roundtrip(rest);
        let j = join_with(rest, ' ');
        let js = j + seq![' '];
        assert(js.drop_last() =~= j);
        assert(words(js) == words(j));
        assert(is_word(tags.last()));
        lemma_words_then_word(js, tags.last());
        assert(join_with(tags, ' ') == js + tags.last());
        assert(rest.push(tags.last()) =~= tags);
    }
}

/// The leaves of a forest are its nodes in preorder that have no children,
/// in the same order; every top-level node brings at least one leaf.
pub proof fn law_leaf_nodes_filter(f: CategoryForest)
    ensures
        collect_seq(f.roots@, leaf_node()) == collect_seq(f.roots@, any_node()).filter(leaf_node()),
        forall|i: int| 0 <= i < f.roots@.len() ==> (#[trigger] collect(f.roots@[i], leaf_node())).len() > 0,
{
    lemma_collect_seq_filter(f.roots@, leaf_node());
    assert forall|i: int| 0 <= i < f.roots@.len() implies (#[trigger] collect(f.roots@[i], leaf_node())).len() > 0 by {
        lemma_collect_has_leaf(f.roots@[i]);
    }
}

/// The learning nodes of a forest are its nodes in preorder whose type is
/// learning, inner nodes among them, in the same order.
pub proof fn law_learning_nodes_filter(f: CategoryForest)
    ensures
        collect_seq(f.roots@, learning_node()) == collect_seq(f.roots@, any_node()).filter(learning_node()),
{
    lemma_collect_seq_filter(f.roots@, learning_node());
}

/// In the Markdown export of sessions, the row of each session (after the
/// title, the blank line and the two head lines) ends with its note in the
/// last column, or with `-` where it has none.
pub proof fn law_md_rows_end_with_note(sessions: Seq<Session>)
    ensures
        md_session_lines(sessions).len() == sessions.len() + 4,
        forall|i: int| 0 <= i < sessions.len() ==> has_suffix(
            #[trigger] md_session_lines(sessions)[i + 4],
            " | "@ + match sessions[i].note {
                Some(n) => n@,
                None => "-"@,
            } + " |"@,
        ),
{
    assert forall|i: int| 0 <= i < sessions.len() implies has_suffix(
        #[trigger] md_session_lines(sessions)[i + 4],
        " | "@ + match sessions[i].note {
            Some(n) => n@,
            None => "-"@,
        } + " |"@,
    ) by {
        let x = sessions[i];
        let note = match x.note {
            Some(n) => n@,
            None => "-"@,
        };
        assert(md_session_lines(sessions)[i + 4] == md_session_row(x));
        let head = "| "@ + decimal(x.id as int) + " | "@ + decimal(x.category_id as int) + " | "@
            + day_minute_text(x.start_time) + " | "@ + day_minute_text(x.end_time) + " | "@
            + hms_text(x.duration_secs as int) + " | "@ + quality_label(x.quality);
        let tail = " | "@ + note + " |"@;
        assert(md_session_row(x) =~= head + tail);
        assert((head + tail).skip((head + tail).len() - tail.len()) =~= tail);
    }
}

} // verus!
