//! Text files on their way into the staging tree: variables are replaced by
//! their values, and every line ends in one line feed.

use crate::forge::{pair_texts, Variables, VariablesView};
use crate::text::{chars_of, occurs_at, replace_all, replaced, string_of};
use vstd::prelude::*;

verus! {

/// `line` after the replacements `pairs`, each applied to the result of the
/// one before it.
pub open spec fn substituted(line: Seq<char>, pairs: Seq<(Seq<char>, Seq<char>)>) -> Seq<char>
    decreases pairs.len(),
{
    if pairs.len() == 0 {
        line
    } else {
        replaced(substituted(line, pairs.drop_last()), pairs.last().0, pairs.last().1)
    }
}

/// `line` without the carriage return at its end, if it has one there.
pub open spec fn without_cr(line: Seq<char>) -> Seq<char> {
    if line.len() > 0 && line.last() == '\r' {
        line.drop_last()
    } else {
        line
    }
}

/// The lines of `text`, where `current` holds what was read of the line at
/// hand. A line ends at a line feed, and a carriage return just before the
/// line feed is no part of it; what follows the last line feed is a line of
/// its own unless it is empty.
pub open spec fn lines_from(text: Seq<char>, current: Seq<char>) -> Seq<Seq<char>>
    decreases text.len(),
{
    if text.len() == 0 {
        if current.len() == 0 {
            Seq::<Seq<char>>::empty()
        } else {
            seq![current]
        }
    } else if text[0] == '\n' {
        seq![without_cr(current)] + lines_from(text.skip(1), Seq::<char>::empty())
    } else {
        lines_from(text.skip(1), current.push(text[0]))
    }
}

/// The lines of `text`.
pub open spec fn lines_of(text: Seq<char>) -> Seq<Seq<char>> {
    lines_from(text, Seq::<char>::empty())
}

/// `text` with a carriage return put before each line feed.
pub open spec fn with_carriage_returns(text: Seq<char>) -> Seq<char>
    decreases text.len(),
{
    if text.len() == 0 {
        text
    } else if text[0] == '\n' {
        seq!['\r', '\n'] + with_carriage_returns(text.skip(1))
    } else {
        seq![text[0]] + with_carriage_returns(text.skip(1))
    }
}

impl VariablesView {
    /// A line of a text file as it is staged: each variable replaced by its
    /// value, one variable after the other, and a line feed at the end.
    pub open spec fn rendered_line(self, line: Seq<char>) -> Seq<char> {
        substituted(line, self.replacements()).push('\n')
    }

    /// The lines `lines` as they are staged, one after the other.
    pub open spec fn rendered_lines(self, lines: Seq<Seq<char>>) -> Seq<char>
        decreases lines.len(),
    {
        if lines.len() == 0 {
            Seq::<char>::empty()
        } else {
            self.rendered_lines(lines.drop_last()) + self.rendered_line(lines.last())
        }
    }

    /// A text file as it is staged.
    pub open spec fn rendered(self, text: Seq<char>) -> Seq<char> {
        self.rendered_lines(lines_of(text))
    }
}

/// A replacement brings in no character that neither the text nor the
/// replacing value holds.
pub proof fn lemma_replaced_brings_nothing_in(s: Seq<char>, from: Seq<char>, to: Seq<char>, c: char)
    requires
        !s.contains(c),
        !to.contains(c),
    ensures
        !replaced(s, from, to).contains(c),
    decreases s.len(),
{
    let r = replaced(s, from, to);
    if s.len() > 0 {
        let step: int = if from.len() > 0 && occurs_at(s, from, 0) {
            from.len() as int
        } else {
            1
        };
        let rest = s.skip(step);
        assert forall|i: int| 0 <= i < rest.len() implies rest[i] != c by {
            assert(rest[i] == s[i + step]);
            assert(s.contains(s[i + step]));
        }
        lemma_replaced_brings_nothing_in(rest, from, to, c);
        let tail = replaced(rest, from, to);
        assert forall|i: int| 0 <= i < r.len() implies r[i] != c by {
            if from.len() == 0 {
                assert(r == to + seq![s[0]] + tail);
                if i < to.len() {
                    assert(to.contains(r[i]));
                } else if i == to.len() {
                    assert(s.contains(s[0]));
                } else {
                    assert(tail.contains(r[i]));
                }
            } else if occurs_at(s, from, 0) {
                assert(r == to + tail);
                if i < to.len() {
                    assert(to.contains(r[i]));
                } else {
                    assert(tail.contains(r[i]));
                }
            } else {
                assert(r == seq![s[0]] + tail);
                if i == 0 {
                    assert(s.contains(s[0]));
                } else {
                    assert(tail.contains(r[i]));
                }
            }
        }
    }
}

/// Replacements bring in no character that neither the line nor any of the
/// replacing values holds.
pub proof fn lemma_substituted_brings_nothing_in(
    line: Seq<char>,
    pairs: Seq<(Seq<char>, Seq<char>)>,
    c: char,
)
    requires
        !line.contains(c),
        forall|k: int| 0 <= k < pairs.len() ==> !(#[trigger] pairs[k]).1.contains(c),
    ensures
        !substituted(line, pairs).contains(c),
    decreases pairs.len(),
{
    if pairs.len() > 0 {
        let front = pairs.drop_last();
        assert forall|k: int| 0 <= k < front.len() implies !(#[trigger] front[k]).1.contains(c) by {
            assert(front[k] == pairs[k]);
        }
        lemma_substituted_brings_nothing_in(line, front, c);
        lemma_replaced_brings_nothing_in(
            substituted(line, front),
            pairs.last().0,
            pairs.last().1,
            c,
        );
    }
}

/// A staged line ends in a line feed, and holds no other line feed where
/// neither the line read nor the name or the version holds one.
pub proof fn lemma_rendered_line_has_one_line_feed(vars: VariablesView, line: Seq<char>)
    requires
        !line.contains('\n'),
        !vars.binary_name.contains('\n'),
        !vars.linux_binary_name.contains('\n'),
        !vars.version.contains('\n'),
    ensures
        vars.rendered_line(line).len() > 0,
        vars.rendered_line(line).last() == '\n',
        !vars.rendered_line(line).drop_last().contains('\n'),
{
    let pairs = vars.replacements();
    assert forall|k: int| 0 <= k < pairs.len() implies !(#[trigger] pairs[k]).1.contains('\n') by {
        reveal_strlit("x86_64-unknown-linux-gnu");
        reveal_strlit("aarch64-unknown-linux-gnu");
        reveal_strlit("amd64");
        reveal_strlit("arm64");
        let value = pairs[k].1;
        assert forall|i: int| 0 <= i < value.len() implies value[i] != '\n' by {
            if k == 0 {
                assert(vars.binary_name.contains(value[i]));
            } else if k == 1 {
                assert(vars.linux_binary_name.contains(value[i]));
            } else if k == 2 {
                assert(vars.version.contains(value[i]));
            }
        }
    }
    lemma_substituted_brings_nothing_in(line, pairs, '\n');
    assert(vars.rendered_line(line).drop_last() == substituted(line, pairs));
}

/// The lines of a text are the same whether its lines end in a line feed or
/// in a carriage return and a line feed.
pub proof fn lemma_lines_whatever_the_line_ending(text: Seq<char>, current: Seq<char>)
    requires
        !text.contains('\r'),
        current.len() > 0 ==> current.last() != '\r',
    ensures
        lines_from(with_carriage_returns(text), current) == lines_from(text, current),
    decreases text.len(),
{
    if text.len() > 0 {
        let rest = text.skip(1);
        let empty = Seq::<char>::empty();
        assert forall|i: int| 0 <= i < rest.len() implies rest[i] != '\r' by {
            assert(rest[i] == text[i + 1]);
            assert(text.contains(text[i + 1]));
        }
        assert(text.contains(text[0]));
        let marked = with_carriage_returns(text);
        if text[0] == '\n' {
            assert(marked == seq!['\r', '\n'] + with_carriage_returns(rest));
            assert(marked[0] == '\r');
            assert(marked.skip(1) == seq!['\n'] + with_carriage_returns(rest));
            assert(marked.skip(1)[0] == '\n');
            assert(marked.skip(1).skip(1) == with_carriage_returns(rest));
            assert(without_cr(current.push('\r')) == current);
            assert(lines_from(marked, current) == lines_from(marked.skip(1), current.push('\r')));
            assert(lines_from(marked.skip(1), current.push('\r')) == seq![current] + lines_from(
                with_carriage_returns(rest),
                empty,
            ));
            lemma_lines_whatever_the_line_ending(rest, empty);
        } else {
            assert(marked == seq![text[0]] + with_carriage_returns(rest));
            assert(marked[0] == text[0]);
            assert(marked.skip(1) == with_carriage_returns(rest));
            lemma_lines_whatever_the_line_ending(rest, current.push(text[0]));
        }
    }
}

/// A text is staged the same whether its lines end in a line feed or in a
/// carriage return and a line feed.
pub proof fn lemma_rendered_whatever_the_line_ending(vars: VariablesView, text: Seq<char>)
    requires
        !text.contains('\r'),
    ensures
        vars.rendered(with_carriage_returns(text)) == vars.rendered(text),
{
    lemma_lines_whatever_the_line_ending(text, Seq::<char>::empty());
}

impl Variables {
    fn render_chars(&self, line: &[char]) -> (out: Vec<char>)
        ensures
            out@ == self@.rendered_line(line@),
    {
        let pairs = self.replacements();
        let mut out: Vec<char> = Vec::new();
        out.extend_from_slice(line);
        assert(out@ == line@);
        let mut i: usize = 0;
        while i < 5
            invariant
                i <= 5,
                pairs@.len() == 5,
                self@.replacements().len() == 5,
                pair_texts(pairs@) == self@.replacements(),
                out@ == substituted(line@, self@.replacements().take(i as int)),
            decreases 5 - i,
        {
            let key = chars_of(pairs[i].0);
            let value = chars_of(pairs[i].1);
            assert(pair_texts(pairs@)[i as int] == (key@, value@));
            assert(self@.replacements().take(i + 1).drop_last() == self@.replacements().take(
                i as int,
            ));
            out = replace_all(out.as_slice(), key.as_slice(), value.as_slice());
            i += 1;
        }
        assert(self@.replacements().take(5) == self@.replacements());
        out.push('\n');
        out
    }

    /// A line of a text file as it is staged.
    pub fn render_line(&self, line: &str) -> (r: String)
        ensures
            r@ == self@.rendered_line(line@),
    {
        let l = chars_of(line);
        let out = self.render_chars(l.as_slice());
        string_of(out.as_slice())
    }

    /// A text file as it is staged.
    pub fn render(&self, text: &str) -> (r: String)
        ensures
            r@ == self@.rendered(text@),
    {
        let t = chars_of(text);
        let mut out: Vec<char> = Vec::new();
        let mut current: Vec<char> = Vec::new();
        let ghost mut done: Seq<Seq<char>> = Seq::empty();
        let mut i: usize = 0;
        assert(t@.skip(0) == t@);
        while i < t.len()
            invariant
                i <= t.len(),
                t@ == text@,
                done + lines_from(t@.skip(i as int), current@) == lines_of(text@),
                out@ == self@.rendered_lines(done),
            decreases t.len() - i,
        {
            assert(t@.skip(i as int).skip(1) == t@.skip(i + 1));
            if t[i] == '\n' {
                let n = current.len();
                if n > 0 && current[n - 1] == '\r' {
                    current.pop();
                }
                let line = self.render_chars(current.as_slice());
                out.extend_from_slice(line.as_slice());
                proof {
                    let before = done;
                    done = done.push(current@);
                    assert(done.drop_last() == before);
                    let rest = lines_from(t@.skip(i + 1), Seq::<char>::empty());
                    assert(done + rest == before + (seq![current@] + rest));
                    assert(out@ == self@.rendered_lines(before) + line@);
                }
                current = Vec::new();
            } else {
                current.push(t[i]);
            }
            i += 1;
        }
        if current.len() > 0 {
            let line = self.render_chars(current.as_slice());
            out.extend_from_slice(line.as_slice());
            proof {
                let before = done;
                done = done.push(current@);
                assert(done.drop_last() == before);
                assert(done == before + seq![current@]);
                assert(out@ == self@.rendered_lines(before) + line@);
            }
        } else {
            assert(done + Seq::<Seq<char>>::empty() == done);
        }
        string_of(out.as_slice())
    }
}

} // verus!
