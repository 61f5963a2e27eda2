//! Turning file text into buffer lines and back. Text is split at `\n` or
//! `\r\n` line breaks (a trailing break opens no extra line, and a lone `\r`
//! breaks nothing); lines are joined with a single `\n` separator and no
//! trailing newline.

use vstd::prelude::*;

use crate::model::views;

verus! {

/// The lines of a text, split at `\n` or `\r\n`. A break at the very end
/// of the text terminates the last line rather than opening an empty one.
pub open spec fn lines_of(text: Seq<char>) -> Seq<Seq<char>>
    decreases text.len(),
{
    if text.len() == 0 {
        Seq::<Seq<char>>::empty()
    } else if text[0] == '\n' {
        seq![Seq::<char>::empty()] + lines_of(text.skip(1))
    } else if text[0] == '\r' && text.len() >= 2 && text[1] == '\n' {
        seq![Seq::<char>::empty()] + lines_of(text.skip(2))
    } else {
        let rest = lines_of(text.skip(1));
        if rest.len() == 0 {
            seq![seq![text[0]]]
        } else {
            seq![seq![text[0]] + rest[0]] + rest.skip(1)
        }
    }
}

/// The text of a buffer: its lines joined with `\n`, nothing appended after
/// the last line.
pub open spec fn join_lines(lines: Seq<Seq<char>>) -> Seq<char>
    decreases lines.len(),
{
    if lines.len() == 0 {
        Seq::<char>::empty()
    } else if lines.len() == 1 {
        lines[0]
    } else {
        join_lines(lines.drop_last()) + seq!['\n'] + lines.last()
    }
}

/// Split `text` into its lines. The text is consumed from the back, so each
/// step prepends one character or one line break to the lines built so far,
/// mirroring the recursion of [`lines_of`].
pub fn split_text(text: &Vec<char>) -> (r: Vec<Vec<char>>)
    ensures
        views(r@) == lines_of(text@),
{
    let mut acc: Vec<Vec<char>> = Vec::new();
    let mut i: usize = text.len();
    while i > 0
        invariant
            i <= text@.len(),
            views(acc@) == lines_of(text@.skip(i as int)),
        decreases i,
    {
        i = i - 1;
        let c = text[i];
        proof {
            assert(text@.skip(i as int)[0] == text@[i as int]);
            assert(text@.skip(i as int).skip(1) =~= text@.skip(i as int + 1));
            if i + 2 <= text@.len() {
                assert(text@.skip(i as int)[1] == text@[i as int + 1]);
                assert(text@.skip(i as int).skip(2) =~= text@.skip(i as int + 2));
            }
        }
        if c == '\n' {
            acc.insert(0, Vec::new());
            proof {
                assert(views(acc@) =~~= lines_of(text@.skip(i as int)));
            }
        } else if c == '\r' && i + 1 < text.len() && text[i + 1] == '\n' {
            proof {
                assert(text@.skip(i as int + 1)[0] == text@[i as int + 1]);
                assert(text@.skip(i as int + 1).skip(1) =~= text@.skip(i as int + 2));
                assert(lines_of(text@.skip(i as int + 1)) == seq![Seq::<char>::empty()]
                    + lines_of(text@.skip(i as int + 2)));
                assert(lines_of(text@.skip(i as int)) == seq![Seq::<char>::empty()] + lines_of(
                    text@.skip(i as int + 2),
                ));
                assert(views(acc@) =~~= lines_of(text@.skip(i as int)));
            }
        } else if acc.len() == 0 {
            let mut first: Vec<char> = Vec::new();
            first.push(c);
            acc.push(first);
            proof {
                assert(views(acc@) =~~= lines_of(text@.skip(i as int)));
            }
        } else {
            let mut first = acc.remove(0);
            first.insert(0, c);
            acc.insert(0, first);
            proof {
                assert(views(acc@) =~~= lines_of(text@.skip(i as int)));
            }
        }
    }
    proof {
        assert(text@.skip(0) =~= text@);
    }
    acc
}

} // verus!
