//! Markdown, as the documentation of APIs and routes is written: rendered to HTML, and split
//! into blocks.

use vstd::prelude::*;
use crate::text::{contains_str, occurs_in, split_char, split_on, views};

verus! {

/// The HTML that the Markdown renderer gives for a text.
pub uninterp spec fn markdown_html(s: Seq<char>) -> Seq<char>;

/// The number of bytes of a character in UTF-8.
pub open spec fn utf8_len(c: char) -> int {
    if (c as u32) < 0x80 {
        1
    } else if (c as u32) < 0x800 {
        2
    } else if (c as u32) < 0x10000 {
        3
    } else {
        4
    }
}

/// Whether `n` bytes into the UTF-8 encoding of a text is the end of one of its characters (or
/// its start, for `n == 0`).
pub open spec fn char_boundary_at(s: Seq<char>, n: int) -> bool
    decreases s.len(),
{
    if n == 0 {
        true
    } else if n < 0 || s.len() == 0 {
        false
    } else {
        char_boundary_at(s.drop_first(), n - utf8_len(s[0]))
    }
}

/// Whether a character can stand in what the block parser takes off the front of a line before
/// it reads the rest as a line of its own: a quote mark (`>`), a list marker (`-`, `+`, `*`, a
/// number or the letters `a`, `A`, `i`, `I` with a dot), or the spaces of an indent.
pub open spec fn marker_char(c: char) -> bool {
    ||| c == ' ' || c == '>' || c == '-' || c == '+' || c == '*' || c == '.'
    ||| ('0' as u32) <= (c as u32) <= ('9' as u32)
    ||| c == 'a' || c == 'A' || c == 'i' || c == 'I'
}

/// Whether every character of a text is a `marker_char`.
pub open spec fn marker_prefix(p: Seq<char>) -> bool {
    forall|j: int| 0 <= j < p.len() ==> marker_char(#[trigger] p[j])
}

/// Whether the Markdown parser reads a text to the end. Its block parser takes each line that
/// holds three backticks and does not continue a fenced block as an opening fence, and reads
/// the language from the fourth byte of that line on; it stops when that byte falls inside a
/// character. The lines it reads are the lines of the text, or what is left of them once quote
/// marks, list markers or an indent are taken off the front: each is the rest of a line after
/// a front made of `marker_char`s. So a text is read to the end when, in every line, each such
/// rest that holds three backticks has a character ending at its third byte.
pub open spec fn markdown_safe(s: Seq<char>) -> bool {
    forall|i: int, k: int|
        0 <= i < split_on(s, '\n').len() && 0 <= k <= split_on(s, '\n')[i].len() && marker_prefix(
            split_on(s, '\n')[i].take(k),
        ) && occurs_in(#[trigger] split_on(s, '\n')[i].skip(k), "```"@) ==> char_boundary_at(
            split_on(s, '\n')[i].skip(k),
            3,
        )
}

/// Whether a character is a `marker_char`.
pub fn is_marker_char(c: char) -> (r: bool)
    ensures
        r == marker_char(c),
{
    c == ' ' || c == '>' || c == '-' || c == '+' || c == '*' || c == '.' || (('0' as u32) <= (
    c as u32) && (c as u32) <= ('9' as u32)) || c == 'a' || c == 'A' || c == 'i' || c == 'I'
}

/// Whether `n` bytes into the UTF-8 encoding of a text is the end of one of its characters.
pub fn is_char_boundary_at(s: &str, n: usize) -> (r: bool)
    ensures
        r == char_boundary_at(s@, n as int),
{
    let len = s.unicode_len();
    let mut j: usize = 0;
    let mut left: usize = n;
    proof {
        assert(s@.skip(0) =~= s@);
    }
    while left > 0 && j < len
        invariant
            len == s@.len(),
            j <= len,
            left <= n,
            char_boundary_at(s@, n as int) == char_boundary_at(s@.skip(j as int), left as int),
        decreases len - j,
    {
        let c = s.get_char(j);
        let w: usize = if (c as u32) < 0x80 {
            1
        } else if (c as u32) < 0x800 {
            2
        } else if (c as u32) < 0x10000 {
            3
        } else {
            4
        };
        proof {
            assert(s@.skip(j as int)[0] == c);
            assert(s@.skip(j as int).drop_first() =~= s@.skip(j + 1));
        }
        assert(utf8_len(c) == w as int);
        if w > left {
            assert(!char_boundary_at(s@.skip(j + 1), left - w));
            assert(s@.skip(j as int).len() > 0);
            assert(!char_boundary_at(s@.skip(j as int), left as int));
            return false;
        }
        left = left - w;
        j = j + 1;
    }
    left == 0
}

/// Whether the Markdown parser reads a text to the end (see `markdown_safe`).
pub fn is_markdown_safe(s: &str) -> (r: bool)
    ensures
        r == markdown_safe(s@),
{
    let lines = split_char(s, '\n');
    let n = lines.len();
    let mut i: usize = 0;
    while i < n
        invariant
            n == lines@.len(),
            views(lines@) == split_on(s@, '\n'),
            i <= n,
            forall|a: int, k: int|
                0 <= a < i && 0 <= k <= split_on(s@, '\n')[a].len() && marker_prefix(
                    split_on(s@, '\n')[a].take(k),
                ) && occurs_in(#[trigger] split_on(s@, '\n')[a].skip(k), "```"@) ==> char_boundary_at(
                    split_on(s@, '\n')[a].skip(k),
                    3,
                ),
        decreases n - i,
    {
        let line = lines[i].as_str();
        assert(views(lines@)[i as int] == line@);
        let m = line.unicode_len();
        let mut k: usize = 0;
        proof {
            assert(line@.take(0) =~= Seq::<char>::empty());
        }
        while k < m
            invariant
                n == lines@.len(),
                views(lines@) == split_on(s@, '\n'),
                i < n,
                line@ == split_on(s@, '\n')[i as int],
                m == line@.len(),
                k <= m,
                k < m ==> marker_prefix(line@.take(k as int)),
                forall|a: int, b: int|
                    0 <= a < i && 0 <= b <= split_on(s@, '\n')[a].len() && marker_prefix(
                        split_on(s@, '\n')[a].take(b),
                    ) && occurs_in(#[trigger] split_on(s@, '\n')[a].skip(b), "```"@)
                        ==> char_boundary_at(split_on(s@, '\n')[a].skip(b), 3),
                forall|b: int|
                    0 <= b < k && marker_prefix(line@.take(b)) && occurs_in(
                        #[trigger] line@.skip(b),
                        "```"@,
                    ) ==> char_boundary_at(line@.skip(b), 3),
            decreases m - k,
        {
            let rest = line.substring_char(k, m);
            assert(rest@ =~= line@.skip(k as int));
            if contains_str(rest, "```") && !is_char_boundary_at(rest, 3) {
                assert(occurs_in(split_on(s@, '\n')[i as int].skip(k as int), "```"@));
                assert(marker_prefix(split_on(s@, '\n')[i as int].take(k as int)));
                return false;
            }
            let c = line.get_char(k);
            if is_marker_char(c) {
                proof {
                    assert(line@.take(k + 1) =~= line@.take(k as int).push(c));
                }
                k = k + 1;
            } else {
                proof {
                    assert forall|b: int| k < b <= m implies !marker_prefix(
                        #[trigger] line@.take(b),
                    ) by {
                        assert(line@.take(b)[k as int] == c);
                    }
                }
                k = m;
            }
        }
        proof {
            reveal_strlit("```");
            assert(!occurs_in(line@.skip(m as int), "```"@));
        }
        i = i + 1;
    }
    true
}

/// Calls `markdown::to_html`. Its parser stops on a line that holds three backticks where the
/// fourth byte falls inside a character, so `requires` leaves out the texts that may hold one.
#[verifier::external_body]
pub(crate) fn markdown_to_html(s: &str) -> (r: String)
    requires
        markdown_safe(s@),
    ensures
        r@ == markdown_html(s@),
{
    markdown::to_html(s)
}

/// The debugging text of the blocks that the Markdown tokenizer finds in a text.
pub uninterp spec fn markdown_tokens_text(s: Seq<char>) -> Seq<char>;

/// Calls `markdown::tokenize` and formats the blocks with `Debug`. The parser stops on the
/// texts that `markdown_safe` leaves out.
#[verifier::external_body]
pub(crate) fn markdown_tokens_debug(s: &str) -> (r: String)
    requires
        markdown_safe(s@),
    ensures
        r@ == markdown_tokens_text(s@),
{
    format!("{:?}", markdown::tokenize(s))
}

/// The debugging text of a value with the contents of its string literals taken out (their
/// quotes stay): what is left are the names of variants and fields, numbers and punctuation.
/// `in_string` and `escaped` tell where in a literal the text starts.
pub open spec fn unquoted(s: Seq<char>, in_string: bool, escaped: bool) -> Seq<char>
    decreases s.len(),
{
    if s.len() == 0 {
        seq![]
    } else if in_string {
        if escaped {
            unquoted(s.drop_first(), true, false)
        } else if s[0] == '\\' {
            unquoted(s.drop_first(), true, true)
        } else if s[0] == '"' {
            seq!['"'] + unquoted(s.drop_first(), false, false)
        } else {
            unquoted(s.drop_first(), true, false)
        }
    } else if s[0] == '"' {
        seq!['"'] + unquoted(s.drop_first(), true, false)
    } else {
        seq![s[0]] + unquoted(s.drop_first(), false, false)
    }
}

/// Whether the blocks of a text hold an ordered list, which the Markdown generator cannot write
/// back: the variant `OrderedList(` stands in their debugging text outside of its string
/// literals exactly where a block, at any depth, is one.
pub open spec fn may_hold_ordered_list(s: Seq<char>) -> bool {
    occurs_in(unquoted(markdown_tokens_text(s), false, false), "OrderedList("@)
}

/// The debugging text of a value with the contents of its string literals taken out.
pub fn unquoted_text(s: &str) -> (r: String)
    ensures
        r@ == unquoted(s@, false, false),
{
    let mut r = String::new();
    let n = s.unicode_len();
    let mut i: usize = 0;
    let mut in_string = false;
    let mut escaped = false;
    proof {
        assert(s@.skip(0) =~= s@);
    }
    while i < n
        invariant
            n == s@.len(),
            i <= n,
            r@ + unquoted(s@.skip(i as int), in_string, escaped) == unquoted(s@, false, false),
            escaped ==> in_string,
        decreases n - i,
    {
        let c = s.get_char(i);
        let ghost t = s@.skip(i as int);
        let ghost rest = s@.skip(i + 1);
        let ghost old_r = r@;
        proof {
            assert(t[0] == c);
            assert(t.drop_first() =~= rest);
            reveal_strlit("\"");
        }
        if in_string {
            if escaped {
                escaped = false;
                assert(unquoted(t, true, true) == unquoted(rest, true, false));
            } else if c == '\\' {
                escaped = true;
                assert(unquoted(t, true, false) == unquoted(rest, true, true));
            } else if c == '"' {
                r.append("\"");
                in_string = false;
                assert(unquoted(t, true, false) == seq!['"'] + unquoted(rest, false, false));
                assert(r@ + unquoted(rest, false, false) =~= old_r + (seq!['"'] + unquoted(rest, false, false)));
            } else {
                assert(unquoted(t, true, false) == unquoted(rest, true, false));
            }
        } else if c == '"' {
            r.append("\"");
            in_string = true;
            assert(unquoted(t, false, false) == seq!['"'] + unquoted(rest, true, false));
            assert(r@ + unquoted(rest, true, false) =~= old_r + (seq!['"'] + unquoted(rest, true, false)));
        } else {
            r.append(s.substring_char(i, i + 1));
            assert(s@.subrange(i as int, i + 1) =~= seq![c]);
            assert(unquoted(t, false, false) == seq![c] + unquoted(rest, false, false));
            assert(r@ + unquoted(rest, false, false) =~= old_r + (seq![c] + unquoted(rest, false, false)));
        }
        i = i + 1;
    }
    r
}

/// The Markdown text of each block of a text, each written back on its own, in order.
pub uninterp spec fn markdown_block_texts(s: Seq<char>) -> Seq<Seq<char>>;

/// Calls `markdown::tokenize`, then `markdown::generate_markdown` on each block alone. The
/// parser stops on the texts that `markdown_safe` leaves out. The
/// generator does not return on an ordered list (it is not implemented there), so `requires`
/// leaves out the texts whose blocks may hold one.
#[verifier::external_body]
pub(crate) fn markdown_blocks(s: &str) -> (r: Vec<String>)
    requires
        markdown_safe(s@),
        !may_hold_ordered_list(s@),
    ensures
        views(r@) == markdown_block_texts(s@),
{
    markdown::tokenize(s).into_iter().map(|b| markdown::generate_markdown(vec![b])).collect()
}

} // verus!
