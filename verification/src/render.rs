//! Rendering: the shapes that the rendered documents are made of, sections
//! of lines under a heading and paragraphs, and how they are appended.

use crate::text::{decimal, decimal_text, opt_text, texts, views};
use vstd::prelude::*;
use vstd::string::StringExecFns;

verus! {

/// The concatenation of the first `i + 1` lines is that of the first `i`
/// followed by line `i`.
pub proof fn lemma_flatten_step(lines: Seq<Seq<char>>, i: int)
    requires
        0 <= i < lines.len(),
    ensures
        lines.take(i + 1).flatten() == lines.take(i).flatten() + lines[i],
{
    assert(lines.take(i + 1) =~= lines.take(i).push(lines[i]));
    lines.take(i).lemma_flatten_push(lines[i]);
}

/// A section of a rendered document: nothing when there are no lines,
/// else the heading, the lines and a blank line.
pub open spec fn section(heading: Seq<char>, lines: Seq<Seq<char>>) -> Seq<char> {
    if lines.len() == 0 {
        Seq::empty()
    } else {
        heading + lines.flatten() + "\n"@
    }
}

/// An optional paragraph: nothing when absent, else the heading, the body and
/// a blank line.
pub open spec fn paragraph(heading: Seq<char>, body: Option<Seq<char>>) -> Seq<char> {
    match body {
        Some(b) => heading + b + "\n\n"@,
        None => Seq::empty(),
    }
}

/// One line per item: the prefix, the item, a line feed.
pub open spec fn bullet_lines(prefix: Seq<char>, items: Seq<Seq<char>>) -> Seq<Seq<char>> {
    items.map_values(|s: Seq<char>| prefix + s + "\n"@)
}

/// One line per item: its position counted from one, a full stop, a space,
/// the item, a line feed.
pub open spec fn numbered_lines(items: Seq<Seq<char>>) -> Seq<Seq<char>> {
    Seq::new(items.len(), |i: int| decimal_text((i + 1) as nat) + ". "@ + items[i] + "\n"@)
}

/// Appends one line per item, each behind `prefix`.
pub fn append_bullets(out: &mut String, prefix: &str, items: &Vec<String>)
    ensures
        final(out)@ == old(out)@ + bullet_lines(prefix@, texts(items@)).flatten(),
{
    let ghost lines = bullet_lines(prefix@, texts(items@));
    let mut i: usize = 0;
    while i < items.len()
        invariant
            i <= items.len(),
            lines == bullet_lines(prefix@, texts(items@)),
            out@ == old(out)@ + lines.take(i as int).flatten(),
        decreases items.len() - i,
    {
        out.append(prefix);
        out.append(items[i].as_str());
        out.append("\n");
        proof {
            lemma_flatten_step(lines, i as int);
            assert(lines[i as int] == prefix@ + items@[i as int]@ + "\n"@);
            assert(out@ =~= old(out)@ + lines.take(i + 1).flatten());
        }
        i += 1;
    }
    assert(lines.take(items.len() as int) =~= lines);
}

/// Appends one numbered line per item.
pub fn append_numbered(out: &mut String, items: &Vec<String>)
    ensures
        final(out)@ == old(out)@ + numbered_lines(texts(items@)).flatten(),
{
    let ghost lines = numbered_lines(texts(items@));
    let mut i: usize = 0;
    while i < items.len()
        invariant
            i <= items.len(),
            lines == numbered_lines(texts(items@)),
            out@ == old(out)@ + lines.take(i as int).flatten(),
        decreases items.len() - i,
    {
        let position: usize = i + 1;
        let number = decimal(position as u64);
        out.append(number.as_str());
        out.append(". ");
        out.append(items[i].as_str());
        out.append("\n");
        proof {
            lemma_flatten_step(lines, i as int);
            assert(lines[i as int] == decimal_text((i + 1) as nat) + ". "@ + items@[i as int]@
                + "\n"@);
            assert(out@ =~= old(out)@ + lines.take(i + 1).flatten());
        }
        i += 1;
    }
    assert(lines.take(items.len() as int) =~= lines);
}

/// Appends a section of bullet lines under `heading`, or nothing when there
/// are no items.
pub fn append_bullet_section(out: &mut String, heading: &str, prefix: &str, items: &Vec<String>)
    ensures
        final(out)@ == old(out)@ + section(heading@, bullet_lines(prefix@, texts(items@))),
{
    if items.len() > 0 {
        out.append(heading);
        append_bullets(out, prefix, items);
        out.append("\n");
        assert(out@ =~= old(out)@ + section(heading@, bullet_lines(prefix@, texts(items@))));
    } else {
        assert(out@ =~= old(out)@ + section(heading@, bullet_lines(prefix@, texts(items@))));
    }
}

/// Appends a section of numbered lines under `heading`, or nothing when there
/// are no items.
pub fn append_numbered_section(out: &mut String, heading: &str, items: &Vec<String>)
    ensures
        final(out)@ == old(out)@ + section(heading@, numbered_lines(texts(items@))),
{
    if items.len() > 0 {
        out.append(heading);
        append_numbered(out, items);
        out.append("\n");
        assert(out@ =~= old(out)@ + section(heading@, numbered_lines(texts(items@))));
    } else {
        assert(out@ =~= old(out)@ + section(heading@, numbered_lines(texts(items@))));
    }
}

/// A record that renders as one entry of a section: one or more whole lines.
pub trait Entry: View + Sized {
    /// The text of the entry, line feeds included.
    spec fn entry_text(v: Self::V) -> Seq<char>;

    /// Renders the entry.
    fn render(&self) -> (r: String)
        ensures
            r@ == Self::entry_text(self@),
    ;
}

/// The texts of a sequence of entries, in order.
pub open spec fn entry_lines<T: Entry>(items: Seq<T::V>) -> Seq<Seq<char>> {
    items.map_values(|x: T::V| T::entry_text(x))
}

/// A run of entries under a heading, with nothing behind the last one:
/// nothing at all when there are no entries.
pub open spec fn block(heading: Seq<char>, lines: Seq<Seq<char>>) -> Seq<char> {
    if lines.len() == 0 {
        Seq::empty()
    } else {
        heading + lines.flatten()
    }
}

/// Appends the entries one after the other.
pub fn append_entries<T: Entry>(out: &mut String, items: &Vec<T>)
    ensures
        final(out)@ == old(out)@ + entry_lines::<T>(views(items@)).flatten(),
{
    let ghost lines = entry_lines::<T>(views(items@));
    let mut i: usize = 0;
    while i < items.len()
        invariant
            i <= items.len(),
            lines == entry_lines::<T>(views(items@)),
            out@ == old(out)@ + lines.take(i as int).flatten(),
        decreases items.len() - i,
    {
        let line = items[i].render();
        out.append(line.as_str());
        proof {
            lemma_flatten_step(lines, i as int);
            assert(out@ =~= old(out)@ + lines.take(i + 1).flatten());
        }
        i += 1;
    }
    assert(lines.take(items.len() as int) =~= lines);
}

/// Appends a section of entries under `heading`, or nothing when there are
/// no entries.
pub fn append_section<T: Entry>(out: &mut String, heading: &str, items: &Vec<T>)
    ensures
        final(out)@ == old(out)@ + section(heading@, entry_lines::<T>(views(items@))),
{
    if items.len() > 0 {
        out.append(heading);
        append_entries(out, items);
        out.append("\n");
        assert(out@ =~= old(out)@ + section(heading@, entry_lines::<T>(views(items@))));
    } else {
        assert(out@ =~= old(out)@ + section(heading@, entry_lines::<T>(views(items@))));
    }
}

/// Appends a block of entries under `heading`, or nothing when there are no
/// entries.
pub fn append_block<T: Entry>(out: &mut String, heading: &str, items: &Vec<T>)
    ensures
        final(out)@ == old(out)@ + block(heading@, entry_lines::<T>(views(items@))),
{
    if items.len() > 0 {
        out.append(heading);
        append_entries(out, items);
        assert(out@ =~= old(out)@ + block(heading@, entry_lines::<T>(views(items@))));
    } else {
        assert(out@ =~= old(out)@ + block(heading@, entry_lines::<T>(views(items@))));
    }
}

/// Appends an optional paragraph under `heading`.
pub fn append_paragraph(out: &mut String, heading: &str, body: &Option<String>)
    ensures
        final(out)@ == old(out)@ + paragraph(heading@, opt_text(*body)),
{
    match body {
        Some(b) => {
            out.append(heading);
            out.append(b.as_str());
            out.append("\n\n");
            assert(out@ =~= old(out)@ + paragraph(heading@, opt_text(*body)));
        },
        None => {
            assert(out@ =~= old(out)@ + paragraph(heading@, opt_text(*body)));
        },
    }
}

} // verus!
