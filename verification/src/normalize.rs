use crate::dispatch::{extension_chars, extension_of};
use crate::text::{chars_of, lower, same_text, string_of, to_lower};
use vstd::prelude::*;

verus! {

/// The ASCII digraph that stands for a letter with a diacritic of the
/// fixed table; `None` for every other character.
pub open spec fn digraph(c: char) -> Option<(char, char)> {
    if c == '\u{e4}' {
        Some(('a', 'e'))
    } else if c == '\u{f6}' {
        Some(('o', 'e'))
    } else if c == '\u{fc}' {
        Some(('u', 'e'))
    } else if c == '\u{c4}' {
        Some(('A', 'e'))
    } else if c == '\u{d6}' {
        Some(('O', 'e'))
    } else if c == '\u{dc}' {
        Some(('U', 'e'))
    } else if c == '\u{df}' {
        Some(('s', 's'))
    } else {
        None
    }
}

/// Whether `c` is an ASCII character.
pub open spec fn is_ascii_char(c: char) -> bool {
    (c as u32) < 128
}

/// What one character becomes: its digraph where the table has one; else
/// nothing where it is not ASCII and such characters are not kept; else
/// itself.
pub open spec fn rewritten(c: char, keep_non_ascii: bool) -> Seq<char> {
    match digraph(c) {
        Some(d) => seq![d.0, d.1],
        None => if !keep_non_ascii && !is_ascii_char(c) {
            Seq::empty()
        } else {
            seq![c]
        },
    }
}

/// The normalized form of a text: every character rewritten, in order.
pub open spec fn normalized(s: Seq<char>, keep_non_ascii: bool) -> Seq<char>
    decreases s.len(),
{
    if s.len() == 0 {
        Seq::empty()
    } else {
        normalized(s.drop_last(), keep_non_ascii) + rewritten(s.last(), keep_non_ascii)
    }
}

/// Whether every character of `s` is ASCII.
pub open spec fn all_ascii(s: Seq<char>) -> bool {
    forall|i: int| 0 <= i < s.len() ==> is_ascii_char(#[trigger] s[i])
}

/// Whether the table has a digraph for none of the characters of `s`.
pub open spec fn plain(s: Seq<char>) -> bool {
    forall|i: int| 0 <= i < s.len() ==> digraph(#[trigger] s[i]) is None
}

/// Where characters outside ASCII are not kept, the normalized text is
/// pure ASCII.
pub proof fn lemma_normalized_ascii(s: Seq<char>)
    ensures
        all_ascii(normalized(s, false)),
    decreases s.len(),
{
    if s.len() > 0 {
        lemma_normalized_ascii(s.drop_last());
    }
}

/// The normalized text holds no character that the table has a digraph for.
pub proof fn lemma_normalized_plain(s: Seq<char>, keep_non_ascii: bool)
    ensures
        plain(normalized(s, keep_non_ascii)),
    decreases s.len(),
{
    if s.len() > 0 {
        lemma_normalized_plain(s.drop_last(), keep_non_ascii);
    }
}

/// A text that normalizing has nothing to do on is left as it is: one
/// without a character of the table and, where characters outside ASCII
/// are not kept, without any of those.
pub proof fn lemma_normalized_fixed(s: Seq<char>, keep_non_ascii: bool)
    requires
        plain(s),
        keep_non_ascii || all_ascii(s),
    ensures
        normalized(s, keep_non_ascii) == s,
    decreases s.len(),
{
    if s.len() > 0 {
        lemma_normalized_fixed(s.drop_last(), keep_non_ascii);
        assert(rewritten(s.last(), keep_non_ascii) == seq![s.last()]);
        assert(s.drop_last() + seq![s.last()] =~= s);
    }
}

/// Normalizing is idempotent: a second pass changes nothing.
pub proof fn lemma_normalize_idempotent(s: Seq<char>, keep_non_ascii: bool)
    ensures
        normalized(normalized(s, keep_non_ascii), keep_non_ascii) == normalized(s, keep_non_ascii),
{
    lemma_normalized_plain(s, keep_non_ascii);
    if !keep_non_ascii {
        lemma_normalized_ascii(s);
    }
    lemma_normalized_fixed(normalized(s, keep_non_ascii), keep_non_ascii);
}

fn digraph_of(c: char) -> (d: Option<(char, char)>)
    ensures
        d == digraph(c),
{
    if c == '\u{e4}' {
        Some(('a', 'e'))
    } else if c == '\u{f6}' {
        Some(('o', 'e'))
    } else if c == '\u{fc}' {
        Some(('u', 'e'))
    } else if c == '\u{c4}' {
        Some(('A', 'e'))
    } else if c == '\u{d6}' {
        Some(('O', 'e'))
    } else if c == '\u{dc}' {
        Some(('U', 'e'))
    } else if c == '\u{df}' {
        Some(('s', 's'))
    } else {
        None
    }
}

/// Rewrites the text of one source file: each letter of the diacritic
/// table is replaced by its ASCII digraph and, unless `keep_non_ascii` is
/// set, every other character outside ASCII is dropped. Gives the new
/// text where it differs from the old one, and `None` where there is
/// nothing to write back.
pub fn clean_non_ascii(content: &str, keep_non_ascii: bool) -> (r: Option<String>)
    ensures
        match r {
            Some(text) => text@ == normalized(content@, keep_non_ascii) && text@ != content@,
            None => normalized(content@, keep_non_ascii) == content@,
        },
        !keep_non_ascii && r is Some ==> all_ascii(r->0@),
{
    let old_chars = chars_of(content);
    let mut out: Vec<char> = Vec::new();
    let mut i: usize = 0;
    assert(old_chars@.subrange(0, 0) =~= Seq::<char>::empty());
    while i < old_chars.len()
        invariant
            i <= old_chars.len(),
            out@ == normalized(old_chars@.subrange(0, i as int), keep_non_ascii),
        decreases old_chars.len() - i,
    {
        let c = old_chars[i];
        proof {
            let head = old_chars@.subrange(0, i + 1);
            assert(head.drop_last() =~= old_chars@.subrange(0, i as int));
            assert(head.last() == c);
        }
        match digraph_of(c) {
            Some(d) => {
                out.push(d.0);
                out.push(d.1);
                assert(out@ =~= normalized(old_chars@.subrange(0, i as int), keep_non_ascii)
                    + seq![d.0, d.1]);
            },
            None => {
                if keep_non_ascii || (c as u32) < 128 {
                    out.push(c);
                    assert(out@ =~= normalized(old_chars@.subrange(0, i as int), keep_non_ascii)
                        + seq![c]);
                } else {
                    assert(out@ =~= normalized(old_chars@.subrange(0, i as int), keep_non_ascii)
                        + Seq::<char>::empty());
                }
            },
        }
        i = i + 1;
    }
    assert(old_chars@.subrange(0, i as int) =~= old_chars@);
    proof {
        lemma_normalized_ascii(content@);
    }
    if same_text(&out, &old_chars) {
        None
    } else {
        Some(string_of(&out))
    }
}

/// Whether a path names a source file of the language under analysis: its
/// extension is `java`, in any mix of upper and lower case.
pub open spec fn is_source_path(path: Seq<char>) -> bool {
    match extension_of(path) {
        Some(ext) => lower(ext) == "java"@,
        None => false,
    }
}

/// Whether the file at `path` is one whose text is normalized.
pub fn is_source_file(path: &str) -> (r: bool)
    ensures
        r == is_source_path(path@),
{
    match extension_chars(&chars_of(path)) {
        Some(ext) => same_text(&to_lower(&ext), &chars_of("java")),
        None => false,
    }
}

} // verus!
