//! File names made from the titles of documents.

use vstd::prelude::*;

use crate::text::{control, is_control, is_white_space, to_chars, trim, trimmed, white_space};

verus! {

/// The longest file name that a title gives, in bytes of UTF-8.
pub const MAX_STEM_BYTES: usize = 120;

/// How many bytes a character takes in UTF-8.
pub open spec fn utf8_length(c: char) -> nat {
    let code = c as u32;
    if code < 0x80 {
        1
    } else if code < 0x800 {
        2
    } else if code < 0x10000 {
        3
    } else {
        4
    }
}

fn character_bytes(c: char) -> (bytes: usize)
    ensures
        bytes == utf8_length(c),
{
    let code: u32 = c as u32;
    if code < 0x80 {
        1
    } else if code < 0x800 {
        2
    } else if code < 0x10000 {
        3
    } else {
        4
    }
}

/// How many bytes a text takes in UTF-8.
pub open spec fn utf8_bytes(s: Seq<char>) -> nat
    decreases s.len(),
{
    if s.len() == 0 {
        0
    } else {
        utf8_bytes(s.drop_last()) + utf8_length(s.last())
    }
}

/// What stands for a character in a file name; none for a control code.
pub open spec fn safe_character(c: char) -> Option<char> {
    if c == '/' || c == '\\' || c == ':' {
        Some('_')
    } else if control(c) {
        None
    } else if white_space(c) {
        Some(' ')
    } else {
        Some(c)
    }
}

fn make_safe(c: char) -> (safe: Option<char>)
    ensures
        safe == safe_character(c),
{
    if c == '/' || c == '\\' || c == ':' {
        Some('_')
    } else if is_control(c) {
        None
    } else if is_white_space(c) {
        Some(' ')
    } else {
        Some(c)
    }
}

/// The characters of a title as they stand in a file name, with one space for each run of
/// spaces.
pub open spec fn squeezed(title: Seq<char>) -> Seq<char>
    decreases title.len(),
{
    if title.len() == 0 {
        Seq::empty()
    } else {
        let before = squeezed(title.drop_last());
        match safe_character(title.last()) {
            None => before,
            Some(c) => if c == ' ' && before.len() > 0 && before.last() == ' ' {
                before
            } else {
                before.push(c)
            },
        }
    }
}

/// The longest start of a text that takes no more than so many bytes.
pub open spec fn cut(s: Seq<char>, bytes: nat) -> Seq<char>
    decreases s.len(),
{
    if utf8_bytes(s) <= bytes {
        s
    } else {
        cut(s.drop_last(), bytes)
    }
}

/// Whether a file name should not begin or end with a character.
pub open spec fn edge(c: char) -> bool {
    c == ' ' || c == '.'
}

/// A text without the spaces and dots at its start and its end.
pub open spec fn without_edges(s: Seq<char>) -> Seq<char>
    decreases s.len(),
{
    if s.len() == 0 {
        s
    } else if edge(s[0]) {
        without_edges(s.drop_first())
    } else if edge(s.last()) {
        without_edges(s.drop_last())
    } else {
        s
    }
}

/// The file name that a title gives.
pub open spec fn file_stem(title: Seq<char>) -> Seq<char> {
    let stem = without_edges(cut(squeezed(trimmed(title)), MAX_STEM_BYTES as nat));
    if stem.len() == 0 {
        "未命名讲义"@
    } else {
        stem
    }
}

proof fn lemma_bytes_grow(s: Seq<char>, n: int)
    requires
        0 <= n <= s.len(),
    ensures
        utf8_bytes(s.take(n)) <= utf8_bytes(s),
        n < s.len() ==> utf8_bytes(s.take(n)) < utf8_bytes(s),
    decreases s.len(),
{
    if n < s.len() {
        lemma_bytes_grow(s.drop_last(), n);
        assert(s.drop_last().take(n) =~= s.take(n));
    } else {
        assert(s.take(n) =~= s);
    }
}

proof fn lemma_cut_is_a_start(s: Seq<char>, bytes: nat)
    ensures
        cut(s, bytes).len() <= s.len(),
        cut(s, bytes) == s.take(cut(s, bytes).len() as int),
        utf8_bytes(cut(s, bytes)) <= bytes,
    decreases s.len(),
{
    if utf8_bytes(s) <= bytes {
        assert(s.take(s.len() as int) =~= s);
    } else {
        lemma_cut_is_a_start(s.drop_last(), bytes);
        let n = cut(s.drop_last(), bytes).len() as int;
        assert(s.drop_last().take(n) =~= s.take(n));
    }
}

/// A start that fits, where one more character does not, is the longest that fits.
proof fn lemma_cut_is(s: Seq<char>, n: int, bytes: nat)
    requires
        0 <= n < s.len(),
        utf8_bytes(s.take(n)) <= bytes,
        utf8_bytes(s.take(n + 1)) > bytes,
    ensures
        cut(s, bytes) == s.take(n),
    decreases s.len(),
{
    lemma_bytes_grow(s, n + 1);
    if n + 1 == s.len() {
        assert(s.drop_last() =~= s.take(n));
        reveal_with_fuel(cut, 2);
    } else {
        assert(s.drop_last().take(n) =~= s.take(n));
        assert(s.drop_last().take(n + 1) =~= s.take(n + 1));
        lemma_cut_is(s.drop_last(), n, bytes);
    }
}

proof fn lemma_squeezed_starts(title: Seq<char>, n: int)
    requires
        0 <= n <= title.len(),
    ensures
        squeezed(title.take(n)).len() <= squeezed(title).len(),
        squeezed(title).take(squeezed(title.take(n)).len() as int) == squeezed(title.take(n)),
    decreases title.len(),
{
    if n == title.len() {
        assert(title.take(n) =~= title);
        assert(squeezed(title).take(squeezed(title).len() as int) =~= squeezed(title));
    } else {
        lemma_squeezed_starts(title.drop_last(), n);
        assert(title.drop_last().take(n) =~= title.take(n));
        let start = squeezed(title.take(n)).len() as int;
        assert(squeezed(title).take(start) =~= squeezed(title.drop_last()).take(start));
    }
}

fn edges_off(chars: &Vec<char>) -> (stem: String)
    ensures
        stem@ == without_edges(chars@),
{
    let mut start: usize = 0;
    let mut end: usize = chars.len();
    assert(chars@.subrange(0, chars@.len() as int) =~= chars@);
    while start < end && (chars[start] == ' ' || chars[start] == '.')
        invariant
            start <= end == chars@.len(),
            without_edges(chars@.subrange(start as int, end as int)) == without_edges(chars@),
        decreases end - start,
    {
        proof {
            let part = chars@.subrange(start as int, end as int);
            assert(part.drop_first() =~= chars@.subrange(start + 1, end as int));
        }
        start = start + 1;
    }
    while start < end && (chars[end - 1] == ' ' || chars[end - 1] == '.')
        invariant
            start <= end <= chars@.len(),
            start < end ==> !edge(chars@[start as int]),
            without_edges(chars@.subrange(start as int, end as int)) == without_edges(chars@),
        decreases end - start,
    {
        proof {
            let part = chars@.subrange(start as int, end as int);
            assert(part.drop_last() =~= chars@.subrange(start as int, end - 1));
        }
        end = end - 1;
    }
    let mut stem = String::new();
    let mut i: usize = start;
    while i < end
        invariant
            start <= i <= end <= chars@.len(),
            stem@ == chars@.subrange(start as int, i as int),
        decreases end - i,
    {
        stem.push(chars[i]);
        assert(chars@.subrange(start as int, i + 1) =~= chars@.subrange(start as int, i as int).push(
            chars@[i as int],
        ));
        i = i + 1;
    }
    stem
}

/// The file name that a title gives: on one line, without separators of paths, short, and
/// never empty.
pub fn sanitized_file_stem(title: &str) -> (stem: String)
    ensures
        stem@ == file_stem(title@),
{
    let text = trim(title);
    let chars = to_chars(text.as_str());
    let mut output: Vec<char> = Vec::new();
    let mut bytes: usize = 0;
    let mut previous_was_space = false;
    let mut full = false;
    assert(squeezed(chars@.take(0)) =~= Seq::<char>::empty());
    let mut i: usize = 0;
    while i < chars.len() && !full
        invariant
            chars@ == trimmed(title@),
            i <= chars@.len(),
            bytes == utf8_bytes(output@),
            bytes <= MAX_STEM_BYTES,
            !full ==> output@ == squeezed(chars@.take(i as int)),
            !full ==> previous_was_space == (output@.len() > 0 && output@.last() == ' '),
            full ==> output@ == cut(squeezed(chars@), MAX_STEM_BYTES as nat),
        decreases chars@.len() - i + (if full { 0int } else { 1int }),
    {
        let ghost before = squeezed(chars@.take(i as int));
        proof {
            assert(chars@.take(i + 1).drop_last() =~= chars@.take(i as int));
            assert(chars@.take(i + 1).last() == chars@[i as int]);
        }
        if let Some(c) = make_safe(chars[i]) {
            if c == ' ' && previous_was_space {
            } else {
                previous_was_space = c == ' ';
                let wide: usize = character_bytes(c);
                proof {
                    assert(before.push(c).drop_last() =~= before);
                    assert(utf8_bytes(before.push(c)) == utf8_bytes(before) + utf8_length(c));
                }
                if bytes + wide > MAX_STEM_BYTES {
                    full = true;
                    proof {
                        let n = before.len() as int;
                        let whole = squeezed(chars@);
                        lemma_squeezed_starts(chars@, i + 1);
                        assert(whole.take(n + 1) == before.push(c));
                        assert(whole.take(n) =~= whole.take(n + 1).take(n));
                        assert(before.push(c).take(n) =~= before);
                        lemma_cut_is(whole, n, MAX_STEM_BYTES as nat);
                    }
                } else {
                    output.push(c);
                    bytes = bytes + wide;
                }
            }
        }
        i = i + 1;
    }
    proof {
        if !full {
            assert(chars@.take(chars@.len() as int) =~= chars@);
        }
    }
    let stem = edges_off(&output);
    if stem.as_str().unicode_len() == 0 {
        "未命名讲义".to_owned()
    } else {
        stem
    }
}

/// Whether a character may stand in a file name.
pub open spec fn allowed(c: char) -> bool {
    &&& c != '/' && c != '\\' && c != ':'
    &&& !control(c)
    &&& white_space(c) ==> c == ' '
}

proof fn lemma_squeezed_allowed(title: Seq<char>)
    ensures
        forall|i: int| 0 <= i < squeezed(title).len() ==> allowed(#[trigger] squeezed(title)[i]),
    decreases title.len(),
{
    if title.len() > 0 {
        lemma_squeezed_allowed(title.drop_last());
        let before = squeezed(title.drop_last());
        assert forall|i: int| 0 <= i < squeezed(title).len() implies allowed(
            #[trigger] squeezed(title)[i],
        ) by {
            if i < before.len() {
                assert(squeezed(title)[i] == before[i]);
            }
        }
    }
}

proof fn lemma_without_edges(s: Seq<char>)
    ensures
        ({
            let inner = without_edges(s);
            &&& utf8_bytes(inner) <= utf8_bytes(s)
            &&& inner.len() > 0 ==> !edge(inner[0]) && !edge(inner.last())
            &&& forall|i: int| 0 <= i < inner.len() ==> s.contains(#[trigger] inner[i])
        }),
    decreases s.len(),
{
    if s.len() == 0 {
    } else if edge(s[0]) {
        lemma_without_edges(s.drop_first());
        lemma_bytes_of_rest(s);
        assert forall|i: int| 0 <= i < without_edges(s).len() implies s.contains(
            #[trigger] without_edges(s)[i],
        ) by {
            let c = without_edges(s)[i];
            let at = choose|j: int| 0 <= j < s.drop_first().len() && s.drop_first()[j] == c;
            assert(s[at + 1] == c);
        }
    } else if edge(s.last()) {
        lemma_without_edges(s.drop_last());
        assert forall|i: int| 0 <= i < without_edges(s).len() implies s.contains(
            #[trigger] without_edges(s)[i],
        ) by {
            let c = without_edges(s)[i];
            let at = choose|j: int| 0 <= j < s.drop_last().len() && s.drop_last()[j] == c;
            assert(s[at] == c);
        }
    }
}

proof fn lemma_bytes_of_rest(s: Seq<char>)
    requires
        s.len() > 0,
    ensures
        utf8_bytes(s.drop_first()) + utf8_length(s[0]) == utf8_bytes(s),
    decreases s.len(),
{
    if s.len() == 1 {
        assert(s.drop_last() =~= Seq::<char>::empty());
        assert(s.drop_first() =~= Seq::<char>::empty());
    } else {
        lemma_bytes_of_rest(s.drop_last());
        assert(s.drop_first().drop_last() =~= s.drop_last().drop_first());
    }
}

/// Every title gives a file name that is not empty, takes at most 120 bytes, holds no
/// separator of paths and no control code, and neither begins nor ends with a space or a dot.
pub proof fn law_stem_is_a_file_name(title: Seq<char>)
    ensures
        file_stem(title).len() > 0,
        utf8_bytes(file_stem(title)) <= MAX_STEM_BYTES,
        !edge(file_stem(title)[0]),
        !edge(file_stem(title).last()),
        forall|i: int| 0 <= i < file_stem(title).len() ==> allowed(#[trigger] file_stem(title)[i]),
{
    let text = squeezed(trimmed(title));
    let start = cut(text, MAX_STEM_BYTES as nat);
    lemma_squeezed_allowed(trimmed(title));
    lemma_cut_is_a_start(text, MAX_STEM_BYTES as nat);
    lemma_without_edges(start);
    let stem = without_edges(start);
    if stem.len() == 0 {
        reveal_strlit("未命名讲义");
        let name = "未命名讲义"@;
        assert(name.len() == 5);
        lemma_bytes_of_few(name);
    } else {
        assert forall|i: int| 0 <= i < stem.len() implies allowed(#[trigger] stem[i]) by {
            let at = choose|j: int| 0 <= j < start.len() && start[j] == stem[i];
            assert(start[at] == text[at]);
        }
    }
}

proof fn lemma_bytes_of_few(s: Seq<char>)
    ensures
        utf8_bytes(s) <= 4 * s.len(),
    decreases s.len(),
{
    if s.len() > 0 {
        lemma_bytes_of_few(s.drop_last());
    }
}

} // verus!
