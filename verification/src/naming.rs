//! What can be relied on of texts and names: numbers that are written out, titles that
//! become file names, and paths that are taken for documents.

use vstd::prelude::*;

use crate::file_names::{
    cut, edge, safe_character, squeezed, utf8_bytes, utf8_length, without_edges,
};
use crate::startup::{chosen, last_dot, last_name, last_part, last_slash, name_extension};
use crate::text::{
    ascii_lower, blank, decimal, found_at, hex_padded, joined, signed_decimal, trimmed,
    upper_hex_padded, white_space,
};

verus! {

/// The number that a row of decimal digits stands for.
pub open spec fn read_decimal(digits: Seq<char>) -> int
    decreases digits.len(),
{
    if digits.len() == 0 {
        0
    } else {
        10 * read_decimal(digits.drop_last()) + (digits.last() as int - '0' as int)
    }
}

/// The number that a row of lower-case hexadecimal digits stands for.
pub open spec fn read_hex(digits: Seq<char>) -> int
    decreases digits.len(),
{
    if digits.len() == 0 {
        0
    } else {
        16 * read_hex(digits.drop_last()) + if digits.last() >= 'a' {
            digits.last() as int - 'a' as int + 10
        } else {
            digits.last() as int - '0' as int
        }
    }
}

/// A number written in decimal reads as itself, holds digits alone, and begins with a zero
/// only where it is zero.
pub proof fn law_a_written_number_reads_as_itself(n: nat)
    ensures
        read_decimal(decimal(n)) == n,
        decimal(n).len() > 0,
        decimal(n)[0] == '0' ==> n == 0,
        forall|i: int| 0 <= i < decimal(n).len() ==> '0' <= #[trigger] decimal(n)[i] <= '9',
    decreases n,
{
    if n < 10 {
        let digits = decimal(n);
        assert(digits.drop_last() =~= Seq::<char>::empty());
        assert(digits.last() == (48 + n) as char);
        assert(read_decimal(digits.drop_last()) == 0);
    } else {
        law_a_written_number_reads_as_itself(n / 10);
        let digits = decimal(n);
        assert(digits.drop_last() =~= decimal(n / 10));
        assert(digits[0] == decimal(n / 10)[0]);
        assert forall|i: int| 0 <= i < digits.len() implies '0' <= #[trigger] digits[i] <= '9' by {
            if i < digits.len() - 1 {
                assert(digits[i] == decimal(n / 10)[i]);
            }
        }
    }
}

/// A number below zero is written with a minus sign before its size.
pub proof fn law_a_number_below_zero_has_a_sign(n: int)
    ensures
        n < 0 ==> signed_decimal(n) == seq!['-'] + decimal((-n) as nat),
        n >= 0 ==> signed_decimal(n) == decimal(n as nat),
{
    reveal_strlit("-");
    assert("-"@ =~= seq!['-']);
}

/// A number written in hexadecimal with enough digits reads as itself, and has exactly so
/// many digits.
pub proof fn law_a_hexadecimal_number_reads_as_itself(n: nat, width: nat)
    ensures
        hex_padded(n, width).len() == width,
        read_hex(hex_padded(n, width)) == n as int % vstd::arithmetic::power::pow(16, width),
    decreases width,
{
    reveal(vstd::arithmetic::power::pow);
    vstd::arithmetic::power::lemma_pow_positive(16, width);
    if width > 0 {
        let rest = (width - 1) as nat;
        law_a_hexadecimal_number_reads_as_itself(n / 16, rest);
        vstd::arithmetic::power::lemma_pow_positive(16, rest);
        let digits = hex_padded(n, width);
        assert(digits.drop_last() =~= hex_padded(n / 16, rest));
        let p = vstd::arithmetic::power::pow(16, rest);
        vstd::arithmetic::div_mod::lemma_breakdown(n as int, 16, p);
        assert(vstd::arithmetic::power::pow(16, width) == 16 * p);
    } else {
        assert(vstd::arithmetic::power::pow(16, 0) == 1);
        assert(n as int % 1 == 0);
    }
}

/// One more part is joined to the others with a separator before it; one part stands alone.
pub proof fn law_parts_are_joined_by_the_separator(
    parts: Seq<Seq<char>>,
    part: Seq<char>,
    separator: Seq<char>,
)
    ensures
        joined(Seq::empty(), separator).len() == 0,
        joined(seq![part], separator) == part,
        parts.len() > 0 ==> joined(parts.push(part), separator) == joined(parts, separator)
            + separator + part,
{
    assert(parts.push(part).drop_last() =~= parts);
}

/// Whether `inner` is what stands in `s` from `start` to `end`, with nothing but white space
/// around it.
pub open spec fn stands_between(s: Seq<char>, inner: Seq<char>, start: int, end: int) -> bool {
    &&& 0 <= start <= end <= s.len()
    &&& inner == s.subrange(start, end)
    &&& forall|i: int| 0 <= i < start || end <= i < s.len() ==> white_space(#[trigger] s[i])
}

/// What is left of a text without the white space at its ends stands in the text, with
/// nothing but white space around it.
pub proof fn law_only_white_space_is_taken_from_the_ends(s: Seq<char>)
    ensures
        exists|start: int, end: int| #[trigger] stands_between(s, trimmed(s), start, end),
    decreases s.len(),
{
    if s.len() == 0 {
        assert(s.subrange(0, 0) =~= s);
        assert(stands_between(s, trimmed(s), 0, 0));
    } else if white_space(s[0]) {
        let rest = s.drop_first();
        law_only_white_space_is_taken_from_the_ends(rest);
        let (start, end) = choose|start: int, end: int| #[trigger]
            stands_between(rest, trimmed(rest), start, end);
        assert(s.subrange(start + 1, end + 1) =~= rest.subrange(start, end));
        assert forall|i: int| 0 <= i < start + 1 || end + 1 <= i < s.len() implies white_space(
            #[trigger] s[i],
        ) by {
            if i > 0 {
                assert(s[i] == rest[i - 1]);
            }
        }
        assert(stands_between(s, trimmed(s), start + 1, end + 1));
    } else if white_space(s.last()) {
        let rest = s.drop_last();
        law_only_white_space_is_taken_from_the_ends(rest);
        let (start, end) = choose|start: int, end: int| #[trigger]
            stands_between(rest, trimmed(rest), start, end);
        assert(s.subrange(start, end) =~= rest.subrange(start, end));
        assert forall|i: int| 0 <= i < start || end <= i < s.len() implies white_space(
            #[trigger] s[i],
        ) by {
            if i < rest.len() {
                assert(s[i] == rest[i]);
            }
        }
        assert(stands_between(s, trimmed(s), start, end));
    } else {
        assert(s.subrange(0, s.len() as int) =~= s);
        assert(stands_between(s, trimmed(s), 0, s.len() as int));
    }
}

/// Without the white space at its ends a text neither begins nor ends with any, and nothing
/// is left only of a text that holds nothing else.
pub proof fn law_no_white_space_is_left_at_the_ends(s: Seq<char>)
    ensures
        trimmed(s).len() > 0 ==> !white_space(trimmed(s)[0]) && !white_space(trimmed(s).last()),
        trimmed(s).len() == 0 <==> blank(s),
{
    lemma_trimmed_ends(s);
    law_only_white_space_is_taken_from_the_ends(s);
    let (start, end) = choose|start: int, end: int| #[trigger]
        stands_between(s, trimmed(s), start, end);
    if blank(s) && trimmed(s).len() > 0 {
        assert(trimmed(s)[0] == s[start]);
    }
}

proof fn lemma_trimmed_ends(s: Seq<char>)
    ensures
        trimmed(s).len() > 0 ==> !white_space(trimmed(s)[0]) && !white_space(trimmed(s).last()),
    decreases s.len(),
{
    if s.len() == 0 {
    } else if white_space(s[0]) {
        lemma_trimmed_ends(s.drop_first());
    } else if white_space(s.last()) {
        lemma_trimmed_ends(s.drop_last());
    }
}

/// A word is found with its letters in either case, and only where it stands.
pub proof fn law_case_does_not_count(
    c: char,
    haystack: Seq<char>,
    needle: Seq<char>,
    at: int,
)
    ensures
        'A' <= c <= 'Z' ==> 'a' <= ascii_lower(c) <= 'z' && ascii_lower(c) as int - 'a' as int
            == c as int - 'A' as int,
        !('A' <= c <= 'Z') ==> ascii_lower(c) == c,
        0 <= at && at + needle.len() <= haystack.len() && haystack.subrange(
            at,
            at + needle.len(),
        ) == needle ==> found_at(haystack, needle, at),
{
    if 0 <= at && at + needle.len() <= haystack.len() && haystack.subrange(at, at + needle.len())
        == needle {
        assert forall|k: int| 0 <= k < needle.len() implies ascii_lower(#[trigger] haystack[at + k])
            == ascii_lower(needle[k]) by {
            assert(haystack.subrange(at, at + needle.len())[k] == haystack[at + k]);
        }
    }
}

/// A title whose characters may all stand in a file name, with no two spaces in a row, is
/// kept as it is.
pub proof fn law_a_plain_title_is_kept(title: Seq<char>)
    requires
        forall|i: int|
            0 <= i < title.len() ==> safe_character(#[trigger] title[i]) == Some(title[i]),
        forall|i: int, j: int|
            0 <= i && j == i + 1 && j < title.len() ==> !(#[trigger] title[i] == ' '
                && #[trigger] title[j] == ' '),
    ensures
        squeezed(title) == title,
    decreases title.len(),
{
    if title.len() > 0 {
        let rest = title.drop_last();
        assert forall|i: int| 0 <= i < rest.len() implies safe_character(#[trigger] rest[i])
            == Some(rest[i]) by {
            assert(rest[i] == title[i]);
        }
        assert forall|i: int, j: int| 0 <= i && j == i + 1 && j < rest.len() implies !(
        #[trigger] rest[i] == ' ' && #[trigger] rest[j] == ' ') by {
            assert(rest[i] == title[i] && rest[j] == title[j]);
        }
        law_a_plain_title_is_kept(rest);
        let last = title.len() - 1;
        assert(safe_character(title[last]) == Some(title[last]));
        if rest.len() > 0 {
            assert(rest.last() == title[last - 1]);
            assert(!(title[last - 1] == ' ' && title[last] == ' '));
        }
        assert(rest.push(title[last]) =~= title);
    }
}

/// What separates the parts of a path becomes an underscore, white space a space, and
/// control codes are left out; no two spaces follow each other.
pub proof fn law_what_may_not_stand_in_a_name_is_replaced(title: Seq<char>, c: char)
    ensures
        c == '/' || c == '\\' || c == ':' ==> squeezed(title.push(c)) == squeezed(title).push('_'),
        c == ' ' && (squeezed(title).len() == 0 || squeezed(title).last() != ' ')
            ==> squeezed(title.push(c)) == squeezed(title).push(' '),
        c == ' ' && squeezed(title).len() > 0 && squeezed(title).last() == ' ' ==> squeezed(
            title.push(c),
        ) == squeezed(title),
        c as u32 <= 0x1f ==> squeezed(title.push(c)) == squeezed(title),
        'a' <= c <= 'z' || 'A' <= c <= 'Z' || '0' <= c <= '9' ==> squeezed(title.push(c))
            == squeezed(title).push(c),
        c as u32 > 0x3000 && c != '/' ==> squeezed(title.push(c)) == squeezed(title).push(c),
{
    assert(title.push(c).drop_last() =~= title);
    assert(title.push(c).last() == c);
}

/// A text is cut only where it takes too many bytes, and no more of it than has to be.
pub proof fn law_a_name_is_cut_no_more_than_it_has_to_be(s: Seq<char>, bytes: nat)
    ensures
        utf8_bytes(s) <= bytes ==> cut(s, bytes) == s,
        cut(s, bytes).is_prefix_of(s),
        utf8_bytes(cut(s, bytes)) <= bytes,
        cut(s, bytes).len() < s.len() ==> utf8_bytes(s.take(cut(s, bytes).len() as int + 1)) > bytes,
    decreases s.len(),
{
    if utf8_bytes(s) > bytes {
        assert(s.len() > 0);
        let rest = s.drop_last();
        law_a_name_is_cut_no_more_than_it_has_to_be(rest, bytes);
        let kept = cut(rest, bytes);
        if kept.len() < rest.len() {
            assert(s.take(kept.len() as int + 1) =~= rest.take(kept.len() as int + 1));
        } else {
            assert(s.take(kept.len() as int + 1) =~= s);
        }
    }
}

/// A character takes as many bytes as its code needs.
pub proof fn law_characters_take_as_many_bytes_as_they_need(c: char)
    ensures
        1 <= utf8_length(c) <= 4,
        utf8_length(c) == 1 <==> (c as u32) < 128,
        utf8_length(c) <= 2 <==> (c as u32) < 2048,
        utf8_length(c) <= 3 <==> (c as u32) < 65536,
{
}

/// A name without spaces and dots at its ends is kept as it is; spaces and dots at its ends
/// are taken off.
pub proof fn law_spaces_and_dots_are_taken_off_the_ends(s: Seq<char>, c: char)
    requires
        s.len() > 0,
        !edge(s[0]),
        !edge(s.last()),
    ensures
        without_edges(s) == s,
        c == ' ' || c == '.' ==> without_edges(s.push(c)) == s,
        c == ' ' || c == '.' ==> without_edges(seq![c] + s) == s,
{
    assert(without_edges(s) == s);
    let after = s.push(c);
    assert(after.drop_last() =~= s);
    assert(after[0] == s[0]);
    assert(after.last() == c);
    let before = seq![c] + s;
    assert(before.drop_first() =~= s);
    assert(before[0] == c);
    reveal_with_fuel(without_edges, 2);
}

/// The last part of a path is what follows the last slash.
pub proof fn law_the_last_part_follows_the_last_slash(directory: Seq<char>, name: Seq<char>)
    requires
        forall|i: int| 0 <= i < name.len() ==> #[trigger] name[i] != '/',
    ensures
        last_part(directory + seq!['/'] + name) == name,
        last_part(name) == name,
{
    lemma_slash(directory, name);
    assert((directory + seq!['/'] + name).skip(directory.len() as int + 1) =~= name);
    lemma_no_slash(name);
    assert(name.skip(0) =~= name);
}

proof fn lemma_slash(directory: Seq<char>, name: Seq<char>)
    requires
        forall|i: int| 0 <= i < name.len() ==> #[trigger] name[i] != '/',
    ensures
        last_slash(directory + seq!['/'] + name) == directory.len(),
    decreases name.len(),
{
    let path = directory + seq!['/'] + name;
    if name.len() == 0 {
        assert(path.last() == '/');
    } else {
        assert(path.last() == name.last());
        assert(name.last() == name[name.len() - 1]);
        assert(path.drop_last() =~= directory + seq!['/'] + name.drop_last());
        assert forall|i: int| 0 <= i < name.drop_last().len() implies #[trigger] name.drop_last()[i]
            != '/' by {
            assert(name.drop_last()[i] == name[i]);
        }
        lemma_slash(directory, name.drop_last());
    }
}

proof fn lemma_no_slash(name: Seq<char>)
    requires
        forall|i: int| 0 <= i < name.len() ==> #[trigger] name[i] != '/',
    ensures
        last_slash(name) == -1,
    decreases name.len(),
{
    if name.len() > 0 {
        assert(name.last() == name[name.len() - 1]);
        assert forall|i: int| 0 <= i < name.drop_last().len() implies #[trigger] name.drop_last()[i]
            != '/' by {
            assert(name.drop_last()[i] == name[i]);
        }
        lemma_no_slash(name.drop_last());
    }
}

/// The extension of a name is what follows its last dot: a name with a stem, a dot and an
/// extension without dots has that extension.
pub proof fn law_the_extension_follows_the_last_dot(stem: Seq<char>, extension: Seq<char>)
    requires
        stem.len() > 0,
        extension.len() > 0,
        forall|i: int| 0 <= i < extension.len() ==> #[trigger] extension[i] != '.',
    ensures
        name_extension(stem + seq!['.'] + extension) == Some(extension),
{
    let name = stem + seq!['.'] + extension;
    lemma_dot(stem, extension);
    assert(name.skip(stem.len() as int + 1) =~= extension);
    reveal_strlit("..");
    assert(name.last() == extension[extension.len() - 1]);
    assert(".."@.last() == '.');
}

proof fn lemma_dot(stem: Seq<char>, extension: Seq<char>)
    requires
        forall|i: int| 0 <= i < extension.len() ==> #[trigger] extension[i] != '.',
    ensures
        last_dot(stem + seq!['.'] + extension) == stem.len(),
    decreases extension.len(),
{
    let name = stem + seq!['.'] + extension;
    if extension.len() == 0 {
        assert(name.last() == '.');
    } else {
        assert(name.last() == extension.last());
        assert(extension.last() == extension[extension.len() - 1]);
        assert(name.drop_last() =~= stem + seq!['.'] + extension.drop_last());
        assert forall|i: int| 0 <= i < extension.drop_last().len() implies
            #[trigger] extension.drop_last()[i] != '.' by {
            assert(extension.drop_last()[i] == extension[i]);
        }
        lemma_dot(stem, extension.drop_last());
    }
}

/// A path with slashes, or parts that stand for the directory itself, after its name has the
/// same name without them.
pub proof fn law_what_follows_a_name_does_not_count(path: Seq<char>)
    requires
        path.len() > 0,
    ensures
        last_name(path.push('/')) == last_name(path),
        last_name(path.push('/').push('.')) == last_name(path),
{
    assert(path.push('/').drop_last() =~= path);
    let longer = path.push('/').push('.');
    assert(longer.drop_last() =~= path.push('/'));
    assert(longer[longer.len() - 2] == '/');
}

/// Of the arguments exactly the documents are opened, in their order; the one that asks for
/// the window is not taken for one.
pub proof fn law_documents_among_the_arguments_are_opened(
    arguments: Seq<String>,
    argument: String,
    documents: Seq<bool>,
)
    requires
        documents.len() == arguments.len() + 1,
    ensures
        chosen(Seq::empty(), documents).len() == 0,
        argument@ == "--show"@ || !documents.last() ==> chosen(arguments.push(argument), documents)
            == chosen(arguments, documents),
        argument@ != "--show"@ && documents.last() ==> chosen(arguments.push(argument), documents)
            == chosen(arguments, documents).push(argument),
{
    assert(arguments.push(argument).drop_last() =~= arguments);
}

/// A name without a dot, or with no more than a dot before it, has no extension.
pub proof fn law_a_name_may_have_no_extension(name: Seq<char>)
    requires
        forall|i: int| 0 <= i < name.len() ==> #[trigger] name[i] != '.',
    ensures
        name_extension(name) is None,
        name_extension(seq!['.'] + name) is None,
        name_extension(seq!['.', '.']) is None,
{
    lemma_no_dot(name);
    lemma_dot(Seq::empty(), name);
    assert(Seq::<char>::empty() + seq!['.'] + name =~= seq!['.'] + name);
    reveal_strlit("..");
    assert(".."@ =~= seq!['.', '.']);
}

proof fn lemma_no_dot(name: Seq<char>)
    requires
        forall|i: int| 0 <= i < name.len() ==> #[trigger] name[i] != '.',
    ensures
        last_dot(name) == -1,
    decreases name.len(),
{
    if name.len() > 0 {
        assert(name.last() == name[name.len() - 1]);
        assert forall|i: int| 0 <= i < name.drop_last().len() implies #[trigger] name.drop_last()[i]
            != '.' by {
            assert(name.drop_last()[i] == name[i]);
        }
        lemma_no_dot(name.drop_last());
    }
}

/// A number in upper-case hexadecimal has the digits that it has in lower case, with letters
/// in upper case.
pub proof fn law_upper_case_digits_are_the_same_digits(n: nat, width: nat)
    ensures
        upper_hex_padded(n, width).len() == width,
        hex_padded(n, width).len() == width,
        forall|i: int|
            0 <= i < width ==> ascii_lower(#[trigger] upper_hex_padded(n, width)[i]) == hex_padded(
                n,
                width,
            )[i],
    decreases width,
{
    if width > 0 {
        law_upper_case_digits_are_the_same_digits(n / 16, (width - 1) as nat);
        let upper = upper_hex_padded(n / 16, (width - 1) as nat);
        assert forall|i: int| 0 <= i < width implies ascii_lower(
            #[trigger] upper_hex_padded(n, width)[i],
        ) == hex_padded(n, width)[i] by {
            if i < width - 1 {
                assert(upper_hex_padded(n, width)[i] == upper[i]);
            }
        }
    }
}

} // verus!
