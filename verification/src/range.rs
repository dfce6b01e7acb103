//! The search of a range response for the remainder of a digest.
//!
//! A range response is a text of lines, each an entry `HASH:COUNT`: the
//! remainder of a digest after its first five characters, and how often the
//! password of that digest occurs. An entry with the count `0` is padding.

use crate::routes::PREFIX_CHARS;
use vstd::prelude::*;
use vstd::slice::slice_subrange;

verus! {

/// `line` without the carriage return at its end, if it ends in one.
pub open spec fn without_cr(line: Seq<char>) -> Seq<char> {
    if line.len() > 0 && line.last() == '\r' {
        line.drop_last()
    } else {
        line
    }
}

/// The lines of `text`. A line ends at a line feed, which is not part of it,
/// nor is a carriage return just before that line feed. What follows the last
/// line feed is a line too, unless it is empty.
pub open spec fn lines(text: Seq<char>) -> Seq<Seq<char>>
    decreases text.len(),
{
    if text.len() == 0 {
        Seq::empty()
    } else {
        match text.index_of_first('\n') {
            Some(end) => {
                proof {
                    text.index_of_first_ensures('\n');
                }
                seq![without_cr(text.take(end))] + lines(text.skip(end + 1))
            },
            None => seq![text],
        }
    }
}

/// The fields of `text`: the pieces between occurrences of `separator`.
pub open spec fn split(text: Seq<char>, separator: char) -> Seq<Seq<char>>
    decreases text.len(),
{
    match text.index_of_first(separator) {
        Some(end) => {
            proof {
                text.index_of_first_ensures(separator);
            }
            seq![text.take(end)] + split(text.skip(end + 1), separator)
        },
        None => seq![text],
    }
}

/// Whether `line` is an entry that lists `suffix` as occurring: its first
/// field is `suffix`, and its second field, the count, is there and is not
/// `0`. An entry with the count `0` is padding and lists nothing.
pub open spec fn entry_lists(line: Seq<char>, suffix: Seq<char>) -> bool {
    let fields = split(line, ':');
    &&& fields.len() >= 2
    &&& fields[1] != seq!['0']
    &&& fields[0] == suffix
}

/// Whether some line of `response` lists `suffix` as occurring.
pub open spec fn range_lists(response: Seq<char>, suffix: Seq<char>) -> bool {
    exists|i: int|
        0 <= i < lines(response).len() && entry_lists(#[trigger] lines(response)[i], suffix)
}

/// Whether the range `response` holds `digest`: some line of it lists what
/// follows the first five characters of `digest`.
pub open spec fn range_contains(response: Seq<char>, digest: Seq<char>) -> bool {
    digest.len() >= PREFIX_CHARS && range_lists(response, digest.skip(PREFIX_CHARS as int))
}

/// A position found in a text, as `index_of_first` gives it.
spec fn found_at(at: Option<usize>) -> Option<int> {
    match at {
        Some(i) => Some(i as int),
        None => None,
    }
}

/// The first `wanted` of a text stands where `wanted` stands with none before it.
proof fn lemma_first_is_at(text: Seq<char>, wanted: char, at: int)
    requires
        0 <= at < text.len(),
        text[at] == wanted,
        forall|j: int| 0 <= j < at ==> text[j] != wanted,
    ensures
        text.index_of_first(wanted) == Some(at),
{
    text.index_of_first_ensures(wanted);
}

/// A text without `wanted` has no first `wanted`.
proof fn lemma_first_is_nowhere(text: Seq<char>, wanted: char)
    requires
        forall|j: int| 0 <= j < text.len() ==> text[j] != wanted,
    ensures
        text.index_of_first(wanted) is None,
{
    text.index_of_first_ensures(wanted);
}

/// A text with at least one line is its first line followed by the lines of
/// what stands after that line's end.
proof fn lemma_range_lists_step(text: Seq<char>, suffix: Seq<char>)
    requires
        text.len() > 0,
    ensures
        match text.index_of_first('\n') {
            Some(end) => 0 <= end < text.len() && (range_lists(text, suffix) <==> entry_lists(
                without_cr(text.take(end)),
                suffix,
            ) || range_lists(text.skip(end + 1), suffix)),
            None => range_lists(text, suffix) <==> entry_lists(text, suffix),
        },
{
    text.index_of_first_ensures('\n');
    match text.index_of_first('\n') {
        Some(end) => {
            let tail = lines(text.skip(end + 1));
            assert forall|i: int| 0 <= i < tail.len() implies #[trigger] tail[i] == lines(text)[i
                + 1] by {}
            if range_lists(text, suffix) {
                let i = choose|i: int|
                    0 <= i < lines(text).len() && entry_lists(#[trigger] lines(text)[i], suffix);
                assert(i > 0 ==> entry_lists(tail[i - 1], suffix));
            }
        },
        None => {
            assert(lines(text)[0] == text);
        },
    }
}

/// The first two fields of a text, by the place of its first separator.
proof fn lemma_split_fields(text: Seq<char>, separator: char)
    ensures
        match text.index_of_first(separator) {
            Some(end) => {
                let rest = text.skip(end + 1);
                &&& 0 <= end < text.len()
                &&& split(text, separator).len() >= 2
                &&& split(text, separator)[0] == text.take(end)
                &&& split(text, separator)[1] == match rest.index_of_first(separator) {
                    Some(next) => rest.take(next),
                    None => rest,
                }
            },
            None => split(text, separator) == seq![text],
        },
{
    text.index_of_first_ensures(separator);
    match text.index_of_first(separator) {
        Some(end) => {
            let rest = text.skip(end + 1);
            rest.index_of_first_ensures(separator);
            assert(split(text, separator)[1] == split(rest, separator)[0]);
        },
        None => {},
    }
}

/// The characters of `text`.
fn to_chars(text: &str) -> (chars: Vec<char>)
    ensures
        chars@ == text@,
{
    let mut chars: Vec<char> = Vec::new();
    for c in it: text.chars()
        invariant
            chars@ == it.seq().take(it.index() as int),
    {
        chars.push(c);
    }
    chars
}

/// Where `wanted` first stands in `text`.
fn find(text: &[char], wanted: char) -> (at: Option<usize>)
    ensures
        found_at(at) == text@.index_of_first(wanted),
        at matches Some(i) ==> i < text@.len(),
{
    let mut i: usize = 0;
    while i < text.len()
        invariant
            i <= text@.len(),
            forall|j: int| 0 <= j < i ==> text@[j] != wanted,
        decreases text@.len() - i,
    {
        if text[i] == wanted {
            proof {
                lemma_first_is_at(text@, wanted, i as int);
            }
            return Some(i);
        }
        i += 1;
    }
    proof {
        lemma_first_is_nowhere(text@, wanted);
    }
    None
}

/// Whether the two texts are the same.
fn same_text(left: &[char], right: &[char]) -> (same: bool)
    ensures
        same == (left@ == right@),
{
    if left.len() != right.len() {
        return false;
    }
    let mut i: usize = 0;
    while i < left.len()
        invariant
            left@.len() == right@.len(),
            i <= left@.len(),
            forall|j: int| 0 <= j < i ==> left@[j] == right@[j],
        decreases left@.len() - i,
    {
        if left[i] != right[i] {
            return false;
        }
        i += 1;
    }
    assert(left@ =~= right@);
    true
}

/// Whether the entry `line` lists `suffix` as occurring.
fn entry_lists_suffix(line: &[char], suffix: &[char]) -> (listed: bool)
    ensures
        listed == entry_lists(line@, suffix@),
{
    proof {
        lemma_split_fields(line@, ':');
    }
    let len = line.len();
    match find(line, ':') {
        None => false,
        Some(end) => {
            let hash = slice_subrange(line, 0, end);
            let rest = slice_subrange(line, end + 1, len);
            let count = match find(rest, ':') {
                Some(next) => slice_subrange(rest, 0, next),
                None => rest,
            };
            let padding = count.len() == 1 && count[0] == '0';
            assert(padding == (count@ == seq!['0'])) by {
                if padding {
                    assert(count@ =~= seq!['0']);
                }
            }
            !padding && same_text(hash, suffix)
        },
    }
}

/// Find matching key in received set of keys: whether a line of
/// `password_range_response` lists, with a count other than `0`, what follows
/// the first five characters of `hashed_key`.
pub fn search_in_range(password_range_response: &str, hashed_key: &str) -> (found: bool)
    ensures
        found == range_contains(password_range_response@, hashed_key@),
{
    let key = to_chars(hashed_key);
    if key.len() < PREFIX_CHARS {
        return false;
    }
    let suffix = slice_subrange(key.as_slice(), PREFIX_CHARS, key.len());
    let response = to_chars(password_range_response);
    let mut rest: &[char] = response.as_slice();
    while rest.len() > 0
        invariant
            hashed_key@.len() >= PREFIX_CHARS,
            suffix@ == hashed_key@.skip(PREFIX_CHARS as int),
            response@ == password_range_response@,
            range_lists(response@, suffix@) == range_lists(rest@, suffix@),
        decreases rest@.len(),
    {
        proof {
            lemma_range_lists_step(rest@, suffix@);
        }
        let (line, next) = match find(rest, '\n') {
            Some(end) => {
                let ended = slice_subrange(rest, 0, end);
                let line = if end > 0 && ended[end - 1] == '\r' {
                    slice_subrange(ended, 0, end - 1)
                } else {
                    ended
                };
                (line, slice_subrange(rest, end + 1, rest.len()))
            },
            None => (rest, slice_subrange(rest, rest.len(), rest.len())),
        };
        if entry_lists_suffix(line, suffix) {
            return true;
        }
        rest = next;
    }
    false
}

/// Whether `text` is free of the characters that end a field or a line.
pub open spec fn is_field(text: Seq<char>) -> bool {
    forall|j: int| 0 <= j < text.len() ==> text[j] != ':' && text[j] != '\n' && text[j] != '\r'
}

/// The entry that pairs `hash` with `count`.
pub open spec fn entry(hash: Seq<char>, count: Seq<char>) -> Seq<char> {
    hash + seq![':'] + count
}

/// Whether `text` begins with a line end, or is empty: what may follow a
/// line.
pub open spec fn begins_with_line_end(text: Seq<char>) -> bool {
    ||| text.len() == 0
    ||| text[0] == '\n'
    ||| (text.len() >= 2 && text[0] == '\r' && text[1] == '\n')
}

/// `text` after the line end that it begins with.
pub open spec fn after_line_end(text: Seq<char>) -> Seq<char> {
    if text.len() == 0 {
        text
    } else if text[0] == '\n' {
        text.skip(1)
    } else {
        text.skip(2)
    }
}

/// An entry lists a hash exactly when the hash is its first field and its
/// count is not `0`: the entry `hash:0` is padding, and lists nothing.
pub proof fn lemma_entry_lists(hash: Seq<char>, count: Seq<char>, suffix: Seq<char>)
    requires
        is_field(hash),
        is_field(count),
    ensures
        entry_lists(entry(hash, count), suffix) <==> hash == suffix && count != seq!['0'],
{
    let line = entry(hash, count);
    let colon = hash.len() as int;
    assert(line.take(colon) =~= hash);
    assert(line.skip(colon + 1) =~= count);
    lemma_first_is_at(line, ':', colon);
    lemma_first_is_nowhere(count, ':');
    lemma_split_fields(line, ':');
}

/// The lines of two texts put together are the lines of the first and then
/// those of the second, where the first text ends with its last line.
pub proof fn lemma_lines_concat(first: Seq<char>, second: Seq<char>)
    requires
        first.len() == 0 || first.last() == '\n',
    ensures
        lines(first + second) == lines(first) + lines(second),
    decreases first.len(),
{
    if first.len() > 0 {
        let whole = first + second;
        first.index_of_first_ensures('\n');
        let end = first.index_of_first('\n').unwrap();
        let rest = first.skip(end + 1);
        assert forall|j: int| 0 <= j < end implies whole[j] != '\n' by {}
        lemma_first_is_at(whole, '\n', end);
        assert(whole.take(end) =~= first.take(end));
        assert(whole.skip(end + 1) =~= rest + second);
        lemma_lines_concat(rest, second);
    }
}

/// The lines of a response are searched one by one, in no order that
/// matters: two responses put together list what either of them lists.
pub proof fn lemma_range_lists_concat(first: Seq<char>, second: Seq<char>, suffix: Seq<char>)
    requires
        first.len() == 0 || first.last() == '\n',
    ensures
        range_lists(first + second, suffix) <==> range_lists(first, suffix) || range_lists(
            second,
            suffix,
        ),
{
    lemma_lines_concat(first, second);
    let a = lines(first);
    let b = lines(second);
    let whole = lines(first + second);
    if range_lists(first, suffix) {
        let i = choose|i: int| 0 <= i < a.len() && entry_lists(#[trigger] a[i], suffix);
        assert(whole[i] == a[i]);
    }
    if range_lists(second, suffix) {
        let i = choose|i: int| 0 <= i < b.len() && entry_lists(#[trigger] b[i], suffix);
        assert(whole[a.len() + i] == b[i]);
    }
    if range_lists(first + second, suffix) {
        let i = choose|i: int| 0 <= i < whole.len() && entry_lists(#[trigger] whole[i], suffix);
        assert(i < a.len() ==> whole[i] == a[i]);
        assert(i >= a.len() ==> whole[i] == b[i - a.len()]);
    }
}

/// A response with one entry at its top lists what that entry lists and what
/// the rest of the response lists.
pub proof fn lemma_range_lists_entry(
    hash: Seq<char>,
    count: Seq<char>,
    after: Seq<char>,
    suffix: Seq<char>,
)
    requires
        is_field(hash),
        is_field(count),
        begins_with_line_end(after),
    ensures
        range_lists(entry(hash, count) + after, suffix) <==> (hash == suffix && count != seq!['0'])
            || range_lists(after_line_end(after), suffix),
{
    let line = entry(hash, count);
    let text = line + after;
    let end = line.len() as int;
    lemma_entry_lists(hash, count, suffix);
    lemma_range_lists_step(text, suffix);
    if after.len() == 0 {
        lemma_first_is_nowhere(text, '\n');
    } else if after[0] == '\n' {
        lemma_first_is_at(text, '\n', end);
        assert(text.take(end) =~= line);
        assert(text.skip(end + 1) =~= after.skip(1));
    } else {
        lemma_first_is_at(text, '\n', end + 1);
        assert(text.take(end + 1) =~= line.push('\r'));
        assert(line.push('\r').drop_last() =~= line);
        assert(text.skip(end + 2) =~= after.skip(2));
    }
}

/// A response that holds, as one of its lines, the entry of a digest's
/// remainder with a count other than `0` holds the digest, whatever its
/// other lines are.
pub proof fn lemma_listed_digest_is_found(
    before: Seq<char>,
    count: Seq<char>,
    after: Seq<char>,
    digest: Seq<char>,
)
    requires
        before.len() == 0 || before.last() == '\n',
        begins_with_line_end(after),
        digest.len() >= PREFIX_CHARS,
        is_field(digest.skip(PREFIX_CHARS as int)),
        is_field(count),
        count != seq!['0'],
    ensures
        range_contains(before + entry(digest.skip(PREFIX_CHARS as int), count) + after, digest),
{
    let suffix = digest.skip(PREFIX_CHARS as int);
    lemma_range_lists_entry(suffix, count, after, suffix);
    lemma_range_lists_concat(before, entry(suffix, count) + after, suffix);
    assert(before + entry(suffix, count) + after =~= before + (entry(suffix, count) + after));
}

/// An entry whose count is `0` is passed over: a response holds a digest
/// exactly when it holds that digest with the entry taken out, whatever hash
/// the entry names.
pub proof fn lemma_padding_is_ignored(
    before: Seq<char>,
    hash: Seq<char>,
    after: Seq<char>,
    digest: Seq<char>,
)
    requires
        before.len() == 0 || before.last() == '\n',
        begins_with_line_end(after),
        is_field(hash),
    ensures
        range_contains(before + entry(hash, seq!['0']) + after, digest) <==> range_contains(
            before + after_line_end(after),
            digest,
        ),
{
    let suffix = digest.skip(PREFIX_CHARS as int);
    let padding = entry(hash, seq!['0']);
    lemma_range_lists_entry(hash, seq!['0'], after, suffix);
    lemma_range_lists_concat(before, padding + after, suffix);
    lemma_range_lists_concat(before, after_line_end(after), suffix);
    assert(before + padding + after =~= before + (padding + after));
}

/// The search has no memory: what it answers for a response and a digest is
/// settled by these two texts, so that asking again gives the same answer.
pub proof fn lemma_search_is_repeatable(
    response: Seq<char>,
    digest: Seq<char>,
    first_answer: bool,
    second_answer: bool,
)
    requires
        first_answer == range_contains(response, digest),
        second_answer == range_contains(response, digest),
    ensures
        first_answer == second_answer,
{
}

} // verus!
