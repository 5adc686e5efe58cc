//! Searching threads: where a needle occurs, what is shown of it, and in which group.

use vstd::prelude::*;

use crate::domain::{DomainEvent, MessageRole, ThreadStatus};
use crate::json::{member, member_of_field, object, trees, Fields, Json, Tree};
use crate::projections::{list_entry_tree, thread_list_entry_value, Directory, ThreadRecord};
use crate::reply::{
    coded_error, error_response_with_code, ok, ok_view, parse_query_sequence, query_number,
    refuses, Reply, ReplyView,
};
use crate::text::{
    ascii_lower, chars_of, lowercase, lowercase_chars, opt_view, text_from, whitespace,
};
use crate::timeline::ThreadEntry;

verus! {

/// How many threads a search group returns when the client names no limit.
pub const SEARCH_DEFAULT_LIMIT_PER_GROUP: u64 = 20;

/// The most threads a search group returns.
pub const SEARCH_MAX_LIMIT_PER_GROUP: u64 = 100;

/// How many matches a search reports for one thread before moving on.
pub const SEARCH_MAX_MATCHES_PER_THREAD: usize = 5;

/// How much of a matched text a search result carries, in characters.
pub const SEARCH_SNIPPET_CHARS: usize = 200;

/// A text in lower case.
pub uninterp spec fn lowercase_text(text: Seq<char>) -> Seq<char>;

/// `str::to_lowercase`: the text in lower case by Unicode's rules, which look at more than one
/// character at a time; named by [`lowercase_text`]. Of a text that is ASCII each character is
/// lowered on its own.
#[verifier::external_body]
fn to_lowercase(text: &str) -> (result: String)
    ensures
        result@ == lowercase_text(text@),
        (forall|i: int| 0 <= i < text@.len() ==> (#[trigger] text@[i] as u32) < 128) ==> result@
            == Seq::new(text@.len(), |i: int| ascii_lower(text@[i])),
{
    text.to_lowercase()
}

/// Whether a character lowercases to exactly one character, this one.
pub open spec fn lowers_to(value: char, lower: char) -> bool {
    lowercase(value) == seq![lower]
}

/// Whether a character lowercases to exactly one character, this one.
pub fn lowercase_eq(value: char, lower: char) -> (result: bool)
    ensures
        result == lowers_to(value, lower),
        (value as u32) < 128 ==> result == (ascii_lower(value) == lower),
{
    let folded: Vec<char> = lowercase_chars(value);
    if folded.len() != 1 {
        return false;
    }
    proof {
        if folded@[0] == lower {
            assert(folded@ =~= seq![lower]);
        }
    }
    folded[0] == lower
}

/// Whether a lower-case needle stands at a place of a text.
pub open spec fn hits(text: Seq<char>, needle: Seq<char>, at: int) -> bool {
    &&& 0 <= at
    &&& at + needle.len() <= text.len()
    &&& forall|k: int| 0 <= k < needle.len() ==> lowers_to(text[at + k], #[trigger] needle[k])
}

/// The occurrences of a needle from a place on, none overlapping the one before it.
pub open spec fn occurrences_from(text: Seq<char>, needle: Seq<char>, at: nat) -> Seq<(usize, usize)>
    decreases text.len() - at,
{
    if needle.len() == 0 || at + needle.len() > text.len() {
        Seq::empty()
    } else if hits(text, needle, at as int) {
        seq![(at as usize, (at + needle.len()) as usize)] + occurrences_from(
            text,
            needle,
            at + needle.len(),
        )
    } else {
        occurrences_from(text, needle, at + 1)
    }
}

/// The character ranges of every occurrence of a lower-case needle, whatever the case of the text.
pub fn find_occurrences(text: &str, needle_lower: &str) -> (result: Vec<(usize, usize)>)
    ensures
        result@ == occurrences_from(text@, needle_lower@, 0),
        forall|i: int|
            0 <= i < result@.len() ==> (#[trigger] result@[i]).0 <= result@[i].1 <= text@.len(),
{
    let haystack: Vec<char> = chars_of(text);
    let needle: Vec<char> = chars_of(needle_lower);
    let mut found: Vec<(usize, usize)> = Vec::new();
    if needle.len() == 0 {
        return found;
    }
    let mut index: usize = 0;
    assert(found@ + occurrences_from(text@, needle@, 0) =~= occurrences_from(text@, needle@, 0));
    while needle.len() <= haystack.len() - index
        invariant
            haystack@ == text@,
            needle@ == needle_lower@,
            needle@.len() > 0,
            index <= haystack@.len(),
            found@ + occurrences_from(text@, needle@, index as nat) == occurrences_from(
                text@,
                needle@,
                0,
            ),
            forall|i: int|
                0 <= i < found@.len() ==> (#[trigger] found@[i]).0 <= found@[i].1 <= text@.len(),
        decreases haystack.len() - index,
    {
        let mut hit: bool = true;
        let mut offset: usize = 0;
        while offset < needle.len() && hit
            invariant
                haystack@ == text@,
                needle@ == needle_lower@,
                index + needle.len() <= haystack.len(),
                offset <= needle@.len(),
                hit ==> forall|k: int|
                    0 <= k < offset ==> lowers_to(text@[index + k], #[trigger] needle@[k]),
                !hit ==> !hits(text@, needle@, index as int),
            decreases needle.len() - offset,
        {
            if !lowercase_eq(haystack[index + offset], needle[offset]) {
                assert(!lowers_to(text@[index + offset], needle@[offset as int]));
                hit = false;
            }
            offset += 1;
        }
        let ghost before = found@;
        if hit {
            assert(hits(text@, needle@, index as int));
            found.push((index, index + needle.len()));
            assert(found@ + occurrences_from(text@, needle@, (index + needle@.len()) as nat)
                =~= before + occurrences_from(text@, needle@, index as nat));
            index += needle.len();
        } else {
            index += 1;
        }
    }
    assert(occurrences_from(text@, needle@, index as nat) =~= Seq::empty());
    assert(found@ =~= occurrences_from(text@, needle@, 0));
    found
}

/// How many UTF-16 code units a character takes.
pub open spec fn utf16_width(c: char) -> nat {
    if (c as u32) < 0x1_0000 {
        1
    } else {
        2
    }
}

/// How many UTF-16 code units a text takes.
pub open spec fn utf16_len(text: Seq<char>) -> nat
    decreases text.len(),
{
    if text.len() == 0 {
        0
    } else {
        utf16_len(text.drop_last()) + utf16_width(text.last())
    }
}

/// The stretch of a text that is shown around its first match: all of a short one, and otherwise
/// so many characters with the match in the middle as far as the text allows.
pub open spec fn snippet_window(len: nat, first: (usize, usize), limit: nat) -> (nat, nat) {
    if len <= limit {
        (0, len)
    } else {
        let matched = (first.1 - first.0) as nat;
        let before = if limit > matched {
            ((limit - matched) / 2) as nat
        } else {
            0
        };
        let start = if first.0 > before {
            (first.0 - before) as nat
        } else {
            0
        };
        let end = if start + limit < len {
            start + limit
        } else {
            len
        };
        ((end - limit) as nat, end)
    }
}

/// The highlight of one occurrence inside a window, in UTF-16 code units.
pub open spec fn highlight(window: Seq<char>, start: nat, range: (usize, usize)) -> Tree {
    object().field("start"@, Tree::UInt(utf16_len(window.take(range.0 - start)) as u64)).field(
        "end"@,
        Tree::UInt(utf16_len(window.take(range.1 - start)) as u64),
    )
}

/// The highlights of the occurrences that lie inside a window.
pub open spec fn highlights(
    window: Seq<char>,
    start: nat,
    end: nat,
    ranges: Seq<(usize, usize)>,
) -> Seq<Tree>
    decreases ranges.len(),
{
    if ranges.len() == 0 {
        Seq::empty()
    } else {
        let rest = highlights(window, start, end, ranges.drop_last());
        if ranges.last().0 >= start && ranges.last().1 <= end {
            rest.push(highlight(window, start, ranges.last()))
        } else {
            rest
        }
    }
}

/// A text takes no more code units than twice its characters.
proof fn utf16_bound(text: Seq<char>)
    ensures
        utf16_len(text) <= 2 * text.len(),
    decreases text.len(),
{
    if text.len() > 0 {
        utf16_bound(text.drop_last());
    }
}

/// A window of a text around its first match, and the highlight ranges of every match inside it.
pub fn snippet_with_highlights(
    text: &str,
    occurrences: &Vec<(usize, usize)>,
    limit: usize,
) -> (result: (String, Vec<Json>))
    requires
        occurrences@.len() > 0,
        forall|i: int|
            0 <= i < occurrences@.len() ==> (#[trigger] occurrences@[i]).0 <= occurrences@[i].1
                <= text@.len(),
    ensures
        ({
            let (start, end) = snippet_window(text@.len(), occurrences@[0], limit as nat);
            let window = text@.subrange(start as int, end as int);
            &&& result.0@ == window
            &&& trees(result.1@) == highlights(window, start, end, occurrences@)
        }),
{
    let chars: Vec<char> = chars_of(text);
    let first: (usize, usize) = occurrences[0];
    let (window_start, window_end): (usize, usize) = if chars.len() <= limit {
        (0, chars.len())
    } else {
        let matched: usize = first.1 - first.0;
        let before: usize = if limit > matched {
            (limit - matched) / 2
        } else {
            0
        };
        let start: usize = if first.0 > before {
            first.0 - before
        } else {
            0
        };
        let end: usize = if limit < chars.len() - start {
            start + limit
        } else {
            chars.len()
        };
        (end - limit, end)
    };
    let ghost window = text@.subrange(window_start as int, window_end as int);
    let mut snippet: String = String::new();
    let mut offsets: Vec<u64> = Vec::new();
    let mut offset: u128 = 0;
    let mut i: usize = window_start;
    assert(window.take(0) =~= Seq::<char>::empty());
    while i < window_end
        invariant
            chars@ == text@,
            window_start <= i <= window_end <= chars@.len(),
            window == text@.subrange(window_start as int, window_end as int),
            snippet@ =~= window.take(i - window_start),
            offsets@.len() == i - window_start,
            offset == utf16_len(window.take(i - window_start)),
            forall|k: int|
                0 <= k < offsets@.len() ==> #[trigger] offsets@[k] == utf16_len(window.take(k)) as u64,
        decreases window_end - i,
    {
        let c: char = chars[i];
        proof {
            let k = i - window_start;
            assert(window.take(k + 1).drop_last() =~= window.take(k));
            assert(window.take(k + 1).last() == c);
            utf16_bound(window.take(k));
        }
        snippet.push(c);
        offsets.push(offset as u64);
        let width: u128 = if (c as u32) < 0x1_0000 {
            1
        } else {
            2
        };
        offset = offset + width;
        i += 1;
    }
    offsets.push(offset as u64);
    assert(window.take(window.len() as int) =~= window);
    let mut marks: Vec<Json> = Vec::new();
    assert(occurrences@.take(0) =~= Seq::<(usize, usize)>::empty());
    assert(trees(marks@) =~= highlights(
        window,
        window_start as nat,
        window_end as nat,
        occurrences@.take(0),
    ));
    for j in 0..occurrences.len()
        invariant
            window.len() == window_end - window_start,
            offsets@.len() == window.len() + 1,
            forall|k: int|
                0 <= k < offsets@.len() ==> #[trigger] offsets@[k] == utf16_len(window.take(k)) as u64,
            forall|i: int|
                0 <= i < occurrences@.len() ==> (#[trigger] occurrences@[i]).0 <= occurrences@[i].1,
            trees(marks@) == highlights(
                window,
                window_start as nat,
                window_end as nat,
                occurrences@.take(j as int),
            ),
    {
        let range: (usize, usize) = occurrences[j];
        let ghost before = trees(marks@);
        assert(occurrences@.take(j + 1).drop_last() =~= occurrences@.take(j as int));
        assert(occurrences@.take(j + 1).last() == range);
        assert(occurrences@[j as int] == range);
        if range.0 >= window_start && range.1 <= window_end {
            let mark: Json = Fields::new().with(
                "start",
                Json::UInt(offsets[range.0 - window_start]),
            ).with("end", Json::UInt(offsets[range.1 - window_start])).object();
            marks.push(mark);
            assert(trees(marks@) =~= before.push(
                highlight(window, window_start as nat, range),
            ));
        }
    }
    assert(occurrences@.take(occurrences@.len() as int) =~= occurrences@);
    (snippet, marks)
}

/// A match in a text: the snippet around it and where it came from.
pub open spec fn match_tree(source: Seq<char>, text: Seq<char>, needle: Seq<char>, seq: Tree) -> Tree {
    let ranges = occurrences_from(text, needle, 0);
    let (start, end) = snippet_window(text.len(), ranges[0], SEARCH_SNIPPET_CHARS as nat);
    let window = text.subrange(start as int, end as int);
    object().field("sourceKind"@, Tree::Str(source))
        .field("text"@, Tree::Str(window))
        .field("highlightRanges"@, Tree::Array(highlights(window, start, end, ranges)))
        .field("sourceSeq"@, seq)
}

/// Whether a text holds a needle.
pub open spec fn found_in(text: Seq<char>, needle: Seq<char>) -> bool {
    occurrences_from(text, needle, 0).len() > 0
}

/// A match in a text, where there is one.
fn match_in(source: &str, text: &str, needle: &str, seq: Json) -> (result: Option<Json>)
    ensures
        match result {
            Some(found) => found_in(text@, needle@) && found@ == match_tree(
                source@,
                text@,
                needle@,
                seq@,
            ),
            None => !found_in(text@, needle@),
        },
{
    let ranges: Vec<(usize, usize)> = find_occurrences(text, needle);
    if ranges.len() == 0 {
        return None;
    }
    let (snippet, marks) = snippet_with_highlights(text, &ranges, SEARCH_SNIPPET_CHARS);
    Some(
        Fields::new().with("sourceKind", Json::text(source))
            .with("text", Json::Str(snippet))
            .with("highlightRanges", Json::array(marks))
            .with("sourceSeq", seq)
            .object(),
    )
}

/// The word for where a message match came from.
pub open spec fn message_source(role: MessageRole) -> Seq<char> {
    match role {
        MessageRole::User => "user_message"@,
        MessageRole::Assistant => "assistant_message"@,
        MessageRole::System => "system_message"@,
    }
}

/// The matches in the messages of a log behind those already found, up to the most that one thread
/// is shown with.
pub open spec fn message_matches(
    found: Seq<Tree>,
    entries: Seq<ThreadEntry>,
    needle: Seq<char>,
) -> Seq<Tree>
    decreases entries.len(),
{
    if entries.len() == 0 || found.len() >= SEARCH_MAX_MATCHES_PER_THREAD {
        found
    } else {
        let head = entries[0];
        let rest = entries.drop_first();
        match head.event {
            DomainEvent::ThreadMessageAdded { message, .. } => if found_in(
                message.content@,
                needle,
            ) {
                message_matches(
                    found.push(
                        match_tree(
                            message_source(message.role),
                            message.content@,
                            needle,
                            Tree::UInt(head.sequence),
                        ),
                    ),
                    rest,
                    needle,
                )
            } else {
                message_matches(found, rest, needle)
            },
            _ => message_matches(found, rest, needle),
        }
    }
}

/// Everything a search finds in one thread: the title first, then the messages in log order.
pub open spec fn thread_matches(
    title: Option<Seq<char>>,
    entries: Seq<ThreadEntry>,
    needle: Seq<char>,
) -> Seq<Tree> {
    let titled = match title {
        Some(text) => if found_in(text, needle) {
            seq![match_tree("title"@, text, needle, Tree::Null)]
        } else {
            Seq::empty()
        },
        None => Seq::empty(),
    };
    message_matches(titled, entries, needle)
}

/// Everything a search finds in one thread.
pub fn thread_search_matches(
    title: &Option<String>,
    entries: &Vec<ThreadEntry>,
    needle_lower: &str,
) -> (result: Vec<Json>)
    ensures
        trees(result@) == thread_matches(opt_view(*title), entries@, needle_lower@),
{
    let mut found: Vec<Json> = Vec::new();
    if let Some(text) = title {
        if let Some(hit) = match_in("title", text.as_str(), needle_lower, Json::Null) {
            found.push(hit);
            assert(trees(found@) =~= seq![
                match_tree("title"@, text@, needle_lower@, Tree::Null),
            ]);
        } else {
            assert(trees(found@) =~= Seq::<Tree>::empty());
        }
    } else {
        assert(trees(found@) =~= Seq::<Tree>::empty());
    }
    let ghost wanted = thread_matches(opt_view(*title), entries@, needle_lower@);
    assert(entries@.skip(0) =~= entries@);
    let mut i: usize = 0;
    while i < entries.len() && found.len() < SEARCH_MAX_MATCHES_PER_THREAD
        invariant
            i <= entries@.len(),
            message_matches(trees(found@), entries@.skip(i as int), needle_lower@) == wanted,
        decreases entries.len() - i,
    {
        let entry: &ThreadEntry = &entries[i];
        let ghost rest = entries@.skip(i as int);
        let ghost before = trees(found@);
        assert(rest[0] == *entry);
        assert(rest.drop_first() =~= entries@.skip(i + 1));
        if let DomainEvent::ThreadMessageAdded { message, .. } = &entry.event {
            let source: &str = match message.role {
                MessageRole::User => "user_message",
                MessageRole::Assistant => "assistant_message",
                MessageRole::System => "system_message",
            };
            if let Some(hit) = match_in(
                source,
                message.content.as_str(),
                needle_lower,
                Json::UInt(entry.sequence),
            ) {
                found.push(hit);
                assert(trees(found@) =~= before.push(hit@));
            }
        }
        i += 1;
    }
    found
}

/// A result row.
pub open spec fn result_tree(record: ThreadRecord, needle: Seq<char>, directory: Directory) -> Tree {
    object().field("thread"@, list_entry_tree(record, directory)).field(
        "matches"@,
        Tree::Array(thread_matches(opt_view(record.thread.title), record.entries@, needle)),
    )
}

/// The threads of a group that match, as result rows.
pub open spec fn group_results(
    records: Seq<ThreadRecord>,
    archived: bool,
    needle: Seq<char>,
    directory: Directory,
) -> Seq<Tree>
    decreases records.len(),
{
    if records.len() == 0 {
        Seq::empty()
    } else {
        let rest = group_results(records.drop_last(), archived, needle, directory);
        let last = records.last();
        if (last.thread.status is Archived) == archived && thread_matches(
            opt_view(last.thread.title),
            last.entries@,
            needle,
        ).len() > 0 {
            rest.push(result_tree(last, needle, directory))
        } else {
            rest
        }
    }
}

/// A group as a search answers it: the first of its results, and how many there are.
pub open spec fn group_tree(results: Seq<Tree>, limit: u64) -> Tree {
    object().field(
        "results"@,
        Tree::Array(
            if results.len() > limit {
                results.take(limit as int)
            } else {
                results
            },
        ),
    ).field("total"@, Tree::UInt(results.len() as u64))
}

/// The most results of a group, as a query says.
pub open spec fn group_limit(raw: Option<Seq<char>>) -> Result<u64, ReplyView> {
    match query_number(raw, "limitPerGroup"@) {
        Ok(None) => Ok(SEARCH_DEFAULT_LIMIT_PER_GROUP),
        Ok(Some(n)) => Ok(
            if n < 1 {
                1
            } else if n > SEARCH_MAX_LIMIT_PER_GROUP {
                SEARCH_MAX_LIMIT_PER_GROUP
            } else {
                n
            },
        ),
        Err(refusal) => Err(refusal),
    }
}

/// The answer to a search for a needle that is in lower case already.
pub open spec fn search_view(directory: Directory, needle: Seq<char>, limit: u64) -> ReplyView {
    ok_view(
        object().field(
            "active"@,
            group_tree(group_results(directory.records@, false, needle, directory), limit),
        ).field(
            "archived"@,
            group_tree(group_results(directory.records@, true, needle, directory), limit),
        ),
    )
}

/// A group being filled: its rows up to the limit, and the count of all.
struct Group {
    rows: Vec<Json>,
    total: u64,
}

/// Whether a group holds the first of some results and their count.
spec fn group_holds(group: Group, results: Seq<Tree>, limit: u64) -> bool {
    &&& group.total == results.len()
    &&& trees(group.rows@) == (if results.len() > limit {
        results.take(limit as int)
    } else {
        results
    })
}

/// Adds a result to a group.
fn add_result(
    group: Group,
    record: &ThreadRecord,
    matches: Vec<Json>,
    limit: u64,
    directory: &Directory,
    Ghost(results): Ghost<Seq<Tree>>,
) -> (result: Group)
    requires
        group_holds(group, results, limit),
        results.len() < u64::MAX,
    ensures
        group_holds(
            result,
            results.push(
                object().field("thread"@, list_entry_tree(*record, *directory)).field(
                    "matches"@,
                    Tree::Array(trees(matches@)),
                ),
            ),
            limit,
        ),
{
    let mut rows: Vec<Json> = group.rows;
    let ghost before = trees(rows@);
    let ghost tree = object().field("thread"@, list_entry_tree(*record, *directory)).field(
        "matches"@,
        Tree::Array(trees(matches@)),
    );
    assert(before.len() == rows@.len());
    if (rows.len() as u64) < limit {
        rows.push(
            Fields::new().with("thread", thread_list_entry_value(record, directory)).with(
                "matches",
                Json::array(matches),
            ).object(),
        );
        assert(trees(rows@) =~= before.push(tree));
    } else {
        proof {
            if results.len() > limit {
                assert(results.push(tree).take(limit as int) =~= results.take(limit as int));
            } else {
                assert(results.push(tree).take(limit as int) =~= results);
            }
        }
    }
    Group { rows, total: group.total + 1 }
}

/// Searches threads for a needle that is in lower case already.
pub fn search_lowered(directory: &Directory, needle_lower: &str, limit: u64) -> (result: Reply)
    ensures
        result@ == search_view(*directory, needle_lower@, limit),
{
    let records: &Vec<ThreadRecord> = &directory.records;
    let mut active = Group { rows: Vec::new(), total: 0 };
    let mut archived = Group { rows: Vec::new(), total: 0 };
    assert(records@.take(0) =~= Seq::<ThreadRecord>::empty());
    assert(trees(active.rows@) =~= Seq::<Tree>::empty());
    assert(trees(archived.rows@) =~= Seq::<Tree>::empty());
    for i in 0..records.len()
        invariant
            records == directory.records,
            group_holds(
                active,
                group_results(records@.take(i as int), false, needle_lower@, *directory),
                limit,
            ),
            group_holds(
                archived,
                group_results(records@.take(i as int), true, needle_lower@, *directory),
                limit,
            ),
            group_results(records@.take(i as int), false, needle_lower@, *directory).len() <= i,
            group_results(records@.take(i as int), true, needle_lower@, *directory).len() <= i,
    {
        let record: &ThreadRecord = &records[i];
        assert(records@.take(i + 1).drop_last() =~= records@.take(i as int));
        assert(records@.take(i + 1).last() == *record);
        let matches: Vec<Json> = thread_search_matches(
            &record.thread.title,
            &record.entries,
            needle_lower,
        );
        assert(trees(matches@).len() == matches@.len());
        let set_aside: bool = matches!(record.thread.status, ThreadStatus::Archived);
        if matches.len() > 0 {
            let ghost so_far = group_results(
                records@.take(i as int),
                set_aside,
                needle_lower@,
                *directory,
            );
            if set_aside {
                archived = add_result(archived, record, matches, limit, directory, Ghost(so_far));
            } else {
                active = add_result(active, record, matches, limit, directory, Ghost(so_far));
            }
        }
    }
    assert(records@.take(records@.len() as int) =~= records@);
    let active_group: Json = Fields::new().with("results", Json::array(active.rows)).with(
        "total",
        Json::UInt(active.total),
    ).object();
    let archived_group: Json = Fields::new().with("results", Json::array(archived.rows)).with(
        "total",
        Json::UInt(archived.total),
    ).object();
    ok(Fields::new().with("active", active_group).with("archived", archived_group).object())
}

/// The answer to a search: a case-insensitive substring search over titles and messages, split
/// into active and archived groups.
pub fn search_threads(
    query: &str,
    limit_per_group: &Option<String>,
    directory: &Directory,
) -> (result: Reply)
    ensures
        result@ == (if query@.len() < 2 {
            coded_error(400, "invalid_request"@, "query must be at least 2 characters"@)
        } else {
            match group_limit(opt_view(*limit_per_group)) {
                Err(refusal) => refusal,
                Ok(limit) => search_view(*directory, lowercase_text(query@), limit),
            }
        }),
{
    let chars: Vec<char> = chars_of(query);
    if chars.len() < 2 {
        return error_response_with_code(
            400,
            "invalid_request",
            "query must be at least 2 characters".to_owned(),
        );
    }
    let limit: u64 = match parse_query_sequence(limit_per_group, "limitPerGroup") {
        Ok(None) => SEARCH_DEFAULT_LIMIT_PER_GROUP,
        Ok(Some(n)) => if n < 1 {
            1
        } else if n > SEARCH_MAX_LIMIT_PER_GROUP {
            SEARCH_MAX_LIMIT_PER_GROUP
        } else {
            n
        },
        Err(reply) => {
            return reply;
        },
    };
    let needle: String = to_lowercase(query);
    search_lowered(directory, needle.as_str(), limit)
}

/// A text on one line: each stretch of white space between words is one space, and there is none
/// at either end.
pub open spec fn collapsed(text: Seq<char>) -> Seq<char>
    decreases text.len(),
{
    if text.len() == 0 {
        text
    } else {
        let before = collapsed(text.drop_last());
        let c = text.last();
        if whitespace(c) {
            before
        } else if before.len() > 0 && whitespace(text[text.len() - 2]) {
            before.push(' ').push(c)
        } else {
            before.push(c)
        }
    }
}

/// A one-line preview of a text: white space collapsed, then cut with an ellipsis.
pub open spec fn preview(text: Seq<char>, limit: nat) -> Seq<char> {
    let line = collapsed(text);
    if line.len() <= limit {
        line
    } else {
        line.take(limit as int).push('\u{2026}')
    }
}

/// A one-line preview of a text.
pub fn preview_text(text: &str, limit: usize) -> (result: String)
    ensures
        result@ == preview(text@, limit as nat),
{
    let chars: Vec<char> = chars_of(text);
    let mut line: Vec<char> = Vec::new();
    let mut spaced: bool = false;
    assert(text@.take(0) =~= Seq::<char>::empty());
    for i in 0..chars.len()
        invariant
            chars@ == text@,
            line@ == collapsed(text@.take(i as int)),
            spaced == (i > 0 && whitespace(text@[i - 1])),
    {
        let c: char = chars[i];
        let ghost upto = text@.take(i + 1);
        assert(upto.drop_last() =~= text@.take(i as int));
        assert(upto.last() == c);
        if i > 0 {
            assert(upto[upto.len() - 2] == text@[i - 1]);
        }
        if c.is_whitespace() {
            spaced = true;
        } else {
            if line.len() > 0 && spaced {
                line.push(' ');
            }
            line.push(c);
            spaced = false;
        }
    }
    assert(text@.take(text@.len() as int) =~= text@);
    if line.len() <= limit {
        return text_from(line.as_slice());
    }
    let ghost whole = line@;
    line.truncate(limit);
    line.push('\u{2026}');
    assert(line@ =~= whole.take(limit as int).push('\u{2026}'));
    text_from(line.as_slice())
}

/// A preview is never longer than its limit and the ellipsis.
pub proof fn previews_are_short(text: Seq<char>, limit: nat)
    ensures
        preview(text, limit).len() <= limit + 1,
{
}

/// The occurrences that a search reports do not overlap and follow one another.
pub proof fn occurrences_do_not_overlap(text: Seq<char>, needle: Seq<char>, at: nat, i: int, j: int)
    requires
        text.len() <= usize::MAX,
        0 <= i < j < occurrences_from(text, needle, at).len(),
    ensures
        at <= occurrences_from(text, needle, at)[i].0,
        occurrences_from(text, needle, at)[i].1 <= occurrences_from(text, needle, at)[j].0,
    decreases text.len() - at,
{
    if hits(text, needle, at as int) {
        let rest = occurrences_from(text, needle, at + needle.len());
        if i > 0 {
            occurrences_do_not_overlap(text, needle, at + needle.len(), i - 1, j - 1);
        } else {
            occurrences_start_late(text, needle, at + needle.len(), j - 1);
        }
    } else {
        occurrences_do_not_overlap(text, needle, at + 1, i, j);
    }
}

/// Occurrences from a place on begin there or later.
proof fn occurrences_start_late(text: Seq<char>, needle: Seq<char>, at: nat, i: int)
    requires
        text.len() <= usize::MAX,
        0 <= i < occurrences_from(text, needle, at).len(),
    ensures
        at <= occurrences_from(text, needle, at)[i].0,
    decreases text.len() - at,
{
    if hits(text, needle, at as int) {
        if i > 0 {
            occurrences_start_late(text, needle, at + needle.len(), i - 1);
        }
    } else {
        occurrences_start_late(text, needle, at + 1, i);
    }
}

/// Whether the characters of a text from a place on are those of a needle, each in lower case.
pub open spec fn reads(text: Seq<char>, needle: Seq<char>, at: int) -> bool {
    &&& 0 <= at <= text.len() - needle.len()
    &&& forall|k: int|
        0 <= k < needle.len() ==> lowercase(text[at + k]) == seq![#[trigger] needle[k]]
}

/// Whether a needle that is not empty stands somewhere in a text, whatever the case of the text.
pub open spec fn stands_in(text: Seq<char>, needle: Seq<char>) -> bool {
    needle.len() > 0 && exists|at: int| #[trigger] reads(text, needle, at)
}

/// Whether a needle stands in a thread: in its title, or in what some message of its log says.
pub open spec fn stands_in_thread(record: ThreadRecord, needle: Seq<char>) -> bool {
    ||| record.thread.title matches Some(title) && stands_in(title@, needle)
    ||| exists|i: int|
        0 <= i < record.entries@.len() && (#[trigger] record.entries@[i]).event
            is ThreadMessageAdded && stands_in(
            record.entries@[i].event->ThreadMessageAdded_message.content@,
            needle,
        )
}

/// Whether one of some ranges covers a place.
pub open spec fn covered(ranges: Seq<(usize, usize)>, at: int) -> bool {
    exists|k: int| 0 <= k < ranges.len() && (#[trigger] ranges[k]).0 <= at < ranges[k].1
}

/// A range is reported exactly where the needle stands: every reported range is as long as the
/// needle and reads as the needle does, and wherever the needle stands a reported range covers the
/// place.
pub proof fn ranges_are_where_the_needle_stands(text: Seq<char>, needle: Seq<char>, at: nat)
    requires
        needle.len() > 0,
        text.len() <= usize::MAX,
    ensures
        forall|k: int|
            0 <= k < occurrences_from(text, needle, at).len() ==> {
                let range = #[trigger] occurrences_from(text, needle, at)[k];
                &&& range.0 >= at
                &&& range.1 == range.0 + needle.len()
                &&& reads(text, needle, range.0 as int)
            },
        forall|place: int|
            place >= at && #[trigger] reads(text, needle, place) ==> covered(
                occurrences_from(text, needle, at),
                place,
            ),
    decreases text.len() - at,
{
    let found = occurrences_from(text, needle, at);
    if at + needle.len() <= text.len() {
        let hit = hits(text, needle, at as int);
        assert(hit == reads(text, needle, at as int));
        if hit {
            let rest = occurrences_from(text, needle, at + needle.len());
            ranges_are_where_the_needle_stands(text, needle, at + needle.len());
            assert(found[0] == (at as usize, (at + needle.len()) as usize));
            assert forall|k: int| 0 <= k < found.len() implies {
                let range = #[trigger] found[k];
                &&& range.0 >= at
                &&& range.1 == range.0 + needle.len()
                &&& reads(text, needle, range.0 as int)
            } by {
                if k > 0 {
                    assert(found[k] == rest[k - 1]);
                }
            }
            assert forall|place: int| place >= at && #[trigger] reads(
                text,
                needle,
                place,
            ) implies covered(found, place) by {
                if place >= at + needle.len() {
                    assert(covered(rest, place));
                    let k = choose|k: int|
                        0 <= k < rest.len() && (#[trigger] rest[k]).0 <= place < rest[k].1;
                    assert(found[k + 1] == rest[k]);
                } else {
                    assert(found[0].0 <= place < found[0].1);
                }
            }
        } else {
            let rest = occurrences_from(text, needle, at + 1);
            ranges_are_where_the_needle_stands(text, needle, at + 1);
            assert(found == rest);
            assert forall|k: int| 0 <= k < found.len() implies {
                let range = #[trigger] found[k];
                &&& range.0 >= at
                &&& range.1 == range.0 + needle.len()
                &&& reads(text, needle, range.0 as int)
            } by {
                assert(found[k] == rest[k]);
            }
        }
    }
}

/// A needle is found in a text exactly where it stands somewhere in it.
proof fn found_where_it_stands(text: Seq<char>, needle: Seq<char>, at: nat)
    requires
        needle.len() > 0,
    ensures
        occurrences_from(text, needle, at).len() > 0 <==> exists|place: int|
            place >= at && #[trigger] reads(text, needle, place),
    decreases text.len() - at,
{
    if at + needle.len() <= text.len() {
        assert(hits(text, needle, at as int) == reads(text, needle, at as int));
        if !hits(text, needle, at as int) {
            found_where_it_stands(text, needle, at + 1);
        }
    }
}

/// A text counts as found exactly where the needle stands somewhere in it.
pub proof fn texts_are_found_where_the_needle_stands(text: Seq<char>, needle: Seq<char>)
    ensures
        found_in(text, needle) <==> stands_in(text, needle),
{
    if needle.len() > 0 {
        found_where_it_stands(text, needle, 0);
    }
}

/// There is a match behind those already found exactly where some message says the needle.
proof fn messages_match_where_the_needle_stands(
    found: Seq<Tree>,
    entries: Seq<ThreadEntry>,
    needle: Seq<char>,
)
    ensures
        message_matches(found, entries, needle).len() > 0 <==> found.len() > 0 || exists|i: int|
            0 <= i < entries.len() && (#[trigger] entries[i]).event is ThreadMessageAdded
                && stands_in(entries[i].event->ThreadMessageAdded_message.content@, needle),
        message_matches(found, entries, needle).len() <= (if found.len() > 5 {
            found.len()
        } else {
            5
        }),
    decreases entries.len(),
{
    if entries.len() > 0 && found.len() < SEARCH_MAX_MATCHES_PER_THREAD {
        let head = entries[0];
        let rest = entries.drop_first();
        let now = match head.event {
            DomainEvent::ThreadMessageAdded { message, .. } => {
                texts_are_found_where_the_needle_stands(message.content@, needle);
                if found_in(message.content@, needle) {
                    found.push(
                        match_tree(
                            message_source(message.role),
                            message.content@,
                            needle,
                            Tree::UInt(head.sequence),
                        ),
                    )
                } else {
                    found
                }
            },
            _ => found,
        };
        messages_match_where_the_needle_stands(now, rest, needle);
        if exists|i: int|
            0 <= i < entries.len() && (#[trigger] entries[i]).event is ThreadMessageAdded
                && stands_in(entries[i].event->ThreadMessageAdded_message.content@, needle) {
            let i = choose|i: int|
                0 <= i < entries.len() && (#[trigger] entries[i]).event is ThreadMessageAdded
                    && stands_in(entries[i].event->ThreadMessageAdded_message.content@, needle);
            if i > 0 {
                assert(rest[i - 1] == entries[i]);
            }
        }
        if exists|i: int|
            0 <= i < rest.len() && (#[trigger] rest[i]).event is ThreadMessageAdded && stands_in(
                rest[i].event->ThreadMessageAdded_message.content@,
                needle,
            ) {
            let i = choose|i: int|
                0 <= i < rest.len() && (#[trigger] rest[i]).event is ThreadMessageAdded
                    && stands_in(rest[i].event->ThreadMessageAdded_message.content@, needle);
            assert(entries[i + 1] == rest[i]);
        }
    }
}

/// A thread has matches exactly where the needle stands in its title or in what some message of its
/// log says, and never more than it may be shown with.
pub proof fn threads_match_where_the_needle_stands(record: ThreadRecord, needle: Seq<char>)
    ensures
        thread_matches(opt_view(record.thread.title), record.entries@, needle).len() > 0
            <==> stands_in_thread(record, needle),
        thread_matches(opt_view(record.thread.title), record.entries@, needle).len() <= 5,
{
    let titled = match record.thread.title {
        Some(title) => {
            texts_are_found_where_the_needle_stands(title@, needle);
            if found_in(title@, needle) {
                seq![match_tree("title"@, title@, needle, Tree::Null)]
            } else {
                Seq::<Tree>::empty()
            }
        },
        None => Seq::<Tree>::empty(),
    };
    messages_match_where_the_needle_stands(titled, record.entries@, needle);
}

/// The places of the threads of a group in which a needle stands: the archived ones make one group,
/// all others the other.
pub open spec fn counted(records: Seq<ThreadRecord>, archived: bool, needle: Seq<char>) -> Set<int> {
    Set::new(
        |i: int|
            0 <= i < records.len() && (records[i].thread.status == ThreadStatus::Archived
                <==> archived) && stands_in_thread(records[i], needle),
    )
}

/// A group has as many results as there are threads of it in which the needle stands.
proof fn results_are_of_counted_threads(
    records: Seq<ThreadRecord>,
    archived: bool,
    needle: Seq<char>,
    directory: Directory,
)
    ensures
        counted(records, archived, needle).finite(),
        group_results(records, archived, needle, directory).len() == counted(
            records,
            archived,
            needle,
        ).len(),
    decreases records.len(),
{
    let now = counted(records, archived, needle);
    if records.len() == 0 {
        assert(now =~= Set::<int>::empty());
    } else {
        let rest = records.drop_last();
        let n = records.len() - 1;
        let before = counted(rest, archived, needle);
        results_are_of_counted_threads(rest, archived, needle, directory);
        threads_match_where_the_needle_stands(records[n], needle);
        counted_with_last(records, archived, needle);
        assert(!before.contains(n));
    }
}

/// What one thread more adds to those that are counted.
proof fn counted_with_last(records: Seq<ThreadRecord>, archived: bool, needle: Seq<char>)
    requires
        records.len() > 0,
    ensures
        ({
            let n = records.len() - 1;
            let before = counted(records.drop_last(), archived, needle);
            &&& counted(records, archived, needle) == (if (records[n].thread.status
                == ThreadStatus::Archived <==> archived) && stands_in_thread(records[n], needle) {
                before.insert(n)
            } else {
                before
            })
            &&& !before.contains(n)
        }),
{
    let rest = records.drop_last();
    let n = records.len() - 1;
    let before = counted(rest, archived, needle);
    let now = counted(records, archived, needle);
    assert forall|i: int| i != n implies now.contains(i) == before.contains(i) by {
        if 0 <= i < n {
            assert(rest[i] == records[i]);
        }
    }
    if now.contains(n) {
        assert(now =~= before.insert(n));
    } else {
        assert(now =~= before);
    }
}

/// Every thread of a group in which the needle stands has its result in the group, and every result
/// is one of those.
pub proof fn results_are_rows_of_their_threads(
    records: Seq<ThreadRecord>,
    archived: bool,
    needle: Seq<char>,
    directory: Directory,
    row: Tree,
)
    ensures
        group_results(records, archived, needle, directory).contains(row) <==> exists|i: int|
            0 <= i < records.len() && ((#[trigger] records[i]).thread.status
                == ThreadStatus::Archived <==> archived) && stands_in_thread(records[i], needle)
                && row == result_tree(records[i], needle, directory),
    decreases records.len(),
{
    let results = group_results(records, archived, needle, directory);
    if records.len() > 0 {
        let rest = records.drop_last();
        let n = records.len() - 1;
        let old_results = group_results(rest, archived, needle, directory);
        results_are_rows_of_their_threads(rest, archived, needle, directory, row);
        threads_match_where_the_needle_stands(records[n], needle);
        if results.contains(row) {
            let k = choose|k: int| 0 <= k < results.len() && results[k] == row;
            if k < old_results.len() {
                assert(old_results[k] == row);
                assert(old_results.contains(row));
                let i = choose|i: int|
                    0 <= i < rest.len() && ((#[trigger] rest[i]).thread.status
                        == ThreadStatus::Archived <==> archived) && stands_in_thread(
                        rest[i],
                        needle,
                    ) && row == result_tree(rest[i], needle, directory);
                assert(records[i] == rest[i]);
            } else {
                assert(row == result_tree(records[n], needle, directory));
            }
        }
        if exists|i: int|
            0 <= i < records.len() && ((#[trigger] records[i]).thread.status
                == ThreadStatus::Archived <==> archived) && stands_in_thread(records[i], needle)
                && row == result_tree(records[i], needle, directory) {
            let i = choose|i: int|
                0 <= i < records.len() && ((#[trigger] records[i]).thread.status
                    == ThreadStatus::Archived <==> archived) && stands_in_thread(
                    records[i],
                    needle,
                ) && row == result_tree(records[i], needle, directory);
            if i < n {
                assert(rest[i] == records[i]);
                assert(old_results.contains(row));
                let k = choose|k: int| 0 <= k < old_results.len() && old_results[k] == row;
                assert(results[k] == row);
            } else {
                assert(results[old_results.len() as int] == row);
            }
        }
    }
}

/// A thread counts towards its group exactly where the query stands, whatever the case, in its title
/// or in what some message of its log says. A group shows as many of them as it may, and none is
/// counted twice.
pub proof fn searches_count_where_the_needle_stands(
    directory: Directory,
    needle: Seq<char>,
    limit: u64,
)
    ensures
        ({
            let answer = search_view(directory, needle, limit).body;
            let active = member(answer, "active"@);
            let archived = member(answer, "archived"@);
            let live = counted(directory.records@, false, needle);
            let aside = counted(directory.records@, true, needle);
            &&& search_view(directory, needle, limit).status == 200
            &&& active is Some
            &&& archived is Some
            &&& live.finite()
            &&& aside.finite()
            &&& member(active->0, "total"@) == Some(Tree::UInt(live.len() as u64))
            &&& member(archived->0, "total"@) == Some(Tree::UInt(aside.len() as u64))
            &&& live.len() <= u64::MAX
            &&& aside.len() <= u64::MAX
            &&& (member(active->0, "results"@) matches Some(Tree::Array(shown)) && shown.len() == (
            if live.len() > limit {
                limit as nat
            } else {
                live.len()
            }))
            &&& (member(archived->0, "results"@) matches Some(Tree::Array(shown)) && shown.len()
                == (if aside.len() > limit {
                limit as nat
            } else {
                aside.len()
            }))
        }),
{
    broadcast use member_of_field;

    results_are_of_counted_threads(directory.records@, false, needle, directory);
    results_are_of_counted_threads(directory.records@, true, needle, directory);
    counted_are_few(directory.records@, false, needle);
    counted_are_few(directory.records@, true, needle);
    assert(directory.records.len() == directory.records@.len());
    reveal_strlit("total");
    reveal_strlit("active");
    reveal_strlit("results");
    reveal_strlit("archived");
    assert("total"@.len() == 5);
    assert("active"@.len() == 6);
    assert("results"@.len() == 7);
    assert("archived"@.len() == 8);
}

/// No more threads are counted than there are.
proof fn counted_are_few(records: Seq<ThreadRecord>, archived: bool, needle: Seq<char>)
    ensures
        counted(records, archived, needle).len() <= records.len(),
    decreases records.len(),
{
    if records.len() == 0 {
        assert(counted(records, archived, needle) =~= Set::<int>::empty());
    } else {
        counted_are_few(records.drop_last(), archived, needle);
        counted_with_last(records, archived, needle);
        counted_are_finite(records.drop_last(), archived, needle);
    }
}

/// What is counted is finite.
proof fn counted_are_finite(records: Seq<ThreadRecord>, archived: bool, needle: Seq<char>)
    ensures
        counted(records, archived, needle).finite(),
{
    let places = vstd::set_lib::set_int_range(0, records.len() as int);
    vstd::set_lib::lemma_int_range(0, records.len() as int);
    assert(counted(records, archived, needle).subset_of(places));
    vstd::set_lib::lemma_set_subset_finite(places, counted(records, archived, needle));
}

/// What is shown of a matched text is as much of it as may be shown, from its start or around its
/// first match, and the whole match where that fits.
pub proof fn snippets_show_the_first_match(len: nat, first: (usize, usize), limit: nat)
    requires
        first.0 <= first.1 <= len,
    ensures
        ({
            let (start, end) = snippet_window(len, first, limit);
            &&& start <= end <= len
            &&& end - start == (if len < limit {
                len
            } else {
                limit
            })
            &&& first.1 - first.0 <= limit ==> start <= first.0 && first.1 <= end
        }),
{
}

/// A match says where it was found and shows the text around it.
pub proof fn matches_say_where_they_were_found(
    source: Seq<char>,
    text: Seq<char>,
    needle: Seq<char>,
    seq: Tree,
)
    ensures
        ({
            let found = match_tree(source, text, needle, seq);
            let (start, end) = snippet_window(
                text.len(),
                occurrences_from(text, needle, 0)[0],
                SEARCH_SNIPPET_CHARS as nat,
            );
            &&& member(found, "sourceKind"@) == Some(Tree::Str(source))
            &&& member(found, "text"@) == Some(
                Tree::Str(text.subrange(start as int, end as int)),
            )
            &&& member(found, "sourceSeq"@) == Some(seq)
            &&& text.len() <= 200 ==> member(found, "text"@) == Some(Tree::Str(text))
        }),
{
    broadcast use member_of_field;

    assert(text.subrange(0, text.len() as int) =~= text);
    reveal_strlit("text");
    reveal_strlit("sourceSeq");
    reveal_strlit("sourceKind");
    reveal_strlit("highlightRanges");
    assert("text"@.len() == 4);
    assert("sourceSeq"@.len() == 9);
    assert("sourceKind"@.len() == 10);
    assert("highlightRanges"@.len() == 15);
}

/// The first thing a search finds in a thread is its title, where the needle stands in it; every
/// message that says the needle is found under its own kind and at its own place, until there are
/// as many as the thread may be shown with.
pub proof fn titles_are_found_first(title: Seq<char>, entries: Seq<ThreadEntry>, needle: Seq<char>)
    requires
        stands_in(title, needle),
    ensures
        thread_matches(Some(title), entries, needle).len() > 0,
        member(thread_matches(Some(title), entries, needle)[0], "sourceKind"@) == Some(
            Tree::Str("title"@),
        ),
        member(thread_matches(Some(title), entries, needle)[0], "sourceSeq"@) == Some(Tree::Null),
{
    texts_are_found_where_the_needle_stands(title, needle);
    let titled = seq![match_tree("title"@, title, needle, Tree::Null)];
    earlier_matches_stay(titled, entries, needle);
    matches_say_where_they_were_found("title"@, title, needle, Tree::Null);
    assert(thread_matches(Some(title), entries, needle)[0] == titled[0]);
}

/// What was found stays in front.
proof fn earlier_matches_stay(found: Seq<Tree>, entries: Seq<ThreadEntry>, needle: Seq<char>)
    ensures
        message_matches(found, entries, needle).len() >= found.len(),
        forall|k: int|
            0 <= k < found.len() ==> #[trigger] message_matches(found, entries, needle)[k]
                == found[k],
    decreases entries.len(),
{
    if entries.len() > 0 && found.len() < SEARCH_MAX_MATCHES_PER_THREAD {
        let head = entries[0];
        let rest = entries.drop_first();
        match head.event {
            DomainEvent::ThreadMessageAdded { message, .. } => {
                let hit = match_tree(
                    message_source(message.role),
                    message.content@,
                    needle,
                    Tree::UInt(head.sequence),
                );
                if found_in(message.content@, needle) {
                    earlier_matches_stay(found.push(hit), rest, needle);
                    assert forall|k: int| 0 <= k < found.len() implies #[trigger] message_matches(
                        found,
                        entries,
                        needle,
                    )[k] == found[k] by {
                        assert(found.push(hit)[k] == found[k]);
                    }
                } else {
                    earlier_matches_stay(found, rest, needle);
                }
            },
            _ => {
                earlier_matches_stay(found, rest, needle);
            },
        }
    }
}

/// A thread without a title is shown with its one message that says the needle: under the kind of
/// who wrote it, at its place in the log.
pub proof fn messages_are_found_at_their_place(entry: ThreadEntry, needle: Seq<char>)
    requires
        entry.event is ThreadMessageAdded,
        stands_in(entry.event->ThreadMessageAdded_message.content@, needle),
    ensures
        ({
            let found = thread_matches(None, seq![entry], needle);
            let message = entry.event->ThreadMessageAdded_message;
            &&& found.len() == 1
            &&& member(found[0], "sourceSeq"@) == Some(Tree::UInt(entry.sequence))
            &&& message.role == MessageRole::User ==> member(found[0], "sourceKind"@) == Some(
                Tree::Str("user_message"@),
            )
            &&& message.role == MessageRole::Assistant ==> member(found[0], "sourceKind"@) == Some(
                Tree::Str("assistant_message"@),
            )
            &&& message.role == MessageRole::System ==> member(found[0], "sourceKind"@) == Some(
                Tree::Str("system_message"@),
            )
        }),
{
    reveal_with_fuel(message_matches, 3);
    let message = entry.event->ThreadMessageAdded_message;
    texts_are_found_where_the_needle_stands(message.content@, needle);
    matches_say_where_they_were_found(
        message_source(message.role),
        message.content@,
        needle,
        Tree::UInt(entry.sequence),
    );
}

// What a search promises.

/// A search needs at least two characters; a limit that cannot be read is refused. Otherwise it is
/// for the query in lower case, with twenty results to a group where nothing is asked, at least one
/// and at most a hundred.
pub proof fn short_queries_are_refused(
    query: &str,
    limit: Option<String>,
    directory: Directory,
    number: Result<Option<u64>, Reply>,
    answer: Reply,
)
    requires
        call_ensures(search_threads, (query, &limit, &directory), answer),
        call_ensures(parse_query_sequence, (&limit, "limitPerGroup"), number),
    ensures
        query@.len() < 2 ==> refuses(answer@, 400, "invalid_request"@, "query must be at least 2 characters"@),
        query@.len() >= 2 && number is Err ==> answer@ == number->Err_0@,
        (query@.len() >= 2 && number is Ok) ==> {
            let asked = number->Ok_0;
            let most = if asked is None { 20 } else if asked->0 < 1 { 1 } else if asked->0 > 100 { 100 } else { asked->0 };
            answer@ == search_view(directory, lowercase_text(query@), most)
        },
{
    broadcast use {crate::json::member_of_field, crate::reply::errors_say_what_is_wrong};

}

/// A search for a needle is answered with the groups that were counted.
pub proof fn searches_are_answered_as_counted(
    directory: Directory,
    needle: &str,
    limit: u64,
    answer: Reply,
)
    requires
        call_ensures(search_lowered, (&directory, needle, limit), answer),
    ensures
        answer@ == search_view(directory, needle@, limit),
        answer@.status == 200,
{
}

/// Whatever is found reads as the needle does, and the needle stands nowhere without being found.
pub proof fn occurrences_are_found_where_the_needle_stands(
    text: &str,
    needle: &str,
    found: Vec<(usize, usize)>,
    k: int,
    place: int,
)
    requires
        call_ensures(find_occurrences, (text, needle), found),
        needle@.len() > 0,
        text@.len() <= usize::MAX,
    ensures
        0 <= k < found@.len() ==> found@[k].1 == found@[k].0 + needle@.len() && reads(text@, needle@, found@[k].0 as int),
        place >= 0 && reads(text@, needle@, place) ==> covered(found@, place),
{
    ranges_are_where_the_needle_stands(text@, needle@, 0);
    if 0 <= k < found@.len() {
        let range = occurrences_from(text@, needle@, 0)[k];
        assert(range == found@[k]);
    }
}

/// A text without white space is its own line, and one of white space alone has an empty line.
pub proof fn plain_texts_are_their_line(text: Seq<char>)
    ensures
        (forall|i: int| 0 <= i < text.len() ==> !whitespace(#[trigger] text[i])) ==> collapsed(text)
            == text,
        collapsed(text).len() == 0 <==> forall|i: int|
            0 <= i < text.len() ==> whitespace(#[trigger] text[i]),
    decreases text.len(),
{
    if text.len() > 0 {
        let rest = text.drop_last();
        plain_texts_are_their_line(rest);
        assert(text[text.len() - 1] == text.last());
        if forall|i: int| 0 <= i < text.len() ==> !whitespace(#[trigger] text[i]) {
            assert forall|i: int| 0 <= i < rest.len() implies !whitespace(#[trigger] rest[i]) by {
                assert(rest[i] == text[i]);
            }
            if rest.len() > 0 {
                assert(!whitespace(text[text.len() - 2]));
            }
            assert(rest.push(text.last()) =~= text);
        }
        if whitespace(text.last()) {
            if collapsed(rest).len() == 0 {
                assert forall|i: int| 0 <= i < text.len() implies whitespace(#[trigger] text[i]) by {
                    if i < rest.len() {
                        assert(rest[i] == text[i]);
                    }
                }
            } else if forall|i: int| 0 <= i < text.len() ==> whitespace(#[trigger] text[i]) {
                assert forall|i: int| 0 <= i < rest.len() implies whitespace(#[trigger] rest[i]) by {
                    assert(rest[i] == text[i]);
                }
            }
        } else {
            assert(!whitespace(text[text.len() - 1]));
        }
    }
}

/// White space behind a text does not change its line.
proof fn trailing_space_adds_nothing(a: Seq<char>, b: Seq<char>)
    requires
        forall|i: int| 0 <= i < b.len() ==> whitespace(#[trigger] b[i]),
    ensures
        collapsed(a + b) == collapsed(a),
    decreases b.len(),
{
    if b.len() == 0 {
        assert(a + b =~= a);
    } else {
        let less = b.drop_last();
        assert forall|i: int| 0 <= i < less.len() implies whitespace(#[trigger] less[i]) by {
            assert(less[i] == b[i]);
        }
        trailing_space_adds_nothing(a, less);
        assert((a + b).drop_last() =~= a + less);
        assert((a + b).last() == b[b.len() - 1]);
    }
}

/// White space between two parts of a text that both say something is one space in its line.
pub proof fn white_space_between_words_is_one_space(a: Seq<char>, space: char, b: Seq<char>)
    requires
        whitespace(space),
        collapsed(a).len() > 0,
        collapsed(b).len() > 0,
    ensures
        collapsed(a + seq![space] + b) == collapsed(a) + seq![' '] + collapsed(b),
    decreases b.len(),
{
    let whole = a + seq![space] + b;
    let less = b.drop_last();
    let shorter = a + seq![space] + less;
    let c = b.last();
    assert(whole.drop_last() =~= shorter);
    assert(whole.last() == c);
    assert(whole[whole.len() - 2] == shorter[shorter.len() - 1]);
    plain_texts_are_their_line(less);
    if collapsed(less).len() > 0 {
        white_space_between_words_is_one_space(a, space, less);
        assert(shorter[shorter.len() - 1] == less[less.len() - 1]);
        assert(b[b.len() - 2] == less[less.len() - 1]);
        assert(collapsed(whole) =~= collapsed(a) + seq![' '] + collapsed(b));
    } else {
        let blanks = seq![space] + less;
        assert forall|i: int| 0 <= i < blanks.len() implies whitespace(#[trigger] blanks[i]) by {
            if i > 0 {
                assert(blanks[i] == less[i - 1]);
            }
        }
        trailing_space_adds_nothing(a, blanks);
        assert(shorter =~= a + blanks);
        assert(shorter[shorter.len() - 1] == blanks[blanks.len() - 1]);
        assert(!whitespace(c));
        assert(collapsed(whole) =~= collapsed(a) + seq![' '] + collapsed(b));
    }
}

/// A preview is the line of its text, and where that is too long its beginning and an ellipsis.
pub proof fn previews_are_the_line_cut_short(
    text: &str,
    limit: usize,
    shown: String,
)
    requires
        call_ensures(preview_text, (text, limit), shown),
    ensures
        collapsed(text@).len() <= limit ==> shown@ == collapsed(text@),
        collapsed(text@).len() > limit ==> shown@ == collapsed(text@).take(limit as int).push('\u{2026}'),
{
}

/// The highlights of a window are of the occurrences that lie inside it, in their order; each begins
/// and ends where the occurrence does, counted from the window's start.
pub proof fn highlights_are_of_what_is_inside(
    window: Seq<char>,
    start: nat,
    end: nat,
    ranges: Seq<(usize, usize)>,
)
    ensures
        highlights(window, start, end, ranges) == ranges.filter(
            |range: (usize, usize)| start <= range.0 && range.1 <= end,
        ).map_values(|range: (usize, usize)| highlight(window, start, range)),
    decreases ranges.len(),
{
    let kept = |range: (usize, usize)| start <= range.0 && range.1 <= end;
    let row = |range: (usize, usize)| highlight(window, start, range);
    reveal(Seq::filter);
    if ranges.len() == 0 {
        assert(ranges.filter(kept).map_values(row) =~= Seq::<Tree>::empty());
    } else {
        let rest = ranges.drop_last();
        highlights_are_of_what_is_inside(window, start, end, rest);
        if kept(ranges.last()) {
            assert(rest.filter(kept).push(ranges.last()).map_values(row) =~= rest.filter(
                kept,
            ).map_values(row).push(row(ranges.last())));
        }
    }
}

/// A highlight says how many code units stand before its start and before its end; a character
/// counts two where it needs two.
pub proof fn highlights_count_code_units(
    window: Seq<char>,
    start: nat,
    range: (usize, usize),
    text: Seq<char>,
    c: char,
)
    ensures
        member(highlight(window, start, range), "start"@) == Some(Tree::UInt(utf16_len(window.take(range.0 - start)) as u64)),
        member(highlight(window, start, range), "end"@) == Some(Tree::UInt(utf16_len(window.take(range.1 - start)) as u64)),
        utf16_len(Seq::empty()) == 0,
        (c as u32) < 0x1_0000 ==> utf16_len(text.push(c)) == utf16_len(text) + 1,
        (c as u32) >= 0x1_0000 ==> utf16_len(text.push(c)) == utf16_len(text) + 2,
{
    broadcast use {crate::json::member_of_field, crate::reply::errors_say_what_is_wrong};

    reveal_strlit("end");
    reveal_strlit("start");
    assert("end"@.len() == 3);
    assert("start"@.len() == 5);
    assert(text.push(c).drop_last() =~= text);
}

} // verus!
