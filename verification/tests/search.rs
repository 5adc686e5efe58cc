use loom_server::domain::{DomainEvent, Message, MessageRole, Thread, ThreadStatus};
use loom_server::json::Json;
use loom_server::projections::{Directory, ThreadRecord};
use loom_server::search::{
    find_occurrences, lowercase_eq, preview_text, search_lowered, search_threads,
    snippet_with_highlights, thread_search_matches,
};
use loom_server::timeline::ThreadEntry;

fn thread(id: &str, title: Option<&str>, archived: bool) -> Thread {
    Thread {
        id: id.to_owned(),
        project_id: "proj_1".to_owned(),
        environment_id: None,
        provider_id: None,
        model: None,
        reasoning_level: None,
        title: title.map(str::to_owned),
        section_id: None,
        status: if archived { ThreadStatus::Archived } else { ThreadStatus::Idle },
        parent_thread_id: None,
        source_thread_id: None,
        origin_kind: None,
        origin_plugin_id: None,
        visibility: "visible".to_owned(),
        archived_at_ms: if archived { Some(9) } else { None },
        pinned_at_ms: None,
        pin_sort_key: None,
        deleted_at_ms: None,
        last_read_at_ms: None,
        created_at_ms: 1,
        updated_at_ms: 1,
        provider_session_id: None,
        provider_session_binding: None,
    }
}

fn message(sequence: u64, role: MessageRole, content: &str) -> ThreadEntry {
    ThreadEntry {
        event_id: format!("evt_{sequence}"),
        sequence,
        created_at_ms: 10 + sequence,
        event: DomainEvent::ThreadMessageAdded {
            thread_id: "thr_1".to_owned(),
            message: Message {
                id: format!("msg_{sequence}"),
                project_id: None,
                role,
                content: content.to_owned(),
                created_at_ms: 10 + sequence,
            },
        },
    }
}

fn directory(records: Vec<ThreadRecord>) -> Directory {
    Directory {
        records,
        environments: Vec::new(),
        hosts: Vec::new(),
        providers: Vec::new(),
    }
}

fn record(thread: Thread, entries: Vec<ThreadEntry>) -> ThreadRecord {
    ThreadRecord { thread, entries, has_pending_interaction: false, queued_messages: 0 }
}

fn array<'a>(value: &'a Json, key: &str) -> &'a Vec<Json> {
    value.get(key).unwrap().as_array().unwrap()
}

fn text_of<'a>(value: &'a Json, key: &str) -> &'a str {
    value.get(key).unwrap().as_str().unwrap()
}

fn number_of(value: &Json, key: &str) -> u64 {
    value.get(key).unwrap().as_uint().unwrap()
}

#[test]
fn letters_are_compared_by_their_lower_case() {
    assert!(lowercase_eq('A', 'a'));
    assert!(lowercase_eq('É', 'é'));
    assert!(!lowercase_eq('a', 'A'));
    assert!(!lowercase_eq('b', 'a'));
}

#[test]
fn occurrences_are_counted_in_characters_and_do_not_overlap() {
    assert_eq!(find_occurrences("Aaaa", "aa"), vec![(0, 2), (2, 4)]);
    assert_eq!(find_occurrences("\u{1F600}Fox fOX", "fox"), vec![(1, 4), (5, 8)]);
    assert!(find_occurrences("abc", "abcd").is_empty());
    assert!(find_occurrences("", "a").is_empty());
}

#[test]
fn a_short_text_is_its_own_snippet() {
    let (snippet, marks) = snippet_with_highlights("a fox", &vec![(2, 5)], 200);
    assert_eq!(snippet, "a fox");
    assert_eq!(marks.len(), 1);
    assert_eq!(number_of(&marks[0], "start"), 2);
    assert_eq!(number_of(&marks[0], "end"), 5);
    // Marks are counted as the client counts, in UTF-16 units.
    let (_, wide) = snippet_with_highlights("\u{1F600} fox", &vec![(2, 5)], 200);
    assert_eq!(number_of(&wide[0], "start"), 3);
    assert_eq!(number_of(&wide[0], "end"), 6);
}

#[test]
fn a_long_text_is_cut_around_its_first_match() {
    let text = format!("{}fox{}", "x".repeat(400), "y".repeat(400));
    let (snippet, marks) = snippet_with_highlights(&text, &vec![(400, 403)], 200);
    assert!(snippet.contains("fox"));
    let start = number_of(&marks[0], "start") as usize;
    let end = number_of(&marks[0], "end") as usize;
    let shown: String = snippet.chars().skip(start).take(end - start).collect();
    assert_eq!(shown, "fox");
}

#[test]
fn titles_and_messages_are_searched() {
    let entries = vec![
        message(1, MessageRole::User, "find the fox"),
        message(2, MessageRole::Assistant, "no match here"),
        message(3, MessageRole::Assistant, "FOX found"),
    ];
    let matches = thread_search_matches(&Some("Fox hunt".to_owned()), &entries, "fox");
    assert_eq!(matches.len(), 3);
    assert_eq!(text_of(&matches[0], "sourceKind"), "title");
    assert_eq!(text_of(&matches[1], "sourceKind"), "user_message");
    assert_eq!(text_of(&matches[2], "sourceKind"), "assistant_message");
    assert_eq!(number_of(&matches[2], "sourceSeq"), 3);
    assert!(thread_search_matches(&None, &entries, "wolf").is_empty());
}

#[test]
fn at_most_five_matches_of_a_thread_are_shown() {
    let entries: Vec<ThreadEntry> =
        (1..9).map(|n| message(n, MessageRole::User, "fox")).collect();
    assert_eq!(thread_search_matches(&None, &entries, "fox").len(), 5);
}

#[test]
fn the_query_is_lowered_before_it_is_searched() {
    let listed = directory(vec![
        record(thread("thr_1", Some("The FOX"), false), Vec::new()),
        record(thread("thr_2", Some("fox, old"), true), Vec::new()),
        record(thread("thr_3", Some("wolf"), false), Vec::new()),
    ]);
    let reply = search_threads("FoX", &None, &listed);
    assert_eq!(reply.status, 200);
    let lowered = search_lowered(&listed, "fox", 20);
    assert_eq!(reply, lowered);
    for group in ["active", "archived"] {
        let group = reply.body.get(group).unwrap();
        assert_eq!(array(group, "results").len(), 1);
        assert_eq!(number_of(group, "total"), 1);
    }
}

#[test]
fn a_search_limit_is_a_number() {
    let listed = directory(Vec::new());
    assert_eq!(search_threads("xy", &Some("many".to_owned()), &listed).status, 400);
    assert_eq!(search_threads("xy", &Some("5".to_owned()), &listed).status, 200);
    let short = search_threads("x", &None, &listed);
    assert_eq!(short.status, 400);
    assert_eq!(text_of(&short.body, "message"), "query must be at least 2 characters");
}

#[test]
fn previews_are_cut_with_an_ellipsis() {
    assert_eq!(preview_text("short", 10), "short");
    assert_eq!(preview_text("  a \n long\tline ", 20), "a long line");
    assert_eq!(preview_text("a long line of text", 6), "a long\u{2026}");
}
