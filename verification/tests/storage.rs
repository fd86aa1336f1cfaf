use workon::domain::{CreatedWork, WorkList, WorkSummary};
use workon::error::WorkonError;
use workon::storage::{decode, encode, parse_work, serialize_work, slugify};
use workon::WorkStore;

fn work(title: &str, slug: &str) -> WorkSummary {
    WorkSummary {
        title: title.to_string(),
        slug: slug.to_string(),
        goal: format!("Goal for {title}"),
        intent_id: "investigate".to_string(),
        path: format!("/tmp/workon/.workon/work/{slug}"),
    }
}

fn list() -> WorkList {
    WorkList {
        works: vec![
            work("Billing retry audit", "billing-retry-audit"),
            work("Billing export", "billing-export"),
            work("Review cache invalidation PR", "review-cache-invalidation-pr"),
        ],
    }
}

#[test]
fn store_new_keeps_root_and_work_folder() {
    let store = WorkStore::new("/tmp/workon".to_string());
    assert_eq!(store.root(), "/tmp/workon");
    assert_eq!(store.work_root(), "/tmp/workon/.workon/work");
    let slash = WorkStore::new("/tmp/workon/".to_string());
    assert_eq!(slash.work_root(), "/tmp/workon/.workon/work");
}

#[test]
fn open_prefers_exact_slug_or_title() {
    let store = WorkStore::new("/tmp/workon".to_string());
    let opened = store.open("  billing retry audit ", &list()).expect("exact title");
    assert_eq!(opened.slug, "billing-retry-audit");
    let opened = store.open("review", &list()).expect("single loose match");
    assert_eq!(opened.slug, "review-cache-invalidation-pr");
}

#[test]
fn open_reports_missing_and_ambiguous_queries() {
    let store = WorkStore::new("/tmp/workon".to_string());
    let error = store.open("deploy", &list()).expect_err("no match");
    assert_eq!(
        error,
        WorkonError::WorkNotFound {
            query: "deploy".to_string()
        }
    );
    let error = store.open("billing", &list()).expect_err("two matches");
    assert_eq!(
        error,
        WorkonError::AmbiguousWork {
            query: "billing".to_string(),
            matches: vec!["Billing retry audit".to_string(), "Billing export".to_string()],
        }
    );
    assert_eq!(
        error.message(),
        "`billing` matches several works: Billing retry audit, Billing export"
    );
}

#[test]
fn meta_values_escape_and_read_back() {
    for value in ["plain", "line\nbreak", "tab\there", "back\\slash", "", "a=b"] {
        assert_eq!(decode(&encode(value)), value);
        assert!(!encode(value).contains('\n'));
    }
    assert_eq!(encode("a\\b\nc\td"), "a\\\\b\\nc\\td");
    assert_eq!(decode("x\\qy\\"), "x\\qy\\");
}

#[test]
fn written_metadata_parses_back_to_the_work() {
    let created = CreatedWork {
        title: "Trace = release\ncheck".to_string(),
        slug: "trace-release-check".to_string(),
        goal: "Trace a failing release check\tacross repos".to_string(),
        intent_id: "investigate".to_string(),
        path: "/tmp/workon/.workon/work/trace-release-check".to_string(),
        instruction_files: vec!["AGENTS.md".to_string()],
    };
    let text = serialize_work(&created);
    assert_eq!(
        text,
        "title=Trace = release\\ncheck\nslug=trace-release-check\ngoal=Trace a failing release check\\tacross repos\nintent_id=investigate\n"
    );
    let parsed = parse_work(&text, created.path.clone());
    assert_eq!(parsed.title, created.title);
    assert_eq!(parsed.slug, created.slug);
    assert_eq!(parsed.goal, created.goal);
    assert_eq!(parsed.intent_id, created.intent_id);
    assert_eq!(parsed.path, created.path);
}

#[test]
fn parse_work_uses_last_value_and_defaults_to_empty() {
    let parsed = parse_work("title=First\r\ntitle=Second\nnoise\n", "/w".to_string());
    assert_eq!(parsed.title, "Second");
    assert_eq!(parsed.slug, "");
    assert_eq!(parsed.goal, "");
}

#[test]
fn slugs_join_words_with_single_dashes() {
    assert_eq!(
        slugify("Investigate payment retry latency"),
        "investigate-payment-retry-latency"
    );
    assert_eq!(slugify("  --Hello,   World!! 42 "), "hello-world-42");
    assert_eq!(slugify("***"), "");
}

#[test]
fn unique_slug_numbers_taken_slugs_from_two() {
    let store = WorkStore::new("/tmp/workon".to_string());
    let none: Vec<String> = Vec::new();
    assert_eq!(store.unique_slug("billing", &none), "billing");
    assert_eq!(store.unique_slug("", &none), "work");

    let taken = vec!["billing".to_string(), "billing-2".to_string(), "other".to_string()];
    assert_eq!(store.unique_slug("billing", &taken), "billing-3");
    assert_eq!(store.unique_slug("other", &taken), "other-2");
}

#[test]
fn list_sorts_works_by_title_stably() {
    let store = WorkStore::new("/tmp/workon".to_string());
    let entries = vec![
        ("/w/b".to_string(), "title=Beta\nslug=beta\ngoal=g\nintent_id=i\n".to_string()),
        ("/w/a".to_string(), "title=Alpha\nslug=alpha\ngoal=g\nintent_id=i\n".to_string()),
        ("/w/a2".to_string(), "title=Alpha\nslug=alpha-2\ngoal=g\nintent_id=i\n".to_string()),
    ];

    let list = store.list(&entries);

    let slugs: Vec<&str> = list.works.iter().map(|w| w.slug.as_str()).collect();
    assert_eq!(slugs, ["alpha", "alpha-2", "beta"]);
    assert_eq!(list.works[0].path, "/w/a");
}

#[test]
fn create_picks_a_free_slug_and_writes_metadata() {
    let store = WorkStore::new("/tmp/workon".to_string());
    let taken = vec!["check-the-release".to_string()];

    let (work, meta) = store.create("  Check the release ", "investigate", &taken);

    assert_eq!(work.title, "Check the release");
    assert_eq!(work.slug, "check-the-release-2");
    assert_eq!(work.path, "/tmp/workon/.workon/work/check-the-release-2");
    assert_eq!(
        meta,
        "title=Check the release\nslug=check-the-release-2\ngoal=  Check the release \nintent_id=investigate\n"
    );
}

#[test]
fn an_opened_work_is_one_of_the_listed_works() {
    let store = WorkStore::new("/tmp/workon".to_string());
    let works = list();
    for query in ["billing", "review", "billing-retry-audit"] {
        if let Ok(opened) = store.open(query, &works) {
            assert!(works
                .works
                .iter()
                .any(|w| w.slug == opened.slug && w.path == opened.path && w.title == opened.title));
        }
    }
}
