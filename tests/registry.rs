use uptime_watch::registry::{
    answer, finish_command, format_link, format_listing, help_text, plan_command, Command, Step,
};
use uptime_watch::store::{
    clear_records, create_record, delete_record, get_all_records, list_all_records, sort_data,
    StorageError, WatchStore,
};
use uptime_watch::url::normalize_url;
use uptime_watch::watch::{parse_status, status_text, Link, Status, Watch};

fn watch_cmd(status: &str, url: &str) -> Command {
    Command::Watch { status: status.to_string(), url: url.to_string() }
}

#[test]
fn url_without_scheme_gets_http_prefix() {
    assert_eq!(normalize_url("example.com"), "http://example.com");
    assert_eq!(normalize_url("ab"), "http://ab");
    assert_eq!(normalize_url(""), "http://");
}

#[test]
fn url_with_scheme_is_kept() {
    assert_eq!(normalize_url("http://example.com"), "http://example.com");
    assert_eq!(normalize_url("https://example.com/x"), "https://example.com/x");
    assert_eq!(normalize_url("http"), "http");
}

#[test]
fn create_stores_normalized_url_and_fresh_ids() {
    let mut store = WatchStore::new();
    assert_eq!(create_record(&mut store, Status::Up, "example.com", 7), Ok(1));
    assert_eq!(create_record(&mut store, Status::Down, "https://a.org", 7), Ok(2));
    let rows = list_all_records(&store);
    assert_eq!(rows.len(), 2);
    assert_eq!(rows[0].url, "http://example.com");
    assert_eq!(rows[0].status, Status::Up);
    assert_eq!(rows[1].url, "https://a.org");
    assert_eq!(rows[1].id, 2);
    assert_eq!(rows[1].owner, 7);
}

#[test]
fn delete_touches_only_matching_owner_and_url() {
    let mut store = WatchStore::new();
    create_record(&mut store, Status::Up, "example.com", 1).unwrap();
    create_record(&mut store, Status::Up, "example.com", 2).unwrap();
    create_record(&mut store, Status::Down, "other.com", 1).unwrap();
    assert_eq!(delete_record(&mut store, "example.com", 1), 1);
    let rows = list_all_records(&store);
    assert_eq!(rows.len(), 2);
    assert_eq!(rows[0].owner, 2);
    assert_eq!(rows[0].url, "http://example.com");
    assert_eq!(rows[1].url, "http://other.com");
    assert_eq!(delete_record(&mut store, "nothing.com", 1), 0);
    assert_eq!(list_all_records(&store).len(), 2);
}

#[test]
fn list_is_scoped_to_owner_in_id_order() {
    let mut store = WatchStore::new();
    create_record(&mut store, Status::Up, "a.com", 5).unwrap();
    create_record(&mut store, Status::Up, "b.com", 6).unwrap();
    create_record(&mut store, Status::Down, "c.com", 5).unwrap();
    let mine = get_all_records(&store, 5);
    assert_eq!(mine.len(), 2);
    assert_eq!(mine[0].id, 1);
    assert_eq!(mine[1].id, 3);
    assert!(mine.iter().all(|w| w.owner == 5));
    assert!(get_all_records(&store, 99).is_empty());
}

#[test]
fn duplicate_creates_both_kept() {
    let mut store = WatchStore::new();
    assert!(create_record(&mut store, Status::Up, "example.com", 3).is_ok());
    assert!(create_record(&mut store, Status::Up, "example.com", 3).is_ok());
    let mine = get_all_records(&store, 3);
    assert_eq!(mine.len(), 2);
    assert_eq!(mine[0].url, mine[1].url);
    assert_ne!(mine[0].id, mine[1].id);
}

#[test]
fn clear_removes_every_row_of_owner() {
    let mut store = WatchStore::new();
    create_record(&mut store, Status::Up, "a.com", 5).unwrap();
    create_record(&mut store, Status::Up, "b.com", 6).unwrap();
    create_record(&mut store, Status::Down, "c.com", 5).unwrap();
    assert_eq!(clear_records(&mut store, 5), 2);
    let rows = list_all_records(&store);
    assert_eq!(rows.len(), 1);
    assert_eq!(rows[0].owner, 6);
}

#[test]
fn storage_error_when_ids_run_out() {
    let mut store = WatchStore::starting_at(i32::MAX - 1);
    assert_eq!(create_record(&mut store, Status::Up, "a.com", 1), Ok(i32::MAX - 1));
    assert_eq!(
        create_record(&mut store, Status::Up, "b.com", 1),
        Err(StorageError::IdSpaceExhausted)
    );
    assert_eq!(list_all_records(&store).len(), 1);
    assert_eq!(
        answer(&mut store, 1, watch_cmd("up", "c.com")),
        "Had an issue adding your submission :("
    );
    assert_eq!(list_all_records(&store).len(), 1);
}

#[test]
fn status_parsing_trims_and_is_case_sensitive() {
    assert_eq!(parse_status("up"), Some(Status::Up));
    assert_eq!(parse_status("  down \n"), Some(Status::Down));
    assert_eq!(parse_status("Up"), None);
    assert_eq!(parse_status("sideways"), None);
    assert_eq!(parse_status(""), None);
    assert_eq!(status_text(Status::Up), "up");
    assert_eq!(status_text(Status::Down), "down");
}

#[test]
fn sort_data_orders_by_id() {
    let rows = vec![
        Watch { id: 9, owner: 1, url: "http://c".to_string(), status: Status::Up },
        Watch { id: 2, owner: 1, url: "http://a".to_string(), status: Status::Down },
        Watch { id: 5, owner: 1, url: "http://b".to_string(), status: Status::Up },
    ];
    let links = sort_data(rows);
    let ids: Vec<i32> = links.iter().map(|l| l.id).collect();
    assert_eq!(ids, vec![2, 5, 9]);
    assert_eq!(links[0].url, "http://a");
    assert_eq!(links[0].status, "down");
    assert!(sort_data(Vec::new()).is_empty());
}

#[test]
fn link_and_listing_format() {
    let l = Link { id: 12, url: "http://example.com".to_string(), status: "up".to_string() };
    assert_eq!(format_link(&l), "ID 12: http://example.com - checking for up");
    let m = Link { id: -3, url: "http://x".to_string(), status: "down".to_string() };
    assert_eq!(format_link(&m), "ID -3: http://x - checking for down");
    assert_eq!(
        format_listing(&vec![l, m]),
        "Here's the URLs you're currently watching: \nID 12: http://example.com - checking for up\nID -3: http://x - checking for down"
    );
    assert_eq!(format_listing(&Vec::new()), "Here's the URLs you're currently watching: \n");
}

#[test]
fn rejected_watch_changes_nothing() {
    let mut store = WatchStore::new();
    let reply = answer(&mut store, 42, watch_cmd("sideways", "example.com"));
    assert_eq!(reply, "You need to tell me if you want to watch for up or down or not!");
    assert!(list_all_records(&store).is_empty());
}

#[test]
fn answer_runs_each_command() {
    let mut store = WatchStore::new();
    assert_eq!(answer(&mut store, 42, watch_cmd(" up ", "example.com")), "Successfully added your link.");
    assert_eq!(answer(&mut store, 42, watch_cmd("down", "b.org")), "Successfully added your link.");
    assert_eq!(answer(&mut store, 43, watch_cmd("down", "c.org")), "Successfully added your link.");
    assert_eq!(
        answer(&mut store, 42, Command::List),
        "Here's the URLs you're currently watching: \nID 1: http://example.com - checking for up\nID 2: http://b.org - checking for down"
    );
    assert_eq!(answer(&mut store, 42, Command::Unwatch("example.com".to_string())), "Successfully unwatched.");
    assert_eq!(get_all_records(&store, 42).len(), 1);
    assert_eq!(answer(&mut store, 42, Command::Clear), "Successfully stopped watching all of your links.");
    assert!(get_all_records(&store, 42).is_empty());
    assert_eq!(get_all_records(&store, 43).len(), 1);
    assert_eq!(answer(&mut store, 42, Command::Help), help_text());
    assert!(help_text().starts_with("These commands are supported:"));
}

#[test]
fn plan_normalizes_and_rejects() {
    match plan_command(42, watch_cmd("down", "example.com")) {
        Step::Insert { owner, url, status } => {
            assert_eq!(owner, 42);
            assert_eq!(url, "http://example.com");
            assert_eq!(status, Status::Down);
        }
        _ => panic!("expected an insert"),
    }
    match plan_command(42, Command::Unwatch("a.org".to_string())) {
        Step::Delete { owner, url } => {
            assert_eq!(owner, 42);
            assert_eq!(url, "http://a.org");
        }
        _ => panic!("expected a delete"),
    }
    match plan_command(1, watch_cmd("sideways", "example.com")) {
        Step::Reply(t) => {
            assert_eq!(t, "You need to tell me if you want to watch for up or down or not!")
        }
        _ => panic!("expected a reply"),
    }
}

#[test]
fn store_failures_get_failure_replies() {
    let err = || Err(StorageError::Unavailable);
    let ins = Step::Insert { owner: 1, url: "http://a".to_string(), status: Status::Up };
    assert_eq!(finish_command(&ins, err()), "Had an issue adding your submission :(");
    let del = Step::Delete { owner: 1, url: "http://a".to_string() };
    assert_eq!(finish_command(&del, err()), "Had an issue unwatching that link :(");
    assert_eq!(finish_command(&Step::List { owner: 1 }, err()), "Had an issue getting any URLs :(");
    assert_eq!(finish_command(&Step::Clear { owner: 1 }, err()), "Had an issue clearing your links :(");
    let links = vec![Link { id: 4, url: "http://a".to_string(), status: "up".to_string() }];
    assert_eq!(
        finish_command(&Step::List { owner: 1 }, Ok(links)),
        "Here's the URLs you're currently watching: \nID 4: http://a - checking for up"
    );
}
