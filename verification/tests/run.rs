use rust_release::directory::publish;
use rust_release::request::{Method, Payload, Request};
use rust_release::workflow::{describe, Action, Event, Failure, Publisher, Stage};

const RELEASES: &str = "https://api.github.com/repos/o/r/releases";
const MASTER: &str = "{\"id\":7,\"name\":\"master\",\
    \"upload_url\":\"https://uploads.github.com/repos/o/r/releases/7/assets{?name,label}\",\
    \"assets_url\":\"https://api.github.com/repos/o/r/releases/7/assets\"}";
const OTHER: &str = "{\"id\":3,\"name\":\"v1\",\"upload_url\":\"u{x}\",\"assets_url\":\"a\"}";
const ASSETS: &str = "https://api.github.com/repos/o/r/releases/7/assets";
const HOST: &str = "x86_64-unknown-linux-gnu";

fn response(code: u32, body: &str) -> Event {
    Event::Response { code, body: body.to_string() }
}

fn file(stem: &str, length: u64) -> Event {
    Event::Entry { stem: stem.to_string(), regular: true, length }
}

fn sent(action: Action) -> Request {
    match action {
        Action::Send(request) => request,
        other => panic!("no request: {:?}", other),
    }
}

fn text_of(payload: &Payload) -> &str {
    match payload {
        Payload::Text(t) => t.as_str(),
        other => panic!("no text: {:?}", other),
    }
}

fn listing() -> Publisher {
    let mut run = Publisher::new("o/r", HOST, "");
    let first = sent(run.step(Event::Begin));
    assert_eq!(first.method, Method::Get);
    assert_eq!(first.url, RELEASES);
    assert!(matches!(first.payload, Payload::Empty));
    assert!(!first.fresh);
    assert_eq!(run.stage, Stage::ListingReleases);
    run
}

fn idle() -> Publisher {
    let mut run = listing();
    assert!(matches!(run.step(response(200, &format!("[{}]", MASTER))), Action::QueryCommit));
    sent(run.step(Event::Commit("abc\n".to_string())));
    assert!(matches!(run.step(response(200, MASTER)), Action::NextEntry));
    assert_eq!(run.stage, Stage::Idle);
    run
}

#[test]
fn missing_release_is_created_once() {
    let mut run = listing();
    let create = sent(run.step(response(200, &format!("[{}]", OTHER))));
    assert_eq!(create.method, Method::Post);
    assert_eq!(create.url, RELEASES);
    assert_eq!(
        text_of(&create.payload),
        "{\"tag_name\":\"master\",\"name\":\"master\",\"draft\":true}"
    );
    assert_eq!(run.stage, Stage::Creating);
    assert!(matches!(run.step(response(201, MASTER)), Action::QueryCommit));
    let release = run.release.as_ref().unwrap();
    assert_eq!(release.id, 7);
    assert_eq!(release.name, "master");
    assert_eq!(run.stage, Stage::ReadingCommit);
}

#[test]
fn empty_release_list_leads_to_creation() {
    let mut run = listing();
    let create = sent(run.step(response(200, "[]")));
    assert_eq!(create.method, Method::Post);
    assert!(matches!(create.payload, Payload::Text(_)));
}

#[test]
fn existing_release_is_not_created() {
    for body in [
        format!("[{}]", MASTER),
        format!("[{},{}]", MASTER, OTHER),
        format!("[{},{},{}]", OTHER, OTHER, MASTER),
    ] {
        let mut run = listing();
        assert!(matches!(run.step(response(200, &body)), Action::QueryCommit));
        let release = run.release.as_ref().unwrap();
        assert_eq!(release.id, 7);
        assert_eq!(release.name, "master");
        assert_eq!(release.assets_url, ASSETS);
    }
}

#[test]
fn first_of_two_master_releases_wins() {
    let second = "{\"id\":9,\"name\":\"master\",\"upload_url\":\"u{x}\",\"assets_url\":\"a\"}";
    let mut run = listing();
    run.step(response(200, &format!("[{},{},{}]", OTHER, MASTER, second)));
    assert_eq!(run.release.as_ref().unwrap().id, 7);
}

#[test]
fn update_publishes_the_trimmed_commit() {
    let mut run = listing();
    run.step(response(200, &format!("[{}]", MASTER)));
    let update = sent(run.step(Event::Commit(
        "  0123456789abcdef0123456789abcdef01234567\r\n".to_string(),
    )));
    assert_eq!(update.method, Method::Patch);
    assert_eq!(update.url, "https://api.github.com/repos/o/r/releases/7");
    assert_eq!(
        text_of(&update.payload),
        "{\"target_commitish\":\"0123456789abcdef0123456789abcdef01234567\",\"draft\":false}"
    );
    assert_eq!(run.stage, Stage::Updating);
}

#[test]
fn duplicate_asset_is_deleted_before_the_upload() {
    let mut run = idle();
    let list = sent(run.step(file("tool", 12)));
    assert_eq!(list.method, Method::Get);
    assert_eq!(list.url, ASSETS);
    assert!(list.fresh);
    assert_eq!(run.filename, "tool-x86_64-unknown-linux-gnu");
    let body = "[{\"id\":1,\"name\":\"other\",\"label\":\"\"},\
                {\"id\":55,\"name\":\"tool-x86_64-unknown-linux-gnu\",\"label\":\"\"},\
                {\"id\":56,\"name\":\"tool-x86_64-unknown-linux-gnu\",\"label\":\"\"}]";
    let delete = sent(run.step(response(200, body)));
    assert_eq!(delete.method, Method::Delete);
    assert_eq!(delete.url, "https://api.github.com/repos/o/r/releases/assets/55");
    assert!(matches!(delete.payload, Payload::Empty));
    let upload = sent(run.step(response(204, "")));
    assert_eq!(upload.method, Method::Post);
    assert_eq!(
        upload.url,
        "https://uploads.github.com/repos/o/r/releases/7/assets?name=tool-x86_64-unknown-linux-gnu"
    );
    assert!(matches!(upload.payload, Payload::File(12)));
    let done = run.step(response(201, "{\"id\":57,\"name\":\"n\",\"label\":\"\"}"));
    assert!(matches!(done, Action::NextEntry));
    assert_eq!(run.stage, Stage::Idle);
}

#[test]
fn no_duplicate_no_delete() {
    let mut run = idle();
    sent(run.step(file("tool", 3)));
    let upload = sent(run.step(response(200, "[{\"id\":1,\"name\":\"tool\",\"label\":\"\"}]")));
    assert_eq!(upload.method, Method::Post);
    assert!(matches!(upload.payload, Payload::File(3)));
    assert_eq!(run.stage, Stage::Uploading);
}

#[test]
fn exe_suffix_is_part_of_the_name() {
    let mut run = Publisher::new("o/r", "x86_64-pc-windows-msvc", ".exe");
    run.step(Event::Begin);
    run.step(response(200, &format!("[{}]", MASTER)));
    run.step(Event::Commit("abc".to_string()));
    run.step(response(200, MASTER));
    run.step(file("tool", 1));
    assert_eq!(run.filename, "tool-x86_64-pc-windows-msvc.exe");
    let upload = sent(run.step(response(200, "[]")));
    assert_eq!(
        upload.url,
        "https://uploads.github.com/repos/o/r/releases/7/assets?name=tool-x86_64-pc-windows-msvc.exe"
    );
}

#[test]
fn failing_status_ends_the_run() {
    for code in [199, 300, 404, 500] {
        let mut run = listing();
        let action = run.step(response(code, &format!("[{}]", MASTER)));
        assert!(matches!(action, Action::Abort(Failure::Status(c)) if c == code));
        assert_eq!(run.stage, Stage::Failed);
        assert!(run.is_over());
    }
}

#[test]
fn success_status_lets_the_run_go_on() {
    for code in [200, 204, 299] {
        let mut run = listing();
        let action = run.step(response(code, &format!("[{}]", MASTER)));
        assert!(matches!(action, Action::QueryCommit));
        assert!(!run.is_over());
    }
}

#[test]
fn failing_status_ends_the_run_at_every_request() {
    let mut run = listing();
    run.step(response(200, "[]"));
    assert!(matches!(run.step(response(422, MASTER)), Action::Abort(Failure::Status(422))));

    let mut run = listing();
    run.step(response(200, &format!("[{}]", MASTER)));
    run.step(Event::Commit("abc".to_string()));
    assert!(matches!(run.step(response(300, MASTER)), Action::Abort(Failure::Status(300))));

    let mut run = idle();
    run.step(file("tool", 1));
    assert!(matches!(run.step(response(500, "[]")), Action::Abort(Failure::Status(500))));

    let mut run = idle();
    run.step(file("tool", 1));
    run.step(response(200, "[{\"id\":1,\"name\":\"tool-x86_64-unknown-linux-gnu\",\"label\":\"\"}]"));
    assert_eq!(run.stage, Stage::Deleting);
    assert!(matches!(run.step(response(404, "")), Action::Abort(Failure::Status(404))));

    let mut run = idle();
    run.step(file("tool", 1));
    run.step(response(200, "[]"));
    assert!(matches!(run.step(response(199, "")), Action::Abort(Failure::Status(199))));
}

#[test]
fn undecodable_body_ends_the_run() {
    let mut run = listing();
    assert!(matches!(run.step(response(200, "{}")), Action::Abort(Failure::Decode)));
    assert_eq!(run.stage, Stage::Failed);

    let mut run = listing();
    run.step(response(200, "[]"));
    assert!(matches!(run.step(response(201, "[]")), Action::Abort(Failure::Decode)));

    let mut run = listing();
    run.step(response(200, &format!("[{}]", MASTER)));
    run.step(Event::Commit("abc".to_string()));
    assert!(matches!(run.step(response(200, "")), Action::Abort(Failure::Decode)));

    let mut run = idle();
    run.step(file("tool", 1));
    assert!(matches!(run.step(response(200, "{}")), Action::Abort(Failure::Decode)));

    let mut run = idle();
    run.step(file("tool", 1));
    run.step(response(200, "[]"));
    assert!(matches!(run.step(response(201, "{\"id\":1}")), Action::Abort(Failure::Decode)));
}

#[test]
fn upload_url_without_template_ends_the_run() {
    let plain = "{\"id\":7,\"name\":\"master\",\"upload_url\":\"https://uploads\",\"assets_url\":\"a\"}";
    let mut run = listing();
    run.step(response(200, &format!("[{}]", plain)));
    run.step(Event::Commit("abc".to_string()));
    run.step(response(200, plain));
    run.step(file("tool", 1));
    assert!(matches!(run.step(response(200, "[]")), Action::Abort(Failure::Template)));
    assert_eq!(run.stage, Stage::Failed);
}

#[test]
fn unexpected_event_ends_the_run() {
    let mut run = Publisher::new("o/r", HOST, "");
    assert!(matches!(run.step(response(200, "[]")), Action::Abort(Failure::Unexpected)));
    assert_eq!(run.stage, Stage::Failed);
    assert!(matches!(run.step(Event::Begin), Action::Abort(Failure::Unexpected)));

    let mut run = listing();
    assert!(matches!(run.step(Event::NoMoreEntries), Action::Abort(Failure::Unexpected)));

    let mut run = idle();
    assert!(matches!(run.step(Event::NoMoreEntries), Action::Finish));
    assert_eq!(run.stage, Stage::Finished);
    assert!(matches!(run.step(file("tool", 1)), Action::Abort(Failure::Unexpected)));
}

#[test]
fn only_the_first_listing_asks_for_a_new_connection() {
    let mut run = idle();
    assert!(run.fresh);
    assert!(sent(run.step(file("a", 1))).fresh);
    assert!(!sent(run.step(response(200, "[]"))).fresh);
    run.step(response(201, "{\"id\":1,\"name\":\"n\",\"label\":\"\"}"));
    assert!(!sent(run.step(file("b", 1))).fresh);
}

#[test]
fn two_files_and_a_directory_give_two_uploads() {
    let mut run = idle();
    let entries = vec![
        Event::Entry { stem: "alpha".to_string(), regular: true, length: 10 },
        Event::Entry { stem: "deps".to_string(), regular: false, length: 4096 },
        Event::Entry { stem: "beta".to_string(), regular: true, length: 20 },
    ];
    let mut log: Vec<String> = Vec::new();
    for entry in entries {
        let mut action = run.step(entry);
        loop {
            match action {
                Action::NextEntry => break,
                Action::Send(request) => {
                    log.push(format!("{:?} {}", request.method, request.url));
                    let body = match (&request.method, &request.payload) {
                        (Method::Get, _) => {
                            "[{\"id\":31,\"name\":\"beta-x86_64-unknown-linux-gnu\",\"label\":\"\"}]"
                        }
                        (Method::Delete, _) => "",
                        _ => "{\"id\":40,\"name\":\"n\",\"label\":\"\"}",
                    };
                    action = run.step(response(200, body));
                }
                other => panic!("unexpected: {:?}", other),
            }
        }
    }
    assert!(matches!(run.step(Event::NoMoreEntries), Action::Finish));
    assert!(run.is_over());
    let up = "https://uploads.github.com/repos/o/r/releases/7/assets?name=";
    assert_eq!(
        log,
        vec![
            format!("Get {}", ASSETS),
            format!("Post {}alpha-x86_64-unknown-linux-gnu", up),
            format!("Get {}", ASSETS),
            "Delete https://api.github.com/repos/o/r/releases/assets/31".to_string(),
            format!("Post {}beta-x86_64-unknown-linux-gnu", up),
        ]
    );
}

#[test]
fn every_failure_has_its_line() {
    assert_eq!(
        describe(Stage::ListingReleases, Failure::Status(404), "{\"message\":\"Not Found\"}"),
        "listing the releases: failed to get 200: status 404, body {\"message\":\"Not Found\"}"
    );
    assert_eq!(
        describe(Stage::Uploading, Failure::Decode, "<html>"),
        "uploading the asset: failed to decode the response: <html>"
    );
    assert_eq!(
        describe(Stage::ListingAssets, Failure::Template, "x"),
        "listing the assets: the release's upload URL holds no template"
    );
    assert_eq!(
        describe(Stage::Start, Failure::Unexpected, "x"),
        "publishing: the event does not answer the last action"
    );
}

#[test]
fn every_operation_has_its_name() {
    let named = [
        (Stage::ListingReleases, "listing the releases"),
        (Stage::Creating, "creating the release"),
        (Stage::Updating, "updating the release"),
        (Stage::ListingAssets, "listing the assets"),
        (Stage::Deleting, "deleting the previous asset"),
        (Stage::Uploading, "uploading the asset"),
        (Stage::Start, "publishing"),
        (Stage::ReadingCommit, "publishing"),
        (Stage::Idle, "publishing"),
        (Stage::Finished, "publishing"),
        (Stage::Failed, "publishing"),
    ];
    for (stage, name) in named {
        assert_eq!(
            describe(stage, Failure::Status(500), "b"),
            format!("{}: failed to get 200: status 500, body b", name)
        );
    }
}

#[test]
fn failing_operation_is_named_from_the_stage_before() {
    let mut run = idle();
    run.step(file("tool", 1));
    let stage = run.stage;
    match run.step(response(502, "bad gateway")) {
        Action::Abort(why) => assert_eq!(
            describe(stage, why, "bad gateway"),
            "listing the assets: failed to get 200: status 502, body bad gateway"
        ),
        other => panic!("no failure: {:?}", other),
    }
}

fn line(action: &Action) -> String {
    match action {
        Action::Send(request) => {
            let body = match &request.payload {
                Payload::Empty => "-".to_string(),
                Payload::Text(text) => text.clone(),
                Payload::File(length) => format!("{} bytes", length),
            };
            format!("{:?} {} {}", request.method, request.url, body)
        }
        Action::QueryCommit => "commit?".to_string(),
        Action::NextEntry => "entry?".to_string(),
        Action::Finish => "done".to_string(),
        Action::Abort(why) => format!("abort {:?}", why),
    }
}

#[test]
fn recorded_run_over_a_directory_is_replayed() {
    let mut run = idle();
    let assets = "[{\"id\":31,\"name\":\"beta-x86_64-unknown-linux-gnu\",\"label\":\"\"}]";
    let made = "{\"id\":40,\"name\":\"n\",\"label\":\"\"}";
    let events = vec![
        file("alpha", 10),
        response(200, assets),
        response(201, made),
        Event::Entry { stem: "deps".to_string(), regular: false, length: 0 },
        file("beta", 20),
        response(200, assets),
        response(204, ""),
        response(201, made),
        Event::NoMoreEntries,
    ];
    let actions = publish(&mut run, events);
    let lines: Vec<String> = actions.iter().map(line).collect();
    let up = "https://uploads.github.com/repos/o/r/releases/7/assets?name=";
    assert_eq!(
        lines,
        vec![
            format!("Get {} -", ASSETS),
            format!("Post {}alpha-x86_64-unknown-linux-gnu 10 bytes", up),
            "entry?".to_string(),
            "entry?".to_string(),
            format!("Get {} -", ASSETS),
            "Delete https://api.github.com/repos/o/r/releases/assets/31 -".to_string(),
            format!("Post {}beta-x86_64-unknown-linux-gnu 20 bytes", up),
            "entry?".to_string(),
            "done".to_string(),
        ]
    );
    assert_eq!(lines.iter().filter(|l| l.starts_with("Get ")).count(), 2);
    assert_eq!(lines.iter().filter(|l| l.starts_with("Post ")).count(), 2);
    assert_eq!(run.stage, Stage::Finished);
}

#[test]
fn recorded_run_from_the_start_is_replayed() {
    let mut run = Publisher::new("o/r", HOST, "");
    let events = vec![
        Event::Begin,
        response(200, "[]"),
        response(201, MASTER),
        Event::Commit("0123abcd\n".to_string()),
        response(200, MASTER),
        Event::NoMoreEntries,
    ];
    let lines: Vec<String> = publish(&mut run, events).iter().map(line).collect();
    assert_eq!(
        lines,
        vec![
            format!("Get {} -", RELEASES),
            format!(
                "Post {} {{\"tag_name\":\"master\",\"name\":\"master\",\"draft\":true}}",
                RELEASES
            ),
            "commit?".to_string(),
            "Patch https://api.github.com/repos/o/r/releases/7 \
             {\"target_commitish\":\"0123abcd\",\"draft\":false}"
                .to_string(),
            "entry?".to_string(),
            "done".to_string(),
        ]
    );
    assert!(run.is_over());
}

#[test]
fn replay_stops_asking_after_a_failure() {
    let mut run = listing();
    let events = vec![response(503, "down"), response(200, "[]"), Event::Begin];
    let lines: Vec<String> = publish(&mut run, events).iter().map(line).collect();
    assert_eq!(lines, vec!["abort Status(503)", "abort Unexpected", "abort Unexpected"]);
    assert_eq!(run.stage, Stage::Failed);
}

#[test]
fn replay_of_nothing_asks_for_nothing() {
    let mut run = idle();
    assert!(publish(&mut run, vec![]).is_empty());
    assert_eq!(run.stage, Stage::Idle);
}
