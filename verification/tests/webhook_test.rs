use forgebot::config::{
    Config, DatabaseConfig, ForgejoConfig, OpencodeApiConfig, OpencodeConfig, ServerConfig,
};
use forgebot::db::Session;
use forgebot::session::{SessionAction, SessionMode, SessionState};
use forgebot::webhook::handlers::{
    acquire_issue_dispatch_lock, admit_issue_comment, bot_comment_reply, handle_unknown_event_reply,
    issue_comment_event_key, issue_lock_key, issue_route_outcome, issue_session_after_lookup,
    issue_session_after_reload, issue_session_insert_failure, issue_session_record_with_id,
    mark_issue_comment_event_seen, pr_closed_cleanup, pr_closed_session, pr_head_issue,
    pr_number_from_issue_comment, pr_opened_reply, pr_opened_session, pr_timeline_outcome,
    pull_request_route, release_issue_dispatch_lock, review_comment_outcome,
    review_comment_trigger_reply, IssueCommentRoute, IssueCommentSessionResult, IssueSessionStep,
    Lookup, PullRequestRoute, RepoWatch,
};
use forgebot::webhook::inflight::KeySet;
use forgebot::webhook::models::{
    GitRef, GiteaEvent, IssueCommentPayload, IssueCommentWebhook, IssueWebhook,
    PullRequestLink, PullRequestPayload, PullRequestReviewCommentPayload, PullRequestWebhook,
    Repository, ReviewCommentWebhook, User,
};
use forgebot::webhook::{
    branch_name_for_issue, extract_and_verify_body, extract_issue_id_from_branch,
    invalid_json_reply, SignatureHeader, WebhookVerifier,
};

#[test]
fn test_extract_issue_id_from_branch() {
    assert_eq!(extract_issue_id_from_branch("agent/issue-42"), Some(42));
    assert_eq!(extract_issue_id_from_branch("agent/issue-123"), Some(123));
    assert_eq!(extract_issue_id_from_branch("agent/issue-1"), Some(1));

    assert_eq!(
        extract_issue_id_from_branch("refs/heads/agent/issue-42"),
        Some(42)
    );

    assert_eq!(extract_issue_id_from_branch("feature/something"), None);
    assert_eq!(extract_issue_id_from_branch("main"), None);
    assert_eq!(extract_issue_id_from_branch("agent/other-42"), None);

    assert_eq!(extract_issue_id_from_branch("agent/issue-"), None);
    assert_eq!(
        extract_issue_id_from_branch("agent/issue-42-extra"),
        Some(42)
    );
}

fn user(id: u64, login: &str) -> User {
    User {
        id,
        login: login.to_string(),
    }
}

fn comment_payload(
    number: u64,
    comment_id: u64,
    body: &str,
    on_pr: bool,
    sender: u64,
) -> IssueCommentPayload {
    IssueCommentPayload {
        action: "created".to_string(),
        issue: IssueWebhook {
            number,
            title: "Some".to_string(),
            body: None,
            state: "open".to_string(),
            pull_request: if on_pr {
                Some(PullRequestLink {
                    url: Some(format!(
                        "https://forgejo.local/api/v1/repos/acme/demo/pulls/{}",
                        number
                    )),
                })
            } else {
                None
            },
        },
        comment: IssueCommentWebhook {
            id: comment_id,
            body: body.to_string(),
            user: user(sender, "alice"),
        },
        repository: Repository {
            id: 9,
            full_name: "acme/demo".to_string(),
        },
        sender: user(sender, "alice"),
    }
}

#[test]
fn test_pr_number_from_issue_comment_when_comment_is_on_pr() {
    let payload = comment_payload(77, 500, "@forgebot please update this", true, 1);
    assert_eq!(pr_number_from_issue_comment(&payload), Some(77));
}

#[test]
fn test_pr_number_from_issue_comment_when_comment_is_on_issue() {
    let payload = comment_payload(42, 501, "@forgebot plan this", false, 2);
    assert_eq!(pr_number_from_issue_comment(&payload), None);
}

#[test]
fn signatures_are_checked_on_the_body() {
    let v = WebhookVerifier::new("secret".to_string());
    let body = b"{\"a\":1}";
    let sig = v.compute_signature(body);
    assert!(sig.starts_with("sha256="));
    assert_eq!(sig.len(), "sha256=".len() + 64);
    assert!(v.verify_signature(body, &sig));
    assert!(v.verify_signature(body, &sig["sha256=".len()..]));
    assert!(!v.verify_signature(b"other", &sig));
    assert!(!v.verify_signature(body, "sha256=00"));
    // RFC 4231 test case 2.
    let v2 = WebhookVerifier::new("Jefe".to_string());
    assert_eq!(
        v2.compute_signature(b"what do ya want for nothing?"),
        "sha256=5bdcc146bf60754e6a042426089575c75a003f089d2739839dec58b964ec3843"
    );
}

#[test]
fn requests_are_refused_in_order() {
    let v = WebhookVerifier::new("k".to_string());
    let body = b"payload".to_vec();
    let sig = v.compute_signature(&body);

    let r = extract_and_verify_body(&v, SignatureHeader::Missing, None, Ok(body.clone()));
    let e = r.unwrap_err();
    assert_eq!((e.status, e.body.as_str()), (401, "Missing signature header"));

    let e = extract_and_verify_body(&v, SignatureHeader::NotText, None, Ok(body.clone()))
        .unwrap_err();
    assert_eq!((e.status, e.body.as_str()), (401, "Invalid signature header encoding"));

    let e = extract_and_verify_body(
        &v,
        SignatureHeader::Text(sig.clone()),
        None,
        Err("io".to_string()),
    )
    .unwrap_err();
    assert_eq!((e.status, e.body.as_str()), (400, "Failed to read body"));

    let e = extract_and_verify_body(
        &v,
        SignatureHeader::Text("sha256=bad".to_string()),
        None,
        Ok(body.clone()),
    )
    .unwrap_err();
    assert_eq!((e.status, e.body.as_str()), (401, "Invalid signature"));

    let (b, event) =
        extract_and_verify_body(&v, SignatureHeader::Text(sig.clone()), None, Ok(body.clone()))
            .unwrap();
    assert_eq!(b, body);
    assert_eq!(event, "unknown");
    let (_, event) = extract_and_verify_body(
        &v,
        SignatureHeader::Text(sig),
        Some("issue_comment".to_string()),
        Ok(body),
    )
    .unwrap();
    assert_eq!(GiteaEvent::from_header(&event), GiteaEvent::IssueComment);

    let r = invalid_json_reply("bad");
    assert_eq!((r.status, r.body.as_str()), (400, "Invalid JSON: bad"));
}

#[test]
fn events_and_branches() {
    assert_eq!(GiteaEvent::from_header("pull_request"), GiteaEvent::PullRequest);
    assert_eq!(
        GiteaEvent::from_header("pull_request_review_comment"),
        GiteaEvent::PullRequestReviewComment
    );
    assert_eq!(GiteaEvent::from_header("push"), GiteaEvent::Other);
    assert_eq!(GiteaEvent::IssueComment.as_str(), "issue_comment");
    assert_eq!(branch_name_for_issue(42), "agent/issue-42");
    assert_eq!(
        extract_issue_id_from_branch(&branch_name_for_issue(18446744073709551615)),
        Some(18446744073709551615)
    );
    assert_eq!(extract_issue_id_from_branch("agent/issue-18446744073709551616"), None);
}

#[test]
fn bot_comments_are_ignored() {
    let r = bot_comment_reply(5, 5).unwrap();
    assert_eq!((r.status, r.body.as_str()), (200, "OK - ignored bot comment"));
    assert!(bot_comment_reply(4, 5).is_none());
}

#[test]
fn admission_gates_in_order() {
    let mut processed = KeySet::new();
    let mut in_flight = KeySet::new();

    let p = comment_payload(42, 1, "hello", false, 2);
    let r = admit_issue_comment(&p, RepoWatch::NotWatched, &mut processed, &mut in_flight);
    assert_eq!(r.unwrap_err().body, "OK - repo not watched");

    let r = admit_issue_comment(&p, RepoWatch::Watched, &mut processed, &mut in_flight);
    assert_eq!(r.unwrap_err().body, "OK - no @forgebot trigger");

    let p = comment_payload(42, 1, "@forgebot go", false, 2);
    let r = admit_issue_comment(&p, RepoWatch::LookupFailed, &mut processed, &mut in_flight);
    assert_eq!(r, Ok(IssueCommentRoute::Issue));
    assert!(processed.contains(&issue_comment_event_key(&p)));
    assert!(in_flight.contains("acme/demo#42"));

    // Redelivery of the same comment.
    let r = admit_issue_comment(&p, RepoWatch::Watched, &mut processed, &mut in_flight);
    assert_eq!(r.unwrap_err().body, "OK - duplicate issue_comment ignored");

    // Another comment on the same issue while the first is in flight.
    let p2 = comment_payload(42, 2, "@forgebot again", false, 2);
    let r = admit_issue_comment(&p2, RepoWatch::Watched, &mut processed, &mut in_flight);
    assert_eq!(r.unwrap_err().body, "OK - dispatch already in-flight");

    // After the dispatch ends, a new comment goes through.
    release_issue_dispatch_lock(&mut in_flight, "acme/demo", 42);
    let p3 = comment_payload(42, 3, "@forgebot once more", false, 2);
    let r = admit_issue_comment(&p3, RepoWatch::Watched, &mut processed, &mut in_flight);
    assert_eq!(r, Ok(IssueCommentRoute::Issue));

    // A comment on a pull request's timeline routes to the pull request.
    let p4 = comment_payload(77, 4, "@forgebot fix", true, 2);
    let r = admit_issue_comment(&p4, RepoWatch::Watched, &mut processed, &mut in_flight);
    assert_eq!(r, Ok(IssueCommentRoute::PullRequest(77)));
}

#[test]
fn keys_and_locks() {
    let p = comment_payload(42, 500, "@forgebot", false, 1);
    assert_eq!(issue_comment_event_key(&p), "issue_comment:acme/demo:500:created");
    assert_eq!(issue_lock_key("acme/demo", 42), "acme/demo#42");
    let mut seen = KeySet::new();
    assert!(mark_issue_comment_event_seen(&mut seen, &p));
    assert!(!mark_issue_comment_event_seen(&mut seen, &p));
    let mut locks = KeySet::new();
    assert!(acquire_issue_dispatch_lock(&mut locks, "a/b", 1));
    assert!(!acquire_issue_dispatch_lock(&mut locks, "a/b", 1));
    assert!(acquire_issue_dispatch_lock(&mut locks, "a/b", 2));
    release_issue_dispatch_lock(&mut locks, "a/b", 1);
    assert!(acquire_issue_dispatch_lock(&mut locks, "a/b", 1));
}

fn session(issue_id: i64) -> Session {
    Session {
        id: "sid".to_string(),
        repo_full_name: "acme/demo".to_string(),
        issue_id,
        pr_id: Some(77),
        opencode_session_id: "ses_x".to_string(),
        worktree_path: "/w".to_string(),
        state: SessionState::Idle,
        mode: SessionMode::Build,
        created_at: "t".to_string(),
        updated_at: "t".to_string(),
    }
}

#[test]
fn pull_request_timeline_outcomes() {
    let p = comment_payload(77, 4, "@forgebot fix", true, 2);
    let o = pr_timeline_outcome(&p, 77, Lookup::Found(session(12)));
    assert_eq!(o.reply.body, "OK - dispatching session");
    assert!(!o.release_lock);
    let t = o.dispatch.unwrap();
    assert_eq!((t.issue_id, t.pr_id, t.action), (12, Some(77), SessionAction::Revision));

    let o = pr_timeline_outcome(&p, 77, Lookup::NotFound);
    assert_eq!(o.reply.body, "OK - no session context");
    assert!(o.release_lock && o.dispatch.is_none());
    let c = o.comment.unwrap();
    assert!(c.on_pull_request);
    assert_eq!(c.number, 77);

    let o = pr_timeline_outcome(&p, 77, Lookup::Failed("db down".to_string()));
    assert_eq!(o.reply.body, "OK - error logged");
    assert_eq!(
        o.comment.unwrap().body,
        "❌ Error: Failed to load session: db down"
    );
}

fn config() -> Config {
    Config {
        server: ServerConfig {
            host: "127.0.0.1".to_string(),
            port: 8765,
            webhook_secret: "s".to_string(),
            forgebot_host: "http://bot".to_string(),
        },
        forgejo: ForgejoConfig {
            url: "git.example.com".to_string(),
            token: "t".to_string(),
            bot_username: "forgebot".to_string(),
        },
        opencode: OpencodeConfig {
            binary: "opencode".to_string(),
            worktree_base: "/wt".to_string(),
            config_dir: "/cfg".to_string(),
            git_binary: "git".to_string(),
            model: "m".to_string(),
            web_host: None,
            api: OpencodeApiConfig {
                base_url: None,
                token: None,
                timeout_secs: 30,
            },
        },
        database: DatabaseConfig {
            path: "/db".to_string(),
        },
    }
}

#[test]
fn issue_session_steps() {
    let p = comment_payload(42, 1, "@forgebot", false, 2);
    assert!(matches!(
        issue_session_after_lookup(&p, Lookup::Found(session(42))),
        IssueSessionStep::Ready(_)
    ));
    assert!(matches!(
        issue_session_after_lookup(&p, Lookup::NotFound),
        IssueSessionStep::Create
    ));
    match issue_session_after_lookup(&p, Lookup::Failed("x".to_string())) {
        IssueSessionStep::Failed(c) => {
            assert!(!c.on_pull_request);
            assert_eq!(c.number, 42);
            assert_eq!(c.body, "❌ Error: Failed to load session: x");
        }
        _ => panic!("expected a failure"),
    }
    let rec = issue_session_record_with_id("id-1".to_string(), &p, &config());
    assert_eq!(rec.id, "id-1");
    assert_eq!(rec.issue_id, 42);
    assert_eq!(rec.opencode_session_id, "ses_42_acme_demo");
    assert_eq!(rec.worktree_path, "/wt/_worktrees/acme_demo/42");
    assert_eq!(rec.state, "idle");
    assert_eq!(rec.mode, "collab");
    assert_eq!(
        issue_session_insert_failure(&p, "dup").body,
        "❌ Error: Failed to create session: dup"
    );
    assert!(matches!(
        issue_session_after_reload(Lookup::NotFound),
        IssueCommentSessionResult::CreationError
    ));
    let o = issue_route_outcome(&p, IssueCommentSessionResult::Ready(session(42)));
    assert_eq!(o.reply.body, "OK - dispatching session");
    let t = o.dispatch.unwrap();
    assert_eq!((t.issue_id, t.pr_id, t.action), (42, None, SessionAction::Plan));
    let o = issue_route_outcome(&p, IssueCommentSessionResult::CreationError);
    assert_eq!(o.reply.body, "OK - session creation error");
    assert!(o.release_lock);
    let o = issue_route_outcome(&p, IssueCommentSessionResult::ErrorLogged);
    assert_eq!(o.reply.body, "OK - error logged");
}

fn pr_payload(action: &str, head: &str) -> PullRequestPayload {
    PullRequestPayload {
        action: action.to_string(),
        pull_request: PullRequestWebhook {
            number: 9,
            title: "t".to_string(),
            body: None,
            head: GitRef {
                ref_field: head.to_string(),
                sha: "abc".to_string(),
            },
            base: GitRef {
                ref_field: "main".to_string(),
                sha: "def".to_string(),
            },
            user: user(1, "bot"),
            state: "open".to_string(),
        },
        repository: Repository {
            id: 1,
            full_name: "acme/demo".to_string(),
        },
        sender: user(1, "bot"),
    }
}

#[test]
fn pull_request_events() {
    assert_eq!(pull_request_route("opened"), PullRequestRoute::Opened);
    assert_eq!(pull_request_route("closed"), PullRequestRoute::Closed);
    assert_eq!(pull_request_route("merged"), PullRequestRoute::Closed);
    assert_eq!(pull_request_route("edited"), PullRequestRoute::Unhandled);

    assert_eq!(pr_head_issue(&pr_payload("opened", "agent/issue-5")), Ok(5));
    assert_eq!(
        pr_head_issue(&pr_payload("opened", "feature/x")).unwrap_err().body,
        "OK - not a forgebot PR"
    );
    assert_eq!(
        pr_opened_session(Lookup::NotFound).unwrap_err().body,
        "OK - no session found"
    );
    assert_eq!(
        pr_opened_session(Lookup::Failed("e".to_string())).unwrap_err().body,
        "OK - database error"
    );
    assert_eq!(pr_opened_reply(true).body, "OK - PR linked to session");
    assert_eq!(pr_opened_reply(false).body, "OK - update error");
    assert_eq!(pr_closed_session(Lookup::NotFound).unwrap_err().body, "OK - no session");
    let c = pr_closed_cleanup(&pr_payload("closed", "agent/issue-5"), 5, &config());
    assert_eq!(c.worktree_path, "/wt/_worktrees/acme_demo/5");
    assert_eq!(c.bare_clone_path, "/wt/acme_demo");
    assert_eq!(c.git_binary, "git");
    assert_eq!(c.reply.body, "OK - worktree cleanup queued");
    assert_eq!(handle_unknown_event_reply().body, "OK");
}

fn review_payload(body: &str) -> PullRequestReviewCommentPayload {
    let pr = pr_payload("created", "agent/issue-5");
    PullRequestReviewCommentPayload {
        action: "created".to_string(),
        pull_request: pr.pull_request,
        review_comment: ReviewCommentWebhook {
            id: 3,
            body: body.to_string(),
            user: user(2, "rev"),
            path: "src/lib.rs".to_string(),
            line: Some(4),
        },
        repository: pr.repository,
        sender: user(2, "rev"),
    }
}

#[test]
fn review_comment_outcomes() {
    assert_eq!(
        review_comment_trigger_reply(&review_payload("nice")).unwrap().body,
        "OK - no @forgebot trigger"
    );
    assert!(review_comment_trigger_reply(&review_payload("@forgebot fix")).is_none());
    let o = review_comment_outcome(&review_payload("@forgebot fix"), Lookup::Found(session(5)));
    assert_eq!(o.reply.body, "OK - dispatching revision");
    assert_eq!(
        o.comment.unwrap().body,
        "🤖 forgebot is addressing review comments..."
    );
    let t = o.dispatch.unwrap();
    assert_eq!((t.issue_id, t.pr_id, t.action), (5, Some(9), SessionAction::Revision));
    let o = review_comment_outcome(&review_payload("@forgebot fix"), Lookup::NotFound);
    assert_eq!(o.reply.body, "OK - no session context");
    assert!(o.dispatch.is_none());
}
