//! Assembly ordering, the fetch state machine, routing, and the dispatch
//! fan-out on concrete runs.

use mirror_core::assemble::assemble;
use mirror_core::dispatch::prepare_dispatch;
use mirror_core::dispatch::DispatchRun;
use mirror_core::errors::DispatchError;
use mirror_core::errors::FetchError;
use mirror_core::errors::SendOutcome;
use mirror_core::routes::RouteTable;
use mirror_core::routes::TgChannelData;
use mirror_core::routes::WebhookData;
use mirror_core::types::Attachment;
use mirror_core::types::UnifiedMessage;

fn attachment(name: &str, id: &str, size: Option<u32>) -> Attachment {
    Attachment::new(name.to_string(), id.to_string(), size)
}

fn hook(url: &str) -> WebhookData {
    WebhookData {
        webhook_url: url.to_string(),
        icon_url: "icon".to_string(),
        webhook_username: "mirror".to_string(),
    }
}

fn resolved(name: &str, id: &str, size: Option<u32>, bytes: &[u8]) -> Attachment {
    let mut att = attachment(name, id, size);
    att.start_fetch();
    att.resolve_fetch(bytes.to_vec());
    att
}

fn failed(name: &str, id: &str, err: FetchError) -> Attachment {
    let mut att = attachment(name, id, None);
    att.start_fetch();
    att.fail_fetch(err);
    att
}

#[test]
fn assemble_sorts_ascending_missing_first() {
    let atts = vec![
        attachment("five", "1", Some(5)),
        attachment("none-a", "2", None),
        attachment("three", "3", Some(3)),
        attachment("none-b", "4", None),
        attachment("zero", "5", Some(0)),
    ];
    let unified = assemble(Some("hello".to_string()), atts);
    assert_eq!(unified.message_text, Some("hello".to_string()));
    let sizes: Vec<Option<u32>> = unified.attachments.iter().map(|a| a.file_size).collect();
    assert_eq!(sizes, vec![None, None, Some(0), Some(3), Some(5)]);
}

#[test]
fn assemble_preserves_absent_text() {
    let unified = assemble(None, Vec::new());
    assert_eq!(unified.message_text, None);
    assert!(unified.attachments.is_empty());
}

#[test]
fn fetch_resolves_to_bytes() {
    let att = resolved("a.png", "fid", Some(3), &[1, 2, 3]);
    assert_eq!(att.get_file_or_wait().unwrap(), vec![1, 2, 3]);
}

#[test]
fn fetch_failure_is_kept() {
    let att = failed("a.png", "fid", FetchError::NetworkFailure);
    assert_eq!(att.get_file_or_wait().unwrap_err(), FetchError::NetworkFailure);
}

#[test]
fn finished_attachment_becomes_outbound_file() {
    let att = resolved("a.png", "fid", None, &[9]);
    let file = att.to_discord_attachment().unwrap();
    assert_eq!(file.file_name, "a.png");
    assert_eq!(file.bytes, vec![9]);
}

#[test]
fn route_register_and_lookup() {
    let mut table = RouteTable::new();
    assert!(table.register(TgChannelData {
        webhooks: vec![hook("https://one.example"), hook("https://two.example")],
        chat_id: -100,
    }));
    let route = table.lookup(-100).expect("registered channel must be found");
    assert_eq!(route.webhooks.len(), 2);
    assert_eq!(route.webhooks[0].webhook_url, "https://one.example");
    assert!(table.lookup(-200).is_none());
}

#[test]
fn empty_route_is_refused() {
    let mut table = RouteTable::new();
    assert!(!table.register(TgChannelData { webhooks: Vec::new(), chat_id: 5 }));
    assert!(table.lookup(5).is_none());
}

#[test]
fn unmapped_channel_sends_nothing() {
    let table = RouteTable::new();
    let mut sends: usize = 0;
    if let Some(route) = table.lookup(-42) {
        let message = UnifiedMessage {
            attachments: vec![resolved("a.png", "fid", None, &[1])],
            message_text: Some("hi".to_string()),
        };
        if let Some(mut run) = prepare_dispatch(route.webhooks.clone(), message) {
            while !run.is_complete() {
                sends += 1;
                run.record_outcome(SendOutcome::Delivered);
            }
        }
    }
    assert_eq!(sends, 0);
}

#[test]
fn successful_dispatch_calls_every_endpoint_once() {
    let hooks = vec![hook("u1"), hook("u2"), hook("u3")];
    let message = UnifiedMessage {
        attachments: vec![resolved("a.png", "fid", Some(1), &[1])],
        message_text: Some("hi".to_string()),
    };
    let mut run = prepare_dispatch(hooks, message).expect("message has text and a file");
    let mut attempted: Vec<String> = Vec::new();
    while let Some(target) = run.current_target() {
        // every attempt carries the same payload
        assert_eq!(run.message_text, Some("hi".to_string()));
        assert_eq!(run.files.len(), 1);
        assert_eq!(run.files[0].file_name, "a.png");
        attempted.push(target.webhook_url.clone());
        run.record_outcome(SendOutcome::Delivered);
    }
    assert!(run.is_complete());
    assert_eq!(attempted, vec!["u1", "u2", "u3"]);
    assert_eq!(run.outcomes.len(), 3);
}

#[test]
fn failed_endpoint_does_not_stop_the_rest() {
    let hooks = vec![hook("u1"), hook("u2"), hook("u3")];
    let message = UnifiedMessage {
        attachments: Vec::new(),
        message_text: Some("hi".to_string()),
    };
    let mut run = prepare_dispatch(hooks, message).expect("message has text");
    let mut attempted: Vec<String> = Vec::new();
    let mut step: usize = 0;
    while let Some(target) = run.current_target() {
        attempted.push(target.webhook_url.clone());
        let outcome = if step == 1 {
            SendOutcome::Failed(DispatchError::Rejected)
        } else {
            SendOutcome::Delivered
        };
        run.record_outcome(outcome);
        step += 1;
    }
    assert_eq!(attempted, vec!["u1", "u2", "u3"]);
    assert_eq!(
        run.outcomes,
        vec![
            SendOutcome::Delivered,
            SendOutcome::Failed(DispatchError::Rejected),
            SendOutcome::Delivered,
        ]
    );
}

#[test]
fn no_text_and_all_fetches_failed_withholds_message() {
    let hooks = vec![hook("u1")];
    let message = UnifiedMessage {
        attachments: vec![
            failed("a.png", "f1", FetchError::NotFound),
            failed("b.png", "f2", FetchError::NetworkFailure),
        ],
        message_text: None,
    };
    assert!(prepare_dispatch(hooks, message).is_none());
}

#[test]
fn failed_fetches_are_dropped_but_message_still_goes() {
    let hooks = vec![hook("u1")];
    let message = UnifiedMessage {
        attachments: vec![
            failed("gone.png", "f1", FetchError::NotFound),
            resolved("kept.png", "f2", Some(2), &[5, 6]),
        ],
        message_text: None,
    };
    let run = prepare_dispatch(hooks, message).expect("one file survived");
    assert_eq!(run.files.len(), 1);
    assert_eq!(run.files[0].file_name, "kept.png");
    assert_eq!(run.files[0].bytes, vec![5, 6]);
}

#[test]
fn empty_message_with_no_attachments_is_withheld() {
    let hooks = vec![hook("u1")];
    let message = UnifiedMessage { attachments: Vec::new(), message_text: None };
    assert!(prepare_dispatch(hooks, message).is_none());
}

#[test]
fn dispatch_run_counts_match_route() {
    let mut run = DispatchRun::new(
        vec![hook("u1"), hook("u2")],
        None,
        vec![],
    );
    assert!(!run.is_complete());
    run.record_outcome(SendOutcome::Delivered);
    run.record_outcome(SendOutcome::Failed(DispatchError::Unreachable));
    assert!(run.is_complete());
    assert!(run.current_target().is_none());
    assert_eq!(run.outcomes.len(), 2);
}

#[test]
fn assemble_is_stable_for_equal_sizes() {
    let atts = vec![
        attachment("first-five", "1", Some(5)),
        attachment("second-five", "2", Some(5)),
        attachment("first-none", "3", None),
        attachment("third-five", "4", Some(5)),
        attachment("second-none", "5", None),
    ];
    let unified = assemble(None, atts);
    let names: Vec<&str> = unified.attachments.iter().map(|a| a.file_name.as_str()).collect();
    assert_eq!(
        names,
        vec!["first-none", "second-none", "first-five", "second-five", "third-five"]
    );
}
