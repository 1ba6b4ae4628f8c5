use std::sync::Arc;

use codex::agent::{
    forward_event, forward_op, initialization_failure, spawn_agent, spawn_agent_from_existing,
    OpAction, OpInput,
};
use codex::app_event::AppEvent;
use codex::conversation_manager::{
    AuthManager, CodexErr, CodexSpawnOk, ConversationManager, NewConversation,
};
use codex::protocol::{Backend, ContentItem, Event, EventMsg, ResponseItem};

struct Words;

impl Backend for Words {
    type Codex = String;
    type CodexAuth = String;
    type AuthManager = String;
    type Config = String;
    type Server = String;
    type Error = String;
    type SessionConfigured = String;
    type Msg = String;
    type Op = String;
    type ConversationHistory = String;
    type FileMatch = String;
    type ReasoningEffort = String;
    type AskForApproval = String;
    type SandboxPolicy = String;
    type Path = String;
    type Key = String;
}

fn configured(id: &str) -> Event<Words> {
    Event { id: id.to_string(), msg: EventMsg::SessionConfigured("model".to_string()) }
}

fn message(id: &str, text: &str) -> Event<Words> {
    Event { id: id.to_string(), msg: EventMsg::Other(text.to_string()) }
}

fn spawned(id: u128) -> CodexSpawnOk<Words> {
    CodexSpawnOk { codex: format!("codex {id}"), session_id: id }
}

fn kept(manager: &mut ConversationManager<Words>, id: u128) -> NewConversation<Words> {
    match manager.finalize_spawn(spawned(id), "", Ok(configured(""))) {
        Ok(new) => new,
        Err(error) => panic!("{error:?}"),
    }
}

fn user(text: &str) -> ResponseItem {
    ResponseItem::Message {
        id: None,
        role: "user".to_string(),
        content: vec![ContentItem::InputText { text: text.to_string() }],
    }
}

#[test]
fn new_manager_keeps_nothing() {
    let manager: ConversationManager<Words> = ConversationManager::with_auth("key".to_string());
    assert_eq!(manager.get_conversation(7).err(), Some(CodexErr::ConversationNotFound(7)));
    let request = manager.new_conversation("config".to_string());
    assert_eq!(request.config, "config");
    assert!(matches!(&*request.auth_manager, AuthManager::Testing(auth) if auth == "key"));
    assert!(request.initial_history.is_none());
}

#[test]
fn conversations_share_the_auth_manager() {
    let auth = AuthManager::<Words>::new("login".to_string());
    assert!(matches!(&*auth, AuthManager::Shared(manager) if manager == "login"));
    let manager = ConversationManager::new(auth.clone());
    let request = manager.new_conversation("config".to_string());
    assert!(Arc::ptr_eq(&request.auth_manager, &auth));
    let fork = manager.fork_conversation(Vec::new(), 1, "config".to_string());
    assert!(Arc::ptr_eq(&fork.auth_manager, &auth));
}

#[test]
fn fork_starts_from_the_cut_history() {
    let manager: ConversationManager<Words> = ConversationManager::with_auth("key".to_string());
    let history = vec![user("u1"), user("u2"), user("u3")];
    let request = manager.fork_conversation(history.clone(), 2, "other".to_string());
    assert_eq!(request.config, "other");
    assert_eq!(request.initial_history, Some(vec![user("u1")]));
    let whole = manager.fork_conversation(history.clone(), 0, "other".to_string());
    assert_eq!(whole.initial_history, Some(history));
}

#[test]
fn kept_conversation_is_found_until_removed() {
    let mut manager: ConversationManager<Words> = ConversationManager::with_auth("k".to_string());
    let one = kept(&mut manager, 1);
    let two = kept(&mut manager, u128::MAX);
    assert_eq!(one.conversation_id, 1);
    assert_eq!(one.session_configured, "model");
    assert_eq!(one.conversation.codex(), "codex 1");
    match manager.get_conversation(1) {
        Ok(found) => assert!(Arc::ptr_eq(&found, &one.conversation)),
        Err(error) => panic!("{error:?}"),
    }
    manager.remove_conversation(1);
    manager.remove_conversation(99);
    assert_eq!(manager.get_conversation(1).err(), Some(CodexErr::ConversationNotFound(1)));
    match manager.get_conversation(u128::MAX) {
        Ok(found) => assert!(Arc::ptr_eq(&found, &two.conversation)),
        Err(error) => panic!("{error:?}"),
    }
    assert_eq!(one.conversation.codex(), "codex 1");
}

#[test]
fn first_event_has_to_be_the_configured_session() {
    let mut manager: ConversationManager<Words> = ConversationManager::with_auth("k".to_string());
    let wrong = manager.finalize_spawn(spawned(1), "", Ok(message("", "hello")));
    assert_eq!(wrong.err(), Some(CodexErr::SessionConfiguredNotFirstEvent));
    let late = manager.finalize_spawn(spawned(1), "", Ok(configured("3")));
    assert_eq!(late.err(), Some(CodexErr::SessionConfiguredNotFirstEvent));
    let gone = manager.finalize_spawn(spawned(1), "", Err("closed".to_string()));
    assert_eq!(gone.err(), Some(CodexErr::Agent("closed".to_string())));
    assert_eq!(manager.get_conversation(1).err(), Some(CodexErr::ConversationNotFound(1)));
    let named = manager.finalize_spawn(spawned(1), "init", Ok(configured("init")));
    assert!(named.is_ok());
    assert!(manager.get_conversation(1).is_ok());
}

#[test]
fn agent_that_does_not_start_is_an_error() {
    let manager: ConversationManager<Words> = ConversationManager::with_auth("k".to_string());
    let failed = manager.spawn_conversation(Err("no network".to_string()));
    assert_eq!(failed.err(), Some(CodexErr::Agent("no network".to_string())));
    match manager.spawn_conversation(Ok(spawned(5))) {
        Ok(spawned) => assert_eq!((spawned.codex.as_str(), spawned.session_id), ("codex 5", 5)),
        Err(error) => panic!("{error:?}"),
    }
}

#[test]
fn agent_reports_the_configured_session_first() {
    let mut manager: ConversationManager<Words> = ConversationManager::with_auth("k".to_string());
    let new = kept(&mut manager, 1);
    let conversation = new.conversation.clone();
    match spawn_agent(Ok(new)) {
        Ok(agent) => {
            assert!(Arc::ptr_eq(&agent.conversation, &conversation));
            match agent.first_event {
                AppEvent::CodexEvent(Event { id, msg: EventMsg::SessionConfigured(session) }) => {
                    assert_eq!((id.as_str(), session.as_str()), ("", "model"));
                }
                _ => panic!("another event"),
            }
        }
        Err(error) => panic!("{error:?}"),
    }
    let fork = spawn_agent_from_existing::<Words>(conversation, "forked".to_string());
    assert!(matches!(
        fork.first_event,
        AppEvent::CodexEvent(Event { msg: EventMsg::SessionConfigured(s), .. }) if s == "forked"
    ));
}

#[test]
fn agent_without_conversation_forwards_nothing() {
    let failed = spawn_agent::<Words>(Err(CodexErr::SessionConfiguredNotFirstEvent));
    assert_eq!(failed.err(), Some(CodexErr::SessionConfiguredNotFirstEvent));
    assert_eq!(initialization_failure("no network"), "failed to initialize codex: no network");
}

#[test]
fn events_are_forwarded_until_the_first_failure() {
    let mut sent: Vec<String> = Vec::new();
    let stream: Vec<Result<Event<Words>, String>> = vec![
        Ok(message("1", "a")),
        Ok(message("2", "b")),
        Err("closed".to_string()),
        Ok(message("3", "c")),
    ];
    for next in stream {
        match forward_event(next) {
            Some(AppEvent::CodexEvent(Event { id, msg: EventMsg::Other(text) })) => {
                sent.push(format!("{id}{text}"));
            }
            Some(_) => panic!("another event"),
            None => break,
        }
    }
    assert_eq!(sent, vec!["1a", "2b"]);
}

#[test]
fn failed_submission_does_not_end_the_loop() {
    let submit = forward_op::<Words>(OpInput::Received(Some("interrupt".to_string())));
    assert!(matches!(submit, OpAction::Submit(op) if op == "interrupt"));
    let taken = forward_op::<Words>(OpInput::Submitted(Ok("7".to_string())));
    assert!(matches!(taken, OpAction::Receive { error: None }));
    match forward_op::<Words>(OpInput::Submitted(Err("closed".to_string()))) {
        OpAction::Receive { error: Some(error) } => {
            assert_eq!(error, "failed to submit op: closed");
        }
        _ => panic!("another action"),
    }
    assert!(matches!(forward_op::<Words>(OpInput::Received(None)), OpAction::End));
}

#[test]
fn conversations_do_not_disturb_each_other() {
    let mut manager: ConversationManager<Words> = ConversationManager::with_auth("k".to_string());
    let first = kept(&mut manager, 1);
    kept(&mut manager, 2);
    manager.remove_conversation(2);
    manager.remove_conversation(3);
    kept(&mut manager, 2);
    let found = manager.get_conversation(1);
    assert!(matches!(found, Ok(conversation) if Arc::ptr_eq(&conversation, &first.conversation)));
    assert_eq!(manager.get_conversation(3).err(), Some(CodexErr::ConversationNotFound(3)));
}

#[test]
fn configured_session_comes_before_the_stream() {
    let mut manager: ConversationManager<Words> = ConversationManager::with_auth("k".to_string());
    let new = kept(&mut manager, 1);
    let agent = spawn_agent_from_existing::<Words>(new.conversation, new.session_configured);
    let mut sent = vec![agent.first_event];
    let stream: Vec<Result<Event<Words>, String>> =
        vec![Ok(message("1", "a")), Ok(message("2", "b")), Err("closed".to_string())];
    for next in stream {
        sent.extend(forward_event(next));
    }
    let ids: Vec<String> = sent
        .iter()
        .map(|event| match event {
            AppEvent::CodexEvent(Event { id, msg: EventMsg::SessionConfigured(session) }) => {
                format!("{id}={session}")
            }
            AppEvent::CodexEvent(Event { id, .. }) => id.clone(),
            _ => panic!("another event"),
        })
        .collect();
    assert_eq!(ids, vec!["=model", "1", "2"]);
}
