use kp::keyring::Keyring;
use kp::unlock::{
    attempts_left, open_database, Acquisition, Event, Failure, Phase, Source, Step, ATTEMPTS,
    PROMPT,
};
use std::collections::HashMap;

const ENOKEY: i32 = 126;

/// Everything around the plan: a keyring, a user at the terminal or a
/// pipe, and a database that opens with one password.
struct World {
    store: HashMap<String, String>,
    store_calls: Vec<&'static str>,
    accepted: &'static str,
    key_file_readable: bool,
    piped: Option<&'static str>,
    typed: Vec<&'static str>,
    prompts: usize,
    notices: Vec<u8>,
}

impl World {
    fn new(accepted: &'static str) -> World {
        World {
            store: HashMap::new(),
            store_calls: Vec::new(),
            accepted,
            key_file_readable: true,
            piped: None,
            typed: Vec::new(),
            prompts: 0,
            notices: Vec::new(),
        }
    }

    fn open(&self, secret: &str) -> Event {
        if !self.key_file_readable {
            Event::Unusable
        } else if secret == self.accepted {
            Event::Opened
        } else {
            Event::Rejected
        }
    }
}

/// Carries a plan out in `world`. Gives back how it ended and the
/// password that was tried last.
fn acquire(resource: &str, use_keyring: bool, world: &mut World) -> (Result<Source, Failure>, String) {
    let keyring = Keyring::from_db_path(resource, ENOKEY);
    let slot = keyring.description();
    let mut plan = open_database(world.piped.is_none(), use_keyring);
    let mut secret = String::new();
    for _ in 0..100 {
        let event = match plan.request() {
            Step::ReadPipe => {
                secret = world.piped.expect("a pipe").to_string();
                Event::SecretRead
            }
            Step::Fetch => {
                world.store_calls.push("get");
                match world.store.get(&slot) {
                    Some(cached) => {
                        secret = cached.clone();
                        Event::Hit
                    }
                    None => Event::Miss,
                }
            }
            Step::Open(_) => world.open(&secret),
            Step::Forget => {
                world.store_calls.push("delete");
                world.store.remove(&slot);
                Event::StoreReplied
            }
            Step::Prompt { left } => {
                if let Some(left) = left {
                    world.notices.push(left);
                }
                secret = world.typed[world.prompts].to_string();
                world.prompts += 1;
                Event::SecretRead
            }
            Step::Remember => {
                world.store_calls.push("set");
                world.store.insert(slot.clone(), secret.clone());
                Event::StoreReplied
            }
            Step::Done(outcome) => return (outcome, secret),
        };
        plan.advance(event);
    }
    panic!("the plan does not end");
}

#[test]
fn first_typed_password_opens_and_is_stored() {
    let mut world = World::new("correct-horse");
    world.typed = vec!["correct-horse"];
    let (outcome, secret) = acquire("secrets.kdbx", true, &mut world);
    assert_eq!(outcome, Ok(Source::Typed));
    assert_eq!(secret, "correct-horse");
    assert_eq!(
        world.store.get("kp.keepass.cli.tool:7244884636087086527").map(String::as_str),
        Some("correct-horse")
    );
    assert_eq!(world.notices, Vec::<u8>::new());
    assert_eq!(world.prompts, 1);
    assert_eq!(world.store_calls, vec!["get", "set"]);
}

#[test]
fn stale_password_is_deleted_before_the_user_is_asked() {
    let mut world = World::new("correct-horse");
    world.store.insert(
        String::from("kp.keepass.cli.tool:7244884636087086527"),
        String::from("battery-staple"),
    );
    world.typed = vec!["correct-horse"];
    let (outcome, secret) = acquire("secrets.kdbx", true, &mut world);
    assert_eq!(outcome, Ok(Source::Typed));
    assert_eq!(secret, "correct-horse");
    assert_eq!(world.store_calls, vec!["get", "delete", "set"]);
    assert_eq!(
        world.store.get("kp.keepass.cli.tool:7244884636087086527").map(String::as_str),
        Some("correct-horse")
    );
    assert_eq!(world.notices, Vec::<u8>::new());
    assert_eq!(world.prompts, 1);
}

#[test]
fn three_refusals_exhaust_the_attempts() {
    let mut world = World::new("correct-horse");
    world.typed = vec!["one", "two", "three", "correct-horse"];
    let (outcome, _) = acquire("secrets.kdbx", true, &mut world);
    assert_eq!(outcome, Err(Failure::Exhausted));
    assert_eq!(world.prompts, 3);
    assert_eq!(world.notices, vec![2, 1]);
    assert_eq!(world.store_calls, vec!["get"]);
    assert!(world.store.is_empty());
}

#[test]
fn piped_password_leaves_the_keyring_alone() {
    let mut world = World::new("correct-horse");
    world.piped = Some("correct-horse");
    world.store.insert(
        String::from("kp.keepass.cli.tool:7244884636087086527"),
        String::from("battery-staple"),
    );
    let (outcome, secret) = acquire("secrets.kdbx", true, &mut world);
    assert_eq!(outcome, Ok(Source::Piped));
    assert_eq!(secret, "correct-horse");
    assert_eq!(world.store_calls, Vec::<&str>::new());
    assert_eq!(world.store.len(), 1);
    assert_eq!(world.prompts, 0);
}

#[test]
fn piped_password_is_tried_once() {
    let mut world = World::new("correct-horse");
    world.piped = Some("wrong");
    world.typed = vec!["correct-horse"];
    let (outcome, _) = acquire("secrets.kdbx", true, &mut world);
    assert_eq!(outcome, Err(Failure::Rejected));
    assert_eq!(world.prompts, 0);
    assert_eq!(world.store_calls, Vec::<&str>::new());
}

#[test]
fn cached_password_opens_without_a_prompt() {
    let mut world = World::new("correct-horse");
    world.store.insert(
        String::from("kp.keepass.cli.tool:7244884636087086527"),
        String::from("correct-horse"),
    );
    let (outcome, secret) = acquire("secrets.kdbx", true, &mut world);
    assert_eq!(outcome, Ok(Source::Cached));
    assert_eq!(secret, "correct-horse");
    assert_eq!(world.prompts, 0);
    assert_eq!(world.store_calls, vec!["get"]);
}

#[test]
fn without_keyring_nothing_is_fetched_or_stored() {
    let mut world = World::new("correct-horse");
    world.typed = vec!["nope", "correct-horse"];
    let (outcome, secret) = acquire("secrets.kdbx", false, &mut world);
    assert_eq!(outcome, Ok(Source::Typed));
    assert_eq!(secret, "correct-horse");
    assert_eq!(world.prompts, 2);
    assert_eq!(world.notices, vec![2]);
    assert_eq!(world.store_calls, Vec::<&str>::new());
    assert!(world.store.is_empty());
}

#[test]
fn third_attempt_may_still_succeed() {
    let mut world = World::new("correct-horse");
    world.typed = vec!["one", "two", "correct-horse"];
    let (outcome, _) = acquire("secrets.kdbx", true, &mut world);
    assert_eq!(outcome, Ok(Source::Typed));
    assert_eq!(world.prompts, 3);
    assert_eq!(world.notices, vec![2, 1]);
    assert_eq!(world.store_calls, vec!["get", "set"]);
}

#[test]
fn unreadable_key_file_ends_it_at_once() {
    let mut typed = World::new("correct-horse");
    typed.key_file_readable = false;
    typed.typed = vec!["correct-horse", "correct-horse"];
    assert_eq!(acquire("secrets.kdbx", false, &mut typed).0, Err(Failure::Unusable));
    assert_eq!(typed.prompts, 1);

    let mut piped = World::new("correct-horse");
    piped.key_file_readable = false;
    piped.piped = Some("correct-horse");
    assert_eq!(acquire("secrets.kdbx", false, &mut piped).0, Err(Failure::Unusable));

    let mut cached = World::new("correct-horse");
    cached.key_file_readable = false;
    cached.store.insert(
        String::from("kp.keepass.cli.tool:7244884636087086527"),
        String::from("correct-horse"),
    );
    assert_eq!(acquire("secrets.kdbx", true, &mut cached).0, Err(Failure::Unusable));
    assert_eq!(cached.store_calls, vec!["get"]);
    assert_eq!(cached.store.len(), 1);
}

#[test]
fn plan_starts_where_the_input_says() {
    assert_eq!(
        open_database(false, true),
        Acquisition { keyring: false, phase: Phase::ReadingPipe }
    );
    assert_eq!(
        open_database(false, false),
        Acquisition { keyring: false, phase: Phase::ReadingPipe }
    );
    assert_eq!(open_database(true, true), Acquisition { keyring: true, phase: Phase::Fetching });
    assert_eq!(
        open_database(true, false),
        Acquisition { keyring: false, phase: Phase::Prompting { attempt: 1 } }
    );
    assert_eq!(open_database(false, true).request(), Step::ReadPipe);
    assert_eq!(open_database(true, true).request(), Step::Fetch);
    assert_eq!(open_database(true, false).request(), Step::Prompt { left: None });
}

#[test]
fn event_that_answers_nothing_changes_nothing() {
    let events = [
        Event::SecretRead,
        Event::Hit,
        Event::Miss,
        Event::Opened,
        Event::Rejected,
        Event::Unusable,
        Event::StoreReplied,
    ];
    let mut fetching = open_database(true, true);
    for event in [Event::SecretRead, Event::Opened, Event::Rejected, Event::StoreReplied] {
        fetching.advance(event);
        assert_eq!(fetching, open_database(true, true));
    }
    let mut done = Acquisition { keyring: true, phase: Phase::Finished(Ok(Source::Cached)) };
    for event in events {
        done.advance(event);
        assert_eq!(done.request(), Step::Done(Ok(Source::Cached)));
    }
}

#[test]
fn pipe_never_asks_for_the_keyring_whatever_happens() {
    let events = [
        Event::SecretRead,
        Event::Hit,
        Event::Miss,
        Event::Opened,
        Event::Rejected,
        Event::Unusable,
        Event::StoreReplied,
    ];
    for first in events {
        for second in events {
            for third in events {
                let mut plan = open_database(false, true);
                for event in [first, second, third] {
                    assert!(!matches!(plan.request(), Step::Fetch | Step::Forget | Step::Remember));
                    plan.advance(event);
                }
                assert!(!matches!(plan.request(), Step::Fetch | Step::Forget | Step::Remember));
            }
        }
    }
}

#[test]
fn prompt_announces_what_is_left() {
    let prompt = |attempt: u8| Acquisition { keyring: false, phase: Phase::Prompting { attempt } };
    assert_eq!(prompt(1).request(), Step::Prompt { left: None });
    assert_eq!(prompt(2).request(), Step::Prompt { left: Some(2) });
    assert_eq!(prompt(3).request(), Step::Prompt { left: Some(1) });
    assert_eq!(prompt(0).request(), Step::Prompt { left: None });
    assert_eq!(prompt(200).request(), Step::Prompt { left: None });
    assert_eq!(ATTEMPTS, 3);
}

#[test]
fn attempt_beyond_the_last_is_not_followed_by_another() {
    let mut plan = Acquisition { keyring: true, phase: Phase::OpeningTyped { attempt: 255 } };
    plan.advance(Event::Rejected);
    assert_eq!(plan.request(), Step::Done(Err(Failure::Exhausted)));
}

#[test]
fn messages_of_the_prompt() {
    assert_eq!(PROMPT, "Password:");
    assert_eq!(attempts_left(2), "2 attempt(s) left.");
    assert_eq!(attempts_left(1), "1 attempt(s) left.");
    assert_eq!(attempts_left(255), "255 attempt(s) left.");
}

#[test]
fn longest_plan_takes_ten_steps() {
    let events = [
        Event::Hit,
        Event::Rejected,
        Event::StoreReplied,
        Event::SecretRead,
        Event::Rejected,
        Event::SecretRead,
        Event::Rejected,
        Event::SecretRead,
        Event::Opened,
        Event::StoreReplied,
    ];
    let mut plan = open_database(true, true);
    for event in events {
        assert!(!matches!(plan.request(), Step::Done(_)));
        let before = plan;
        plan.advance(event);
        assert_ne!(plan, before);
    }
    assert_eq!(plan.request(), Step::Done(Ok(Source::Typed)));
}
