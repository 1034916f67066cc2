//! Public log and private inboxes.

use botc_mcp::auth::{Actor, Token, TokenBook};
use botc_mcp::comms::{
    PrivateInboxes, PrivateMessage, PrivatePlayerCommsDisabled, PublicEvent, PublicLog,
};
use botc_mcp::game::SeatId;
use botc_mcp::roles::Team;

#[test]
fn private_inbox_is_per_seat() {
    let mut boxes = PrivateInboxes::default();
    boxes.push(SeatId(0), PrivateMessage::System { text: "only-0".into() });
    boxes.push(SeatId(1), PrivateMessage::System { text: "only-1".into() });
    assert_eq!(boxes.since(SeatId(0), 0).len(), 1);
    assert!(format!("{:?}", boxes.since(SeatId(0), 0)[0].1).contains("only-0"));
    assert!(!format!("{:?}", boxes.since(SeatId(1), 0)[0].1).contains("only-0"));
}

#[test]
fn private_inbox_cursor_and_empty_seat() {
    let mut boxes = PrivateInboxes::default();
    let id1 = boxes.push(SeatId(0), PrivateMessage::System { text: "a".into() });
    let id2 = boxes.push(SeatId(0), PrivateMessage::NightPrompt { text: "b".into() });
    assert!(id2 > id1);
    assert_eq!(boxes.since(SeatId(0), id1).len(), 1);
    assert_eq!(boxes.since(SeatId(0), id2).len(), 0);
    // Unknown seat → empty, not panic.
    assert!(boxes.since(SeatId(9), 0).is_empty());
}

#[test]
fn public_log_push_and_since_cursor() {
    let mut log = PublicLog::default();
    let e1 = log.push(PublicEvent::StorytellerAnnounce { text: "Night has fallen.".into() });
    let e2 = log.push(PublicEvent::Chat {
        seat: SeatId(0),
        name: "Alice".into(),
        text: "hello".into(),
        to: None,
    });
    assert_eq!(e1, 1);
    assert_eq!(e2, 2);
    assert_eq!(log.since(0).len(), 2);
    assert_eq!(log.since(e1).len(), 1);
    assert_eq!(log.since(e2).len(), 0);
    assert!(matches!(
        log.since(e1)[0].1,
        PublicEvent::Chat { text, to: None, .. } if text == "hello"
    ));
}

#[test]
fn public_event_variants_match_spec() {
    let samples = vec![
        PublicEvent::Chat {
            seat: SeatId(0),
            name: "A".into(),
            text: "hi".into(),
            to: Some(SeatId(2)),
        },
        PublicEvent::StorytellerAnnounce { text: "Nominations open.".into() },
        PublicEvent::Nominated { by: SeatId(0), target: SeatId(1) },
        PublicEvent::VoteCast { seat: SeatId(2), nominee: SeatId(1), support: true },
        PublicEvent::Executed { seat: SeatId(1) },
        PublicEvent::NoExecution,
        PublicEvent::DiedInNight { seats: vec![SeatId(3)] },
        PublicEvent::PlayerDied { seat: SeatId(4) },
        PublicEvent::SlayerMiss { slayer: SeatId(0), target: SeatId(1) },
        PublicEvent::PhaseChanged { summary: "Day 1 Discussion".into() },
        PublicEvent::GameEnded { winner: Team::Good },
    ];
    let mut log = PublicLog::default();
    for e in samples {
        log.push(e);
    }
    assert_eq!(log.since(0).len(), 11);
}

#[test]
fn private_message_variants_cover_brief() {
    let mut boxes = PrivateInboxes::default();
    boxes.push(
        SeatId(0),
        PrivateMessage::YouAre {
            character_label: "Empath".into(),
            team: Team::Good,
            rules_path: "docs/roles/townsfolk/empath.md".into(),
            note: None,
        },
    );
    boxes.push(SeatId(0), PrivateMessage::NightPrompt { text: "Choose two players.".into() });
    boxes.push(SeatId(0), PrivateMessage::NightResult { text: "1".into() });
    boxes.push(SeatId(0), PrivateMessage::EvilBriefing { text: "Your Demon is seat 2.".into() });
    boxes.push(SeatId(0), PrivateMessage::System { text: "You are now the Imp.".into() });
    assert_eq!(boxes.since(SeatId(0), 0).len(), 5);
    let you = &boxes.since(SeatId(0), 0)[0].1;
    assert!(matches!(
        you,
        PrivateMessage::YouAre { character_label, .. } if character_label == "Empath"
    ));
}

#[test]
fn player_player_whispers_disabled() {
    assert!(!PrivatePlayerCommsDisabled::whisper_allowed());
}

#[test]
fn private_ids_do_not_leak_across_seats_in_since() {
    let mut boxes = PrivateInboxes::default();
    boxes.push(SeatId(0), PrivateMessage::System { text: "s0".into() });
    boxes.push(SeatId(1), PrivateMessage::System { text: "s1".into() });
    boxes.push(SeatId(0), PrivateMessage::System { text: "s0b".into() });
    let s0: Vec<_> = boxes.since(SeatId(0), 0).into_iter().map(|(_, m)| m).collect();
    assert_eq!(s0.len(), 2);
    for m in s0 {
        assert!(!format!("{m:?}").contains("s1"));
    }
}

#[test]
fn polling_with_the_last_id_gives_only_what_came_after() {
    let mut log = PublicLog::default();
    let mut last = 0;
    for i in 0..5 {
        last = log.push(PublicEvent::PhaseChanged { summary: format!("step {i}") });
    }
    log.push(PublicEvent::NoExecution);
    let rest = log.since(last);
    assert_eq!(rest.len(), 1);
    assert_eq!(rest[0].0, 6);
    assert!(matches!(rest[0].1, PublicEvent::NoExecution));
}

#[test]
fn tokens_resolve_to_their_holder() {
    let mut book = TokenBook::default();
    let host = book.issue_host();
    let mut issued = vec![host];
    for i in 0..50u8 {
        let t = book.issue_player(SeatId(i % 7));
        assert_eq!(t.as_str().len(), 36);
        for (at, c) in t.as_str().chars().enumerate() {
            assert_eq!(c == '-', [8, 13, 18, 23].contains(&at));
            assert!(c == '-' || c.is_ascii_digit() || ('a'..='f').contains(&c));
        }
        assert_eq!(&t.as_str()[14..15], "4");
        assert!(issued.iter().all(|x| x.as_str() != t.as_str()));
        assert_eq!(book.resolve(&t), Some(Actor::Player { seat: SeatId(i % 7) }));
        issued.push(t);
    }
    assert_eq!(book.resolve(&issued[0]), Some(Actor::Host));
    // An older token of a seat stays valid; the latest is the one on record.
    assert_eq!(book.resolve(&issued[1]), Some(Actor::Player { seat: SeatId(0) }));
    assert_eq!(book.player_token(SeatId(0)).unwrap().as_str(), issued[50].as_str());
    assert_eq!(book.resolve(&Token::from_shared("nobody")), None);
}

#[test]
fn secrets_drawn_twice_are_settled() {
    let mut book = TokenBook::default();
    let known = book.issue_host();
    // An unknown secret is taken as it is.
    let fresh = Token::generate();
    assert_eq!(book.settle_secret(fresh.clone(), 7).as_str(), fresh.as_str());
    // A known one keeps its head; the rest is the number, in hexadecimal digits.
    let again = book.settle_secret(known.clone(), 0xfedc_ba98_7654_3210);
    assert_eq!(again.as_str(), format!("{}fedcba9876543210", &known.as_str()[..20]));
    assert_eq!(again.as_str().len(), 36);
    assert_eq!(book.resolve(&again), None);
    // The number steps around its end.
    assert!(book.settle_secret(known.clone(), u64::MAX).as_str().ends_with("ffffffffffffffff"));
}
