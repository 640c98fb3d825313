use gateway_bot::config::Config;
use gateway_bot::deletion::DeletionRegistry;
use gateway_bot::interaction::{
    attachment_at, pick_attachment, schedule_after_verdict, schedule_on_request, verdict_post,
    verdict_post_at, verification_post,
};
use gateway_bot::messages::{
    channel_created, deletion_notice_at, request_log, verdict_log, verdict_message, welcome, Verdict,
};
use gateway_bot::questions::{draw_questions, render_questions};

fn config(auto: bool) -> Config {
    Config {
        questions_number: 2,
        delete_delay_seconds: 60,
        auto_delete_on_verdict: auto,
        category_id: 100,
        log_channel_id: 500,
        moderator_role_ids: vec![5],
        verified_role_ids: vec![9],
        lines: vec!["first str".to_string(), "second str".to_string(), "third str".to_string()],
    }
}

#[test]
fn questions_are_numbered_and_joined() {
    let lines = vec!["a?".to_string(), "b?".to_string(), "c?".to_string()];
    assert_eq!(render_questions(&lines, &vec![2, 0, 1], 2), "1. c?\n\n2. a?");
    assert_eq!(render_questions(&lines, &vec![1], 1), "1. b?");
    assert_eq!(render_questions(&lines, &vec![], 0), "");
}

#[test]
fn drawn_questions_are_distinct_and_counted() {
    let cfg = config(false);
    for _ in 0..20 {
        let text = draw_questions(&cfg.lines, cfg.questions_number);
        let parts: Vec<&str> = text.split("\n\n").collect();
        assert_eq!(parts.len(), 2);
        assert!(parts[0].starts_with("1. ") && parts[1].starts_with("2. "));
        assert_ne!(parts[0][3..], parts[1][3..]);
        for p in &parts {
            assert!(cfg.lines.iter().any(|l| *l == p[3..]));
        }
    }
}

#[test]
fn question_count_is_capped_by_available_lines() {
    let lines = vec!["only".to_string()];
    assert_eq!(draw_questions(&lines, 3), "1. only");
    assert_eq!(draw_questions(&vec![], 3), "");
    assert_eq!(draw_questions(&lines, 0), "");
}

#[test]
fn welcome_shows_account_age() {
    assert_eq!(welcome(42, 1462015105), "<@42> :wave:\n-# Аккаунт создан <t:1462015105:R>\n");
}

#[test]
fn verification_post_reads_creation_time_from_snowflake() {
    let post = verification_post(&config(false), 175928847299117063, "alice", 777);
    assert_eq!(post.welcome, "<@175928847299117063> :wave:\n-# Аккаунт создан <t:1462015105:R>\n");
    assert_eq!(post.reply, "Канал создан: <#777>");
    assert!(post.log.starts_with("❔ Участник <@175928847299117063> (`alice`) запросил верификацию <t:"));
    assert!(post.log.ends_with(":R>"));
    assert_eq!(post.questions.split("\n\n").count(), 2);
}

#[test]
fn reply_and_log_texts() {
    assert_eq!(channel_created(12), "Канал создан: <#12>");
    assert_eq!(
        request_log(7, "bob", 1700000000),
        "❔ Участник <@7> (`bob`) запросил верификацию <t:1700000000:R>"
    );
}

#[test]
fn verdict_texts() {
    assert_eq!(
        verdict_message("hello", Verdict::Accepted, 3, 10),
        "hello\n\n✅ Принято модератором <@3> <t:10:R>"
    );
    assert_eq!(
        verdict_message("hello", Verdict::Denied, 3, 10),
        "hello\n\n❌ Отклонено модератором <@3> <t:10:R>"
    );
    assert_eq!(
        verdict_log(Verdict::Accepted, 8, Some("eve"), 3, 10),
        "✅ Участник <@8> (`eve`) **принят** модератором <@3> <t:10:R>"
    );
    assert_eq!(
        verdict_log(Verdict::Denied, 8, None, 3, 10),
        "❌ Участник <@8>  **отклонён** модератором <@3> <t:10:R>"
    );
    let post = verdict_post_at(Verdict::Denied, "m", 3, 8, Some("eve"), -5);
    assert_eq!(post.message, "m\n\n❌ Отклонено модератором <@3> <t:-5:R>");
    assert_eq!(post.log, "❌ Участник <@8> (`eve`) **отклонён** модератором <@3> <t:-5:R>");
}

#[test]
fn verdict_post_shares_one_timestamp() {
    let post = verdict_post(Verdict::Accepted, "m", 3, 8, None);
    let stamp = post.message.rsplit("<t:").next().unwrap().to_string();
    assert!(post.log.ends_with(&format!("<t:{}", stamp)));
}

#[test]
fn deletion_notices() {
    assert_eq!(deletion_notice_at(true, 1000, 120), "Этот канал автоматически удалится <t:1120:R>.");
    assert_eq!(deletion_notice_at(false, 1000, 60), "Этот канал будет удалён <t:1060:R>.");
}

#[test]
fn registry_schedules_once() {
    let mut r: DeletionRegistry<&str> = DeletionRegistry::new();
    assert!(!r.is_pending(1));
    assert_eq!(r.schedule(1, "first", 0, 60), Some(60));
    assert!(r.is_pending(1));
    assert_eq!(r.schedule(1, "second", 5, 60), None);
    assert_eq!(r.schedule(2, "other", 5, 60), Some(5));
    assert_eq!(r.take(1), Some("first"));
    assert!(!r.is_pending(1));
    assert_eq!(r.take(1), None);
    assert!(r.is_pending(2));
}

#[test]
fn verdict_schedules_doubled_delay() {
    let cfg = config(true);
    let mut r: DeletionRegistry<u8> = DeletionRegistry::new();
    let s = schedule_after_verdict(&mut r, &cfg, 42, 1).expect("scheduled");
    assert_eq!(s.delay, 120);
    assert!(s.notice.starts_with("Этот канал автоматически удалится <t:"));
    assert!(r.is_pending(42));
    assert!(schedule_after_verdict(&mut r, &cfg, 42, 2).is_none());
    assert_eq!(r.take(42), Some(1));
}

#[test]
fn verdict_without_auto_delete_schedules_nothing() {
    let cfg = config(false);
    let mut r: DeletionRegistry<u8> = DeletionRegistry::new();
    assert!(schedule_after_verdict(&mut r, &cfg, 42, 1).is_none());
    assert!(!r.is_pending(42));
}

#[test]
fn delete_request_schedules_configured_delay() {
    let cfg = config(false);
    let mut r: DeletionRegistry<u8> = DeletionRegistry::new();
    let s = schedule_on_request(&mut r, &cfg, 7, 1).expect("scheduled");
    assert_eq!(s.delay, 60);
    assert!(s.notice.starts_with("Этот канал будет удалён <t:"));
    assert!(schedule_on_request(&mut r, &cfg, 7, 2).is_none());
}

#[test]
fn attachments_become_spoilers() {
    let names = vec![Some("cat.png".to_string()), None];
    assert_eq!(attachment_at(&names, 0), Some("SPOILER_cat.png".to_string()));
    assert_eq!(attachment_at(&names, 1), None);
    assert!(pick_attachment(&vec![]).is_none());
    let one = vec![Some("dog.jpg".to_string())];
    assert_eq!(pick_attachment(&one), Some((0, "SPOILER_dog.jpg".to_string())));
    for _ in 0..10 {
        match pick_attachment(&names) {
            Some((i, n)) => {
                assert_eq!(i, 0);
                assert_eq!(n, "SPOILER_cat.png");
            }
            None => {}
        }
    }
}
