use guildbot::commands::{
    age_command, age_target, created_ms, effective_sides, ping_command, ready_message,
    roll_command, roll_value, thread_command, thread_kind, ThreadKind, User,
};
use guildbot::reply::Reply;

fn embed_text(r: Reply) -> String {
    match r {
        Reply::StructuredEmbed(d) => d,
        Reply::PlainText(_) => panic!("expected an embed"),
    }
}

fn plain_text(r: Reply) -> String {
    match r {
        Reply::PlainText(t) => t,
        Reply::StructuredEmbed(_) => panic!("expected plain text"),
    }
}

#[test]
fn ping_replies_pong() {
    assert_eq!(plain_text(ping_command()), "Pong!");
}

#[test]
fn roll_stays_in_range() {
    for &sides in &[1u32, 2, 6, 20] {
        for _ in 0..200 {
            let v = roll_value(Some(sides));
            assert!(1 <= v && v <= sides);
        }
    }
}

#[test]
fn roll_with_one_side_is_one() {
    for _ in 0..20 {
        assert_eq!(roll_value(Some(1)), 1);
    }
}

#[test]
fn roll_varies_over_six_sides() {
    let first = roll_value(Some(6));
    let mut saw_other = false;
    for _ in 0..300 {
        if roll_value(Some(6)) != first {
            saw_other = true;
        }
    }
    assert!(saw_other);
}

#[test]
fn roll_defaults_to_six_sides() {
    assert_eq!(effective_sides(None), effective_sides(Some(6)));
    for _ in 0..200 {
        let v = roll_value(None);
        assert!(1 <= v && v <= 6);
    }
    let text = embed_text(roll_command(None, false, None, "Ari"));
    assert!(text.contains("6 sides"));
}

#[test]
fn roll_embed_shows_value_sides_and_nickname() {
    let text = embed_text(roll_command(Some(20), true, Some(String::from("A")), "Ari"));
    let body = text.strip_prefix("# ").expect("heading");
    let (value, caption) = body.split_once('\n').expect("caption line");
    let value: u32 = value.parse().expect("a decimal value");
    assert!(1 <= value && value <= 20);
    assert!(caption.contains("20 sides"));
    assert!(caption.contains("(**A**)"));
    assert!(!caption.contains("Ari"));
}

#[test]
fn roll_falls_back_to_display_name() {
    let text = embed_text(roll_command(Some(6), true, None, "Ari"));
    assert!(text.contains("(**Ari**)"));
    let text = embed_text(roll_command(Some(6), false, Some(String::from("A")), "Ari"));
    assert!(text.contains("(**Ari**)"));
}

#[test]
fn thread_kind_follows_the_flag() {
    assert_eq!(thread_kind(Some(true)), ThreadKind::Private);
    assert_eq!(thread_kind(Some(false)), ThreadKind::Public);
    assert_eq!(thread_kind(None), ThreadKind::Public);
}

#[test]
fn thread_reply_mentions_the_new_thread() {
    let text = embed_text(thread_command(Some(true), 42));
    assert_eq!(text, "Private thread created: <#42>");
    let text = embed_text(thread_command(None, 42));
    assert_eq!(text, "Thread created: <#42>");
    let text = embed_text(thread_command(Some(false), 9007199254740993));
    assert_eq!(text, "Thread created: <#9007199254740993>");
}

#[test]
fn age_defaults_to_the_invoker() {
    let invoker = User { id: 7, name: String::from("Ari") };
    let target = age_target(None, invoker);
    assert_eq!(target.id, 7);
    assert_eq!(target.name, "Ari");
}

#[test]
fn age_prefers_the_named_user() {
    let invoker = User { id: 7, name: String::from("Ari") };
    let other = User { id: 9, name: String::from("Sam") };
    let target = age_target(Some(other), invoker);
    assert_eq!(target.id, 9);
    assert_eq!(target.name, "Sam");
}

#[test]
fn creation_time_comes_from_the_identifier() {
    // The platform's documented example identifier, created
    // 2016-04-30 11:18:25.796 UTC.
    assert_eq!(created_ms(175928847299117063), 1462015105796);
    assert_eq!(created_ms(0), 1420070400000);
}

#[test]
fn age_reply_renders_the_creation_time() {
    let target = User { id: 175928847299117063, name: String::from("Ari") };
    let text = plain_text(age_command(&target));
    assert_eq!(text, "Ari's account was created at <t:1462015105>");
}

#[test]
fn ready_line_names_the_bot() {
    assert_eq!(ready_message("guildbot"), "guildbot is connected!");
}
