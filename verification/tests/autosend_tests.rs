use scene_bot::autosend::{autosend_decision, double_autosend_decision, AutosendAction};
use scene_bot::emoji_ref::MessageContext;
use scene_bot::sizing::ImageSize;

fn msg(content: &str) -> MessageContext {
    MessageContext {
        content: content.to_string(),
        author_is_bot: false,
        has_attachments: false,
        has_mentions: false,
        is_reply: false,
    }
}

#[test]
fn small_tiers_send_the_url_with_a_resize_hint() {
    match autosend_decision(&msg("<:kal:42>"), Some(ImageSize::Tiny)) {
        AutosendAction::SendUrl(u) => {
            assert_eq!(u, "https://cdn.discordapp.com/emojis/42.webp?size=16")
        },
        _ => panic!("expected a bare URL send"),
    }
    match autosend_decision(&msg("<:kal:42>"), Some(ImageSize::Medium)) {
        AutosendAction::SendUrl(u) => {
            assert_eq!(u, "https://cdn.discordapp.com/emojis/42.webp?size=128")
        },
        _ => panic!("expected a bare URL send"),
    }
    match autosend_decision(&msg("<:kal:42>"), Some(ImageSize::Auto)) {
        AutosendAction::SendUrl(u) => {
            assert_eq!(u, "https://cdn.discordapp.com/emojis/42.webp")
        },
        _ => panic!("expected a bare URL send"),
    }
}

#[test]
fn large_tiers_send_a_locally_resized_file() {
    match autosend_decision(&msg("<:kal:42>"), Some(ImageSize::Large)) {
        AutosendAction::SendFile { url, is_static, tier } => {
            assert_eq!(url, "https://cdn.discordapp.com/emojis/42.webp");
            assert!(is_static);
            assert_eq!(tier, ImageSize::Large);
        },
        _ => panic!("expected a file send"),
    }
    match autosend_decision(&msg("<a:kal:42>"), Some(ImageSize::ExtraLarge)) {
        AutosendAction::SendFile { url, is_static, tier } => {
            assert_eq!(url, "https://cdn.discordapp.com/emojis/42.gif");
            assert!(!is_static);
            assert_eq!(tier, ImageSize::ExtraLarge);
        },
        _ => panic!("expected a file send"),
    }
}

#[test]
fn disabled_policy_or_foreign_content_is_ignored() {
    assert!(matches!(
        autosend_decision(&msg("<:kal:42>"), None),
        AutosendAction::Ignore
    ));
    assert!(matches!(
        autosend_decision(&msg("hello"), Some(ImageSize::Medium)),
        AutosendAction::Ignore
    ));
    let mut m = msg("<:kal:42>");
    m.author_is_bot = true;
    assert!(matches!(
        autosend_decision(&m, Some(ImageSize::Medium)),
        AutosendAction::Ignore
    ));
}

#[test]
fn double_emoji_pair_yields_both_fetch_urls() {
    let r = double_autosend_decision(&msg("<:a:111><:b:222>"), Some(ImageSize::Auto));
    let (u1, u2) = r.unwrap();
    assert_eq!(u1, "https://cdn.discordapp.com/emojis/111.webp?size=128");
    assert_eq!(u2, "https://cdn.discordapp.com/emojis/222.webp?size=128");
}

#[test]
fn double_emoji_path_skips_animated_pairs_and_disabled_guilds() {
    assert!(double_autosend_decision(&msg("<a:a:1><a:b:2>"), Some(ImageSize::Auto)).is_none());
    assert!(double_autosend_decision(&msg("<:a:1><:b:2>"), None).is_none());
    assert!(double_autosend_decision(&msg("<:a:1>"), Some(ImageSize::Auto)).is_none());
}
