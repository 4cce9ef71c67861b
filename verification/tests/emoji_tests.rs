use scene_bot::emoji_ref::{
    double_reference_filter, emoji_format_filter, EmojiFilter, EmojiRefError, MessageContext,
};

fn msg(content: &str) -> MessageContext {
    MessageContext {
        content: content.to_string(),
        author_is_bot: false,
        has_attachments: false,
        has_mentions: false,
        is_reply: false,
    }
}

#[test]
fn single_static_reference_is_png() {
    let r = emoji_format_filter("<:name:123456789012345678>");
    assert_eq!(
        r,
        Ok((
            true,
            "https://cdn.discordapp.com/emojis/123456789012345678.png".to_string()
        ))
    );
}

#[test]
fn single_animated_reference_is_gif() {
    let r = emoji_format_filter("<a:name:123456789012345678>");
    assert_eq!(
        r,
        Ok((
            false,
            "https://cdn.discordapp.com/emojis/123456789012345678.gif".to_string()
        ))
    );
}

#[test]
fn leading_or_trailing_characters_reject() {
    assert_eq!(emoji_format_filter(" <:name:123456789012345678>"), Err(()));
    assert_eq!(emoji_format_filter("<:name:123456789012345678> "), Err(()));
    assert_eq!(emoji_format_filter("x<:name:1>"), Err(()));
    assert_eq!(emoji_format_filter("<:name:1>!"), Err(()));
}

#[test]
fn malformed_tokens_reject() {
    assert_eq!(emoji_format_filter(""), Err(()));
    assert_eq!(emoji_format_filter("<:name:>"), Err(()));
    assert_eq!(emoji_format_filter("<::123>"), Err(()));
    assert_eq!(emoji_format_filter("<:na:me:123>"), Err(()));
    assert_eq!(emoji_format_filter("<:name:12a>"), Err(()));
    assert_eq!(emoji_format_filter("<b:name:123>"), Err(()));
    assert_eq!(emoji_format_filter("<:name:123"), Err(()));
    assert_eq!(emoji_format_filter("plain text"), Err(()));
}

#[test]
fn two_tokens_or_text_between_tokens_reject_the_single_filter() {
    assert_eq!(emoji_format_filter("<:a:1><:b:2>"), Err(()));
    assert_eq!(emoji_format_filter("<:a:1> hi <:b:2>"), Err(()));
}

#[test]
fn name_may_hold_any_character_but_a_colon() {
    let r = emoji_format_filter("<:a>b:123>");
    assert_eq!(
        r,
        Ok((true, "https://cdn.discordapp.com/emojis/123.png".to_string()))
    );
}

#[test]
fn message_filter_uses_webp_for_static_emoji() {
    let r = msg("<:kal:42>").emoji_format_filter();
    assert_eq!(
        r,
        Ok((true, "https://cdn.discordapp.com/emojis/42.webp".to_string()))
    );
    let r = msg("<a:kal:42>").emoji_format_filter();
    assert_eq!(
        r,
        Ok((false, "https://cdn.discordapp.com/emojis/42.gif".to_string()))
    );
}

#[test]
fn disqualified_messages_reject() {
    let mut m = msg("<:kal:42>");
    m.author_is_bot = true;
    assert_eq!(m.emoji_format_filter(), Err(()));

    let mut m = msg("<:kal:42>");
    m.has_attachments = true;
    assert_eq!(m.emoji_format_filter(), Err(()));

    let mut m = msg("<:kal:42>");
    m.has_mentions = true;
    assert_eq!(m.emoji_format_filter(), Err(()));

    let mut m = msg("<:kal:42>");
    m.is_reply = true;
    assert_eq!(m.emoji_format_filter(), Err(()));
}

#[test]
fn double_filter_accepts_a_static_pair() {
    let r = msg("<:a:111><:b:222>").double_emoji_format_filter();
    assert_eq!(
        r,
        Ok((
            true,
            "https://cdn.discordapp.com/emojis/111.webp".to_string(),
            "https://cdn.discordapp.com/emojis/222.webp".to_string()
        ))
    );
}

#[test]
fn double_filter_accepts_an_animated_pair() {
    let r = msg("<a:a:111><a:b:222>").double_emoji_format_filter();
    assert_eq!(
        r,
        Ok((
            false,
            "https://cdn.discordapp.com/emojis/111.gif".to_string(),
            "https://cdn.discordapp.com/emojis/222.gif".to_string()
        ))
    );
}

#[test]
fn double_reference_filter_tells_mixed_pairs_apart() {
    assert_eq!(
        double_reference_filter("<a:a:1><:b:2>"),
        Err(EmojiRefError::MixedAnimationClassInPair)
    );
    assert_eq!(
        double_reference_filter("<:a:1><a:b:2>"),
        Err(EmojiRefError::MixedAnimationClassInPair)
    );
    assert_eq!(
        double_reference_filter("<:a:1>"),
        Err(EmojiRefError::NotAnEmojiReference)
    );
    assert_eq!(
        double_reference_filter("plain"),
        Err(EmojiRefError::NotAnEmojiReference)
    );
    assert_eq!(
        double_reference_filter("<:a:111><:b:222>"),
        Ok((
            true,
            "https://cdn.discordapp.com/emojis/111.webp".to_string(),
            "https://cdn.discordapp.com/emojis/222.webp".to_string()
        ))
    );
}

#[test]
fn double_filter_rejects_mixed_classes_and_other_content() {
    assert_eq!(msg("<a:a:1><:b:2>").double_emoji_format_filter(), Err(()));
    assert_eq!(msg("<:a:1><a:b:2>").double_emoji_format_filter(), Err(()));
    assert_eq!(msg("<:a:1>").double_emoji_format_filter(), Err(()));
    assert_eq!(msg("<:a:1><:b:2> ").double_emoji_format_filter(), Err(()));
    assert_eq!(msg("<:a:1> <:b:2>").double_emoji_format_filter(), Err(()));
    assert_eq!(msg("<:a:1><:b:2><:c:3>").double_emoji_format_filter(), Err(()));
    let mut m = msg("<:a:1><:b:2>");
    m.is_reply = true;
    assert_eq!(m.double_emoji_format_filter(), Err(()));
}
