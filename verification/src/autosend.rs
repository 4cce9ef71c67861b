//! The decisions of the automatic emoji paths: what to do with an inbound
//! message, given the guild's policy. The surrounding runtime performs the
//! fetches, deletions and sends these decisions call for.

use vstd::prelude::*;

use crate::compose::merged_fetch_url;
use crate::emoji_ref::{cdn_emoji_url, double_animated, double_same_class, first_token_id,
    is_double_emoji_token, is_emoji_token, message_clean, second_token_id, token_animated,
    token_id, EmojiFilter, MessageContext};
use crate::sizing::ImageSize;

verus! {

/// The canonical CDN URL the automatic path uses for a single emoji message:
/// `webp` for static emoji, `gif` for animated ones.
pub open spec fn autosend_emoji_url(c: Seq<char>) -> Seq<char> {
    cdn_emoji_url(
        token_id(c),
        if token_animated(c) {
            "gif"@
        } else {
            "webp"@
        },
    )
}

/// The server-side pre-resize hint a tier uses when the emoji is sent as a
/// bare URL: the tier's own fixed pixel size, standing in for the local
/// transform. `None` for the tiers that are resized locally and sent as
/// files; empty for `Auto`, which asks for no resize at all.
pub open spec fn spec_autosend_url_hint(t: ImageSize) -> Option<Seq<char>> {
    match t {
        ImageSize::Tiny => Some("?size=16"@),
        ImageSize::Small => Some("?size=64"@),
        ImageSize::Medium => Some("?size=128"@),
        ImageSize::Auto => Some(""@),
        ImageSize::Large => None,
        ImageSize::ExtraLarge => None,
    }
}

/// The pre-resize hint of a tier, when it is sent as a bare URL.
pub fn autosend_url_hint(t: &ImageSize) -> (r: Option<&'static str>)
    ensures
        match r {
            Some(s) => spec_autosend_url_hint(*t) == Some(s@),
            None => spec_autosend_url_hint(*t) is None,
        },
{
    match t {
        ImageSize::Tiny => Some("?size=16"),
        ImageSize::Small => Some("?size=64"),
        ImageSize::Medium => Some("?size=128"),
        ImageSize::Auto => Some(""),
        ImageSize::Large => None,
        ImageSize::ExtraLarge => None,
    }
}

/// What the automatic single-emoji path does with one message.
pub enum AutosendAction {
    /// Nothing: the message is not exactly one emoji reference, or the
    /// guild's policy does not ask for automatic resizing.
    Ignore,
    /// Delete the message and send this bare URL (the canonical CDN URL with
    /// the tier's pre-resize hint appended).
    SendUrl(String),
    /// Delete the message, fetch this URL, and send the emoji as a file:
    /// a static emoji resized to the tier, an animated one attached as it is.
    SendFile { url: String, is_static: bool, tier: ImageSize },
}

/// Decides the automatic single-emoji path for one message. `policy` is the
/// guild's gate: the default tier when automatic resizing is on, `None` when
/// it is off or the guild is unknown.
pub fn autosend_decision(msg: &MessageContext, policy: Option<ImageSize>) -> (r: AutosendAction)
    ensures
        ({
            let c = msg.content@;
            let ok = message_clean(msg) && is_emoji_token(c);
            match r {
                AutosendAction::Ignore => !(ok && policy is Some),
                AutosendAction::SendUrl(u) => ok && match policy {
                    Some(t) => spec_autosend_url_hint(t) matches Some(hint) && u@
                        == autosend_emoji_url(c) + hint,
                    None => false,
                },
                AutosendAction::SendFile { url, is_static, tier } => ok && match policy {
                    Some(t) => spec_autosend_url_hint(t) is None && tier == t && is_static
                        == !token_animated(c) && url@ == autosend_emoji_url(c),
                    None => false,
                },
            }
        }),
{
    let (is_static, url) = match msg.emoji_format_filter() {
        Err(()) => {
            return AutosendAction::Ignore;
        },
        Ok(p) => p,
    };
    let tier = match policy {
        None => {
            return AutosendAction::Ignore;
        },
        Some(t) => t,
    };
    match autosend_url_hint(&tier) {
        Some(hint) => {
            let mut u = url;
            u.append(hint);
            AutosendAction::SendUrl(u)
        },
        None => AutosendAction::SendFile { url, is_static, tier },
    }
}

/// Decides the automatic double-emoji path for one message: the two fetch
/// URLs (CDN URLs of a static same-class pair, with the fixed 128-pixel
/// pre-resize hint), or `None` when the message or the policy disqualifies
/// it. Animated pairs are left alone.
pub fn double_autosend_decision(msg: &MessageContext, policy: Option<ImageSize>) -> (r: Option<
    (String, String),
>)
    ensures
        ({
            let c = msg.content@;
            let ok = message_clean(msg) && is_double_emoji_token(c) && double_same_class(c)
                && !double_animated(c);
            match r {
                Some(p) => ({
                    &&& ok && policy is Some
                    &&& p.0@ == cdn_emoji_url(first_token_id(c), "webp"@) + "?size=128"@
                    &&& p.1@ == cdn_emoji_url(second_token_id(c), "webp"@) + "?size=128"@
                }),
                None => !(ok && policy is Some),
            }
        }),
{
    let (is_static, first_url, second_url) = match msg.double_emoji_format_filter() {
        Err(()) => {
            return None;
        },
        Ok(p) => p,
    };
    if !is_static {
        return None;
    }
    if policy.is_none() {
        return None;
    }
    Some((merged_fetch_url(first_url.as_str()), merged_fetch_url(second_url.as_str())))
}

} // verus!
