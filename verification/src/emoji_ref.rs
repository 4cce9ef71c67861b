//! Recognition of custom-emoji reference tokens in message text, and the
//! canonical CDN image URLs built from them.
//!
//! A token is `<` + optional animation marker `a` + `:` + name + `:` +
//! numeric id + `>`, anchored: nothing may precede or follow it. The name is
//! non-empty and holds no `:`; the id is one or more ASCII digits.

use vstd::prelude::*;
use vstd::string::StrSliceExecFns;
use vstd::string::StringExecFns;

verus! {

/// ASCII decimal digit.
pub open spec fn is_digit_char(c: char) -> bool {
    '0' <= c && c <= '9'
}

/// First position at or after `from` holding `c`, or `s.len()` if none does.
pub open spec fn find_from(s: Seq<char>, c: char, from: int) -> int
    decreases s.len() - from,
{
    if from < 0 || from >= s.len() {
        s.len() as int
    } else if s[from] == c {
        from
    } else {
        find_from(s, c, from + 1)
    }
}

/// First position at or after `from` holding a non-digit, or `s.len()` if
/// digits run to the end.
pub open spec fn digits_end(s: Seq<char>, from: int) -> int
    decreases s.len() - from,
{
    if from < 0 || from >= s.len() {
        s.len() as int
    } else if !is_digit_char(s[from]) {
        from
    } else {
        digits_end(s, from + 1)
    }
}

/// Shape of a token head at `start`: `<:` for a static token, `<a:` for an
/// animated one.
pub open spec fn token_head_ok(s: Seq<char>, start: int) -> bool {
    &&& 0 <= start
    &&& start + 2 <= s.len()
    &&& s[start] == '<'
    &&& (s[start + 1] == ':' || (s[start + 1] == 'a' && start + 3 <= s.len() && s[start + 2]
        == ':'))
}

/// Index of the first name character, once the head is known valid.
pub open spec fn token_name_start(s: Seq<char>, start: int) -> int {
    if s[start + 1] == 'a' {
        start + 3
    } else {
        start + 2
    }
}

/// Scans one emoji token beginning at `start`. Yields the animation flag, the
/// position of the first id digit, and the position one past the closing `>`;
/// `None` when no token starts there.
pub open spec fn token_scan(s: Seq<char>, start: int) -> Option<(bool, int, int)> {
    if !token_head_ok(s, start) {
        None
    } else {
        let anim = s[start + 1] == 'a';
        let ns = token_name_start(s, start);
        let c2 = find_from(s, ':', ns);
        if c2 == ns || c2 >= s.len() {
            None
        } else {
            let ide = digits_end(s, c2 + 1);
            if ide == c2 + 1 || ide >= s.len() || s[ide] != '>' {
                None
            } else {
                Some((anim, c2 + 1, ide + 1))
            }
        }
    }
}

/// The text is exactly one emoji token, with nothing before or after it.
pub open spec fn is_emoji_token(s: Seq<char>) -> bool {
    match token_scan(s, 0) {
        Some(t) => t.2 == s.len(),
        None => false,
    }
}

/// The token carries the animation marker.
pub open spec fn token_animated(s: Seq<char>) -> bool {
    s.len() >= 2 && s[1] == 'a'
}

/// The id digits of a single emoji token.
pub open spec fn token_id(s: Seq<char>) -> Seq<char> {
    match token_scan(s, 0) {
        Some(t) => s.subrange(t.1, t.2 - 1),
        None => Seq::empty(),
    }
}

/// The name characters of a single emoji token: what stands between the two
/// colons.
pub open spec fn token_name(s: Seq<char>) -> Seq<char> {
    let ns = token_name_start(s, 0);
    s.subrange(ns, find_from(s, ':', ns))
}

/// The canonical CDN image URL for an emoji id and file extension.
pub open spec fn cdn_emoji_url(id: Seq<char>, ext: Seq<char>) -> Seq<char> {
    "https://cdn.discordapp.com/emojis/"@ + id + "."@ + ext
}

/// End position of the first token when the text starts with one.
pub open spec fn first_token_end(s: Seq<char>) -> int {
    match token_scan(s, 0) {
        Some(t) => t.2,
        None => 0,
    }
}

/// The text is exactly two adjacent emoji tokens, with nothing else.
pub open spec fn is_double_emoji_token(s: Seq<char>) -> bool {
    &&& token_scan(s, 0) is Some
    &&& match token_scan(s, first_token_end(s)) {
        Some(t2) => t2.2 == s.len(),
        None => false,
    }
}

/// Both tokens of a double reference carry the same animation class.
pub open spec fn double_same_class(s: Seq<char>) -> bool {
    match (token_scan(s, 0), token_scan(s, first_token_end(s))) {
        (Some(t1), Some(t2)) => t1.0 == t2.0,
        _ => false,
    }
}

/// Animation class of the first token of a double reference.
pub open spec fn double_animated(s: Seq<char>) -> bool {
    match token_scan(s, 0) {
        Some(t) => t.0,
        None => false,
    }
}

/// Id digits of the first token of a double reference.
pub open spec fn first_token_id(s: Seq<char>) -> Seq<char> {
    match token_scan(s, 0) {
        Some(t) => s.subrange(t.1, t.2 - 1),
        None => Seq::empty(),
    }
}

/// Id digits of the second token of a double reference.
pub open spec fn second_token_id(s: Seq<char>) -> Seq<char> {
    match token_scan(s, first_token_end(s)) {
        Some(t) => s.subrange(t.1, t.2 - 1),
        None => Seq::empty(),
    }
}

proof fn lemma_find_from_bounds(s: Seq<char>, c: char, from: int)
    requires
        0 <= from <= s.len(),
    ensures
        from <= find_from(s, c, from) <= s.len(),
    decreases s.len() - from,
{
    if from < s.len() && s[from] != c {
        lemma_find_from_bounds(s, c, from + 1);
    }
}

proof fn lemma_digits_end_bounds(s: Seq<char>, from: int)
    requires
        0 <= from <= s.len(),
    ensures
        from <= digits_end(s, from) <= s.len(),
    decreases s.len() - from,
{
    if from < s.len() && is_digit_char(s[from]) {
        lemma_digits_end_bounds(s, from + 1);
    }
}

/// A scanned token lies strictly inside the text: its id digits start after
/// `start`, are non-empty, and the token ends within the text.
pub proof fn lemma_token_scan_bounds(s: Seq<char>, start: int)
    requires
        0 <= start <= s.len(),
    ensures
        match token_scan(s, start) {
            Some(t) => start < t.1 && t.1 < t.2 - 1 && t.2 <= s.len(),
            None => true,
        },
{
    if token_head_ok(s, start) {
        let ns = token_name_start(s, start);
        lemma_find_from_bounds(s, ':', ns);
        let c2 = find_from(s, ':', ns);
        if c2 != ns && c2 < s.len() {
            lemma_digits_end_bounds(s, c2 + 1);
        }
    }
}

proof fn lemma_find_from_props(s: Seq<char>, c: char, from: int)
    requires
        0 <= from <= s.len(),
    ensures
        forall|k: int| from <= k < find_from(s, c, from) ==> s[k] != c,
        find_from(s, c, from) < s.len() ==> s[find_from(s, c, from)] == c,
    decreases s.len() - from,
{
    if from < s.len() && s[from] != c {
        lemma_find_from_props(s, c, from + 1);
    }
}

proof fn lemma_digits_end_props(s: Seq<char>, from: int)
    requires
        0 <= from <= s.len(),
    ensures
        forall|k: int| from <= k < digits_end(s, from) ==> is_digit_char(s[k]),
    decreases s.len() - from,
{
    if from < s.len() && is_digit_char(s[from]) {
        lemma_digits_end_props(s, from + 1);
    }
}

/// Law: an accepted single reference reads, character for character, as `<`,
/// the animation marker `a` if and only if the token is animated, `:`, a
/// non-empty name without `:`, `:`, one or more ASCII digits, `>` — and
/// nothing else.
pub proof fn lemma_token_grammar(s: Seq<char>)
    requires
        is_emoji_token(s),
    ensures
        s =~= seq!['<'] + (if token_animated(s) {
            seq!['a']
        } else {
            Seq::<char>::empty()
        }) + seq![':'] + token_name(s) + seq![':'] + token_id(s) + seq!['>'],
        token_name(s).len() >= 1,
        forall|k: int| 0 <= k < token_name(s).len() ==> token_name(s)[k] != ':',
        token_id(s).len() >= 1,
        forall|k: int| 0 <= k < token_id(s).len() ==> is_digit_char(token_id(s)[k]),
{
    let ns = token_name_start(s, 0);
    lemma_find_from_bounds(s, ':', ns);
    lemma_find_from_props(s, ':', ns);
    let c2 = find_from(s, ':', ns);
    lemma_digits_end_bounds(s, c2 + 1);
    lemma_digits_end_props(s, c2 + 1);
}

proof fn lemma_find_from(s: Seq<char>, c: char, from: int, i: int)
    requires
        0 <= from <= i <= s.len(),
        forall|k: int| from <= k < i ==> s[k] != c,
        i == s.len() || s[i] == c,
    ensures
        find_from(s, c, from) == i,
    decreases i - from,
{
    if from < i {
        lemma_find_from(s, c, from + 1, i);
    }
}

proof fn lemma_digits_end(s: Seq<char>, from: int, i: int)
    requires
        0 <= from <= i <= s.len(),
        forall|k: int| from <= k < i ==> is_digit_char(s[k]),
        i == s.len() || !is_digit_char(s[i]),
    ensures
        digits_end(s, from) == i,
    decreases i - from,
{
    if from < i {
        lemma_digits_end(s, from + 1, i);
    }
}

/// ASCII decimal digit test.
fn is_ascii_digit(c: char) -> (r: bool)
    ensures
        r == is_digit_char(c),
{
    '0' <= c && c <= '9'
}

/// Scans one emoji token beginning at `start`; mirrors [`token_scan`].
fn scan_token(s: &str, n: usize, start: usize) -> (r: Option<(bool, usize, usize)>)
    requires
        n == s@.len(),
        start <= n,
    ensures
        match r {
            Some(t) => token_scan(s@, start as int) == Some((t.0, t.1 as int, t.2 as int)),
            None => token_scan(s@, start as int) is None,
        },
{
    if n - start < 2 {
        return None;
    }
    if s.get_char(start) != '<' {
        return None;
    }
    let c1 = s.get_char(start + 1);
    let anim: bool;
    let ns: usize;
    if c1 == ':' {
        anim = false;
        ns = start + 2;
    } else if c1 == 'a' {
        if n - start < 3 {
            return None;
        }
        if s.get_char(start + 2) != ':' {
            return None;
        }
        anim = true;
        ns = start + 3;
    } else {
        return None;
    }
    assert(token_head_ok(s@, start as int));
    assert(token_name_start(s@, start as int) == ns as int);

    let mut i: usize = ns;
    while i < n && s.get_char(i) != ':'
        invariant
            n == s@.len(),
            ns <= i <= n,
            forall|k: int| ns <= k < i ==> s@[k] != ':',
        decreases n - i,
    {
        i += 1;
    }
    proof {
        lemma_find_from(s@, ':', ns as int, i as int);
    }
    if i == n || i == ns {
        return None;
    }

    let ids = i + 1;
    let mut j: usize = ids;
    while j < n && is_ascii_digit(s.get_char(j))
        invariant
            n == s@.len(),
            ids <= j <= n,
            forall|k: int| ids <= k < j ==> is_digit_char(s@[k]),
        decreases n - j,
    {
        j += 1;
    }
    proof {
        lemma_digits_end(s@, ids as int, j as int);
    }
    if j == ids || j == n {
        return None;
    }
    if s.get_char(j) != '>' {
        return None;
    }
    Some((anim, ids, j + 1))
}

/// Builds the canonical CDN URL for the id digits `s[ids..end-1]` of a token.
fn build_cdn_url(s: &str, ids: usize, end: usize, ext: &str) -> (r: String)
    requires
        0 < ids < end,
        end <= s@.len(),
    ensures
        r@ == cdn_emoji_url(s@.subrange(ids as int, end - 1), ext@),
{
    let id_str = s.substring_char(ids, end - 1);
    let mut url = String::from_str("https://cdn.discordapp.com/emojis/");
    url.append(id_str);
    url.append(".");
    url.append(ext);
    proof {
        assert(url@ =~= cdn_emoji_url(s@.subrange(ids as int, end - 1), ext@));
    }
    url
}

/// Core of the single-reference filters: accepts text that is exactly one
/// emoji token and yields the still-or-animated flag and the CDN URL built
/// with `still_ext` for static emoji and `gif` for animated ones.
fn parse_single(s: &str, still_ext: &str) -> (r: Result<(bool, String), ()>)
    ensures
        r is Ok <==> is_emoji_token(s@),
        r matches Ok(p) ==> ({
            &&& p.0 == !token_animated(s@)
            &&& p.1@ == cdn_emoji_url(
                token_id(s@),
                if token_animated(s@) {
                    "gif"@
                } else {
                    still_ext@
                },
            )
        }),
{
    let n = s.unicode_len();
    match scan_token(s, n, 0) {
        None => Err(()),
        Some((anim, ids, end)) => {
            if end != n {
                return Err(());
            }
            let ext = if anim {
                "gif"
            } else {
                still_ext
            };
            let url = build_cdn_url(s, ids, end, ext);
            Ok((!anim, url))
        },
    }
}

/// Recognises text that is exactly one custom-emoji reference and builds the
/// canonical CDN URL, with `png` as the still-image extension. The returned
/// flag is true exactly for a static (non-animated) emoji.
pub fn emoji_format_filter(emoji_string: &str) -> (r: Result<(bool, String), ()>)
    ensures
        r is Ok <==> is_emoji_token(emoji_string@),
        r matches Ok(p) ==> ({
            &&& p.0 == !token_animated(emoji_string@)
            &&& p.1@ == cdn_emoji_url(
                token_id(emoji_string@),
                if token_animated(emoji_string@) {
                    "gif"@
                } else {
                    "png"@
                },
            )
        }),
{
    parse_single(emoji_string, "png")
}

/// Why a reference filter rejected the text.
#[derive(Debug, Clone, Copy, PartialEq, Eq, Structural)]
pub enum EmojiRefError {
    /// The text is not exactly the expected emoji reference shape.
    NotAnEmojiReference,
    /// The two tokens of a pair differ in animation class.
    MixedAnimationClassInPair,
}

/// Recognises text that is exactly two adjacent emoji references of the same
/// animation class and yields both canonical CDN URLs (`webp` for a static
/// pair, `gif` for an animated one, never mixed); a pair of differing
/// classes is reported apart from every other rejection.
pub fn double_reference_filter(content: &str) -> (r: Result<
    (bool, String, String),
    EmojiRefError,
>)
    ensures
        r is Ok <==> (is_double_emoji_token(content@) && double_same_class(content@)),
        r matches Ok(p) ==> ({
            let ext = if double_animated(content@) {
                "gif"@
            } else {
                "webp"@
            };
            &&& p.0 == !double_animated(content@)
            &&& p.1@ == cdn_emoji_url(first_token_id(content@), ext)
            &&& p.2@ == cdn_emoji_url(second_token_id(content@), ext)
        }),
        r == Err::<(bool, String, String), EmojiRefError>(EmojiRefError::MixedAnimationClassInPair)
            <==> (is_double_emoji_token(content@) && !double_same_class(content@)),
        r == Err::<(bool, String, String), EmojiRefError>(EmojiRefError::NotAnEmojiReference)
            <==> !is_double_emoji_token(content@),
{
    let s = content;
    let n = s.unicode_len();
    let t1 = match scan_token(s, n, 0) {
        None => {
            return Err(EmojiRefError::NotAnEmojiReference);
        },
        Some(t) => t,
    };
    proof {
        lemma_token_scan_bounds(s@, 0);
    }
    let t2 = match scan_token(s, n, t1.2) {
        None => {
            return Err(EmojiRefError::NotAnEmojiReference);
        },
        Some(t) => t,
    };
    if t2.2 != n {
        return Err(EmojiRefError::NotAnEmojiReference);
    }
    if t1.0 != t2.0 {
        return Err(EmojiRefError::MixedAnimationClassInPair);
    }
    proof {
        lemma_token_scan_bounds(s@, t1.2 as int);
    }
    let ext = if t1.0 {
        "gif"
    } else {
        "webp"
    };
    let first_url = build_cdn_url(s, t1.1, t1.2, ext);
    let second_url = build_cdn_url(s, t2.1, t2.2, ext);
    Ok((!t1.0, first_url, second_url))
}

/// The message fields the emoji filters read: its text and the flags that
/// disqualify it (bot author, attachments, mentions, reply reference).
pub struct MessageContext {
    pub content: String,
    pub author_is_bot: bool,
    pub has_attachments: bool,
    pub has_mentions: bool,
    pub is_reply: bool,
}

/// Nothing about the surrounding message disqualifies it from emoji handling.
pub open spec fn message_clean(m: &MessageContext) -> bool {
    &&& !m.author_is_bot
    &&& !m.has_attachments
    &&& !m.has_mentions
    &&& !m.is_reply
}

/// Message-level emoji recognition: one entry point for a single reference
/// and one for a pair of adjacent references.
pub trait EmojiFilter {
    /// The text the filters scan.
    spec fn filter_content(&self) -> Seq<char>;

    /// No disqualifying condition (bot author, attachments, mentions, reply)
    /// holds on the surrounding message.
    spec fn filter_clean(&self) -> bool;

    /// Accepts a clean message that is exactly one emoji token. Static emoji
    /// map to the CDN `webp` URL, animated ones to `gif`; the returned flag
    /// is true exactly for a static emoji.
    fn emoji_format_filter(&self) -> (r: Result<(bool, String), ()>)
        ensures
            r is Ok <==> (self.filter_clean() && is_emoji_token(self.filter_content())),
            r matches Ok(p) ==> ({
                &&& p.0 == !token_animated(self.filter_content())
                &&& p.1@ == cdn_emoji_url(
                    token_id(self.filter_content()),
                    if token_animated(self.filter_content()) {
                        "gif"@
                    } else {
                        "webp"@
                    },
                )
            }),
    ;

    /// Accepts a clean message that is exactly two adjacent emoji tokens of
    /// the same animation class and yields both CDN URLs; a mixed pair or any
    /// other content is rejected.
    fn double_emoji_format_filter(&self) -> (r: Result<(bool, String, String), ()>)
        ensures
            r is Ok <==> (self.filter_clean() && is_double_emoji_token(self.filter_content())
                && double_same_class(self.filter_content())),
            r matches Ok(p) ==> ({
                let c = self.filter_content();
                let ext = if double_animated(c) {
                    "gif"@
                } else {
                    "webp"@
                };
                &&& p.0 == !double_animated(c)
                &&& p.1@ == cdn_emoji_url(first_token_id(c), ext)
                &&& p.2@ == cdn_emoji_url(second_token_id(c), ext)
            }),
    ;
}

impl EmojiFilter for MessageContext {
    open spec fn filter_content(&self) -> Seq<char> {
        self.content@
    }

    open spec fn filter_clean(&self) -> bool {
        message_clean(self)
    }

    fn emoji_format_filter(&self) -> (r: Result<(bool, String), ()>) {
        if self.author_is_bot || self.has_attachments || self.has_mentions || self.is_reply {
            return Err(());
        }
        parse_single(self.content.as_str(), "webp")
    }

    fn double_emoji_format_filter(&self) -> (r: Result<(bool, String, String), ()>) {
        if self.author_is_bot || self.has_attachments || self.has_mentions || self.is_reply {
            return Err(());
        }
        match double_reference_filter(self.content.as_str()) {
            Ok(p) => Ok(p),
            Err(_) => Err(()),
        }
    }
}

} // verus!
