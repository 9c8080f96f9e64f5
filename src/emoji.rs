//! Emoji shortcodes (`:rocket:`) and their expansion.
use vstd::prelude::*;

use crate::text::{chars_of, is_prefix, lower_of, lowercase, starts_with_lit, str_is, string_of};

verus! {

/// The emoji that the shortcode `code` stands for.
pub open spec fn emoji_of(code: Seq<char>) -> Option<Seq<char>> {
    if code == "+1"@ {
        Some("👍"@)
    } else if code == "-1"@ {
        Some("👎"@)
    } else if code == "100"@ {
        Some("💯"@)
    } else if code == "arrow_down"@ {
        Some("⬇️"@)
    } else if code == "arrow_left"@ {
        Some("⬅️"@)
    } else if code == "arrow_right"@ {
        Some("➡️"@)
    } else if code == "arrow_up"@ {
        Some("⬆️"@)
    } else if code == "books"@ {
        Some("📚"@)
    } else if code == "broken_heart"@ {
        Some("💔"@)
    } else if code == "bug"@ {
        Some("🐛"@)
    } else if code == "bulb"@ {
        Some("💡"@)
    } else if code == "check"@ {
        Some("✅"@)
    } else if code == "clap"@ {
        Some("👏"@)
    } else if code == "cloud"@ {
        Some("☁️"@)
    } else if code == "computer"@ {
        Some("💻"@)
    } else if code == "construction"@ {
        Some("🚧"@)
    } else if code == "exclamation"@ {
        Some("❗"@)
    } else if code == "fire"@ {
        Some("🔥"@)
    } else if code == "flower"@ {
        Some("🌸"@)
    } else if code == "gear"@ {
        Some("⚙️"@)
    } else if code == "grin"@ {
        Some("😁"@)
    } else if code == "hammer"@ {
        Some("🔨"@)
    } else if code == "heart"@ {
        Some("❤️"@)
    } else if code == "heart_eyes"@ {
        Some("😍"@)
    } else if code == "heavy_check_mark"@ {
        Some("✔️"@)
    } else if code == "heavy_multiplication_x"@ {
        Some("✖️"@)
    } else if code == "joy"@ {
        Some("😂"@)
    } else if code == "key"@ {
        Some("🔑"@)
    } else if code == "link"@ {
        Some("🔗"@)
    } else if code == "lock"@ {
        Some("🔒"@)
    } else if code == "memo"@ {
        Some("📝"@)
    } else if code == "moon"@ {
        Some("🌙"@)
    } else if code == "muscle"@ {
        Some("💪"@)
    } else if code == "package"@ {
        Some("📦"@)
    } else if code == "phone"@ {
        Some("📱"@)
    } else if code == "pray"@ {
        Some("🙏"@)
    } else if code == "pushpin"@ {
        Some("📌"@)
    } else if code == "question"@ {
        Some("❓"@)
    } else if code == "rainbow"@ {
        Some("🌈"@)
    } else if code == "rocket"@ {
        Some("🚀"@)
    } else if code == "rofl"@ {
        Some("🤣"@)
    } else if code == "round_pushpin"@ {
        Some("📍"@)
    } else if code == "smile"@ {
        Some("😊"@)
    } else if code == "sparkles"@ {
        Some("✨"@)
    } else if code == "sparkling_heart"@ {
        Some("💖"@)
    } else if code == "star"@ {
        Some("⭐"@)
    } else if code == "sun"@ {
        Some("☀️"@)
    } else if code == "sunglasses"@ {
        Some("😎"@)
    } else if code == "tada"@ {
        Some("🎉"@)
    } else if code == "thinking"@ {
        Some("🤔"@)
    } else if code == "thumbsdown"@ {
        Some("👎"@)
    } else if code == "thumbsup"@ {
        Some("👍"@)
    } else if code == "tree"@ {
        Some("🌳"@)
    } else if code == "warning"@ {
        Some("⚠️"@)
    } else if code == "wave"@ {
        Some("👋"@)
    } else if code == "white_check_mark"@ {
        Some("✅"@)
    } else if code == "wink"@ {
        Some("😉"@)
    } else if code == "wrench"@ {
        Some("🔧"@)
    } else if code == "x"@ {
        Some("❌"@)
    } else if code == "zap"@ {
        Some("⚡"@)
    } else {
        None
    }
}

/// Every shortcode, in byte order.
pub open spec fn shortcode_list() -> Seq<Seq<char>> {
    seq![
        "+1"@,
        "-1"@,
        "100"@,
        "arrow_down"@,
        "arrow_left"@,
        "arrow_right"@,
        "arrow_up"@,
        "books"@,
        "broken_heart"@,
        "bug"@,
        "bulb"@,
        "check"@,
        "clap"@,
        "cloud"@,
        "computer"@,
        "construction"@,
        "exclamation"@,
        "fire"@,
        "flower"@,
        "gear"@,
        "grin"@,
        "hammer"@,
        "heart"@,
        "heart_eyes"@,
        "heavy_check_mark"@,
        "heavy_multiplication_x"@,
        "joy"@,
        "key"@,
        "link"@,
        "lock"@,
        "memo"@,
        "moon"@,
        "muscle"@,
        "package"@,
        "phone"@,
        "pray"@,
        "pushpin"@,
        "question"@,
        "rainbow"@,
        "rocket"@,
        "rofl"@,
        "round_pushpin"@,
        "smile"@,
        "sparkles"@,
        "sparkling_heart"@,
        "star"@,
        "sun"@,
        "sunglasses"@,
        "tada"@,
        "thinking"@,
        "thumbsdown"@,
        "thumbsup"@,
        "tree"@,
        "warning"@,
        "wave"@,
        "white_check_mark"@,
        "wink"@,
        "wrench"@,
        "x"@,
        "zap"@,
    ]
}

fn emoji(code: &str) -> (r: Option<&'static str>)
    ensures
        r is Some == emoji_of(code@) is Some,
        r is Some ==> r->0@ == emoji_of(code@)->0,
{
    if str_is(code, "+1") {
        Some("👍")
    } else if str_is(code, "-1") {
        Some("👎")
    } else if str_is(code, "100") {
        Some("💯")
    } else if str_is(code, "arrow_down") {
        Some("⬇️")
    } else if str_is(code, "arrow_left") {
        Some("⬅️")
    } else if str_is(code, "arrow_right") {
        Some("➡️")
    } else if str_is(code, "arrow_up") {
        Some("⬆️")
    } else if str_is(code, "books") {
        Some("📚")
    } else if str_is(code, "broken_heart") {
        Some("💔")
    } else if str_is(code, "bug") {
        Some("🐛")
    } else if str_is(code, "bulb") {
        Some("💡")
    } else if str_is(code, "check") {
        Some("✅")
    } else if str_is(code, "clap") {
        Some("👏")
    } else if str_is(code, "cloud") {
        Some("☁️")
    } else if str_is(code, "computer") {
        Some("💻")
    } else if str_is(code, "construction") {
        Some("🚧")
    } else if str_is(code, "exclamation") {
        Some("❗")
    } else if str_is(code, "fire") {
        Some("🔥")
    } else if str_is(code, "flower") {
        Some("🌸")
    } else if str_is(code, "gear") {
        Some("⚙️")
    } else if str_is(code, "grin") {
        Some("😁")
    } else if str_is(code, "hammer") {
        Some("🔨")
    } else if str_is(code, "heart") {
        Some("❤️")
    } else if str_is(code, "heart_eyes") {
        Some("😍")
    } else if str_is(code, "heavy_check_mark") {
        Some("✔️")
    } else if str_is(code, "heavy_multiplication_x") {
        Some("✖️")
    } else if str_is(code, "joy") {
        Some("😂")
    } else if str_is(code, "key") {
        Some("🔑")
    } else if str_is(code, "link") {
        Some("🔗")
    } else if str_is(code, "lock") {
        Some("🔒")
    } else if str_is(code, "memo") {
        Some("📝")
    } else if str_is(code, "moon") {
        Some("🌙")
    } else if str_is(code, "muscle") {
        Some("💪")
    } else if str_is(code, "package") {
        Some("📦")
    } else if str_is(code, "phone") {
        Some("📱")
    } else if str_is(code, "pray") {
        Some("🙏")
    } else if str_is(code, "pushpin") {
        Some("📌")
    } else if str_is(code, "question") {
        Some("❓")
    } else if str_is(code, "rainbow") {
        Some("🌈")
    } else if str_is(code, "rocket") {
        Some("🚀")
    } else if str_is(code, "rofl") {
        Some("🤣")
    } else if str_is(code, "round_pushpin") {
        Some("📍")
    } else if str_is(code, "smile") {
        Some("😊")
    } else if str_is(code, "sparkles") {
        Some("✨")
    } else if str_is(code, "sparkling_heart") {
        Some("💖")
    } else if str_is(code, "star") {
        Some("⭐")
    } else if str_is(code, "sun") {
        Some("☀️")
    } else if str_is(code, "sunglasses") {
        Some("😎")
    } else if str_is(code, "tada") {
        Some("🎉")
    } else if str_is(code, "thinking") {
        Some("🤔")
    } else if str_is(code, "thumbsdown") {
        Some("👎")
    } else if str_is(code, "thumbsup") {
        Some("👍")
    } else if str_is(code, "tree") {
        Some("🌳")
    } else if str_is(code, "warning") {
        Some("⚠️")
    } else if str_is(code, "wave") {
        Some("👋")
    } else if str_is(code, "white_check_mark") {
        Some("✅")
    } else if str_is(code, "wink") {
        Some("😉")
    } else if str_is(code, "wrench") {
        Some("🔧")
    } else if str_is(code, "x") {
        Some("❌")
    } else if str_is(code, "zap") {
        Some("⚡")
    } else {
        None
    }
}

fn shortcodes() -> (r: Vec<&'static str>)
    ensures
        r@.len() == shortcode_list().len(),
        forall|i: int| 0 <= i < r@.len() ==> r@[i]@ == #[trigger] shortcode_list()[i],
{
    let mut v: Vec<&'static str> = Vec::new();
    v.push("+1");
    v.push("-1");
    v.push("100");
    v.push("arrow_down");
    v.push("arrow_left");
    v.push("arrow_right");
    v.push("arrow_up");
    v.push("books");
    v.push("broken_heart");
    v.push("bug");
    v.push("bulb");
    v.push("check");
    v.push("clap");
    v.push("cloud");
    v.push("computer");
    v.push("construction");
    v.push("exclamation");
    v.push("fire");
    v.push("flower");
    v.push("gear");
    v.push("grin");
    v.push("hammer");
    v.push("heart");
    v.push("heart_eyes");
    v.push("heavy_check_mark");
    v.push("heavy_multiplication_x");
    v.push("joy");
    v.push("key");
    v.push("link");
    v.push("lock");
    v.push("memo");
    v.push("moon");
    v.push("muscle");
    v.push("package");
    v.push("phone");
    v.push("pray");
    v.push("pushpin");
    v.push("question");
    v.push("rainbow");
    v.push("rocket");
    v.push("rofl");
    v.push("round_pushpin");
    v.push("smile");
    v.push("sparkles");
    v.push("sparkling_heart");
    v.push("star");
    v.push("sun");
    v.push("sunglasses");
    v.push("tada");
    v.push("thinking");
    v.push("thumbsdown");
    v.push("thumbsup");
    v.push("tree");
    v.push("warning");
    v.push("wave");
    v.push("white_check_mark");
    v.push("wink");
    v.push("wrench");
    v.push("x");
    v.push("zap");
    assert(v@.len() == shortcode_list().len());
    v
}

/// The codes of `codes` that begin with `pre`, in order.
pub open spec fn prefix_hits(codes: Seq<Seq<char>>, pre: Seq<char>) -> Seq<Seq<char>>
    decreases codes.len(),
{
    if codes.len() == 0 {
        Seq::empty()
    } else {
        let rest = prefix_hits(codes.drop_last(), pre);
        if is_prefix(pre, codes.last()) {
            rest.push(codes.last())
        } else {
            rest
        }
    }
}

/// First offset at or after `i` holding `:`, a space or a line feed, or `s.len()`.
pub open spec fn code_end(s: Seq<char>, i: int) -> int
    decreases s.len() - i,
{
    if i < 0 || i >= s.len() {
        s.len() as int
    } else if s[i] == ':' || s[i] == ' ' || s[i] == '\n' {
        i
    } else {
        code_end(s, i + 1)
    }
}

/// `s` from offset `i` on, with each `:code:` of a known shortcode replaced
/// by its emoji.
pub open spec fn expand_from(s: Seq<char>, i: int) -> Seq<char>
    decreases s.len() - i,
{
    if i < 0 || i >= s.len() {
        Seq::empty()
    } else if s[i] == ':' {
        let e = code_end(s, i + 1);
        if e < s.len() && s[e] == ':' && e > i + 1 && emoji_of(s.subrange(i + 1, e)) is Some {
            emoji_of(s.subrange(i + 1, e))->0 + expand_from(s, e + 1)
        } else {
            seq![':'] + expand_from(s, i + 1)
        }
    } else {
        seq![s[i]] + expand_from(s, i + 1)
    }
}

proof fn lemma_code_end(s: Seq<char>, i: int)
    requires
        0 <= i <= s.len(),
    ensures
        i <= code_end(s, i) <= s.len(),
    decreases s.len() - i,
{
    if i < s.len() && !(s[i] == ':' || s[i] == ' ' || s[i] == '\n') {
        lemma_code_end(s, i + 1);
    }
}

fn scan_code(s: &Vec<char>, from: usize) -> (r: usize)
    requires
        from <= s@.len(),
    ensures
        r == code_end(s@, from as int),
{
    let mut i = from;
    while i < s.len() && !(s[i] == ':' || s[i] == ' ' || s[i] == '\n')
        invariant
            from <= i <= s@.len(),
            code_end(s@, from as int) == code_end(s@, i as int),
        decreases s@.len() - i,
    {
        i += 1;
    }
    i
}

/// Expands emoji shortcodes.
pub struct EmojiExpander;

impl EmojiExpander {
    pub fn new() -> (r: Self) {
        EmojiExpander
    }

    /// The emoji of a shortcode given without colons.
    pub fn expand(&self, shortcode: &str) -> (r: Option<&'static str>)
        ensures
            r is Some == emoji_of(shortcode@) is Some,
            r is Some ==> r->0@ == emoji_of(shortcode@)->0,
    {
        emoji(shortcode)
    }

    /// `text` with every `:code:` of a known shortcode replaced by its emoji.
    pub fn expand_all(&self, text: &str) -> (r: String)
        ensures
            r@ == expand_from(text@, 0),
    {
        let s = chars_of(text);
        let n = s.len();
        let mut out = String::new();
        let mut i: usize = 0;
        while i < n
            invariant
                i <= n == s@.len(),
                s@ == text@,
                out@ + expand_from(s@, i as int) == expand_from(s@, 0),
            decreases n - i,
        {
            let c = s[i];
            let ghost before = out@;
            if c == ':' {
                proof {
                    lemma_code_end(s@, i + 1);
                }
                let e = scan_code(&s, i + 1);
                let mut done = false;
                if e < n && s[e] == ':' && e > i + 1 {
                    let code = string_of(&s, i + 1, e);
                    match emoji(code.as_str()) {
                        Some(em) => {
                            out.append(em);
                            assert(out@ =~= before + emoji_of(s@.subrange(i + 1, e as int))->0);
                            i = e + 1;
                            done = true;
                        },
                        None => {},
                    }
                }
                if !done {
                    out.push(':');
                    assert(out@ =~= before + seq![':']);
                    i = i + 1;
                }
            } else {
                out.push(c);
                assert(out@ =~= before + seq![c]);
                i = i + 1;
            }
        }
        out
    }

    /// Every shortcode, in byte order.
    pub fn available_shortcodes() -> (r: Vec<&'static str>)
        ensures
            r@.len() == shortcode_list().len(),
            forall|i: int| 0 <= i < r@.len() ==> r@[i]@ == #[trigger] shortcode_list()[i],
    {
        shortcodes()
    }

    /// The shortcodes that begin with `prefix_lower`, in byte order, each
    /// with its emoji.
    pub fn search_lowercase(&self, prefix_lower: &str) -> (r: Vec<(&'static str, &'static str)>)
        ensures
            r@.len() == prefix_hits(shortcode_list(), prefix_lower@).len(),
            forall|i: int|
                0 <= i < r@.len() ==> (#[trigger] r@[i]).0@ == prefix_hits(shortcode_list(), prefix_lower@)[i]
                    && emoji_of(r@[i].0@) == Some(r@[i].1@),
    {
        let codes = shortcodes();
        let mut out: Vec<(&'static str, &'static str)> = Vec::new();
        let mut i: usize = 0;
        while i < codes.len()
            invariant
                i <= codes@.len() == shortcode_list().len(),
                forall|j: int| 0 <= j < codes@.len() ==> codes@[j]@ == #[trigger] shortcode_list()[j],
                out@.len() == prefix_hits(shortcode_list().take(i as int), prefix_lower@).len(),
                forall|j: int|
                    0 <= j < out@.len() ==> out@[j].0@ == #[trigger] prefix_hits(
                        shortcode_list().take(i as int),
                        prefix_lower@,
                    )[j] && emoji_of(out@[j].0@) == Some(out@[j].1@),
            decreases codes@.len() - i,
        {
            let code = codes[i];
            let cs = chars_of(code);
            assert(shortcode_list().take(i + 1).drop_last() =~= shortcode_list().take(i as int));
            if starts_with_lit(&cs, prefix_lower) {
                match emoji(code) {
                    Some(em) => {
                        out.push((code, em));
                    },
                    None => {},
                }
            }
            i += 1;
        }
        assert(shortcode_list().take(codes@.len() as int) =~= shortcode_list());
        out
    }

    /// The shortcodes that begin with `prefix`, lower-cased, in byte order,
    /// each with its emoji.
    pub fn search(&self, prefix: &str) -> (r: Vec<(&'static str, &'static str)>)
        ensures
            r@.len() == prefix_hits(shortcode_list(), lower_of(prefix@)).len(),
            forall|i: int|
                0 <= i < r@.len() ==> (#[trigger] r@[i]).0@ == prefix_hits(shortcode_list(), lower_of(prefix@))[i]
                    && emoji_of(r@[i].0@) == Some(r@[i].1@),
    {
        let lower = lowercase(prefix);
        let lower_str = lower.as_str();
        let r = self.search_lowercase(lower_str);
        assert(lower_str@ == lower_of(prefix@));
        r
    }
}

impl Default for EmojiExpander {
    fn default() -> (r: Self) {
        EmojiExpander::new()
    }
}

} // verus!
