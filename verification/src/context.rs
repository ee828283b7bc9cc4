//! Context of the focused application: which apps need the clipboard-paste
//! fallback, which tone the polishing prompt should take, and how the answers
//! of the accessibility and clipboard probes become a name or a selection.

use vstd::prelude::*;
use vstd::utf8::is_ascii_chars;
use crate::text::{
    ascii_lower, lemma_ascii_lower_concat, lemma_contains_transitive, occurs_at, chars_of, contains, contains_chars, from_utf8_lossy, lowercase, string_from_chars, string_views,
    to_lowercase, trim, trim_chars, utf8_lossy,
};

verus! {

/// Built-in list of applications where direct key simulation is known to
/// behave poorly. For these apps the injector falls back to clipboard paste.
pub const DEFAULT_BLACKLIST: [&'static str; 8] = [
    "Terminal",
    "iTerm",
    "iTerm2",
    "Alacritty",
    "kitty",
    "Warp",
    "Sublime Text",
    "Zed",
];

/// The built-in blacklist as character sequences.
pub open spec fn default_blacklist() -> Seq<Seq<char>> {
    seq![
        "Terminal"@,
        "iTerm"@,
        "iTerm2"@,
        "Alacritty"@,
        "kitty"@,
        "Warp"@,
        "Sublime Text"@,
        "Zed"@,
    ]
}

/// `entry` matches the application: its lowercase form occurs in the
/// application's lowercase name.
pub open spec fn entry_matches(app: Seq<char>, entry: Seq<char>) -> bool {
    contains(lowercase(app), lowercase(entry))
}

/// Some built-in entry matches the application.
pub open spec fn matches_default(app: Seq<char>) -> bool {
    exists|i: int| 0 <= i < default_blacklist().len() && entry_matches(app, #[trigger] default_blacklist()[i])
}

/// Some non-empty custom entry matches the application.
pub open spec fn matches_custom(app: Seq<char>, custom: Seq<Seq<char>>) -> bool {
    exists|j: int| 0 <= j < custom.len() && custom[j].len() > 0 && entry_matches(app, #[trigger] custom[j])
}

/// The application must use the clipboard-paste injection fallback.
pub open spec fn blacklisted(app: Seq<char>, custom: Seq<Seq<char>>) -> bool {
    matches_default(app) || matches_custom(app, custom)
}

/// The blacklist answer for an application whose name, lowercased, is
/// `lower`: some built-in entry, or some non-empty custom entry, lowercased,
/// occurs in it.
pub open spec fn blacklisted_lower(lower: Seq<char>, custom: Seq<Seq<char>>) -> bool {
    ||| exists|i: int|
        0 <= i < default_blacklist().len() && contains(lower, lowercase(#[trigger] default_blacklist()[i]))
    ||| exists|j: int|
        0 <= j < custom.len() && custom[j].len() > 0 && contains(lower, lowercase(#[trigger] custom[j]))
}

/// The blacklist answer depends on the application's name through its
/// lowercase form only.
pub proof fn lemma_blacklisted_via_lower(app: Seq<char>, custom: Seq<Seq<char>>)
    ensures
        blacklisted(app, custom) == blacklisted_lower(lowercase(app), custom),
{
}

/// Check whether `app_name` should use the clipboard-paste injection fallback.
///
/// True when the lowercase app name contains the lowercase form of an entry of
/// `DEFAULT_BLACKLIST` or of a non-empty entry of `custom_blacklist`
/// (case-insensitive substring match, so `"iTerm2"` matches `"iterm"`).
pub fn is_blacklisted(app_name: &str, custom_blacklist: &[String]) -> (r: bool)
    ensures
        r == blacklisted(app_name@, string_views(custom_blacklist@)),
        is_ascii_chars(app_name@) ==> r == blacklisted_lower(
            ascii_lower(app_name@),
            string_views(custom_blacklist@),
        ),
{
    let lower_s = to_lowercase(app_name);
    proof {
        lemma_blacklisted_via_lower(app_name@, string_views(custom_blacklist@));
    }
    let lower = chars_of(lower_s.as_str());
    let defaults = DEFAULT_BLACKLIST;
    assert(defaults@.map_values(|s: &str| s@) =~= default_blacklist());
    let mut i: usize = 0;
    while i < 8
        invariant
            i <= 8,
            defaults@.map_values(|s: &str| s@) == default_blacklist(),
            lower@ == lowercase(app_name@),
            is_ascii_chars(app_name@) ==> lowercase(app_name@) == ascii_lower(app_name@),
            blacklisted(app_name@, string_views(custom_blacklist@)) == blacklisted_lower(
                lowercase(app_name@),
                string_views(custom_blacklist@),
            ),
            forall|k: int| 0 <= k < i ==> !entry_matches(app_name@, #[trigger] default_blacklist()[k]),
        decreases 8 - i,
    {
        let entry = to_lowercase(defaults[i]);
        let entry_chars = chars_of(entry.as_str());
        assert(default_blacklist()[i as int] == defaults@[i as int]@);
        if contains_chars(lower.as_slice(), entry_chars.as_slice()) {
            assert(entry_matches(app_name@, default_blacklist()[i as int]));
            return true;
        }
        i = i + 1;
    }
    assert(!matches_default(app_name@));
    let ghost custom = string_views(custom_blacklist@);
    let mut j: usize = 0;
    while j < custom_blacklist.len()
        invariant
            j <= custom_blacklist@.len(),
            custom == string_views(custom_blacklist@),
            !matches_default(app_name@),
            lower@ == lowercase(app_name@),
            is_ascii_chars(app_name@) ==> lowercase(app_name@) == ascii_lower(app_name@),
            blacklisted(app_name@, string_views(custom_blacklist@)) == blacklisted_lower(
                lowercase(app_name@),
                string_views(custom_blacklist@),
            ),
            forall|k: int|
                0 <= k < j ==> !(custom[k].len() > 0 && entry_matches(app_name@, #[trigger] custom[k])),
        decreases custom_blacklist@.len() - j,
    {
        let entry = custom_blacklist[j].as_str();
        assert(custom[j as int] == entry@);
        if !entry.is_empty() {
            let entry_lower = to_lowercase(entry);
            let entry_chars = chars_of(entry_lower.as_str());
            if contains_chars(lower.as_slice(), entry_chars.as_slice()) {
                assert(custom[j as int].len() > 0 && entry_matches(app_name@, custom[j as int]));
                return true;
            }
        }
        j = j + 1;
    }
    false
}

/// The tone descriptor chosen for an application's lowercase name.
pub open spec fn tone_for_lower(lower: Seq<char>) -> Seq<char> {
    if contains(lower, "mail"@) || contains(lower, "outlook"@) || contains(lower, "gmail"@) {
        "formal, professional"@
    } else if contains(lower, "slack"@) || contains(lower, "discord"@) || contains(lower, "wechat"@)
        || contains(lower, "telegram"@) || contains(lower, "messages"@) {
        "casual, conversational"@
    } else if contains(lower, "code"@) || contains(lower, "xcode"@) || contains(lower, "terminal"@)
        || contains(lower, "iterm"@) {
        "technical, minimal editing"@
    } else {
        "natural, clear"@
    }
}

/// Whether the lowercase name holds one of the keywords.
fn contains_any(lower: &[char], keywords: &[&str]) -> (r: bool)
    ensures
        r == exists|i: int| 0 <= i < keywords@.len() && contains(lower@, (#[trigger] keywords@[i])@),
{
    let mut i: usize = 0;
    while i < keywords.len()
        invariant
            i <= keywords@.len(),
            forall|k: int| 0 <= k < i ==> !contains(lower@, (#[trigger] keywords@[k])@),
        decreases keywords@.len() - i,
    {
        let k = chars_of(keywords[i]);
        if contains_chars(lower, k.as_slice()) {
            return true;
        }
        i = i + 1;
    }
    false
}

/// Map a frontmost application name to the tone descriptor used by the LLM
/// polishing prompt (case-insensitive keyword match, first group that matches):
/// email clients give "formal, professional", chat apps "casual,
/// conversational", code editors and terminals "technical, minimal editing",
/// everything else "natural, clear".
pub fn get_tone_for_app(app_name: &str) -> (r: &'static str)
    ensures
        r@ == tone_for_lower(lowercase(app_name@)),
        is_ascii_chars(app_name@) ==> r@ == tone_for_lower(ascii_lower(app_name@)),
{
    let lower_s = to_lowercase(app_name);
    let lower = chars_of(lower_s.as_str());
    let email = ["mail", "outlook", "gmail"];
    let chat = ["slack", "discord", "wechat", "telegram", "messages"];
    let code = ["code", "xcode", "terminal", "iterm"];
    let is_email = contains_any(lower.as_slice(), email.as_slice());
    proof {
        let l = lower@;
        if contains(l, "mail"@) {
            assert(contains(l, (email@[0])@));
        }
        if contains(l, "outlook"@) {
            assert(contains(l, (email@[1])@));
        }
        if contains(l, "gmail"@) {
            assert(contains(l, (email@[2])@));
        }
    }
    if is_email {
        return "formal, professional";
    }
    let is_chat = contains_any(lower.as_slice(), chat.as_slice());
    proof {
        let l = lower@;
        if contains(l, "slack"@) {
            assert(contains(l, (chat@[0])@));
        }
        if contains(l, "discord"@) {
            assert(contains(l, (chat@[1])@));
        }
        if contains(l, "wechat"@) {
            assert(contains(l, (chat@[2])@));
        }
        if contains(l, "telegram"@) {
            assert(contains(l, (chat@[3])@));
        }
        if contains(l, "messages"@) {
            assert(contains(l, (chat@[4])@));
        }
    }
    if is_chat {
        return "casual, conversational";
    }
    let is_code = contains_any(lower.as_slice(), code.as_slice());
    proof {
        let l = lower@;
        if contains(l, "code"@) {
            assert(contains(l, (code@[0])@));
        }
        if contains(l, "xcode"@) {
            assert(contains(l, (code@[1])@));
        }
        if contains(l, "terminal"@) {
            assert(contains(l, (code@[2])@));
        }
        if contains(l, "iterm"@) {
            assert(contains(l, (code@[3])@));
        }
    }
    if is_code {
        return "technical, minimal editing";
    }
    "natural, clear"
}

/// Two application names with the same lowercase form get the same
/// blacklist answer, whatever the custom list (matching is case-insensitive).
pub proof fn lemma_blacklist_case_insensitive(a: Seq<char>, b: Seq<char>, custom: Seq<Seq<char>>)
    requires
        lowercase(a) == lowercase(b),
    ensures
        blacklisted(a, custom) == blacklisted(b, custom),
{
    assert(forall|e: Seq<char>| entry_matches(a, e) == entry_matches(b, e));
}

/// Adding entries to the custom list never takes an application off the
/// blacklist: if every entry of `smaller` is also in `larger`, whatever
/// `smaller` blacklists, `larger` blacklists too.
pub proof fn lemma_blacklist_monotone(app: Seq<char>, smaller: Seq<Seq<char>>, larger: Seq<Seq<char>>)
    requires
        forall|i: int| 0 <= i < smaller.len() ==> larger.contains(#[trigger] smaller[i]),
        blacklisted(app, smaller),
    ensures
        blacklisted(app, larger),
{
    if !matches_default(app) {
        let j = choose|j: int| 0 <= j < smaller.len() && smaller[j].len() > 0 && entry_matches(app, #[trigger] smaller[j]);
        assert(larger.contains(smaller[j]));
        let k = choose|k: int| 0 <= k < larger.len() && larger[k] == smaller[j];
        assert(larger[k].len() > 0 && entry_matches(app, larger[k]));
    }
}

/// Empty custom entries are ignored: dropping them from the custom list never
/// changes the answer (an empty entry does not match every application).
pub proof fn lemma_blacklist_ignores_empty_entries(app: Seq<char>, custom: Seq<Seq<char>>)
    ensures
        blacklisted(app, custom) == blacklisted(app, custom.filter(|e: Seq<char>| e.len() > 0)),
{
    let pred = |e: Seq<char>| e.len() > 0;
    let f = custom.filter(pred);
    if matches_custom(app, custom) {
        let j = choose|j: int| 0 <= j < custom.len() && custom[j].len() > 0 && entry_matches(app, #[trigger] custom[j]);
        custom.lemma_filter_contains(pred, j);
        assert(f.contains(custom[j]));
        let k = choose|k: int| 0 <= k < f.len() && f[k] == custom[j];
        assert(f[k].len() > 0 && entry_matches(app, f[k]));
    }
    if matches_custom(app, f) {
        let k = choose|k: int| 0 <= k < f.len() && f[k].len() > 0 && entry_matches(app, #[trigger] f[k]);
        assert(f.contains(f[k]));
        custom.lemma_filter_contains_rev(pred, f[k]);
        let j = choose|j: int| 0 <= j < custom.len() && custom[j] == f[k];
        assert(custom[j].len() > 0 && entry_matches(app, custom[j]));
    }
}

/// Every application whose name contains a built-in entry (in any letter
/// case) is blacklisted, whatever the custom list.
pub proof fn lemma_default_entries_always_blacklisted(app: Seq<char>, i: int, custom: Seq<Seq<char>>)
    requires
        0 <= i < default_blacklist().len(),
        entry_matches(app, default_blacklist()[i]),
    ensures
        blacklisted(app, custom),
{
}

/// Appending an empty entry to the custom list changes no answer.
pub proof fn lemma_blacklist_empty_entry_appended(app: Seq<char>, custom: Seq<Seq<char>>)
    ensures
        blacklisted(app, custom.push(Seq::empty())) == blacklisted(app, custom),
{
    let l = custom.push(Seq::<char>::empty());
    if matches_custom(app, l) {
        let j = choose|j: int| 0 <= j < l.len() && l[j].len() > 0 && entry_matches(app, #[trigger] l[j]);
        assert(j < custom.len());
        assert(l[j] == custom[j]);
        assert(custom[j].len() > 0 && entry_matches(app, custom[j]));
    }
    if matches_custom(app, custom) {
        let j = choose|j: int| 0 <= j < custom.len() && custom[j].len() > 0 && entry_matches(app, #[trigger] custom[j]);
        assert(l[j] == custom[j]);
        assert(l[j].len() > 0 && entry_matches(app, l[j]));
    }
}

/// A name that holds a blacklisted name is blacklisted too, for names
/// compared by their ASCII lowercase (as `is_blacklisted` answers for ASCII
/// names): if `app` is blacklisted, so is `prefix + app + suffix`.
pub proof fn lemma_blacklist_ascii_longer_name(
    prefix: Seq<char>,
    app: Seq<char>,
    suffix: Seq<char>,
    custom: Seq<Seq<char>>,
)
    requires
        blacklisted_lower(ascii_lower(app), custom),
    ensures
        blacklisted_lower(ascii_lower(prefix + app + suffix), custom),
{
    lemma_ascii_lower_concat(prefix + app, suffix);
    lemma_ascii_lower_concat(prefix, app);
    let big = ascii_lower(prefix + app + suffix);
    let small = ascii_lower(app);
    let p = prefix.len() as int;
    assert(big.subrange(p, p + small.len()) =~= small);
    assert(occurs_at(big, small, p));
    assert(contains(big, small));
    if exists|i: int|
        0 <= i < default_blacklist().len() && contains(small, lowercase(#[trigger] default_blacklist()[i])) {
        let i = choose|i: int|
            0 <= i < default_blacklist().len() && contains(small, lowercase(#[trigger] default_blacklist()[i]));
        lemma_contains_transitive(big, small, lowercase(default_blacklist()[i]));
    } else {
        let j = choose|j: int|
            0 <= j < custom.len() && custom[j].len() > 0 && contains(small, lowercase(#[trigger] custom[j]));
        lemma_contains_transitive(big, small, lowercase(custom[j]));
    }
}

/// The order of the custom list does not matter: the reversed list gives the
/// same answer for every application.
pub proof fn lemma_blacklist_order_irrelevant(app: Seq<char>, custom: Seq<Seq<char>>)
    ensures
        blacklisted(app, custom) == blacklisted(app, custom.reverse()),
{
    let r = custom.reverse();
    let n = custom.len() as int;
    if n > 0 {
        assert(r.len() == n);
        if matches_custom(app, custom) {
            let j = choose|j: int| 0 <= j < n && custom[j].len() > 0 && entry_matches(app, #[trigger] custom[j]);
            let k = n - 1 - j;
            assert(r[k] == custom[j]);
            assert(r[k].len() > 0 && entry_matches(app, r[k]));
        }
        if matches_custom(app, r) {
            let k = choose|k: int| 0 <= k < n && r[k].len() > 0 && entry_matches(app, #[trigger] r[k]);
            let j = n - 1 - k;
            assert(r[k] == custom[j]);
            assert(custom[j].len() > 0 && entry_matches(app, custom[j]));
        }
    } else {
        assert(!matches_custom(app, custom));
        assert(!matches_custom(app, r));
    }
}

/// A name that holds a blacklisted name is blacklisted too: whenever the
/// lowercase form of `longer` contains the lowercase form of a blacklisted
/// `app` (as it does for `prefix + app + suffix` when lowercasing maps the
/// pieces separately, e.g. for ASCII names), `longer` is blacklisted with
/// the same custom list.
pub proof fn lemma_blacklist_longer_name(app: Seq<char>, longer: Seq<char>, custom: Seq<Seq<char>>)
    requires
        contains(lowercase(longer), lowercase(app)),
        blacklisted(app, custom),
    ensures
        blacklisted(longer, custom),
{
    if matches_default(app) {
        let i = choose|i: int| 0 <= i < default_blacklist().len() && entry_matches(app, #[trigger] default_blacklist()[i]);
        lemma_contains_transitive(lowercase(longer), lowercase(app), lowercase(default_blacklist()[i]));
        assert(entry_matches(longer, default_blacklist()[i]));
    } else {
        let j = choose|j: int| 0 <= j < custom.len() && custom[j].len() > 0 && entry_matches(app, #[trigger] custom[j]);
        lemma_contains_transitive(lowercase(longer), lowercase(app), lowercase(custom[j]));
        assert(custom[j].len() > 0 && entry_matches(longer, custom[j]));
    }
}

/// A keyword occurs in any text that holds it, wherever it stands.
proof fn lemma_contains_inside(before: Seq<char>, k: Seq<char>, after: Seq<char>)
    ensures
        contains(before + k + after, k),
{
    let t = before + k + after;
    assert(t.subrange(before.len() as int, before.len() + k.len() as int) =~= k);
    assert(occurs_at(t, k, before.len() as int));
}

/// What the tone groups come to, keyword by keyword: a lowercase name that
/// holds "mail" or "outlook" anywhere is formal ("gmail" holds "mail"); one
/// that holds neither but holds "slack", "discord", "wechat", "telegram" or
/// "messages" is casual; one that holds none of those but holds "code",
/// "terminal" or "iterm" is technical ("xcode" holds "code"); any other name
/// gets the standard tone.
pub proof fn lemma_tone_groups(l: Seq<char>)
    ensures
        contains(l, "mail"@) || contains(l, "outlook"@) ==> tone_for_lower(l) == "formal, professional"@,
        !contains(l, "mail"@) && !contains(l, "outlook"@) && (contains(l, "slack"@) || contains(
            l,
            "discord"@,
        ) || contains(l, "wechat"@) || contains(l, "telegram"@) || contains(l, "messages"@))
            ==> tone_for_lower(l) == "casual, conversational"@,
        !contains(l, "mail"@) && !contains(l, "outlook"@) && !contains(l, "slack"@) && !contains(
            l,
            "discord"@,
        ) && !contains(l, "wechat"@) && !contains(l, "telegram"@) && !contains(l, "messages"@) && (
        contains(l, "code"@) || contains(l, "terminal"@) || contains(l, "iterm"@))
            ==> tone_for_lower(l) == "technical, minimal editing"@,
        !contains(l, "mail"@) && !contains(l, "outlook"@) && !contains(l, "slack"@) && !contains(
            l,
            "discord"@,
        ) && !contains(l, "wechat"@) && !contains(l, "telegram"@) && !contains(l, "messages"@)
            && !contains(l, "code"@) && !contains(l, "terminal"@) && !contains(l, "iterm"@)
            ==> tone_for_lower(l) == "natural, clear"@,
{
    reveal_strlit("gmail");
    reveal_strlit("mail");
    reveal_strlit("xcode");
    reveal_strlit("code");
    assert("gmail"@ =~= "g"@ + "mail"@ + Seq::<char>::empty()) by {
        reveal_strlit("g");
    }
    lemma_contains_inside("g"@, "mail"@, Seq::<char>::empty());
    assert("xcode"@ =~= "x"@ + "code"@ + Seq::<char>::empty()) by {
        reveal_strlit("x");
    }
    lemma_contains_inside("x"@, "code"@, Seq::<char>::empty());
    if contains(l, "gmail"@) {
        lemma_contains_transitive(l, "gmail"@, "mail"@);
    }
    if contains(l, "xcode"@) {
        lemma_contains_transitive(l, "xcode"@, "code"@);
    }
}

/// A keyword decides the tone wherever it stands in the lowercase name:
/// "mail" or "outlook" anywhere makes it formal.
pub proof fn lemma_email_keyword_anywhere(before: Seq<char>, after: Seq<char>)
    ensures
        tone_for_lower(before + "mail"@ + after) == "formal, professional"@,
        tone_for_lower(before + "outlook"@ + after) == "formal, professional"@,
{
    lemma_contains_inside(before, "mail"@, after);
    lemma_contains_inside(before, "outlook"@, after);
    lemma_tone_groups(before + "mail"@ + after);
    lemma_tone_groups(before + "outlook"@ + after);
}

/// Two application names with the same lowercase form get the same tone.
pub proof fn lemma_tone_case_insensitive(a: Seq<char>, b: Seq<char>)
    requires
        lowercase(a) == lowercase(b),
    ensures
        tone_for_lower(lowercase(a)) == tone_for_lower(lowercase(b)),
{
}

/// The text that an accessibility or System Events query printed, trimmed:
/// the lossy UTF-8 decoding of its standard output without surrounding
/// whitespace.
pub open spec fn script_text(stdout: Seq<u8>) -> Seq<char> {
    trim(utf8_lossy(stdout))
}

/// The name of the frontmost application, from the outcome of the System
/// Events query: its trimmed output when the query succeeded, the empty
/// string when it failed.
pub fn frontmost_app_name_from_output(success: bool, stdout: &[u8]) -> (r: String)
    ensures
        r@ == (if success { script_text(stdout@) } else { Seq::<char>::empty() }),
{
    if success {
        let decoded = from_utf8_lossy(stdout);
        let chars = chars_of(decoded.as_str());
        let trimmed = trim_chars(chars.as_slice());
        string_from_chars(trimmed.as_slice())
    } else {
        String::new()
    }
}

/// The selected text reported by the accessibility query: its trimmed output
/// when the query succeeded and printed something, `None` otherwise.
pub fn selected_text_from_script(success: bool, stdout: &[u8]) -> (r: Option<String>)
    ensures
        r matches Some(t) ==> success && t@ == script_text(stdout@) && t@.len() > 0,
        r is None ==> !success || script_text(stdout@).len() == 0,
{
    if !success {
        return None;
    }
    let text = frontmost_app_name_from_output(success, stdout);
    if text.as_str().is_empty() {
        None
    } else {
        Some(text)
    }
}

/// What to do after the accessibility query for the selected text.
#[derive(Debug)]
pub enum SelectionStep {
    /// The query found a non-empty selection: it is the answer.
    Found(String),
    /// The query found nothing: fall back to copying the selection through
    /// the clipboard.
    TryClipboard,
}

/// Decide, from the accessibility query's answer, whether the selection is
/// found or the clipboard fallback must run.
pub fn selection_after_accessibility(found: Option<String>) -> (r: SelectionStep)
    ensures
        r == (match found {
            Some(t) => if t@.len() > 0 { SelectionStep::Found(t) } else { SelectionStep::TryClipboard },
            None => SelectionStep::TryClipboard,
        }),
{
    match found {
        Some(t) => {
            if t.as_str().is_empty() {
                SelectionStep::TryClipboard
            } else {
                SelectionStep::Found(t)
            }
        },
        None => SelectionStep::TryClipboard,
    }
}

/// The clipboard fallback's answer: the text found on the clipboard after the
/// simulated copy, unless it is empty or the same text that was on the
/// clipboard before (the copy changed nothing).
pub open spec fn clipboard_selection_spec(original: Option<Seq<char>>, selected: Option<Seq<char>>) -> Option<Seq<char>> {
    match selected {
        Some(s) => if s.len() > 0 && original != Some(s) { Some(s) } else { None },
        None => None,
    }
}

/// The view of an optional string.
pub open spec fn opt_view(o: Option<String>) -> Option<Seq<char>> {
    match o {
        Some(s) => Some(s@),
        None => None,
    }
}

/// Decide the clipboard fallback's answer from the clipboard text before the
/// simulated copy (`original`) and after it (`selected`).
pub fn clipboard_selection(original: Option<String>, selected: Option<String>) -> (r: Option<String>)
    ensures
        opt_view(r) == clipboard_selection_spec(opt_view(original), opt_view(selected)),
{
    match selected {
        Some(s) => {
            if s.as_str().is_empty() {
                return None;
            }
            let same = match &original {
                Some(o) => *o == s,
                None => false,
            };
            if same {
                None
            } else {
                Some(s)
            }
        },
        None => None,
    }
}

} // verus!
