//! The client's command line: splitting it as the program receives it and
//! reading the options that the client knows.

use vstd::prelude::*;
use crate::slop::rbx::{self, LaunchMode};
use crate::slop::rbx::http::{HttpFuture, HttpRequestView, EngineError, get_with_retries, ready_empty_future};

verus! {

/// Whether `c` has the Unicode `White_Space` property, which `char::is_whitespace`
/// reports: the controls from tab to carriage return, space, next line,
/// no-break space, Ogham space mark, the spaces from en quad to hair space,
/// the line and paragraph separators, narrow no-break space, medium
/// mathematical space and ideographic space.
pub open spec fn char_is_whitespace(c: char) -> bool {
    let u = c as u32;
    ||| 0x09 <= u <= 0x0D
    ||| u == 0x20
    ||| u == 0x85
    ||| u == 0xA0
    ||| u == 0x1680
    ||| 0x2000 <= u <= 0x200A
    ||| u == 0x2028
    ||| u == 0x2029
    ||| u == 0x202F
    ||| u == 0x205F
    ||| u == 0x3000
}

/// Whether `c` is Unicode white space.
pub fn is_whitespace(c: char) -> (r: bool)
    ensures
        r == char_is_whitespace(c),
{
    let u = c as u32;
    (0x09 <= u && u <= 0x0D) || u == 0x20 || u == 0x85 || u == 0xA0 || u == 0x1680 || (0x2000
        <= u && u <= 0x200A) || u == 0x2028 || u == 0x2029 || u == 0x202F || u == 0x205F || u
        == 0x3000
}

/// `String::push`. Trusted, not proved: as its documentation says, the
/// character is appended.
#[verifier::external_body]
pub(crate) fn push_char(s: &mut String, c: char)
    ensures
        final(s)@ == old(s)@.push(c),
{
    s.push(c)
}

/// Whether the strings `a` and `b` hold the same characters.
pub fn str_eq(a: &str, b: &str) -> (r: bool)
    ensures
        r == (a@ == b@),
{
    let n = a.unicode_len();
    if n != b.unicode_len() {
        return false;
    }
    let mut i: usize = 0;
    while i < n
        invariant
            n == a@.len(),
            n == b@.len(),
            i <= n,
            forall|j: int| 0 <= j < i ==> a@[j] == b@[j],
        decreases n - i,
    {
        if a.get_char(i) != b.get_char(i) {
            return false;
        }
        i = i + 1;
    }
    assert(a@ =~= b@);
    true
}

/// The state of the splitter after some characters: the finished tokens,
/// the token being read, and whether a quote is open.
pub struct SplitState {
    pub out: Seq<Seq<char>>,
    pub cur: Seq<char>,
    pub in_quotes: bool,
}

/// One character of the splitter: a quote opens or closes quoting and is
/// dropped; whitespace outside quotes ends a non-empty token and is
/// dropped; any other character extends the token.
pub open spec fn split_step(st: SplitState, c: char) -> SplitState {
    if c == '"' {
        SplitState { in_quotes: !st.in_quotes, ..st }
    } else if char_is_whitespace(c) && !st.in_quotes {
        if st.cur.len() > 0 {
            SplitState { out: st.out.push(st.cur), cur: Seq::empty(), in_quotes: st.in_quotes }
        } else {
            st
        }
    } else {
        SplitState { cur: st.cur.push(c), ..st }
    }
}

/// The splitter's state after the first `n` characters of `s`.
pub open spec fn split_prefix(s: Seq<char>, n: int) -> SplitState
    decreases n,
{
    if n <= 0 {
        SplitState { out: Seq::empty(), cur: Seq::empty(), in_quotes: false }
    } else {
        split_step(split_prefix(s, n - 1), s[n - 1])
    }
}

/// The tokens of `s`: the finished ones, then the last if it is not empty.
pub open spec fn spec_split_winmain(s: Seq<char>) -> Seq<Seq<char>> {
    let st = split_prefix(s, s.len() as int);
    if st.cur.len() > 0 {
        st.out.push(st.cur)
    } else {
        st.out
    }
}

/// The characters of each string.
pub open spec fn string_views(v: Seq<String>) -> Seq<Seq<char>> {
    v.map_values(|t: String| t@)
}

/// Splits a command line at
/// whitespace outside double quotes; quotes are dropped and empty tokens
/// are not kept.
pub fn split_winmain(cmd_line: &str) -> (r: Vec<String>)
    ensures
        string_views(r@) == spec_split_winmain(cmd_line@),
{
    let n = cmd_line.unicode_len();
    let mut out: Vec<String> = Vec::new();
    let mut cur = String::new();
    let mut in_quotes = false;
    let mut i: usize = 0;
    while i < n
        invariant
            n == cmd_line@.len(),
            i <= n,
            string_views(out@) == split_prefix(cmd_line@, i as int).out,
            cur@ == split_prefix(cmd_line@, i as int).cur,
            in_quotes == split_prefix(cmd_line@, i as int).in_quotes,
        decreases n - i,
    {
        let c = cmd_line.get_char(i);
        let ghost st = split_prefix(cmd_line@, i as int);
        if c == '"' {
            in_quotes = !in_quotes;
        } else if is_whitespace(c) && !in_quotes {
            if !cur.as_str().is_empty() {
                let ghost before = out@;
                out.push(cur);
                assert(string_views(out@) =~= string_views(before).push(st.cur));
                cur = String::new();
            }
        } else {
            push_char(&mut cur, c);
        }
        i = i + 1;
        assert(split_prefix(cmd_line@, i as int) == split_step(st, c));
    }
    if !cur.as_str().is_empty() {
        let ghost before = out@;
        out.push(cur);
        assert(string_views(out@) =~= string_views(before).push(cur@));
    }
    out
}

/// Every token of a command line is non-empty and holds no double quote.
pub proof fn lemma_split_tokens_clean(s: Seq<char>)
    ensures
        forall|k: int|
            0 <= k < spec_split_winmain(s).len() ==> #[trigger] spec_split_winmain(s)[k].len() > 0
                && !spec_split_winmain(s)[k].contains('"'),
{
    lemma_split_prefix_clean(s, s.len() as int);
}

/// The splitter's finished tokens are non-empty and quote-free, and so is
/// the token being read.
proof fn lemma_split_prefix_clean(s: Seq<char>, n: int)
    requires
        n <= s.len(),
    ensures
        forall|k: int|
            0 <= k < split_prefix(s, n).out.len() ==> #[trigger] split_prefix(s, n).out[k].len() > 0
                && !split_prefix(s, n).out[k].contains('"'),
        !split_prefix(s, n).cur.contains('"'),
    decreases n,
{
    if n > 0 {
        lemma_split_prefix_clean(s, n - 1);
        let st = split_prefix(s, n - 1);
        let c = s[n - 1];
        let st2 = split_step(st, c);
        assert(split_prefix(s, n) == st2);
        if c != '"' && !(char_is_whitespace(c) && !st.in_quotes) {
            assert forall|j: int| 0 <= j < st2.cur.len() implies st2.cur[j] != '"' by {
                if j < st.cur.len() {
                    assert(st2.cur[j] == st.cur[j]);
                }
            }
        }
        if c != '"' && char_is_whitespace(c) && !st.in_quotes && st.cur.len() > 0 {
            assert forall|k: int| 0 <= k < st2.out.len() implies #[trigger] st2.out[k].len() > 0
                && !st2.out[k].contains('"') by {
                if k < st.out.len() {
                    assert(st2.out[k] == st.out[k]);
                }
            }
        }
    }
}


/// Characters other than quotes, and not whitespace outside quotes, only
/// extend the token being read.
proof fn lemma_split_extends_token(s: Seq<char>, m: int, n: int)
    requires
        0 <= m <= n <= s.len(),
        forall|k: int|
            m <= k < n ==> s[k] != '"' && (split_prefix(s, m).in_quotes || !char_is_whitespace(
                #[trigger] s[k],
            )),
    ensures
        split_prefix(s, n) == (SplitState {
            cur: split_prefix(s, m).cur + s.subrange(m, n),
            ..split_prefix(s, m)
        }),
    decreases n - m,
{
    if n > m {
        lemma_split_extends_token(s, m, n - 1);
        let st = split_prefix(s, n - 1);
        assert(s[n - 1] != '"');
        assert(split_prefix(s, m).cur + s.subrange(m, n) =~= (split_prefix(s, m).cur + s.subrange(
            m,
            n - 1,
        )).push(s[n - 1]));
    } else {
        assert(split_prefix(s, m).cur + s.subrange(m, n) =~= split_prefix(s, m).cur);
    }
}

/// Whether `w` is a bare word: not empty, and neither a double quote nor
/// white space in it.
pub open spec fn bare_word(w: Seq<char>) -> bool {
    &&& w.len() > 0
    &&& forall|k: int| 0 <= k < w.len() ==> w[k] != '"' && !char_is_whitespace(#[trigger] w[k])
}

/// How a command line splits: a bare word is one token; two bare words with
/// a space between are two tokens; a double-quoted text without quotes in
/// it is one token, spaces included, the quotes dropped.
pub proof fn lemma_split_words(a: Seq<char>, b: Seq<char>, q: Seq<char>)
    requires
        bare_word(a),
        bare_word(b),
        q.len() > 0,
        forall|k: int| 0 <= k < q.len() ==> q[k] != '"',
    ensures
        spec_split_winmain(a) == seq![a],
        spec_split_winmain(a + seq![' '] + b) == seq![a, b],
        spec_split_winmain(seq!['"'] + q + seq!['"']) == seq![q],
{
    lemma_split_extends_token(a, 0, a.len() as int);
    assert(a.subrange(0, a.len() as int) =~= a);
    assert(Seq::<char>::empty() + a =~= a);

    let s = a + seq![' '] + b;
    let al = a.len() as int;
    let n = s.len() as int;
    assert forall|k: int| 0 <= k < a.len() implies s[k] != '"' && (split_prefix(s, 0).in_quotes
        || !char_is_whitespace(#[trigger] s[k])) by {
        assert(s[k] == a[k]);
    }
    lemma_split_extends_token(s, 0, a.len() as int);
    assert(s.subrange(0, a.len() as int) =~= a);
    assert(Seq::<char>::empty() + a =~= a);
    assert(s[a.len() as int] == ' ');
    assert(char_is_whitespace(' '));
    assert(split_prefix(s, (a.len() + 1) as int) == split_step(split_prefix(s, a.len() as int), ' '));
    assert forall|k: int| (a.len() + 1) as int <= k < n implies s[k] != '"' && (split_prefix(
        s,
        (a.len() + 1) as int,
    ).in_quotes || !char_is_whitespace(#[trigger] s[k])) by {
        assert(s[k] == b[k - a.len() - 1]);
    }
    lemma_split_extends_token(s, (a.len() + 1) as int, n);
    assert(s.subrange((a.len() + 1) as int, n) =~= b);
    assert(Seq::<char>::empty() + b =~= b);
    assert(seq![a].push(b) =~= seq![a, b]);

    let t = seq!['"'] + q + seq!['"'];
    let tn = t.len() as int;
    assert(t[0] == '"');
    assert(split_prefix(t, 1) == split_step(split_prefix(t, 0), '"'));
    assert forall|k: int| 1 <= k < tn - 1 implies t[k] != '"' && (split_prefix(t, 1).in_quotes
        || !char_is_whitespace(#[trigger] t[k])) by {
        assert(t[k] == q[k - 1]);
    }
    lemma_split_extends_token(t, 1, tn - 1);
    assert(t.subrange(1, tn - 1) =~= q);
    assert(Seq::<char>::empty() + q =~= q);
    assert(t[tn - 1] == '"');
    assert(split_prefix(t, tn) == split_step(split_prefix(t, tn - 1), '"'));
    assert(Seq::<Seq<char>>::empty().push(q) =~= seq![q]);
    assert(Seq::<Seq<char>>::empty().push(a) =~= seq![a]);
}

/// The value of a string of decimal digits.
pub open spec fn digits_value(s: Seq<char>) -> int
    decreases s.len(),
{
    if s.len() == 0 {
        0
    } else {
        digits_value(s.drop_last()) * 10 + (s.last() as int - '0' as int)
    }
}

/// Whether every character of `s` is an ASCII digit.
pub open spec fn all_digits(s: Seq<char>) -> bool {
    forall|i: int| 0 <= i < s.len() ==> '0' <= #[trigger] s[i] <= '9'
}

/// What `i32::from_str` makes of `s`: an optional `+` or `-`, then one or
/// more ASCII digits whose value fits in an `i32`.
pub open spec fn spec_parse_i32(s: Seq<char>) -> Option<i32> {
    let neg = s.len() > 0 && s[0] == '-';
    let digits = if s.len() > 0 && (s[0] == '-' || s[0] == '+') {
        s.drop_first()
    } else {
        s
    };
    if digits.len() == 0 || !all_digits(digits) {
        None
    } else {
        let v = if neg {
            -digits_value(digits)
        } else {
            digits_value(digits)
        };
        if i32::MIN <= v <= i32::MAX {
            Some(v as i32)
        } else {
            None
        }
    }
}

/// A longer run of digits is worth at least as much as its prefix.
proof fn lemma_digits_value_grows(s: Seq<char>, k: int)
    requires
        0 <= k <= s.len(),
        all_digits(s),
    ensures
        digits_value(s) >= digits_value(s.take(k)) >= 0,
    decreases s.len(),
{
    if s.len() > 0 {
        if k == s.len() {
            assert(s.take(k) =~= s);
            lemma_digits_value_grows(s.drop_last(), k - 1);
            assert(s.drop_last().take(k - 1) =~= s.drop_last());
        } else {
            lemma_digits_value_grows(s.drop_last(), k);
            assert(s.drop_last().take(k) =~= s.take(k));
            assert(all_digits(s.drop_last()) ==> digits_value(s.drop_last()) >= 0);
        }
    }
}

/// `str::parse::<i32>`, keeping only whether it succeeded and the value.
pub fn parse_i32(s: &str) -> (r: Option<i32>)
    ensures
        r == spec_parse_i32(s@),
{
    let n = s.unicode_len();
    if n == 0 {
        return None;
    }
    let first = s.get_char(0);
    let neg = first == '-';
    let start: usize = if first == '-' || first == '+' { 1 } else { 0 };
    let ghost digits = if first == '-' || first == '+' { s@.drop_first() } else { s@ };
    assert(digits =~= s@.skip(start as int));
    if start == n {
        return None;
    }
    let mut v: i64 = 0;
    let mut i: usize = start;
    while i < n
        invariant
            n == s@.len(),
            0 < n,
            first == s@[0],
            neg == (first == '-'),
            start < n,
            digits == (if first == '-' || first == '+' { s@.drop_first() } else { s@ }),
            start <= i <= n,
            digits == s@.skip(start as int),
            all_digits(digits.take(i - start)),
            v == digits_value(digits.take(i - start)),
            0 <= v <= 2147483648,
        decreases n - i,
    {
        let c = s.get_char(i);
        assert(digits[i - start] == c);
        if !('0' <= c && c <= '9') {
            assert(!('0' <= digits[i - start] <= '9'));
            assert(!all_digits(digits));
            return None;
        }
        let d = (c as u32 - '0' as u32) as i64;
        let ghost next = digits.take(i + 1 - start);
        assert(next.drop_last() =~= digits.take(i - start));
        assert(next.last() == c);
        assert(all_digits(next)) by {
            assert forall|j: int| 0 <= j < next.len() implies '0' <= #[trigger] next[j] <= '9' by {
                if j < next.len() - 1 {
                    assert(next[j] == digits.take(i - start)[j]);
                }
            }
        }
        v = v * 10 + d;
        assert(v == digits_value(next));
        i = i + 1;
        if v > 2147483648 {
            proof {
                if all_digits(digits) {
                    lemma_digits_value_grows(digits, i - start);
                }
            }
            return None;
        }
    }
    assert(digits.take(n - start) =~= digits);
    if neg {
        Some((0 - v) as i32)
    } else if v <= 2147483647 {
        Some(v as i32)
    } else {
        None
    }
}

/// `s` without its leading `-` characters.
pub open spec fn strip_leading_dashes(s: Seq<char>) -> Seq<char>
    decreases s.len(),
{
    if s.len() > 0 && s[0] == '-' {
        strip_leading_dashes(s.drop_first())
    } else {
        s
    }
}

/// `str::trim_start_matches('-')`.
pub fn trim_start_dashes(s: &str) -> (r: &str)
    ensures
        r@ == strip_leading_dashes(s@),
{
    let n = s.unicode_len();
    let mut k: usize = 0;
    assert(s@.skip(0) =~= s@);
    while k < n && s.get_char(k) == '-'
        invariant
            n == s@.len(),
            k <= n,
            strip_leading_dashes(s@) == strip_leading_dashes(s@.skip(k as int)),
        decreases n - k,
    {
        assert(s@.skip(k as int).drop_first() =~= s@.skip(k + 1));
        k = k + 1;
    }
    assert(s@.skip(k as int) =~= s@.subrange(k as int, n as int));
    s.substring_char(k, n)
}

/// The options that the client reads from its command line.
#[derive(Clone, Copy, Debug, PartialEq, Eq, Structural)]
pub enum OptionKey {
    Help,
    Version,
    Play,
    App,
    Dmp,
    Id,
    Content,
    AuthenticationUrl,
    AuthenticationTicket,
    JoinScriptUrl,
    BrowserTrackerId,
    WaitEvent,
    GlobalBasicSettingsPath,
    Api,
    Unknown,
}

/// The option that a key names, dashes stripped.
pub open spec fn spec_option_key(k: Seq<char>) -> OptionKey {
    if k == "help"@ || k == "?"@ {
        OptionKey::Help
    }     else if k == "version"@ || k == "v"@ {
        OptionKey::Version
    }     else if k == "play"@ {
        OptionKey::Play
    }     else if k == "app"@ {
        OptionKey::App
    }     else if k == "dmp"@ || k == "d"@ {
        OptionKey::Dmp
    }     else if k == "id"@ {
        OptionKey::Id
    }     else if k == "content"@ || k == "c"@ {
        OptionKey::Content
    }     else if k == "authenticationUrl"@ || k == "a"@ {
        OptionKey::AuthenticationUrl
    }     else if k == "authenticationTicket"@ || k == "t"@ {
        OptionKey::AuthenticationTicket
    }     else if k == "joinScriptUrl"@ || k == "j"@ {
        OptionKey::JoinScriptUrl
    }     else if k == "browserTrackerId"@ || k == "b"@ {
        OptionKey::BrowserTrackerId
    }     else if k == "waitEvent"@ || k == "w"@ {
        OptionKey::WaitEvent
    }     else if k == "globalBasicSettingsPath"@ || k == "g"@ {
        OptionKey::GlobalBasicSettingsPath
    }     else if k == "API"@ {
        OptionKey::Api
    } else {
        OptionKey::Unknown
    }
}

/// The option names the client knows, each long name with its short alias:
/// `help`/`?`, `version`/`v`, `play`, `app`, `dmp`/`d`, `id`, `content`/`c`,
/// `authenticationUrl`/`a`, `authenticationTicket`/`t`, `joinScriptUrl`/`j`,
/// `browserTrackerId`/`b`, `waitEvent`/`w`, `globalBasicSettingsPath`/`g`
/// and `API`; names are matched exactly, case included.
pub proof fn lemma_option_names()
    ensures
        spec_option_key("help"@) == OptionKey::Help,
        spec_option_key("?"@) == OptionKey::Help,
        spec_option_key("version"@) == OptionKey::Version,
        spec_option_key("v"@) == OptionKey::Version,
        spec_option_key("play"@) == OptionKey::Play,
        spec_option_key("app"@) == OptionKey::App,
        spec_option_key("dmp"@) == OptionKey::Dmp,
        spec_option_key("d"@) == OptionKey::Dmp,
        spec_option_key("id"@) == OptionKey::Id,
        spec_option_key("content"@) == OptionKey::Content,
        spec_option_key("c"@) == OptionKey::Content,
        spec_option_key("authenticationUrl"@) == OptionKey::AuthenticationUrl,
        spec_option_key("a"@) == OptionKey::AuthenticationUrl,
        spec_option_key("authenticationTicket"@) == OptionKey::AuthenticationTicket,
        spec_option_key("t"@) == OptionKey::AuthenticationTicket,
        spec_option_key("joinScriptUrl"@) == OptionKey::JoinScriptUrl,
        spec_option_key("j"@) == OptionKey::JoinScriptUrl,
        spec_option_key("browserTrackerId"@) == OptionKey::BrowserTrackerId,
        spec_option_key("b"@) == OptionKey::BrowserTrackerId,
        spec_option_key("waitEvent"@) == OptionKey::WaitEvent,
        spec_option_key("w"@) == OptionKey::WaitEvent,
        spec_option_key("globalBasicSettingsPath"@) == OptionKey::GlobalBasicSettingsPath,
        spec_option_key("g"@) == OptionKey::GlobalBasicSettingsPath,
        spec_option_key("API"@) == OptionKey::Api,
        spec_option_key("Help"@) == OptionKey::Unknown,
        spec_option_key("joinscripturl"@) == OptionKey::Unknown,
        spec_option_key(""@) == OptionKey::Unknown,
{
    reveal_strlit("help");
    reveal_strlit("?");
    reveal_strlit("version");
    reveal_strlit("v");
    reveal_strlit("play");
    reveal_strlit("app");
    reveal_strlit("dmp");
    reveal_strlit("d");
    reveal_strlit("id");
    reveal_strlit("content");
    reveal_strlit("c");
    reveal_strlit("authenticationUrl");
    reveal_strlit("a");
    reveal_strlit("authenticationTicket");
    reveal_strlit("t");
    reveal_strlit("joinScriptUrl");
    reveal_strlit("j");
    reveal_strlit("browserTrackerId");
    reveal_strlit("b");
    reveal_strlit("waitEvent");
    reveal_strlit("w");
    reveal_strlit("globalBasicSettingsPath");
    reveal_strlit("g");
    reveal_strlit("API");
    reveal_strlit("Help");
    reveal_strlit("joinscripturl");
    reveal_strlit("");
    assert("help"@.len() == 4 && "help"@[0] == 'h');
    assert("?"@.len() == 1 && "?"@[0] == '?');
    assert("version"@.len() == 7 && "version"@[0] == 'v');
    assert("v"@.len() == 1 && "v"@[0] == 'v');
    assert("play"@.len() == 4 && "play"@[0] == 'p');
    assert("app"@.len() == 3 && "app"@[0] == 'a');
    assert("dmp"@.len() == 3 && "dmp"@[0] == 'd');
    assert("d"@.len() == 1 && "d"@[0] == 'd');
    assert("id"@.len() == 2 && "id"@[0] == 'i');
    assert("content"@.len() == 7 && "content"@[0] == 'c');
    assert("c"@.len() == 1 && "c"@[0] == 'c');
    assert("authenticationUrl"@.len() == 17 && "authenticationUrl"@[0] == 'a');
    assert("a"@.len() == 1 && "a"@[0] == 'a');
    assert("authenticationTicket"@.len() == 20 && "authenticationTicket"@[0] == 'a');
    assert("t"@.len() == 1 && "t"@[0] == 't');
    assert("joinScriptUrl"@.len() == 13 && "joinScriptUrl"@[0] == 'j');
    assert("j"@.len() == 1 && "j"@[0] == 'j');
    assert("browserTrackerId"@.len() == 16 && "browserTrackerId"@[0] == 'b');
    assert("b"@.len() == 1 && "b"@[0] == 'b');
    assert("waitEvent"@.len() == 9 && "waitEvent"@[0] == 'w');
    assert("w"@.len() == 1 && "w"@[0] == 'w');
    assert("globalBasicSettingsPath"@.len() == 23 && "globalBasicSettingsPath"@[0] == 'g');
    assert("g"@.len() == 1 && "g"@[0] == 'g');
    assert("API"@.len() == 3 && "API"@[0] == 'A');
    assert("Help"@.len() == 4 && "Help"@[0] == 'H');
    assert("joinscripturl"@.len() == 13 && "joinscripturl"@[0] == 'j');
    assert("joinscripturl"@[4] == 's' && "joinScriptUrl"@[4] == 'S');
    assert(""@.len() == 0);
}

/// The option that a key names, dashes stripped.
pub fn option_key(k: &str) -> (r: OptionKey)
    ensures
        r == spec_option_key(k@),
{
    if str_eq(k, "help") || str_eq(k, "?") {
        OptionKey::Help
    }     else if str_eq(k, "version") || str_eq(k, "v") {
        OptionKey::Version
    }     else if str_eq(k, "play") {
        OptionKey::Play
    }     else if str_eq(k, "app") {
        OptionKey::App
    }     else if str_eq(k, "dmp") || str_eq(k, "d") {
        OptionKey::Dmp
    }     else if str_eq(k, "id") {
        OptionKey::Id
    }     else if str_eq(k, "content") || str_eq(k, "c") {
        OptionKey::Content
    }     else if str_eq(k, "authenticationUrl") || str_eq(k, "a") {
        OptionKey::AuthenticationUrl
    }     else if str_eq(k, "authenticationTicket") || str_eq(k, "t") {
        OptionKey::AuthenticationTicket
    }     else if str_eq(k, "joinScriptUrl") || str_eq(k, "j") {
        OptionKey::JoinScriptUrl
    }     else if str_eq(k, "browserTrackerId") || str_eq(k, "b") {
        OptionKey::BrowserTrackerId
    }     else if str_eq(k, "waitEvent") || str_eq(k, "w") {
        OptionKey::WaitEvent
    }     else if str_eq(k, "globalBasicSettingsPath") || str_eq(k, "g") {
        OptionKey::GlobalBasicSettingsPath
    }     else if str_eq(k, "API") {
        OptionKey::Api
    } else {
        OptionKey::Unknown
    }
}

/// Whether the option takes the token after it as its value.
pub open spec fn takes_value(k: OptionKey) -> bool {
    match k {
        OptionKey::Id => true,
        OptionKey::Content => true,
        OptionKey::AuthenticationUrl => true,
        OptionKey::AuthenticationTicket => true,
        OptionKey::JoinScriptUrl => true,
        OptionKey::BrowserTrackerId => true,
        OptionKey::WaitEvent => true,
        OptionKey::GlobalBasicSettingsPath => true,
        OptionKey::Api => true,
        _ => false,
    }
}

/// Parsed command-line arguments.
pub struct Args {
    pub help: bool,
    pub version: bool,
    pub id: Option<i32>,
    pub content: Option<String>,
    pub authentication_url: Option<String>,
    pub authentication_ticket: Option<String>,
    pub join_script_url: Option<String>,
    pub browser_tracker_id: Option<String>,
    pub wait_event: Option<String>,
    pub global_basic_settings_path: Option<String>,
    pub api_out: Option<String>,
    pub dmp: bool,
    pub play: bool,
    pub app: bool,
}

/// The arguments as plain values.
pub struct ArgsView {
    pub help: bool,
    pub version: bool,
    pub id: Option<i32>,
    pub content: Option<Seq<char>>,
    pub authentication_url: Option<Seq<char>>,
    pub authentication_ticket: Option<Seq<char>>,
    pub join_script_url: Option<Seq<char>>,
    pub browser_tracker_id: Option<Seq<char>>,
    pub wait_event: Option<Seq<char>>,
    pub global_basic_settings_path: Option<Seq<char>>,
    pub api_out: Option<Seq<char>>,
    pub dmp: bool,
    pub play: bool,
    pub app: bool,
}

/// The characters of an optional string.
pub open spec fn opt_view(o: Option<String>) -> Option<Seq<char>> {
    match o {
        Some(s) => Some(s@),
        None => None,
    }
}

impl View for Args {
    type V = ArgsView;

    open spec fn view(&self) -> ArgsView {
        ArgsView {
            help: self.help,
            version: self.version,
            id: self.id,
            content: opt_view(self.content),
            authentication_url: opt_view(self.authentication_url),
            authentication_ticket: opt_view(self.authentication_ticket),
            join_script_url: opt_view(self.join_script_url),
            browser_tracker_id: opt_view(self.browser_tracker_id),
            wait_event: opt_view(self.wait_event),
            global_basic_settings_path: opt_view(self.global_basic_settings_path),
            api_out: opt_view(self.api_out),
            dmp: self.dmp,
            play: self.play,
            app: self.app,
        }
    }
}

/// No option given.
pub open spec fn default_args() -> ArgsView {
    ArgsView {
        help: false,
        version: false,
        id: None,
        content: None,
        authentication_url: None,
        authentication_ticket: None,
        join_script_url: None,
        browser_tracker_id: None,
        wait_event: None,
        global_basic_settings_path: None,
        api_out: None,
        dmp: false,
        play: false,
        app: false,
    }
}

impl Default for Args {
    fn default() -> (r: Args)
        ensures
            r@ == default_args(),
    {
        Args {
            help: false,
            version: false,
            id: None,
            content: None,
            authentication_url: None,
            authentication_ticket: None,
            join_script_url: None,
            browser_tracker_id: None,
            wait_event: None,
            global_basic_settings_path: None,
            api_out: None,
            dmp: false,
            play: false,
            app: false,
        }
    }
}

/// `a` with the option `k` applied; `v` is the token after the option, if
/// any.
pub open spec fn apply_option(a: ArgsView, k: OptionKey, v: Option<Seq<char>>) -> ArgsView {
    match k {
        OptionKey::Help => ArgsView { help: true, ..a },
        OptionKey::Version => ArgsView { version: true, ..a },
        OptionKey::Play => ArgsView { play: true, ..a },
        OptionKey::App => ArgsView { app: true, ..a },
        OptionKey::Dmp => ArgsView { dmp: true, ..a },
        OptionKey::Id => ArgsView {
            id: match v {
                Some(t) => spec_parse_i32(t),
                None => None,
            },
            ..a
        },
        OptionKey::Content => ArgsView { content: v, ..a },
        OptionKey::AuthenticationUrl => ArgsView { authentication_url: v, ..a },
        OptionKey::AuthenticationTicket => ArgsView { authentication_ticket: v, ..a },
        OptionKey::JoinScriptUrl => ArgsView { join_script_url: v, ..a },
        OptionKey::BrowserTrackerId => ArgsView { browser_tracker_id: v, ..a },
        OptionKey::WaitEvent => ArgsView { wait_event: v, ..a },
        OptionKey::GlobalBasicSettingsPath => ArgsView { global_basic_settings_path: v, ..a },
        OptionKey::Api => ArgsView { api_out: v, ..a },
        OptionKey::Unknown => a,
    }
}

/// The options in `toks` applied to `a` in order; an option that takes a
/// value consumes the next token.
pub open spec fn apply_options(a: ArgsView, toks: Seq<Seq<char>>) -> ArgsView
    decreases toks.len(),
{
    if toks.len() == 0 {
        a
    } else {
        let k = spec_option_key(strip_leading_dashes(toks[0]));
        let rest = toks.drop_first();
        if takes_value(k) {
            if rest.len() > 0 {
                apply_options(apply_option(a, k, Some(rest[0])), rest.drop_first())
            } else {
                apply_option(a, k, None)
            }
        } else {
            apply_options(apply_option(a, k, None), rest)
        }
    }
}

/// The arguments of a command line: help alone when it holds no token,
/// otherwise its options applied in order.
pub open spec fn spec_parse_program_options(cmd_line: Seq<char>) -> ArgsView {
    let toks = spec_split_winmain(cmd_line);
    if toks.len() == 0 {
        ArgsView { help: true, ..default_args() }
    } else {
        apply_options(default_args(), toks)
    }
}

/// Applies option `k`, with value `v`, to `args`.
fn set_option(args: &mut Args, k: OptionKey, v: Option<String>)
    ensures
        final(args)@ == apply_option(old(args)@, k, opt_view(v)),
{
    match k {
        OptionKey::Help => args.help = true,
        OptionKey::Version => args.version = true,
        OptionKey::Play => args.play = true,
        OptionKey::App => args.app = true,
        OptionKey::Dmp => args.dmp = true,
        OptionKey::Id => {
            args.id = match v {
                Some(t) => parse_i32(t.as_str()),
                None => None,
            };
        },
        OptionKey::Content => args.content = v,
        OptionKey::AuthenticationUrl => args.authentication_url = v,
        OptionKey::AuthenticationTicket => args.authentication_ticket = v,
        OptionKey::JoinScriptUrl => args.join_script_url = v,
        OptionKey::BrowserTrackerId => args.browser_tracker_id = v,
        OptionKey::WaitEvent => args.wait_event = v,
        OptionKey::GlobalBasicSettingsPath => args.global_basic_settings_path = v,
        OptionKey::Api => args.api_out = v,
        OptionKey::Unknown => {},
    }
}

/// Parses the program's command line: the
/// line is split, an empty line asks for help, and each known option
/// (leading dashes ignored) is applied in order; an option that takes a
/// value consumes the next token, and an id that is not a number is left
/// unset. Unknown tokens are ignored; parsing never fails.
pub fn parse_program_options(cmd_line: &str) -> (r: Result<Args, String>)
    ensures
        r matches Ok(a) && a@ == spec_parse_program_options(cmd_line@),
{
    let mut args = Args::default();
    let tokens = split_winmain(cmd_line);
    let ghost toks = string_views(tokens@);
    if tokens.len() == 0 {
        args.help = true;
        return Ok(args);
    }
    let n = tokens.len();
    let mut i: usize = 0;
    assert(toks.skip(0) =~= toks);
    while i < n
        invariant
            n == tokens@.len(),
            toks == string_views(tokens@),
            toks == spec_split_winmain(cmd_line@),
            toks.len() > 0,
            i <= n,
            apply_options(default_args(), toks) == apply_options(args@, toks.skip(i as int)),
        decreases n - i,
    {
        let ghost before = args@;
        let ghost rest = toks.skip(i as int);
        assert(rest[0] == tokens@[i as int]@);
        let key = option_key(trim_start_dashes(tokens[i].as_str()));
        if takes_value_exec(key) {
            if i + 1 < n {
                assert(rest.drop_first()[0] == tokens@[i + 1]@);
                assert(rest.drop_first().drop_first() =~= toks.skip(i + 2));
                set_option(&mut args, key, Some(tokens[i + 1].clone()));
                i = i + 2;
            } else {
                set_option(&mut args, key, None);
                assert(toks.skip(n as int).len() == 0);
                i = n;
            }
        } else {
            assert(rest.drop_first() =~= toks.skip(i + 1));
            set_option(&mut args, key, None);
            i = i + 1;
        }
    }
    assert(toks.skip(n as int) =~= Seq::<Seq<char>>::empty());
    Ok(args)
}

/// Whether the option takes the token after it as its value.
pub fn takes_value_exec(k: OptionKey) -> (r: bool)
    ensures
        r == takes_value(k),
{
    match k {
        OptionKey::Id => true,
        OptionKey::Content => true,
        OptionKey::AuthenticationUrl => true,
        OptionKey::AuthenticationTicket => true,
        OptionKey::JoinScriptUrl => true,
        OptionKey::BrowserTrackerId => true,
        OptionKey::WaitEvent => true,
        OptionKey::GlobalBasicSettingsPath => true,
        OptionKey::Api => true,
        _ => false,
    }
}

/// What the client keeps of its command line: the launch mode, the parsed
/// arguments, the settings path, the event to wait for, and the asset
/// folder handed to the content provider.
pub struct LaunchOptions {
    pub launch_mode: LaunchMode,
    pub args: Args,
    pub global_basic_settings_path: String,
    pub wait_event_name: String,
    pub asset_folder: Option<String>,
}

impl LaunchOptions {
    /// Play mode, no arguments, empty paths.
    pub fn new() -> (r: LaunchOptions)
        ensures
            r.launch_mode == LaunchMode::Play,
            r.args@ == default_args(),
            r.global_basic_settings_path@ == Seq::<char>::empty(),
            r.wait_event_name@ == Seq::<char>::empty(),
            r.asset_folder is None,
    {
        LaunchOptions {
            launch_mode: LaunchMode::Play,
            args: Args::default(),
            global_basic_settings_path: String::new(),
            wait_event_name: String::new(),
            asset_folder: None,
        }
    }

    /// Reads the command line and says
    /// whether the client goes on to start a game. Help, an API dump, a
    /// crash-dump upload and a version request stop it; the settings path
    /// is kept even when a version request then stops it. Otherwise the
    /// content folder, the event to wait for and play mode are taken over,
    /// and the arguments kept.
    pub fn parse_arguments(&mut self, cmd_line: &str) -> (r: bool)
        ensures
            ({
                let a = spec_parse_program_options(cmd_line@);
                let stops_early = a.help || a.api_out is Some || a.dmp;
                &&& r == !(stops_early || a.version)
                &&& final(self).global_basic_settings_path@ == (if !stops_early
                    && a.global_basic_settings_path is Some {
                    a.global_basic_settings_path->Some_0
                } else {
                    old(self).global_basic_settings_path@
                })
                &&& r ==> final(self).args@ == a
                &&& r ==> opt_view(final(self).asset_folder) == (if a.content is Some {
                    a.content
                } else {
                    opt_view(old(self).asset_folder)
                })
                &&& r ==> final(self).wait_event_name@ == (if a.wait_event is Some {
                    a.wait_event->Some_0
                } else {
                    old(self).wait_event_name@
                })
                &&& r ==> final(self).launch_mode == (if a.play {
                    LaunchMode::Play
                } else {
                    old(self).launch_mode
                })
                &&& !r ==> final(self).args@ == old(self).args@
                &&& !r ==> final(self).launch_mode == old(self).launch_mode
                &&& !r ==> final(self).wait_event_name@ == old(self).wait_event_name@
                &&& !r ==> opt_view(final(self).asset_folder) == opt_view(old(self).asset_folder)
            }),
    {
        let args = match parse_program_options(cmd_line) {
            Ok(a) => a,
            Err(e) => {
                rbx::analytics::report_event(rbx::analytics::EventType::Error, e.as_str());
                return false;
            },
        };
        if args.help {
            return false;
        }
        if args.api_out.is_some() {
            return false;
        }
        if args.dmp {
            return false;
        }
        match &args.global_basic_settings_path {
            Some(p) => {
                self.global_basic_settings_path = p.clone();
            },
            None => {},
        }
        if args.version {
            return false;
        }
        match &args.content {
            Some(c) => {
                rbx::content_set_asset_folder(c.as_str());
                self.asset_folder = Some(c.clone());
            },
            None => {},
        }
        match &args.wait_event {
            Some(w) => {
                self.wait_event_name = w.clone();
            },
            None => {},
        }
        if args.play {
            self.launch_mode = LaunchMode::Play;
        }
        self.args = args;
        true
    }
}

/// Starts fetching the join script: a content URL that the network trusts
/// is fetched with five retries, anything else gives an empty body at once.
pub fn fetch_join_script_async(url: &str) -> (r: HttpFuture)
    ensures
        r.spec_valid(),
        r.spec_request() == Some(if rbx::is_content_url(url@) {
            HttpRequestView::Get(url@, 5)
        } else {
            HttpRequestView::Ready
        }),
{
    if rbx::content_is_url(url) && rbx::network_is_trusted_content(url) {
        get_with_retries(url, 5)
    } else {
        ready_empty_future()
    }
}

/// What a join script asks for: the part after its first line break either
/// configures the player (a JSON object) or is a script to run.
pub enum JoinScriptAction {
    ConfigurePlayer(String),
    ExecuteScript(String),
    Ignore,
}

/// The first offset at or after `i` where `"\r\n"` starts in `s`.
pub open spec fn find_crlf_from(s: Seq<char>, i: int) -> Option<int>
    decreases s.len() - i,
{
    if i < 0 || i + 1 >= s.len() {
        None
    } else if s[i] == '\r' && s[i + 1] == '\n' {
        Some(i)
    } else {
        find_crlf_from(s, i + 1)
    }
}

/// The action for the join script `data`, as plain values: 0 configures
/// the player, 1 runs a script, 2 does nothing.
pub open spec fn spec_join_script_action(data: Seq<char>) -> (int, Seq<char>) {
    match find_crlf_from(data, 0) {
        None => (2, Seq::empty()),
        Some(i) => {
            let after = data.skip(i + 2);
            if after.len() > 0 && after[0] == '{' {
                (0, after)
            } else {
                (1, after)
            }
        },
    }
}

/// In a script whose first line holds no carriage return, the line break is
/// found at the end of that line.
proof fn lemma_crlf_after_first_line(pre: Seq<char>, rest: Seq<char>, i: int)
    requires
        0 <= i <= pre.len(),
        forall|k: int| 0 <= k < pre.len() ==> pre[k] != '\r',
    ensures
        find_crlf_from(pre + seq!['\r', '\n'] + rest, i) == Some(pre.len() as int),
    decreases pre.len() - i,
{
    let d = pre + seq!['\r', '\n'] + rest;
    if i < pre.len() {
        assert(d[i] == pre[i]);
        lemma_crlf_after_first_line(pre, rest, i + 1);
    } else {
        assert(d[i] == '\r' && d[i + 1] == '\n');
    }
}

/// A script without a carriage return holds no line break.
proof fn lemma_no_crlf(d: Seq<char>, i: int)
    requires
        0 <= i,
        forall|k: int| 0 <= k < d.len() ==> d[k] != '\r',
    ensures
        find_crlf_from(d, i) is None,
    decreases d.len() - i,
{
    if i + 1 < d.len() {
        lemma_no_crlf(d, i + 1);
    }
}

/// A join script acts on what follows its first line: given a first line
/// without a carriage return, then `"\r\n"`, the rest configures the player
/// when it starts with `{` and is run as a script otherwise; a script
/// without any carriage return does nothing.
pub proof fn lemma_join_script_after_first_line(pre: Seq<char>, rest: Seq<char>)
    requires
        forall|k: int| 0 <= k < pre.len() ==> pre[k] != '\r',
    ensures
        spec_join_script_action(pre + seq!['\r', '\n'] + rest) == (if rest.len() > 0 && rest[0]
            == '{' {
            (0int, rest)
        } else {
            (1int, rest)
        }),
        spec_join_script_action(pre) == (2int, Seq::<char>::empty()),
{
    let d = pre + seq!['\r', '\n'] + rest;
    lemma_crlf_after_first_line(pre, rest, 0);
    assert(d.skip(pre.len() + 2int) =~= rest);
    lemma_no_crlf(pre, 0);
}

impl JoinScriptAction {
    pub open spec fn value(&self) -> (int, Seq<char>) {
        match self {
            JoinScriptAction::ConfigurePlayer(s) => (0, s@),
            JoinScriptAction::ExecuteScript(s) => (1, s@),
            JoinScriptAction::Ignore => (2, Seq::empty()),
        }
    }
}

/// What to do with a join script: after the first `"\r\n"` of
/// the script, text that starts with `{` configures the player and any
/// other text is run as a script; without a line break nothing happens.
pub fn join_script_action(data: &str) -> (r: JoinScriptAction)
    ensures
        r.value() == spec_join_script_action(data@),
{
    let n = data.unicode_len();
    let mut i: usize = 0;
    while n > 0 && i < n - 1
        invariant
            n == data@.len(),
            find_crlf_from(data@, 0) == find_crlf_from(data@, i as int),
        decreases n - i,
    {
        if data.get_char(i) == '\r' && data.get_char(i + 1) == '\n' {
            let after = data.substring_char(i + 2, n);
            assert(after@ =~= data@.skip(i + 2));
            if i + 2 < n && data.get_char(i + 2) == '{' {
                return JoinScriptAction::ConfigurePlayer(after.to_owned());
            } else {
                return JoinScriptAction::ExecuteScript(after.to_owned());
            }
        }
        i = i + 1;
    }
    JoinScriptAction::Ignore
}


/// What the document does with the fetched join script.
pub enum ScriptOutcome {
    /// The fetch failed: this message is reported as an error and the user
    /// is told `JOIN_FAILED_MESSAGE`.
    Failed(String),
    /// The data model is already closed: nothing happens.
    Closed,
    /// The script is acted on.
    Run(JoinScriptAction),
}

/// The message the user sees when the join script could not be fetched.
pub const JOIN_FAILED_MESSAGE: &'static str = "Unable to join game. Please try again later.";

/// A script outcome as plain values: 0 with the error report, 1 when
/// closed, 2 with the join script action.
pub open spec fn script_outcome_value(o: ScriptOutcome) -> (int, Seq<char>, (int, Seq<char>)) {
    match o {
        ScriptOutcome::Failed(m) => (0, m@, (2, Seq::empty())),
        ScriptOutcome::Closed => (1, Seq::empty(), (2, Seq::empty())),
        ScriptOutcome::Run(a) => (2, Seq::empty(), a.value()),
    }
}

/// The outcome for a fetch result and the state of the data model: a failed
/// fetch is reported first; a closed data model runs nothing; otherwise the
/// script's action.
pub open spec fn spec_script_outcome(script: Result<Seq<char>, Seq<char>>, data_model_closed: bool) -> (int, Seq<char>, (int, Seq<char>)) {
    match script {
        Err(e) => (0, "Exception in Document::executeScript: "@ + e, (2, Seq::empty())),
        Ok(d) => if data_model_closed {
            (1, Seq::empty(), (2, Seq::empty()))
        } else {
            (2, Seq::empty(), spec_join_script_action(d))
        },
    }
}

/// The fetch result as plain values.
pub open spec fn script_result_view(r: Result<String, EngineError>) -> Result<Seq<char>, Seq<char>> {
    match r {
        Ok(d) => Ok(d@),
        Err(e) => Err(e.0@),
    }
}

/// What the document does with a join script, from what the fetch gave and
/// whether the data model is closed.
pub fn script_outcome(script: Result<String, EngineError>, data_model_closed: bool) -> (r: ScriptOutcome)
    ensures
        script_outcome_value(r) == spec_script_outcome(script_result_view(script), data_model_closed),
{
    match script {
        Err(e) => {
            let mut m = "Exception in Document::executeScript: ".to_owned();
            m.append(e.0.as_str());
            ScriptOutcome::Failed(m)
        },
        Ok(d) => {
            if data_model_closed {
                ScriptOutcome::Closed
            } else {
                ScriptOutcome::Run(join_script_action(d.as_str()))
            }
        },
    }
}

/// Running the join script up to the engine: waits for the join script
/// and decides what to do with it.
pub fn execute_script_outcome(script_result: &HttpFuture, data_model_closed: bool) -> (r: ScriptOutcome)
    ensures
        script_outcome_value(r) == spec_script_outcome(Ok(Seq::<char>::empty()), data_model_closed),
{
    script_outcome(script_result.get(), data_model_closed)
}

} // verus!
