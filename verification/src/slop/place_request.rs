//! How the client finds the place it joins: from the command line, or by
//! asking the place launcher, and the web requests it makes for that.

use vstd::prelude::*;
use crate::slop::app::{push_char, spec_parse_i32, digits_value, all_digits, str_eq, LaunchOptions, opt_view};
use crate::slop::rbx::LaunchMode;
use crate::slop::rbx::http::{HttpFuture, HttpPostData, HttpRequestView, post_async, CONTENT_TYPE_APPLICATION_JSON};

verus! {

/// The character of the decimal digit `d`.
pub open spec fn digit_char(d: int) -> char {
    ('0' as int + d) as char
}

/// The decimal digits of `n`, most significant first.
pub open spec fn decimal_digits(n: nat) -> Seq<char>
    decreases n,
{
    if n < 10 {
        seq![digit_char(n as int)]
    } else {
        decimal_digits(n / 10).push(digit_char((n % 10) as int))
    }
}

/// `v` as `Display` writes it: decimal, with a leading `-` when negative.
pub open spec fn spec_i32_text(v: i32) -> Seq<char> {
    if v < 0 {
        seq!['-'] + decimal_digits((-(v as int)) as nat)
    } else {
        decimal_digits(v as nat)
    }
}

/// The character of a digit below ten.
fn digit(d: u32) -> (c: char)
    requires
        d < 10,
    ensures
        c == digit_char(d as int),
{
    match d {
        0 => '0',
        1 => '1',
        2 => '2',
        3 => '3',
        4 => '4',
        5 => '5',
        6 => '6',
        7 => '7',
        8 => '8',
        _ => '9',
    }
}

/// Appends the decimal digits of `n` to `s`.
fn push_decimal(s: &mut String, n: u32)
    ensures
        final(s)@ == old(s)@ + decimal_digits(n as nat),
    decreases n,
{
    if n >= 10 {
        push_decimal(s, n / 10);
    }
    push_char(s, digit(n % 10));
    proof {
        if n >= 10 {
            assert(old(s)@ + decimal_digits(n as nat) =~= old(s)@ + decimal_digits((n / 10) as nat)
                + seq![digit_char((n % 10) as int)]);
        } else {
            assert(old(s)@ + decimal_digits(n as nat) =~= old(s)@.push(digit_char((n % 10) as int)));
        }
    }
}

/// Appends `v` in decimal to `s`, as `format!("{v}")` writes it.
pub fn push_i32(s: &mut String, v: i32)
    ensures
        final(s)@ == old(s)@ + spec_i32_text(v),
{
    if v < 0 {
        push_char(s, '-');
        let m: u32 = (0 - (v as i64)) as u32;
        push_decimal(s, m);
        assert(final(s)@ =~= old(s)@ + spec_i32_text(v));
    } else {
        push_decimal(s, v as u32);
    }
}

/// The digits of a number are digits, start with no sign, and are worth
/// the number.
proof fn lemma_decimal_digits(n: nat)
    ensures
        decimal_digits(n).len() > 0,
        all_digits(decimal_digits(n)),
        digits_value(decimal_digits(n)) == n,
    decreases n,
{
    assert(digit_char((n % 10) as int) as int == '0' as int + n % 10);
    assert(decimal_digits(n).last() == digit_char((n % 10) as int));
    if n < 10 {
        let d = decimal_digits(n);
        assert(d.drop_last() =~= Seq::<char>::empty());
        assert(digits_value(d.drop_last()) == 0);
        assert(n % 10 == n);
        assert(digits_value(d) == digits_value(d.drop_last()) * 10 + (d.last() as int - '0' as int));
    } else {
        lemma_decimal_digits(n / 10);
        let d = decimal_digits(n);
        assert(n == (n / 10) * 10 + n % 10);
        assert(d.drop_last() =~= decimal_digits(n / 10));
        assert(all_digits(d)) by {
            assert forall|i: int| 0 <= i < d.len() implies '0' <= #[trigger] d[i] <= '9' by {
                if i < d.len() - 1 {
                    assert(d[i] == decimal_digits(n / 10)[i]);
                }
            }
        }
    }
}

/// Reading back what `push_i32` writes gives the number: the text of an
/// `i32` parses, as `i32::from_str`, to the same `i32`.
pub proof fn lemma_i32_text_parses(v: i32)
    ensures
        spec_parse_i32(spec_i32_text(v)) == Some(v),
{
    if v < 0 {
        let m = (-(v as int)) as nat;
        lemma_decimal_digits(m);
        assert(spec_i32_text(v).drop_first() =~= decimal_digits(m));
    } else {
        lemma_decimal_digits(v as nat);
        let d = decimal_digits(v as nat);
        assert('0' <= d[0] <= '9');
    }
}


/// The place launcher request for the place `place_id` under the base URL
/// `base`.
pub open spec fn spec_place_launcher_url(base: Seq<char>, place_id: i32) -> Seq<char> {
    base + "Game/PlaceLauncher.ashx?request=RequestGame&placeId="@ + spec_i32_text(place_id)
        + "&isPartyLeader=false&gender=&isTeleport=true"@
}

/// The URL asked for the place with id `place_id` under the base URL `base`.
pub fn place_launcher_url(base: &str, place_id: i32) -> (r: String)
    ensures
        r@ == spec_place_launcher_url(base@, place_id),
{
    let mut url = base.to_owned();
    url.append("Game/PlaceLauncher.ashx?request=RequestGame&placeId=");
    push_i32(&mut url, place_id);
    url.append("&isPartyLeader=false&gender=&isTeleport=true");
    proof {
        assert(url@ =~= spec_place_launcher_url(base@, place_id));
    }
    url
}

/// How often the place launcher is asked again after a failed request: it
/// is asked this many times plus one in all.
pub const REQUEST_PLACE_INFO_RETRY_COUNT: i32 = 5;

/// What a place launcher answer means.
#[derive(Debug, Clone, Copy, PartialEq, Eq, Structural)]
pub enum RequestPlaceInfoResult {
    Success,
    Failed,
    Retry,
    GameFull,
    UserLeft,
}

/// The meaning of the place launcher's `status`: 2 is success, 6 a full
/// game, 10 a user who left, 0 and 1 ask to retry, anything else failed.
pub open spec fn spec_place_info_result(status: i64) -> RequestPlaceInfoResult {
    if status == 2 {
        RequestPlaceInfoResult::Success
    } else if status == 6 {
        RequestPlaceInfoResult::GameFull
    } else if status == 10 {
        RequestPlaceInfoResult::UserLeft
    } else if status == 0 || status == 1 {
        RequestPlaceInfoResult::Retry
    } else {
        RequestPlaceInfoResult::Failed
    }
}

/// Reads the status of the
/// place launcher's JSON answer.
pub fn place_info_result(status: i64) -> (r: RequestPlaceInfoResult)
    ensures
        r == spec_place_info_result(status),
{
    match status {
        2 => RequestPlaceInfoResult::Success,
        6 => RequestPlaceInfoResult::GameFull,
        10 => RequestPlaceInfoResult::UserLeft,
        0 | 1 => RequestPlaceInfoResult::Retry,
        _ => RequestPlaceInfoResult::Failed,
    }
}

/// How long the client waits after a failed place launcher request before
/// the next step, in milliseconds.
pub const PLACE_INFO_RETRY_PAUSE_MS: u64 = 2000;

/// What the client does after one place launcher request.
#[derive(Debug, Clone, Copy, PartialEq, Eq, Structural)]
pub enum PlaceInfoStep {
    /// The place was found.
    Found,
    /// Wait, then ask again with this many retries left.
    PauseThenRetry(i32),
    /// Wait, then give up.
    PauseThenGiveUp,
}

/// The step after a request made with `retries` retries left.
pub open spec fn spec_place_info_step(retries: i32, result: RequestPlaceInfoResult) -> PlaceInfoStep {
    if result == RequestPlaceInfoResult::Success {
        PlaceInfoStep::Found
    } else if retries > 0 {
        PlaceInfoStep::PauseThenRetry((retries - 1) as i32)
    } else {
        PlaceInfoStep::PauseThenGiveUp
    }
}

/// The retry rule of the request for a place by id: a success ends it; any
/// other answer is followed by a pause and, while retries are left, another
/// request with one retry less.
pub fn place_info_step(retries: i32, result: RequestPlaceInfoResult) -> (r: PlaceInfoStep)
    requires
        retries >= 0,
    ensures
        r == spec_place_info_step(retries, result),
{
    if result == RequestPlaceInfoResult::Success {
        PlaceInfoStep::Found
    } else if retries > 0 {
        PlaceInfoStep::PauseThenRetry(retries - 1)
    } else {
        PlaceInfoStep::PauseThenGiveUp
    }
}

/// Only a successful answer ends the search as found; any other answer
/// (a full game, a user who left, a request to retry, a failure) is followed
/// by a pause, then by another request with one retry less while retries
/// are left, and otherwise by giving up.
pub proof fn lemma_only_success_is_found(retries: i32, result: RequestPlaceInfoResult)
    requires
        retries >= 0,
    ensures
        (spec_place_info_step(retries, result) == PlaceInfoStep::Found) <==> (result
            == RequestPlaceInfoResult::Success),
        result != RequestPlaceInfoResult::Success && retries > 0 ==> spec_place_info_step(
            retries,
            result,
        ) == PlaceInfoStep::PauseThenRetry((retries - 1) as i32),
        result != RequestPlaceInfoResult::Success && retries == 0 ==> spec_place_info_step(
            retries,
            result,
        ) == PlaceInfoStep::PauseThenGiveUp,
{
}

/// The place launcher's answers by status number: 2 is success, 6 a full
/// game, 10 a user who left, 0 and 1 ask to retry, and every other status is
/// a failure.
pub proof fn lemma_place_info_statuses(status: i64)
    ensures
        (spec_place_info_result(status) == RequestPlaceInfoResult::Success) <==> status == 2,
        (spec_place_info_result(status) == RequestPlaceInfoResult::GameFull) <==> status == 6,
        (spec_place_info_result(status) == RequestPlaceInfoResult::UserLeft) <==> status == 10,
        (spec_place_info_result(status) == RequestPlaceInfoResult::Retry) <==> (status == 0
            || status == 1),
        (spec_place_info_result(status) == RequestPlaceInfoResult::Failed) <==> !(status == 0
            || status == 1 || status == 2 || status == 6 || status == 10),
{
}

/// How many requests are made when none succeeds, starting with `retries`
/// retries left.
pub open spec fn requests_until_give_up(retries: int) -> nat
    decreases retries,
{
    if retries <= 0 {
        1
    } else {
        1 + requests_until_give_up(retries - 1)
    }
}

/// When no request succeeds, the launcher is asked once and then once per
/// retry: `REQUEST_PLACE_INFO_RETRY_COUNT + 1` times in all.
pub proof fn lemma_requests_until_give_up(retries: int)
    requires
        retries >= 0,
    ensures
        requests_until_give_up(retries) == retries + 1,
    decreases retries,
{
    if retries > 0 {
        lemma_requests_until_give_up(retries - 1);
    }
}

/// The lowercase of `s` as `str::to_lowercase` makes it, by Unicode's
/// `Lowercase` mapping; a capital sigma becomes a final sigma where it ends a
/// word, so the mapping also looks at a character's neighbours.
pub uninterp spec fn str_lowercase(s: Seq<char>) -> Seq<char>;

/// `str::to_lowercase`. Trusted, not proved: the result is
/// `str_lowercase(s)`; the Unicode mapping itself is left to the name.
#[verifier::external_body]
fn to_lowercase(s: &str) -> (r: String)
    ensures
        r@ == str_lowercase(s@),
{
    s.to_lowercase()
}

/// Whether `needle` occurs in `hay`.
pub open spec fn contains_seq(hay: Seq<char>, needle: Seq<char>) -> bool {
    exists|i: int| 0 <= i <= hay.len() - needle.len() && #[trigger] hay.subrange(i, i + needle.len()) == needle
}

/// `str::contains` for a string needle.
pub fn str_contains(hay: &str, needle: &str) -> (r: bool)
    ensures
        r == contains_seq(hay@, needle@),
{
    let n = hay.unicode_len();
    let m = needle.unicode_len();
    if m > n {
        return false;
    }
    let mut i: usize = 0;
    while i <= n - m
        invariant
            n == hay@.len(),
            m == needle@.len(),
            m <= n,
            i <= n - m + 1,
            forall|j: int| 0 <= j < i ==> #[trigger] hay@.subrange(j, j + m) != needle@,
        decreases n - m + 1 - i,
    {
        let part = hay.substring_char(i, i + m);
        if str_eq(part, needle) {
            return true;
        }
        if i == n - m {
            return false;
        }
        i = i + 1;
    }
    false
}

/// The lowercase needle that marks a join script URL as the place launcher.
pub open spec fn place_launcher_marker() -> Seq<char> {
    "placelauncher.ashx"@
}

/// Whether a join script URL goes to the place launcher: its lowercase
/// holds `placelauncher.ashx`.
pub fn is_place_launcher_url(url: &str) -> (r: bool)
    ensures
        r == contains_seq(str_lowercase(url@), place_launcher_marker()),
{
    let lower = to_lowercase(url);
    str_contains(lower.as_str(), "placelauncher.ashx")
}

/// Where the client gets the place it joins from.
pub enum PlaceSource {
    /// Ask the place launcher for the place with this id.
    PlaceId(i32),
    /// The command line gave the authentication URL and ticket and the join
    /// script URL; `place_launcher` tells whether the join script URL is
    /// the place launcher, to be polled instead of fetched.
    Given {
        authentication_url: String,
        authentication_ticket: String,
        join_script_url: String,
        place_launcher: bool,
    },
    /// Neither: the URLs stay empty.
    Nothing,
}

/// A place source as plain values.
pub enum PlaceSourceView {
    PlaceId(i32),
    Given(Seq<char>, Seq<char>, Seq<char>, bool),
    Nothing,
}

impl View for PlaceSource {
    type V = PlaceSourceView;

    open spec fn view(&self) -> PlaceSourceView {
        match self {
            PlaceSource::PlaceId(id) => PlaceSourceView::PlaceId(*id),
            PlaceSource::Given {
                authentication_url,
                authentication_ticket,
                join_script_url,
                place_launcher,
            } => PlaceSourceView::Given(
                authentication_url@,
                authentication_ticket@,
                join_script_url@,
                *place_launcher,
            ),
            PlaceSource::Nothing => PlaceSourceView::Nothing,
        }
    }
}

/// The place source of parsed arguments: an id wins; otherwise all three of
/// the authentication URL, ticket and join script URL must be given.
pub open spec fn spec_place_source(a: crate::slop::app::ArgsView) -> PlaceSourceView {
    match a.id {
        Some(id) => PlaceSourceView::PlaceId(id),
        None => match (a.authentication_url, a.authentication_ticket, a.join_script_url) {
            (Some(u), Some(t), Some(j)) => PlaceSourceView::Given(
                u,
                t,
                j,
                contains_seq(str_lowercase(j), place_launcher_marker()),
            ),
            _ => PlaceSourceView::Nothing,
        },
    }
}

impl LaunchOptions {
    /// Where the place comes from, as the client starts;
    /// a join script URL that is the place launcher switches the launch
    /// mode to the play protocol.
    pub fn place_source(&mut self) -> (r: PlaceSource)
        ensures
            r@ == spec_place_source(old(self).args@),
            final(self).launch_mode == (match r@ {
                PlaceSourceView::Given(_, _, _, true) => LaunchMode::PlayProtocol,
                _ => old(self).launch_mode,
            }),
            final(self).args@ == old(self).args@,
            final(self).global_basic_settings_path@ == old(self).global_basic_settings_path@,
            final(self).wait_event_name@ == old(self).wait_event_name@,
            opt_view(final(self).asset_folder) == opt_view(old(self).asset_folder),
    {
        match self.args.id {
            Some(id) => PlaceSource::PlaceId(id),
            None => match (
                &self.args.authentication_url,
                &self.args.authentication_ticket,
                &self.args.join_script_url,
            ) {
                (Some(u), Some(t), Some(j)) => {
                    let place_launcher = is_place_launcher_url(j.as_str());
                    if place_launcher {
                        self.launch_mode = LaunchMode::PlayProtocol;
                    }
                    PlaceSource::Given {
                        authentication_url: u.clone(),
                        authentication_ticket: t.clone(),
                        join_script_url: j.clone(),
                        place_launcher,
                    }
                },
                _ => PlaceSource::Nothing,
            },
        }
    }
}

/// `s` with every occurrence of `from` replaced by `to`, left to right and
/// without overlaps, as `str::replace` does for a non-empty `from`.
pub open spec fn spec_replace(s: Seq<char>, from: Seq<char>, to: Seq<char>) -> Seq<char>
    decreases s.len(),
{
    if from.len() == 0 || s.len() < from.len() {
        s
    } else if s.subrange(0, from.len() as int) == from {
        to + spec_replace(s.skip(from.len() as int), from, to)
    } else {
        seq![s[0]] + spec_replace(s.skip(1), from, to)
    }
}

/// `str::replace` for a non-empty pattern.
fn replace_all(s: &str, from: &str, to: &str) -> (r: String)
    requires
        from@.len() > 0,
    ensures
        r@ == spec_replace(s@, from@, to@),
{
    let n = s.unicode_len();
    let m = from.unicode_len();
    let mut out = String::new();
    let mut i: usize = 0;
    assert(s@.skip(0) =~= s@);
    while i < n
        invariant
            n == s@.len(),
            m == from@.len(),
            m > 0,
            i <= n,
            spec_replace(s@, from@, to@) == out@ + spec_replace(s@.skip(i as int), from@, to@),
        decreases n - i,
    {
        let ghost rest = s@.skip(i as int);
        if n - i < m {
            let tail = s.substring_char(i, n);
            assert(tail@ =~= rest);
            out.append(tail);
            assert(s@.skip(n as int) =~= Seq::<char>::empty());
            i = n;
        } else {
            let part = s.substring_char(i, i + m);
            assert(rest.subrange(0, m as int) =~= part@);
            if str_eq(part, from) {
                out.append(to);
                assert(rest.skip(m as int) =~= s@.skip(i + m));
                i = i + m;
            } else {
                let c = s.get_char(i);
                push_char(&mut out, c);
                assert(rest.skip(1) =~= s@.skip(i + 1));
                i = i + 1;
            }
            proof {
                assert(out@ + spec_replace(s@.skip(i as int), from@, to@) =~= spec_replace(
                    s@,
                    from@,
                    to@,
                ));
            }
        }
    }
    assert(spec_replace(Seq::<char>::empty(), from@, to@) =~= Seq::<char>::empty());
    assert(out@ =~= out@ + Seq::<char>::empty());
    out
}

/// The login endpoint under the base URL: `login/v1` appended, then
/// `http` made `https` and `www` made `api`.
pub open spec fn spec_login_url(base: Seq<char>) -> Seq<char> {
    spec_replace(spec_replace(base + "login/v1"@, "http"@, "https"@), "www"@, "api"@)
}

/// The URL that a login is posted to.
pub fn login_url(base: &str) -> (r: String)
    ensures
        r@ == spec_login_url(base@),
{
    proof {
        reveal_strlit("http");
        reveal_strlit("www");
    }
    let mut url = base.to_owned();
    url.append("login/v1");
    let secure = replace_all(url.as_str(), "http", "https");
    replace_all(secure.as_str(), "www", "api")
}

/// The JSON body of a login: the user name and password, written in as they
/// are.
pub open spec fn spec_login_body(user: Seq<char>, password: Seq<char>) -> Seq<char> {
    "{\"username\":\""@ + user + "\", \"password\":\""@ + password + "\"}"@
}

/// The JSON body of a login.
pub fn login_body(user: &str, password: &str) -> (r: String)
    ensures
        r@ == spec_login_body(user@, password@),
{
    let mut body = "{\"username\":\"".to_owned();
    body.append(user);
    body.append("\", \"password\":\"");
    body.append(password);
    body.append("\"}");
    proof {
        assert(body@ =~= spec_login_body(user@, password@));
    }
    body
}

/// Logs in: posts the login body as JSON, uncompressed, to the login URL
/// under `base`.
pub fn login_async(base: &str, user: &str, password: &str) -> (r: HttpFuture)
    ensures
        r.spec_valid(),
        r.spec_request() == Some(
            HttpRequestView::Post(
                spec_login_url(base@),
                spec_login_body(user@, password@),
                CONTENT_TYPE_APPLICATION_JSON@,
                false,
            ),
        ),
{
    let url = login_url(base);
    let body = login_body(user, password);
    post_async(url.as_str(), HttpPostData::new(body, CONTENT_TYPE_APPLICATION_JSON, false))
}

/// A join script URL goes to the place launcher when its lowercase holds
/// the characters `placelauncher.ashx`.
pub proof fn lemma_place_launcher_marker()
    ensures
        place_launcher_marker() == seq![
            'p', 'l', 'a', 'c', 'e', 'l', 'a', 'u', 'n', 'c', 'h', 'e', 'r', '.', 'a', 's', 'h', 'x',
        ],
{
    reveal_strlit("placelauncher.ashx");
    assert(place_launcher_marker() =~= seq![
        'p', 'l', 'a', 'c', 'e', 'l', 'a', 'u', 'n', 'c', 'h', 'e', 'r', '.', 'a', 's', 'h', 'x',
    ]);
}

/// The place launcher request is the base URL followed by
/// `Game/PlaceLauncher.ashx?request=RequestGame&placeId=`, the place id in
/// decimal, and `&isPartyLeader=false&gender=&isTeleport=true`; the id in it
/// reads back as the place id.
pub proof fn lemma_place_launcher_url_text(base: Seq<char>, place_id: i32)
    ensures
        spec_place_launcher_url(base, place_id) == base + seq!['G', 'a', 'm', 'e', '/', 'P', 'l', 'a', 'c', 'e', 'L', 'a', 'u', 'n', 'c', 'h', 'e', 'r', '.', 'a', 's', 'h', 'x', '?', 'r', 'e', 'q', 'u', 'e', 's', 't', '=', 'R', 'e', 'q', 'u', 'e', 's', 't', 'G', 'a', 'm', 'e', '&', 'p', 'l', 'a', 'c', 'e', 'I', 'd', '='] + spec_i32_text(place_id)
            + seq!['&', 'i', 's', 'P', 'a', 'r', 't', 'y', 'L', 'e', 'a', 'd', 'e', 'r', '=', 'f', 'a', 'l', 's', 'e', '&', 'g', 'e', 'n', 'd', 'e', 'r', '=', '&', 'i', 's', 'T', 'e', 'l', 'e', 'p', 'o', 'r', 't', '=', 't', 'r', 'u', 'e'],
        spec_parse_i32(spec_i32_text(place_id)) == Some(place_id),
{
    reveal_strlit("Game/PlaceLauncher.ashx?request=RequestGame&placeId=");
    reveal_strlit("&isPartyLeader=false&gender=&isTeleport=true");
    assert("Game/PlaceLauncher.ashx?request=RequestGame&placeId="@ =~= seq!['G', 'a', 'm', 'e', '/', 'P', 'l', 'a', 'c', 'e', 'L', 'a', 'u', 'n', 'c', 'h', 'e', 'r', '.', 'a', 's', 'h', 'x', '?', 'r', 'e', 'q', 'u', 'e', 's', 't', '=', 'R', 'e', 'q', 'u', 'e', 's', 't', 'G', 'a', 'm', 'e', '&', 'p', 'l', 'a', 'c', 'e', 'I', 'd', '=']);
    assert("&isPartyLeader=false&gender=&isTeleport=true"@ =~= seq!['&', 'i', 's', 'P', 'a', 'r', 't', 'y', 'L', 'e', 'a', 'd', 'e', 'r', '=', 'f', 'a', 'l', 's', 'e', '&', 'g', 'e', 'n', 'd', 'e', 'r', '=', '&', 'i', 's', 'T', 'e', 'l', 'e', 'p', 'o', 'r', 't', '=', 't', 'r', 'u', 'e']);
    lemma_i32_text_parses(place_id);
}

} // verus!
