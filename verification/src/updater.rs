//! Version comparison and the decisions of the update check: when a check is
//! throttled and what a release description means for the running version.
use vstd::prelude::*;
use vstd::string::*;
use crate::numfmt::{decimal, digit_char};
use crate::text::{is_unicode_whitespace, trim_end_spec, trim_spec, trim_start_spec, trim_str};

verus! {

/// A release that is newer than the running version.
#[derive(Clone, Debug, PartialEq)]
pub struct UpdateInfo {
    pub version: String,
    pub release_notes: String,
    pub download_url: String,
}

/// Where the update check stands.
#[derive(Clone, Debug, PartialEq)]
pub enum UpdateStatus {
    Idle,
    Checking,
    Available(UpdateInfo),
    UpToDate,
    Throttled,
    Downloading,
    Error(String),
}

/// An exact copy of a release description.
pub fn copy_update_info(info: &UpdateInfo) -> (r: UpdateInfo)
    ensures
        r == *info,
{
    UpdateInfo {
        version: info.version.clone(),
        release_notes: info.release_notes.clone(),
        download_url: info.download_url.clone(),
    }
}

/// An exact copy of an update status.
pub fn copy_update_status(status: &UpdateStatus) -> (r: UpdateStatus)
    ensures
        r == *status,
{
    match status {
        UpdateStatus::Idle => UpdateStatus::Idle,
        UpdateStatus::Checking => UpdateStatus::Checking,
        UpdateStatus::Available(info) => UpdateStatus::Available(copy_update_info(info)),
        UpdateStatus::UpToDate => UpdateStatus::UpToDate,
        UpdateStatus::Throttled => UpdateStatus::Throttled,
        UpdateStatus::Downloading => UpdateStatus::Downloading,
        UpdateStatus::Error(e) => UpdateStatus::Error(e.clone()),
    }
}

/// ASCII decimal digit.
pub open spec fn is_digit(c: char) -> bool {
    '0' <= c && c <= '9'
}

/// Value of a string of decimal digits.
pub open spec fn digits_value(s: Seq<char>) -> int
    decreases s.len(),
{
    if s.len() == 0 {
        0
    } else {
        digits_value(s.drop_last()) * 10 + ((s.last() as u32) - ('0' as u32))
    }
}

/// `str::parse::<u32>`: an optional `+`, then at least one decimal digit,
/// with a value that fits in `u32`.
pub open spec fn parse_u32_spec(s: Seq<char>) -> Option<u32> {
    let d = unsigned_part(s);
    if d.len() > 0 && all_digits(d) && digits_value(d) <= u32::MAX {
        Some(digits_value(d) as u32)
    } else {
        None
    }
}

/// `s` without one leading `+`.
pub open spec fn unsigned_part(s: Seq<char>) -> Seq<char> {
    if s.len() > 0 && s[0] == '+' {
        s.drop_first()
    } else {
        s
    }
}

/// Every character of `d` is a decimal digit.
pub open spec fn all_digits(d: Seq<char>) -> bool {
    forall|i: int| 0 <= i < d.len() ==> is_digit(#[trigger] d[i])
}

/// The pieces of `s` between dots (always at least one piece).
pub open spec fn split_dots(s: Seq<char>) -> Seq<Seq<char>>
    decreases s.len(),
{
    if s.len() == 0 {
        seq![Seq::<char>::empty()]
    } else {
        let r = split_dots(s.drop_last());
        if s.last() == '.' {
            r.push(Seq::<char>::empty())
        } else {
            r.update(r.len() - 1, r.last().push(s.last()))
        }
    }
}

/// The version text with surrounding whitespace and one leading `v` removed.
pub open spec fn version_core(v: Seq<char>) -> Seq<char> {
    let t = trim_spec(v);
    if t.len() > 0 && t[0] == 'v' {
        t.drop_first()
    } else {
        t
    }
}

/// Component `k` of a version: the `k`-th dot-separated piece read as a
/// number, 0 when it is missing or not a number.
pub open spec fn version_part(v: Seq<char>, k: int) -> u32 {
    let parts = split_dots(version_core(v));
    if k < parts.len() {
        match parse_u32_spec(parts[k]) {
            Some(n) => n,
            None => 0,
        }
    } else {
        0
    }
}

/// The (major, minor, patch) triple of a version string.
pub open spec fn semver(v: Seq<char>) -> (u32, u32, u32) {
    (version_part(v, 0), version_part(v, 1), version_part(v, 2))
}

/// Triple `a` is a later version than triple `b`.
pub open spec fn semver_newer(a: (u32, u32, u32), b: (u32, u32, u32)) -> bool {
    if a.0 != b.0 {
        a.0 > b.0
    } else if a.1 != b.1 {
        a.1 > b.1
    } else {
        a.2 > b.2
    }
}

pub proof fn lemma_split_dots_nonempty(s: Seq<char>)
    ensures
        split_dots(s).len() >= 1,
    decreases s.len(),
{
    if s.len() > 0 {
        lemma_split_dots_nonempty(s.drop_last());
    }
}

/// `str::parse::<u32>` on a list of characters.
fn parse_u32_chars(s: &Vec<char>) -> (r: Option<u32>)
    ensures
        r == parse_u32_spec(s@),
{
    let n = s.len();
    let mut i: usize = 0;
    if n > 0 && s[0] == '+' {
        i = 1;
    }
    let ghost d = unsigned_part(s@);
    let start = i;
    if start == n {
        return None;
    }
    let mut value: u64 = 0;
    let mut too_big = false;
    while i < n
        invariant
            start <= i <= n,
            n == s@.len(),
            start <= 1,
            d == unsigned_part(s@),
            d == s@.subrange(start as int, n as int),
            forall|j: int| 0 <= j < i - start ==> is_digit(#[trigger] d[j]),
            too_big <==> digits_value(d.take(i - start)) > u32::MAX,
            !too_big ==> value == digits_value(d.take(i - start)),
        decreases n - i,
    {
        let c = s[i];
        if !('0' <= c && c <= '9') {
            assert(d[i - start] == s@[i as int]);
            assert(!is_digit(d[i - start]));
            assert(!all_digits(d));
            return None;
        }
        let ghost prefix = d.take(i - start);
        assert(d.take(i - start + 1).drop_last() =~= prefix);
        assert(d.take(i - start + 1).last() == c);
        if !too_big {
            let digit = (c as u32 - '0' as u32) as u64;
            value = value * 10 + digit;
            if value > 4294967295 {
                too_big = true;
            }
        }
        i = i + 1;
    }
    assert(d.take(n - start) =~= d);
    if too_big {
        None
    } else {
        Some(value as u32)
    }
}

/// Splits `s` at its dots.
fn split_at_dots(s: &str) -> (r: Vec<Vec<char>>)
    ensures
        r@.len() == split_dots(s@).len(),
        forall|k: int| 0 <= k < r@.len() ==> (#[trigger] r@[k])@ == split_dots(s@)[k],
{
    let n = s.unicode_len();
    let mut done: Vec<Vec<char>> = Vec::new();
    let mut cur: Vec<char> = Vec::new();
    let mut i: usize = 0;
    while i < n
        invariant
            n == s@.len(),
            i <= n,
            split_dots(s@.take(i as int)).len() == done@.len() + 1,
            forall|k: int| 0 <= k < done@.len() ==> (#[trigger] done@[k])@ == split_dots(s@.take(i as int))[k],
            cur@ == split_dots(s@.take(i as int)).last(),
        decreases n - i,
    {
        let c = s.get_char(i);
        proof {
            assert(s@.take(i + 1).drop_last() =~= s@.take(i as int));
            assert(s@.take(i + 1).last() == c);
            lemma_split_dots_nonempty(s@.take(i as int));
        }
        if c == '.' {
            let finished = cur;
            done.push(finished);
            cur = Vec::new();
        } else {
            cur.push(c);
        }
        i = i + 1;
    }
    done.push(cur);
    assert(s@.take(n as int) =~= s@);
    done
}

/// Reads a version string such as `v1.2.3` as (major, minor, patch); a
/// missing or non-numeric component counts as 0.
pub fn parse_semver(v: &str) -> (r: (u32, u32, u32))
    ensures
        r == semver(v@),
{
    let t = trim_str(v);
    let clean: &str = if t.unicode_len() > 0 && t.get_char(0) == 'v' {
        t.substring_char(1, t.unicode_len())
    } else {
        t
    };
    assert(clean@ == version_core(v@));
    let parts = split_at_dots(clean);
    proof {
        lemma_split_dots_nonempty(clean@);
    }
    let major = match parse_u32_chars(&parts[0]) {
        Some(n) => n,
        None => 0,
    };
    let minor = if parts.len() > 1 {
        match parse_u32_chars(&parts[1]) {
            Some(n) => n,
            None => 0,
        }
    } else {
        0
    };
    let patch = if parts.len() > 2 {
        match parse_u32_chars(&parts[2]) {
            Some(n) => n,
            None => 0,
        }
    } else {
        0
    };
    (major, minor, patch)
}

/// Whether `remote` names a later version than `current`.
pub fn is_newer_version(current: &str, remote: &str) -> (r: bool)
    ensures
        r == semver_newer(semver(remote@), semver(current@)),
{
    let (c_maj, c_min, c_pat) = parse_semver(current);
    let (r_maj, r_min, r_pat) = parse_semver(remote);
    if r_maj != c_maj {
        return r_maj > c_maj;
    }
    if r_min != c_min {
        return r_min > c_min;
    }
    r_pat > c_pat
}


/// Seconds between two readings of the clock: `now - last`, 0 if the clock
/// went back.
pub open spec fn elapsed_secs(last: u64, now: u64) -> int {
    if now >= last {
        now - last
    } else {
        0
    }
}

/// An automatic check made within 12 hours (43,200 s) of the last one is
/// skipped; a check the player asks for never is.
pub open spec fn throttled(is_manual: bool, last_check: u64, now: u64) -> bool {
    !is_manual && last_check > 0 && elapsed_secs(last_check, now) < 43200
}

/// Whether an update check at `now` is skipped.
pub fn is_throttled(is_manual: bool, last_check_timestamp: u64, now: u64) -> (r: bool)
    ensures
        r == throttled(is_manual, last_check_timestamp, now),
{
    !is_manual && last_check_timestamp > 0 && now.saturating_sub(last_check_timestamp) < 43200
}

/// `r` is what a release with tag `tag`, notes `body` and package `url` means
/// for the running version `current`: an error without a tag, an available
/// update when the tag is a later version (with stock notes when the
/// notes are blank), up to date otherwise.
pub open spec fn release_outcome(
    current: Seq<char>,
    tag: Seq<char>,
    body: Seq<char>,
    url: Seq<char>,
    r: UpdateStatus,
) -> bool {
    if tag.len() == 0 {
        r matches UpdateStatus::Error(m) && m@ == "No version tag found in release."@
    } else if semver_newer(semver(tag), semver(current)) {
        r matches UpdateStatus::Available(info) && info.version@ == tag && info.download_url@ == url
            && info.release_notes@ == if trim_spec(body).len() == 0 {
            "No release notes provided."@
        } else {
            body
        }
    } else {
        r is UpToDate
    }
}

/// What a release description means for the running version.
pub fn status_from_release(current_version: &str, tag_name: String, body: String, download_url: String) -> (r: UpdateStatus)
    ensures
        release_outcome(current_version@, tag_name@, body@, download_url@, r),
{
    if tag_name.unicode_len() == 0 {
        return UpdateStatus::Error("No version tag found in release.".to_owned());
    }
    if is_newer_version(current_version, tag_name.as_str()) {
        let notes = if trim_str(body.as_str()).unicode_len() == 0 {
            "No release notes provided.".to_owned()
        } else {
            body
        };
        UpdateStatus::Available(UpdateInfo { version: tag_name, release_notes: notes, download_url })
    } else {
        UpdateStatus::UpToDate
    }
}

/// Whether `serde_json` accepts `s` as a JSON document.
pub uninterp spec fn json_accepts(s: Seq<char>) -> bool;

/// The text of the string member `key` of the JSON object `doc`, as
/// `serde_json` reads it: `None` when `doc` is no object, has no member of
/// that name, or the member is not a string.
pub uninterp spec fn json_member(doc: Seq<char>, key: Seq<char>) -> Option<Seq<char>>;

/// Wraps `serde_json::from_str::<Value>`, then `Value::get` and
/// `Value::as_str`: `None` when `doc` is not JSON, else the text of the
/// string member `key`, if there is one. What the two calls return is named
/// by `json_accepts` and `json_member`, functions of the text alone.
#[verifier::external_body]
fn json_string_member(doc: &str, key: &str) -> (r: Option<Option<String>>)
    ensures
        r is Some == json_accepts(doc@),
        r matches Some(m) ==> match m {
            Some(text) => json_member(doc@, key@) == Some(text@),
            None => json_member(doc@, key@) is None,
        },
{
    match serde_json::from_str::<serde_json::Value>(doc) {
        Err(_) => None,
        Ok(v) => Some(v.get(key).and_then(serde_json::Value::as_str).map(str::to_owned)),
    }
}

/// The text of member `key`, empty when `json_member` finds none.
pub open spec fn member_text(doc: Seq<char>, key: Seq<char>) -> Seq<char> {
    match json_member(doc, key) {
        Some(text) => text,
        None => Seq::empty(),
    }
}

/// The text of member `key` of the JSON document `doc` (empty when there is
/// none or it is not a string), or `None` when `doc` is not JSON.
fn json_text_field(doc: &str, key: &str) -> (r: Option<String>)
    ensures
        r is Some == json_accepts(doc@),
        r matches Some(text) ==> text@ == member_text(doc@, key@),
{
    match json_string_member(doc, key) {
        None => None,
        Some(Some(text)) => Some(text),
        Some(None) => {
            let empty = String::new();
            proof {
                assert(empty@ =~= member_text(doc@, key@));
            }
            Some(empty)
        },
    }
}

/// What the update query reported: it failed (with its error text, or a
/// generic message), returned nothing, returned something that is not JSON,
/// or described a release, read as `status_from_release` does.
pub fn status_from_query_output(success: bool, stderr: &str, stdout: &str, current_version: &str) -> (r:
    UpdateStatus)
    ensures
        !success ==> (r matches UpdateStatus::Error(m) && m@ == if trim_spec(stderr@).len() == 0 {
            "Could not connect to update server."@
        } else {
            trim_spec(stderr@)
        }),
        success && trim_spec(stdout@).len() == 0 ==> (r matches UpdateStatus::Error(m) && m@
            == "No release data returned."@),
        success && trim_spec(stdout@).len() > 0 && !json_accepts(trim_spec(stdout@)) ==> (r matches UpdateStatus::Error(
            m,
        ) && m@ == "Failed to parse release info."@),
        success && trim_spec(stdout@).len() > 0 && json_accepts(trim_spec(stdout@)) ==> release_outcome(
            current_version@,
            member_text(trim_spec(stdout@), "tag_name"@),
            member_text(trim_spec(stdout@), "body"@),
            member_text(trim_spec(stdout@), "download_url"@),
            r,
        ),
{
    if !success {
        let err_msg = trim_str(stderr);
        if err_msg.unicode_len() == 0 {
            return UpdateStatus::Error("Could not connect to update server.".to_owned());
        }
        return UpdateStatus::Error(err_msg.to_owned());
    }
    let json_str = trim_str(stdout);
    if json_str.unicode_len() == 0 {
        return UpdateStatus::Error("No release data returned.".to_owned());
    }
    let tag_name = match json_text_field(json_str, "tag_name") {
        None => return UpdateStatus::Error("Failed to parse release info.".to_owned()),
        Some(text) => text,
    };
    let body = match json_text_field(json_str, "body") {
        None => return UpdateStatus::Error("Failed to parse release info.".to_owned()),
        Some(text) => text,
    };
    let download_url = match json_text_field(json_str, "download_url") {
        None => return UpdateStatus::Error("Failed to parse release info.".to_owned()),
        Some(text) => text,
    };
    status_from_release(current_version, tag_name, body, download_url)
}

/// Why an update cannot start: a blank package URL.
pub fn download_url_error(download_url: &str) -> (r: Option<String>)
    ensures
        r is Some == (trim_spec(download_url@).len() == 0),
        r matches Some(m) ==> m@ == "No download URL provided for update."@,
{
    if trim_str(download_url).unicode_len() == 0 {
        Some("No download URL provided for update.".to_owned())
    } else {
        None
    }
}

/// Wraps `SystemTime::now`: the current time of the system clock. Nothing is
/// stated of it.
#[verifier::external_body]
fn system_time_now() -> (r: std::time::SystemTime) {
    std::time::SystemTime::now()
}

/// The system clock's time type.
#[verifier::external_type_specification]
#[verifier::external_body]
pub struct ExSystemTime(std::time::SystemTime);

/// Wraps `SystemTime::duration_since(UNIX_EPOCH)`, keeping the whole
/// seconds: `None` for a time before the epoch. Nothing more is stated.
#[verifier::external_body]
fn secs_since_unix_epoch(t: &std::time::SystemTime) -> (r: Option<u64>) {
    t.duration_since(std::time::UNIX_EPOCH).ok().map(|d| d.as_secs())
}

/// Seconds since the Unix epoch, 0 if the clock is set before it.
pub fn get_current_timestamp() -> (r: u64) {
    match secs_since_unix_epoch(&system_time_now()) {
        Some(secs) => secs,
        None => 0,
    }
}

/// The version text `a.b.c`, each number in decimal.
pub open spec fn version_text(a: u32, b: u32, c: u32) -> Seq<char> {
    decimal(a as nat).push('.') + decimal(b as nat).push('.') + decimal(c as nat)
}

/// Decimal notation is made of digits, starts with one, and reads back as
/// the number.
proof fn lemma_decimal_digits(n: nat)
    ensures
        decimal(n).len() > 0,
        all_digits(decimal(n)),
        digits_value(decimal(n)) == n,
    decreases n,
{
    let m = n % 10;
    assert(((digit_char(m as int) as u32) - ('0' as u32)) == m);
    if n >= 10 {
        lemma_decimal_digits(n / 10);
        let d = decimal(n);
        assert(d.drop_last() =~= decimal(n / 10));
        assert(d.last() == digit_char(m as int));
        assert(digits_value(d) == digits_value(decimal(n / 10)) * 10 + m);
        assert((n / 10) * 10 + m == n);
        assert forall|i: int| 0 <= i < d.len() implies is_digit(#[trigger] d[i]) by {
            if i < d.len() - 1 {
                assert(d[i] == decimal(n / 10)[i]);
            }
        }
    } else {
        let d = decimal(n);
        assert(d.drop_last() =~= Seq::<char>::empty());
        assert(d.last() == digit_char(m as int));
        assert(digits_value(d) == digits_value(d.drop_last()) * 10 + m);
    }
}

/// A number written in decimal reads back as itself.
proof fn lemma_decimal_parses(n: u32)
    ensures
        parse_u32_spec(decimal(n as nat)) == Some(n),
{
    lemma_decimal_digits(n as nat);
    let d = decimal(n as nat);
    assert(is_digit(d[0]));
    assert(unsigned_part(d) == d);
}

/// Splitting at dots after text `q` without dots is appended: `q` joins the
/// last piece.
proof fn lemma_split_dots_append(x: Seq<char>, q: Seq<char>)
    requires
        forall|i: int| 0 <= i < q.len() ==> q[i] != '.',
    ensures
        split_dots(x + q) == split_dots(x).update(split_dots(x).len() - 1, split_dots(x).last() + q),
    decreases q.len(),
{
    lemma_split_dots_nonempty(x);
    if q.len() == 0 {
        assert(x + q =~= x);
        assert(split_dots(x).last() + q =~= split_dots(x).last());
        assert(split_dots(x).update(split_dots(x).len() - 1, split_dots(x).last()) =~= split_dots(x));
    } else {
        let q0 = q.drop_last();
        lemma_split_dots_append(x, q0);
        assert((x + q).drop_last() =~= x + q0);
        assert((x + q).last() == q.last());
        assert(split_dots(x).last() + q0 + seq![q.last()] =~= split_dots(x).last() + q);
        let r = split_dots(x + q0);
        assert(r.len() == split_dots(x).len());
        assert(r.last() == split_dots(x).last() + q0);
        assert(r.last().push(q.last()) =~= split_dots(x).last() + q);
        assert(r.update(r.len() - 1, r.last().push(q.last())) =~= split_dots(x).update(
            split_dots(x).len() - 1,
            split_dots(x).last() + q,
        ));
    }
}

/// Decimal notation holds no dot.
proof fn lemma_decimal_no_dot(n: nat)
    ensures
        forall|i: int| 0 <= i < decimal(n).len() ==> decimal(n)[i] != '.',
{
    lemma_decimal_digits(n);
    assert forall|i: int| 0 <= i < decimal(n).len() implies decimal(n)[i] != '.' by {
        assert(is_digit(decimal(n)[i]));
    }
}

/// Reading a version back: the text `a.b.c` (each number in decimal) is
/// read by `semver`, and so by `parse_semver`, as `(a, b, c)`.
pub proof fn lemma_version_round_trip(a: u32, b: u32, c: u32)
    ensures
        semver(version_text(a, b, c)) == (a, b, c),
{
    let da = decimal(a as nat);
    let db = decimal(b as nat);
    let dc = decimal(c as nat);
    lemma_decimal_digits(a as nat);
    lemma_decimal_digits(c as nat);
    lemma_decimal_no_dot(a as nat);
    lemma_decimal_no_dot(b as nat);
    lemma_decimal_no_dot(c as nat);
    lemma_decimal_parses(a);
    lemma_decimal_parses(b);
    lemma_decimal_parses(c);
    let v = version_text(a, b, c);
    // No whitespace and no `v` at either end.
    assert(v[0] == da[0]);
    assert(is_digit(da[0]));
    assert(!is_unicode_whitespace(v[0]));
    assert(trim_start_spec(v) == v);
    assert(v.last() == dc.last());
    assert(is_digit(dc[dc.len() - 1]));
    assert(!is_unicode_whitespace(v.last()));
    assert(trim_end_spec(v) == v);
    assert(version_core(v) == v);
    // The three pieces.
    let e = Seq::<char>::empty();
    lemma_split_dots_append(e, da);
    assert(e + da =~= da);
    assert(split_dots(da) =~= seq![da]);
    let x1 = da.push('.');
    assert(x1.drop_last() =~= da);
    assert(split_dots(x1) =~= seq![da, e]);
    lemma_split_dots_append(x1, db);
    assert(split_dots(x1 + db) =~= seq![da, db]);
    let x2 = (x1 + db).push('.');
    assert(x2.drop_last() =~= x1 + db);
    assert(split_dots(x2) =~= seq![da, db, e]);
    lemma_split_dots_append(x2, dc);
    assert(x2 + dc =~= v);
    assert(split_dots(v) =~= seq![da, db, dc]);
}

/// "Later version than" is a strict order: never true of a version and
/// itself, never true both ways, and transitive; of two different versions
/// one is later.
pub proof fn lemma_semver_newer_strict_order(a: (u32, u32, u32), b: (u32, u32, u32), c: (u32, u32, u32))
    ensures
        !semver_newer(a, a),
        semver_newer(a, b) ==> !semver_newer(b, a),
        semver_newer(a, b) && semver_newer(b, c) ==> semver_newer(a, c),
        a != b ==> semver_newer(a, b) || semver_newer(b, a),
{
}

} // verus!
