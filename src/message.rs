use vstd::prelude::*;

verus! {

/// The string value at `package.version` of a TOML document, or `None` where
/// the text is not a TOML document or holds no such string.
pub uninterp spec fn toml_package_version(content: Seq<char>) -> Option<Seq<char>>;

/// Whether `c` has the Unicode property White_Space, as `char::is_whitespace` says.
pub open spec fn is_white_space(c: char) -> bool {
    ('\u{9}' <= c && c <= '\u{d}') || c == ' ' || c == '\u{85}' || c == '\u{a0}' || c
        == '\u{1680}' || ('\u{2000}' <= c && c <= '\u{200a}') || c == '\u{2028}' || c
        == '\u{2029}' || c == '\u{202f}' || c == '\u{205f}' || c == '\u{3000}'
}

/// `s` without its leading white space.
pub open spec fn trim_start(s: Seq<char>) -> Seq<char>
    decreases s.len(),
{
    if s.len() > 0 && is_white_space(s[0]) {
        trim_start(s.drop_first())
    } else {
        s
    }
}

/// `s` without its trailing white space.
pub open spec fn trim_end(s: Seq<char>) -> Seq<char>
    decreases s.len(),
{
    if s.len() > 0 && is_white_space(s.last()) {
        trim_end(s.drop_last())
    } else {
        s
    }
}

/// `s` without its leading and trailing white space.
pub open spec fn trimmed(s: Seq<char>) -> Seq<char> {
    trim_end(trim_start(s))
}

pub open spec fn is_digit(c: char) -> bool {
    '0' <= c && c <= '9'
}

/// A year as `%Y` writes it: four digits, or a sign and at least four digits.
pub open spec fn is_year_text(y: Seq<char>) -> bool {
    ||| (y.len() == 4 && forall|i: int| 0 <= i < 4 ==> is_digit(#[trigger] y[i]))
    ||| (y.len() >= 5 && (y[0] == '+' || y[0] == '-') && forall|i: int|
        1 <= i < y.len() ==> is_digit(#[trigger] y[i]))
}

/// Two digits at `i` and `i + 1`.
pub open spec fn two_digits(s: Seq<char>, i: int) -> bool {
    is_digit(s[i]) && is_digit(s[i + 1])
}

/// Text of the shape `%Y-%m-%d %H:%M:%S`: a year, then `-MM-DD HH:MM:SS`.
pub open spec fn is_timestamp_text(ts: Seq<char>) -> bool {
    let n = ts.len() as int;
    &&& n >= 19
    &&& is_year_text(ts.take(n - 15))
    &&& ts[n - 15] == '-' && two_digits(ts, n - 14)
    &&& ts[n - 12] == '-' && two_digits(ts, n - 11)
    &&& ts[n - 9] == ' ' && two_digits(ts, n - 8)
    &&& ts[n - 6] == ':' && two_digits(ts, n - 5)
    &&& ts[n - 3] == ':' && two_digits(ts, n - 2)
}

/// Relies on `toml::from_str` into a `toml::Table`, and on reading
/// `package.version` from it as a string: the result depends on the text
/// alone.
#[verifier::external_body]
fn parse_manifest_version(content: &str) -> (r: Option<String>)
    ensures
        r.is_some() == toml_package_version(content@).is_some(),
        r.is_some() ==> r.unwrap()@ == toml_package_version(content@).unwrap(),
{
    let doc = match toml::from_str::<toml::Table>(content) {
        Ok(doc) => doc,
        Err(_) => return None,
    };
    match doc.get("package").and_then(|p| p.get("version")).and_then(|v| v.as_str()) {
        Some(v) => Some(v.to_string()),
        None => None,
    }
}

/// Relies on `chrono::Local::now` and `DateTime::format` with
/// `%Y-%m-%d %H:%M:%S`: the local time now, to the second. Which time it
/// gives depends on the clock and the time zone; its shape does not (the year
/// zero-padded to four digits, signed outside 0 to 9999; every other field two
/// zero-padded digits).
#[verifier::external_body]
fn local_timestamp() -> (r: String)
    ensures
        is_timestamp_text(r@),
{
    chrono::Local::now().format("%Y-%m-%d %H:%M:%S").to_string()
}

/// Relies on `str::trim`, which removes leading and trailing characters with
/// the Unicode property White_Space.
#[verifier::external_body]
fn trim_line(s: &str) -> (r: String)
    ensures
        r@ == trimmed(s@),
{
    s.trim().to_string()
}

/// The message of a release commit: `feat: v<version>`.
pub open spec fn version_message(version: Seq<char>) -> Seq<char> {
    "feat: v"@ + version
}

/// The message of a commit stamped with a time: `feat: <timestamp>`.
pub open spec fn timestamp_message(timestamp: Seq<char>) -> Seq<char> {
    "feat: "@ + timestamp
}

/// Whether `m` is an automatic message for a manifest version (where there is
/// one): the version form, else the time form with a timestamp.
pub open spec fn is_auto_message(version: Option<Seq<char>>, m: Seq<char>) -> bool {
    match version {
        Some(v) => m == version_message(v),
        None => exists|ts: Seq<char>| is_timestamp_text(ts) && m == timestamp_message(ts),
    }
}

/// The text of an optional string.
pub open spec fn text_of(o: Option<&str>) -> Option<Seq<char>> {
    match o {
        Some(s) => Some(s@),
        None => None,
    }
}

/// The manifest's version, where a manifest text is given and names one.
pub open spec fn manifest_version(manifest: Option<Seq<char>>) -> Option<Seq<char>> {
    match manifest {
        Some(c) => toml_package_version(c),
        None => None,
    }
}

/// `feat: v<version>`.
pub fn version_commit_message(version: &str) -> (r: String)
    ensures
        r@ == version_message(version@),
{
    let mut r = String::from_str("feat: v");
    r.append(version);
    r
}

/// `feat: <timestamp>`.
pub fn timestamp_commit_message(timestamp: &str) -> (r: String)
    ensures
        r@ == timestamp_message(timestamp@),
{
    let mut r = String::from_str("feat: ");
    r.append(timestamp);
    r
}

/// The automatic message for a manifest version: the version form where there
/// is one, else the time form with the local time now.
pub fn auto_commit_message(version: Option<&str>) -> (r: String)
    ensures
        is_auto_message(text_of(version), r@),
{
    match version {
        Some(v) => version_commit_message(v),
        None => {
            let ts = local_timestamp();
            let r = timestamp_commit_message(ts.as_str());
            assert(r@ == timestamp_message(ts@));
            r
        },
    }
}

/// The manifest's version, where a manifest text is given and names one.
pub fn read_manifest_version(manifest: Option<&str>) -> (r: Option<String>)
    ensures
        r.is_some() == manifest_version(text_of(manifest)).is_some(),
        r.is_some() ==> r.unwrap()@ == manifest_version(text_of(manifest)).unwrap(),
{
    match manifest {
        Some(c) => parse_manifest_version(c),
        None => None,
    }
}

/// The automatic commit message, from the text of the package manifest where
/// it could be read: `feat: v<version>` where it is TOML with a
/// `package.version` string, else `feat: <local time>`.
pub fn generate_auto_commit_message(manifest: Option<&str>) -> (r: String)
    ensures
        is_auto_message(manifest_version(text_of(manifest)), r@),
{
    let version = read_manifest_version(manifest);
    match version {
        Some(v) => auto_commit_message(Some(v.as_str())),
        None => auto_commit_message(None),
    }
}

/// The commit message for a line typed by the user, once trimmed: the line
/// itself where it is not blank, else the automatic message.
pub fn message_for_trimmed_input(trimmed_line: &str, manifest: Option<&str>) -> (r: String)
    ensures
        trimmed_line@.len() > 0 ==> r@ == trimmed_line@,
        trimmed_line@.len() == 0 ==> is_auto_message(manifest_version(text_of(manifest)), r@),
{
    if trimmed_line.is_empty() {
        generate_auto_commit_message(manifest)
    } else {
        String::from_str(trimmed_line)
    }
}

/// The commit message for a line typed by the user: the trimmed line where it
/// is not blank, else the automatic message.
pub fn message_for_input(line: &str, manifest: Option<&str>) -> (r: String)
    ensures
        trimmed(line@).len() > 0 ==> r@ == trimmed(line@),
        trimmed(line@).len() == 0 ==> is_auto_message(manifest_version(text_of(manifest)), r@),
{
    let t = trim_line(line);
    message_for_trimmed_input(t.as_str(), manifest)
}

} // verus!
