//! Masking of email addresses, user directories and keys in log lines.
use vstd::prelude::*;

verus! {

/// Email addresses.
pub const EMAIL_PATTERN: &'static str = r"(?i)[a-zA-Z0-9._%+-]+@[a-zA-Z0-9.-]+\.[a-zA-Z]{2,}";

/// A key word followed by a long key.
pub const API_KEY_PATTERN: &'static str = r"(?i)(?P<prefix>key|token|secret|api[-_]?key|access[-_]?token)[\s=:]+(?P<key>[a-zA-Z0-9+/=_-]{20,})";

/// A Unix home directory.
pub const USER_HOME_PATTERN: &'static str = r"(?P<prefix>/home/[^/]+)";

/// A Windows user directory, as it appears with escaped backslashes.
pub const WINDOWS_USER_PATTERN: &'static str = r"C:\\\\Users\\\\[^\\\\]+";

/// `n` stars.
pub open spec fn stars(n: nat) -> Seq<char> {
    Seq::new(n, |i: int| '*')
}

fn star_text(n: usize) -> (r: String)
    ensures
        r@ == stars(n as nat),
{
    let mut r = String::new();
    let mut i: usize = 0;
    while i < n
        invariant
            i <= n,
            r@ == stars(i as nat),
        decreases n - i,
    {
        r.append("*");
        proof {
            reveal_strlit("*");
        }
        assert(r@ =~= stars((i + 1) as nat));
        i = i + 1;
    }
    r
}

/// Position of the first `'@'`, or 0 where there is none.
pub open spec fn first_at(e: Seq<char>) -> int {
    if exists|i: int| 0 <= i < e.len() && e[i] == '@' {
        choose|i: int| 0 <= i < e.len() && e[i] == '@' && forall|j: int| 0 <= j < i ==> e[j] != '@'
    } else {
        0
    }
}

/// One email address of a log line, masked: a local part of one character is
/// kept; one of two keeps its first character and a star; a longer one keeps
/// its first and last characters around three stars. The rest, from the `'@'`
/// on, is kept (`"user@domain.com"` gives `"u***r@domain.com"`).
pub open spec fn masked_match(e: Seq<char>) -> Seq<char> {
    let at = first_at(e);
    let local = e.subrange(0, at);
    let domain = e.subrange(at, e.len() as int);
    if local.len() <= 1 {
        e
    } else if local.len() == 2 {
        seq![local[0]] + "*"@ + domain
    } else {
        seq![local[0]] + "***"@ + seq![local.last()] + domain
    }
}

pub fn sanitize_email_match(email: &str) -> (r: String)
    ensures
        r@ == masked_match(email@),
{
    let n = email.unicode_len();
    let mut at: usize = 0;
    let mut found = false;
    let mut i: usize = 0;
    while i < n && !found
        invariant
            n == email@.len(),
            i <= n,
            !found ==> at == 0 && forall|j: int| 0 <= j < i ==> email@[j] != '@',
            found ==> at < n && email@[at as int] == '@' && forall|j: int|
                0 <= j < at ==> email@[j] != '@',
        decreases n - i,
    {
        if email.get_char(i) == '@' {
            at = i;
            found = true;
        }
        i = i + 1;
    }
    proof {
        if found {
            let c = choose|k: int|
                0 <= k < n && email@[k] == '@' && forall|j: int| 0 <= j < k ==> email@[j] != '@';
            assert(c == at);
        } else {
            assert(!exists|k: int| 0 <= k < n && email@[k] == '@');
        }
    }
    if at <= 1 {
        return String::from_str(email);
    }
    let first = email.substring_char(0, 1);
    let domain = email.substring_char(at, n);
    let mut r = String::from_str(first);
    proof {
        assert(first@ =~= seq![email@[0]]);
    }
    if at == 2 {
        r.append("*");
        r.append(domain);
    } else {
        let last = email.substring_char(at - 1, at);
        proof {
            assert(last@ =~= seq![email@.subrange(0, at as int).last()]);
        }
        r.append("***");
        r.append(last);
        r.append(domain);
    }
    r
}

/// A key kept by its key word and its first four characters, the rest masked.
pub open spec fn masked_key(prefix: Seq<char>, key: Seq<char>) -> Seq<char> {
    if key.len() <= 4 {
        prefix + key
    } else {
        prefix + key.subrange(0, 4) + stars((key.len() - 4) as nat)
    }
}

pub fn mask_api_key(prefix: &str, key: &str) -> (r: String)
    ensures
        r@ == masked_key(prefix@, key@),
{
    let n = key.unicode_len();
    let mut r = String::from_str(prefix);
    if n <= 4 {
        r.append(key);
    } else {
        let visible = key.substring_char(0, 4);
        r.append(visible);
        let s = star_text(n - 4);
        r.append(s.as_str());
    }
    r
}

/// What replacing each match of `pattern` in `input` by its masked form
/// (`masked_match`) gives, where `pattern` compiles.
pub uninterp spec fn emails_replaced(pattern: Seq<char>, input: Seq<char>) -> Option<Seq<char>>;

/// What replacing each match of `pattern` in `input` by `with` gives, where
/// `pattern` compiles.
pub uninterp spec fn literal_replaced(pattern: Seq<char>, input: Seq<char>, with: Seq<char>) -> Option<
    Seq<char>,
>;

/// What replacing each match of `pattern` in `input` by its masked key
/// (`masked_key` of its `prefix` and `key` groups) gives, where `pattern`
/// compiles.
pub uninterp spec fn keys_replaced(pattern: Seq<char>, input: Seq<char>) -> Option<Seq<char>>;

/// Relies on regex::Regex::new and Regex::replace_all: every leftmost-first,
/// non-overlapping match is handed to `sanitize_email_match`. `None` where the
/// pattern does not compile.
#[verifier::external_body]
fn replace_emails(pattern: &str, input: &str) -> (r: Option<String>)
    ensures
        match r {
            Some(t) => emails_replaced(pattern@, input@) == Some(t@),
            None => emails_replaced(pattern@, input@).is_none(),
        },
{
    let re = regex::Regex::new(pattern).ok()?;
    Some(re.replace_all(input, |c: &regex::Captures| sanitize_email_match(&c[0])).into_owned())
}

/// Relies on regex::Regex::new and Regex::replace_all with `NoExpand`: every
/// leftmost-first, non-overlapping match becomes `with`, verbatim. `None` where
/// the pattern does not compile.
#[verifier::external_body]
fn replace_literal(pattern: &str, input: &str, with: &str) -> (r: Option<String>)
    ensures
        match r {
            Some(t) => literal_replaced(pattern@, input@, with@) == Some(t@),
            None => literal_replaced(pattern@, input@, with@).is_none(),
        },
{
    let re = regex::Regex::new(pattern).ok()?;
    Some(re.replace_all(input, regex::NoExpand(with)).into_owned())
}

/// Relies on regex::Regex::new and Regex::replace_all: the `prefix` and `key`
/// groups of every leftmost-first, non-overlapping match (empty where a group
/// did not take part) are handed to `mask_api_key`. `None` where the pattern
/// does not compile.
#[verifier::external_body]
fn replace_keys(pattern: &str, input: &str) -> (r: Option<String>)
    ensures
        match r {
            Some(t) => keys_replaced(pattern@, input@) == Some(t@),
            None => keys_replaced(pattern@, input@).is_none(),
        },
{
    let re = regex::Regex::new(pattern).ok()?;
    let group = |c: &regex::Captures, n: &str| c.name(n).map_or("", |m| m.as_str()).to_string();
    Some(re.replace_all(input, |c: &regex::Captures| mask_api_key(&group(c, "prefix"), &group(c, "key"))).into_owned())
}

/// The replaced text, or the input where the pattern did not compile.
pub open spec fn or_input(r: Option<Seq<char>>, input: Seq<char>) -> Seq<char> {
    match r {
        Some(t) => t,
        None => input,
    }
}

pub open spec fn email_step(input: Seq<char>) -> Seq<char> {
    or_input(emails_replaced(EMAIL_PATTERN@, input), input)
}

pub open spec fn home_step(input: Seq<char>) -> Seq<char> {
    or_input(literal_replaced(USER_HOME_PATTERN@, input, "~"@), input)
}

pub open spec fn windows_step(input: Seq<char>) -> Seq<char> {
    or_input(literal_replaced(WINDOWS_USER_PATTERN@, input, "~"@), input)
}

pub open spec fn key_step(input: Seq<char>) -> Seq<char> {
    or_input(keys_replaced(API_KEY_PATTERN@, input), input)
}

/// What masking user directories does: home directories, then Windows user
/// directories (twice where the text still names one).
pub open spec fn paths_step(input: Seq<char>) -> Seq<char> {
    let w = windows_step(home_step(input));
    if crate::text::contains_text(w, "C:\\Users\\"@) {
        windows_step(w)
    } else {
        w
    }
}

/// Masks sensitive text in log lines.
pub struct LogSanitizer {}

impl LogSanitizer {
    pub fn new() -> (r: LogSanitizer) {
        LogSanitizer {  }
    }

    /// Emails, then user directories, then keys.
    pub fn sanitize(&self, input: &str) -> (r: String)
        ensures
            r@ == key_step(paths_step(email_step(input@))),
    {
        let a = self.sanitize_email(input);
        let b = self.sanitize_paths(a.as_str());
        self.sanitize_api_keys(b.as_str())
    }

    pub fn sanitize_email(&self, input: &str) -> (r: String)
        ensures
            r@ == email_step(input@),
    {
        match replace_emails(EMAIL_PATTERN, input) {
            Some(t) => t,
            None => String::from_str(input),
        }
    }

    pub fn sanitize_paths(&self, input: &str) -> (r: String)
        ensures
            r@ == paths_step(input@),
    {
        let a = match replace_literal(USER_HOME_PATTERN, input, "~") {
            Some(t) => t,
            None => String::from_str(input),
        };
        let b = match replace_literal(WINDOWS_USER_PATTERN, a.as_str(), "~") {
            Some(t) => t,
            None => a,
        };
        if crate::text::text_contains(b.as_str(), "C:\\Users\\") {
            match replace_literal(WINDOWS_USER_PATTERN, b.as_str(), "~") {
                Some(t) => t,
                None => b,
            }
        } else {
            b
        }
    }

    pub fn sanitize_api_keys(&self, input: &str) -> (r: String)
        ensures
            r@ == key_step(input@),
    {
        match replace_keys(API_KEY_PATTERN, input) {
            Some(t) => t,
            None => String::from_str(input),
        }
    }
}

/// Masks sensitive text in one log message.
pub fn sanitize_log_message(message: &str) -> (r: String)
    ensures
        r@ == key_step(paths_step(email_step(message@))),
{
    let sanitizer = LogSanitizer::new();
    sanitizer.sanitize(message)
}

} // verus!
