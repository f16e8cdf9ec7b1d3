//! Checks that PostgreSQL runs on the string options before it stores them
//! with an index.

use vstd::prelude::*;
use crate::text::{ends_with, ends_with_char, str_eq};
use crate::options::{setting, ZDBIndexOptions, DEFAULT_TRANSLOG_DURABILITY};

verus! {

/// What `url::Url::parse` makes of `input`: success, or the text of the
/// error it reports. It depends on `input` alone.
pub uninterp spec fn url_parse_outcome(input: Seq<char>) -> Result<(), Seq<char>>;

/// `url::Url::parse`, reduced to whether it succeeded and, when it did
/// not, the `Display` text of its `url::ParseError`. The contract claims
/// no more than that this is the outcome named by `url_parse_outcome`.
#[verifier::external_body]
fn parse_url(input: &str) -> (r: Result<(), String>)
    ensures
        match r {
            Ok(_) => url_parse_outcome(input@) == Ok::<(), Seq<char>>(()),
            Err(m) => url_parse_outcome(input@) == Err::<(), Seq<char>>(m@),
        },
{
    match url::Url::parse(input) {
        Ok(_) => Ok(()),
        Err(e) => Err(e.to_string()),
    }
}

/// The error for a url that does not end in a slash.
pub open spec fn missing_slash_message() -> Seq<char> {
    "url must end with a forward slash"@
}

/// When a url setting is accepted, given what the url parser makes of it:
/// "default" always is; any other url must end with '/' and parse.
pub open spec fn url_verdict(url: Seq<char>, parsed: Result<(), Seq<char>>) -> Result<(), Seq<char>> {
    if url == "default"@ {
        Ok(())
    } else if !ends_with(url, '/') {
        Err(missing_slash_message())
    } else {
        parsed
    }
}

/// The view of a check's outcome.
pub open spec fn outcome_view(r: Result<(), String>) -> Result<(), Seq<char>> {
    match r {
        Ok(_) => Ok(()),
        Err(m) => Err(m@),
    }
}

/// Decides on the url setting `url` once the url parser's outcome on it,
/// `parsed`, is known.
pub fn check_url(url: &str, parsed: Result<(), String>) -> (r: Result<(), String>)
    ensures
        outcome_view(r) == url_verdict(url@, outcome_view(parsed)),
{
    if str_eq(url, "default") {
        return Ok(());
    }
    if !ends_with_char(url, '/') {
        return Err(String::from_str("url must end with a forward slash"));
    }
    parsed
}

/// Validates a url setting: "default", or a url that ends with '/' and
/// that the url parser accepts. The error is the message to report.
pub fn validate_url(url: &str) -> (r: Result<(), String>)
    ensures
        outcome_view(r) == url_verdict(url@, url_parse_outcome(url@)),
{
    let parsed = parse_url(url);
    check_url(url, parsed)
}

/// The translog durabilities that Elasticsearch knows.
pub open spec fn is_durability(value: Seq<char>) -> bool {
    value == "request"@ || value == "async"@
}

/// The error for a translog durability that Elasticsearch does not know.
pub open spec fn durability_message(value: Seq<char>) -> Seq<char> {
    "invalid translog_durability setting.  Must be one of 'request' or 'async': "@ + value
}

/// Validates a translog_durability setting: unset, "request" or "async".
/// The error is the message to report.
pub fn validate_translog_durability(value: Option<&str>) -> (r: Result<(), String>)
    ensures
        match value {
            None => r is Ok,
            Some(v) => if is_durability(v@) {
                r is Ok
            } else {
                outcome_view(r) == Err::<(), Seq<char>>(durability_message(v@))
            },
        },
{
    match value {
        None => Ok(()),
        Some(v) => {
            if !str_eq(v, "request") && !str_eq(v, "async") {
                let mut msg = String::from_str(
                    "invalid translog_durability setting.  Must be one of 'request' or 'async': ",
                );
                msg.append(v);
                Err(msg)
            } else {
                Ok(())
            }
        },
    }
}


/// The url check: "default" is always accepted; any other url that does
/// not end with '/' is refused with "url must end with a forward slash";
/// any other url that ends with '/' gets exactly the url parser's outcome,
/// so it is accepted whenever the parser accepts it.
pub proof fn law_url_verdict(url: Seq<char>, parsed: Result<(), Seq<char>>)
    ensures
        url == "default"@ ==> url_verdict(url, parsed) == Ok::<(), Seq<char>>(()),
        url != "default"@ && !(url.len() > 0 && url[url.len() - 1] == '/') ==> url_verdict(url, parsed)
            == Err::<(), Seq<char>>("url must end with a forward slash"@),
        url != "default"@ && url.len() > 0 && url[url.len() - 1] == '/' ==> url_verdict(url, parsed)
            == parsed,
        url != "default"@ && url.len() > 0 && url[url.len() - 1] == '/' && parsed is Ok ==> url_verdict(
            url,
            parsed,
        ) is Ok,
{
}

/// A check's outcome is seen as it is: success as success, an error as
/// its message.
pub proof fn law_outcome_view(m: String)
    ensures
        outcome_view(Ok(())) == Ok::<(), Seq<char>>(()),
        outcome_view(Err(m)) == Err::<(), Seq<char>>(m@),
{
}

/// Exactly "request" and "async" are translog durabilities; any other
/// value is refused with a message that names the two and ends with the
/// value itself.
pub proof fn law_translog_durability(value: Seq<char>)
    ensures
        is_durability(value) <==> (value == "request"@ || value == "async"@),
        durability_message(value)
            == "invalid translog_durability setting.  Must be one of 'request' or 'async': "@ + value,
{
}

/// An index whose translog_durability setting passed
/// [`validate_translog_durability`] (or was never given) reports a
/// durability Elasticsearch knows: "request" or "async".
pub proof fn lemma_checked_durability_reads_back(o: ZDBIndexOptions)
    requires
        match o.translog_durability {
            None => true,
            Some(v) => is_durability(v@),
        },
    ensures
        is_durability(setting(o.translog_durability, DEFAULT_TRANSLOG_DURABILITY@)),
{
}

} // verus!
