//! The wire format of outbound calls: where a URL leads, and what the text
//! of an answer says.
use vstd::prelude::*;
use vstd::string::*;
use crate::errors::{ErrorKind, Errors, Reason};
use crate::json::{decimal, parse_decimal};
use crate::text::{find_from, find_text, find_text_from, has_prefix, index_of, strip_prefix, to_chars};

verus! {

/// Where a request to a URL goes.
#[derive(Clone, Debug, PartialEq, Eq)]
pub struct Target {
    /// Host name and port to connect to.
    pub address: String,
    /// The host as the URL names it.
    pub host: String,
    /// The path to ask for.
    pub path: String,
}

/// What came back from a server.
#[derive(Clone, Debug, PartialEq, Eq)]
pub struct Answer {
    /// The status of the answer.
    pub status: u16,
    /// Its body.
    pub body: String,
}

/// Address, host and path of an `http://` URL: the host is what stands
/// between the scheme and the first `/`, the path what follows it, or `/`; a
/// host that names no port is reached at port 80. Nothing for any other text
/// and for a URL without host.
pub open spec fn spec_target(url: Seq<char>) -> Option<(Seq<char>, Seq<char>, Seq<char>)> {
    if !has_prefix(url, "http://"@) {
        None
    } else {
        let rest = url.skip("http://"@.len() as int);
        let cut = index_of(rest, '/');
        let host = rest.take(cut);
        if host.len() == 0 {
            None
        } else {
            Some(
                (
                    if index_of(host, ':') < host.len() {
                        host
                    } else {
                        host + ":80"@
                    },
                    host,
                    if cut < rest.len() {
                        rest.skip(cut)
                    } else {
                        "/"@
                    },
                ),
            )
        }
    }
}

/// The line that ends the head of an answer.
pub open spec fn blank_line() -> Seq<char> {
    seq!['\r', '\n', '\r', '\n']
}

/// The status in the first line of an answer: the decimal number between its
/// first and its second space, where it fits 16 bits.
pub open spec fn spec_status(text: Seq<char>) -> Option<u16> {
    let line = text.take(index_of(text, '\r'));
    let space = index_of(line, ' ');
    if space >= line.len() {
        None
    } else {
        let rest = line.skip(space + 1);
        match decimal(rest.take(index_of(rest, ' '))) {
            Some(n) => if n <= u16::MAX {
                Some(n as u16)
            } else {
                None
            },
            None => None,
        }
    }
}

/// Status and body of the text of an answer: the body is what follows the
/// first blank line. Nothing for a text without blank line or without status.
pub open spec fn spec_answer(text: Seq<char>) -> Option<(u16, Seq<char>)> {
    let end = find_text(text, blank_line(), 0);
    if end >= text.len() {
        None
    } else {
        match spec_status(text) {
            Some(status) => Some((status, text.skip(end + 4))),
            None => None,
        }
    }
}

/// Where a request to `url` goes. A text that is no `http://` URL with a
/// host is a `Consumer` failure.
pub fn target_of(url: &str) -> (r: Result<Target, Errors>)
    ensures
        match spec_target(url@) {
            Some((address, host, path)) => r matches Ok(target) && target.address@ == address
                && target.host@ == host && target.path@ == path,
            None => r matches Err(e) && e.kind == ErrorKind::Consumer && e.reason
                == Reason::CallbackRefused && e.detail@ == url@ && e.http_code.is_none(),
        },
{
    proof {
        reveal_strlit("http://");
        reveal_strlit(":80");
        reveal_strlit("/");
    }
    let rest = match strip_prefix(url, "http://") {
        Some(rest) => rest,
        None => {
            return Err(Errors::consumer_new(url, None));
        },
    };
    assert(rest@ == url@.skip("http://"@.len() as int));
    let chars = to_chars(rest.as_str());
    let cut = find_from(&chars, '/', 0);
    if cut == 0 {
        return Err(Errors::consumer_new(url, None));
    }
    let host = rest.as_str().substring_char(0, cut);
    assert(host@ == rest@.take(cut as int));
    let host_chars = to_chars(host);
    let mut address = String::from_str(host);
    if find_from(&host_chars, ':', 0) >= host_chars.len() {
        address.append(":80");
    }
    let path = if cut < chars.len() {
        let tail = rest.as_str().substring_char(cut, chars.len());
        assert(tail@ == rest@.skip(cut as int));
        String::from_str(tail)
    } else {
        String::from_str("/")
    };
    Ok(Target { address, host: String::from_str(host), path })
}

/// The status in the first line of the text of an answer.
fn status_of(text: &str) -> (r: Option<u16>)
    ensures
        r == spec_status(text@),
{
    let chars = to_chars(text);
    let first = find_from(&chars, '\r', 0);
    let line = text.substring_char(0, first);
    assert(line@ == text@.take(first as int));
    let line_chars = to_chars(line);
    let space = find_from(&line_chars, ' ', 0);
    if space >= line_chars.len() {
        return None;
    }
    let rest = line.substring_char(space + 1, line_chars.len());
    assert(rest@ == line@.skip(space + 1));
    let rest_chars = to_chars(rest);
    let stop = find_from(&rest_chars, ' ', 0);
    let code = rest.substring_char(0, stop);
    assert(code@ == rest@.take(stop as int));
    match parse_decimal(code) {
        Some(n) => if n <= 65535 {
            Some(n as u16)
        } else {
            None
        },
        None => None,
    }
}

/// Reads the text of the answer to a call to `url`: its status, and its body
/// after the first blank line. A text that is no answer is a `Consumer`
/// failure.
pub fn parse_answer(url: &str, text: &str) -> (r: Result<Answer, Errors>)
    ensures
        match spec_answer(text@) {
            Some((status, body)) => r matches Ok(answer) && answer.status == status && answer.body@
                == body,
            None => r matches Err(e) && e.kind == ErrorKind::Consumer && e.reason
                == Reason::CallbackRefused && e.detail@ == url@ && e.http_code.is_none(),
        },
{
    let chars = to_chars(text);
    let mut pattern: Vec<char> = Vec::new();
    pattern.push('\r');
    pattern.push('\n');
    pattern.push('\r');
    pattern.push('\n');
    assert(pattern@ =~= blank_line());
    let end = find_text_from(&chars, &pattern, 0);
    if end >= chars.len() {
        return Err(Errors::consumer_new(url, None));
    }
    let status = match status_of(text) {
        Some(status) => status,
        None => {
            return Err(Errors::consumer_new(url, None));
        },
    };
    let body = text.substring_char(end + 4, chars.len());
    assert(body@ == text@.skip(end + 4));
    Ok(Answer { status, body: String::from_str(body) })
}

} // verus!
